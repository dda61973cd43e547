//! Commands, events and the deployment aggregate.

use vstd::prelude::*;
use vstd::std_specs::convert::FromSpecImpl;

use crate::status::Status;

verus! {

/// The five requests a deployment accepts, without their payload.
#[derive(Clone, Copy, Debug, PartialEq, Eq, Structural)]
pub enum CommandKind {
    Submit,
    Validate,
    Process,
    Deploy,
    Cancel,
}

/// A request addressed to one deployment. A command changes nothing by itself.
#[derive(Debug, PartialEq, Eq)]
pub enum DeploymentCommand {
    SubmitDeployment { deployment_id: String },
    ValidateManifest { deployment_id: String },
    ProcessDeployment { deployment_id: String },
    Deploy { deployment_id: String },
    CancelDeployment { deployment_id: String },
}

/// A command as contracts see it.
pub struct CommandView {
    pub kind: CommandKind,
    pub deployment_id: Seq<char>,
}

impl View for DeploymentCommand {
    type V = CommandView;

    open spec fn view(&self) -> CommandView {
        match *self {
            DeploymentCommand::SubmitDeployment { deployment_id } => CommandView {
                kind: CommandKind::Submit,
                deployment_id: deployment_id@,
            },
            DeploymentCommand::ValidateManifest { deployment_id } => CommandView {
                kind: CommandKind::Validate,
                deployment_id: deployment_id@,
            },
            DeploymentCommand::ProcessDeployment { deployment_id } => CommandView {
                kind: CommandKind::Process,
                deployment_id: deployment_id@,
            },
            DeploymentCommand::Deploy { deployment_id } => CommandView {
                kind: CommandKind::Deploy,
                deployment_id: deployment_id@,
            },
            DeploymentCommand::CancelDeployment { deployment_id } => CommandView {
                kind: CommandKind::Cancel,
                deployment_id: deployment_id@,
            },
        }
    }
}

impl Clone for DeploymentCommand {
    fn clone(&self) -> (copy: Self)
        ensures
            copy@ == self@,
    {
        match self {
            DeploymentCommand::SubmitDeployment { deployment_id } => {
                DeploymentCommand::SubmitDeployment { deployment_id: deployment_id.clone() }
            },
            DeploymentCommand::ValidateManifest { deployment_id } => {
                DeploymentCommand::ValidateManifest { deployment_id: deployment_id.clone() }
            },
            DeploymentCommand::ProcessDeployment { deployment_id } => {
                DeploymentCommand::ProcessDeployment { deployment_id: deployment_id.clone() }
            },
            DeploymentCommand::Deploy { deployment_id } => DeploymentCommand::Deploy {
                deployment_id: deployment_id.clone(),
            },
            DeploymentCommand::CancelDeployment { deployment_id } => {
                DeploymentCommand::CancelDeployment { deployment_id: deployment_id.clone() }
            },
        }
    }
}

impl DeploymentCommand {
    /// The deployment that the command is addressed to.
    pub fn deployment_id(&self) -> (id: &String)
        ensures
            id@ == self@.deployment_id,
    {
        match self {
            DeploymentCommand::SubmitDeployment { deployment_id } => deployment_id,
            DeploymentCommand::ValidateManifest { deployment_id } => deployment_id,
            DeploymentCommand::ProcessDeployment { deployment_id } => deployment_id,
            DeploymentCommand::Deploy { deployment_id } => deployment_id,
            DeploymentCommand::CancelDeployment { deployment_id } => deployment_id,
        }
    }

    pub fn kind(&self) -> (kind: CommandKind)
        ensures
            kind == self@.kind,
    {
        match self {
            DeploymentCommand::SubmitDeployment { .. } => CommandKind::Submit,
            DeploymentCommand::ValidateManifest { .. } => CommandKind::Validate,
            DeploymentCommand::ProcessDeployment { .. } => CommandKind::Process,
            DeploymentCommand::Deploy { .. } => CommandKind::Deploy,
            DeploymentCommand::CancelDeployment { .. } => CommandKind::Cancel,
        }
    }
}

/// The five facts a deployment's history is made of, without their payload.
#[derive(Clone, Copy, Debug, PartialEq, Eq, Structural)]
pub enum EventKind {
    Submitted,
    ManifestValidated,
    Processed,
    Deployed,
    Canceled,
}

/// A fact about one deployment. Each event carries the status that the
/// deployment has once the event is applied.
#[derive(Debug, PartialEq, Eq)]
pub enum DeploymentEvent {
    DeploymentSubmited { deployment_id: String, status: Status },
    ManifestValidated { deployment_id: String, status: Status },
    DeploymentProcessed { deployment_id: String, status: Status },
    Deployed { deployment_id: String, status: Status },
    DeploymentCanceled { deployment_id: String, status: Status },
}

/// An event as contracts see it.
pub struct EventView {
    pub kind: EventKind,
    pub deployment_id: Seq<char>,
    pub status: Status,
}

impl View for DeploymentEvent {
    type V = EventView;

    open spec fn view(&self) -> EventView {
        match *self {
            DeploymentEvent::DeploymentSubmited { deployment_id, status } => EventView {
                kind: EventKind::Submitted,
                deployment_id: deployment_id@,
                status,
            },
            DeploymentEvent::ManifestValidated { deployment_id, status } => EventView {
                kind: EventKind::ManifestValidated,
                deployment_id: deployment_id@,
                status,
            },
            DeploymentEvent::DeploymentProcessed { deployment_id, status } => EventView {
                kind: EventKind::Processed,
                deployment_id: deployment_id@,
                status,
            },
            DeploymentEvent::Deployed { deployment_id, status } => EventView {
                kind: EventKind::Deployed,
                deployment_id: deployment_id@,
                status,
            },
            DeploymentEvent::DeploymentCanceled { deployment_id, status } => EventView {
                kind: EventKind::Canceled,
                deployment_id: deployment_id@,
                status,
            },
        }
    }
}

impl DeepView for DeploymentEvent {
    type V = EventView;

    open spec fn deep_view(&self) -> EventView {
        self@
    }
}

impl Clone for DeploymentEvent {
    fn clone(&self) -> (copy: Self)
        ensures
            copy@ == self@,
    {
        match self {
            DeploymentEvent::DeploymentSubmited { deployment_id, status } => {
                DeploymentEvent::DeploymentSubmited {
                    deployment_id: deployment_id.clone(),
                    status: *status,
                }
            },
            DeploymentEvent::ManifestValidated { deployment_id, status } => {
                DeploymentEvent::ManifestValidated {
                    deployment_id: deployment_id.clone(),
                    status: *status,
                }
            },
            DeploymentEvent::DeploymentProcessed { deployment_id, status } => {
                DeploymentEvent::DeploymentProcessed {
                    deployment_id: deployment_id.clone(),
                    status: *status,
                }
            },
            DeploymentEvent::Deployed { deployment_id, status } => DeploymentEvent::Deployed {
                deployment_id: deployment_id.clone(),
                status: *status,
            },
            DeploymentEvent::DeploymentCanceled { deployment_id, status } => {
                DeploymentEvent::DeploymentCanceled {
                    deployment_id: deployment_id.clone(),
                    status: *status,
                }
            },
        }
    }
}

/// The name under which each kind of event is recorded.
pub open spec fn event_type_name(kind: EventKind) -> Seq<char> {
    match kind {
        EventKind::Submitted => "DeploymentSubmited"@,
        EventKind::ManifestValidated => "ManifestValidated"@,
        EventKind::Processed => "DeploymentProcessed"@,
        EventKind::Deployed => "Deployed"@,
        EventKind::Canceled => "DeploymentCanceled"@,
    }
}

impl DeploymentEvent {
    pub fn event_type(&self) -> (name: String)
        ensures
            name@ == event_type_name(self@.kind),
    {
        let event_type: &str = match self {
            DeploymentEvent::DeploymentSubmited { .. } => "DeploymentSubmited",
            DeploymentEvent::ManifestValidated { .. } => "ManifestValidated",
            DeploymentEvent::DeploymentProcessed { .. } => "DeploymentProcessed",
            DeploymentEvent::Deployed { .. } => "Deployed",
            DeploymentEvent::DeploymentCanceled { .. } => "DeploymentCanceled",
        };
        event_type.to_owned()
    }

    /// The version of the payload's schema; every event has the first one.
    pub fn event_version(&self) -> (version: String)
        ensures
            version@ == "1.0"@,
    {
        "1.0".to_owned()
    }

    pub fn deployment_id(&self) -> (id: &String)
        ensures
            id@ == self@.deployment_id,
    {
        match self {
            DeploymentEvent::DeploymentSubmited { deployment_id, .. } => deployment_id,
            DeploymentEvent::ManifestValidated { deployment_id, .. } => deployment_id,
            DeploymentEvent::DeploymentProcessed { deployment_id, .. } => deployment_id,
            DeploymentEvent::Deployed { deployment_id, .. } => deployment_id,
            DeploymentEvent::DeploymentCanceled { deployment_id, .. } => deployment_id,
        }
    }

    /// The status that the deployment has after this event.
    pub fn status(&self) -> (status: Status)
        ensures
            status == self@.status,
    {
        match self {
            DeploymentEvent::DeploymentSubmited { status, .. } => *status,
            DeploymentEvent::ManifestValidated { status, .. } => *status,
            DeploymentEvent::DeploymentProcessed { status, .. } => *status,
            DeploymentEvent::Deployed { status, .. } => *status,
            DeploymentEvent::DeploymentCanceled { status, .. } => *status,
        }
    }
}

/// Why a command was refused. Its view is the message.
#[derive(Debug, PartialEq, Eq)]
pub struct DeploymentError(String);

impl View for DeploymentError {
    type V = Seq<char>;

    closed spec fn view(&self) -> Seq<char> {
        self.0@
    }
}

impl DeploymentError {
    pub fn message(&self) -> (text: &str)
        ensures
            text@ == self@,
    {
        self.0.as_str()
    }
}

impl Clone for DeploymentError {
    fn clone(&self) -> (copy: Self)
        ensures
            copy@ == self@,
    {
        DeploymentError(self.0.clone())
    }
}

impl From<&str> for DeploymentError {
    fn from(message: &str) -> (error: Self)
        ensures
            error@ == message@,
    {
        DeploymentError(message.to_owned())
    }
}

/// What `from` returns is stated by its own `ensures`: no specification can
/// build a `String`, so `from_spec` is left without meaning.
impl FromSpecImpl<&str> for DeploymentError {
    open spec fn obeys_from_spec() -> bool {
        false
    }

    open spec fn from_spec(message: &str) -> Self {
        arbitrary()
    }
}

/// How the provisioning task of a deployment ended.
#[derive(Clone, Copy, Debug, PartialEq, Eq, Structural)]
pub enum TaskOutcome {
    Succeeded,
    Failed,
    /// The task did not answer in time. A timeout counts as a failure.
    TimedOut,
}

/// The answers of the domain services that a command may depend on: the
/// verdict on the manifest, and the end of the provisioning task.
#[derive(Debug, PartialEq, Eq)]
pub struct DeploymentServices {
    pub validation: Result<Status, DeploymentError>,
    pub task: TaskOutcome,
}

/// The services' answers as contracts see them.
pub struct ServicesView {
    pub validation: Result<Status, Seq<char>>,
    pub task: TaskOutcome,
}

impl View for DeploymentServices {
    type V = ServicesView;

    open spec fn view(&self) -> ServicesView {
        ServicesView {
            validation: match self.validation {
                Ok(status) => Ok(status),
                Err(error) => Err(error@),
            },
            task: self.task,
        }
    }
}

impl Default for DeploymentServices {
    /// Services whose validation accepts every manifest and whose task fails.
    fn default() -> (services: Self)
        ensures
            services@ == (ServicesView { validation: Ok(Status::Validated), task: TaskOutcome::Failed }),
    {
        DeploymentServices { validation: Ok(Status::Validated), task: TaskOutcome::Failed }
    }
}

impl DeploymentServices {
    pub fn new(validation: Result<Status, DeploymentError>, task: TaskOutcome) -> (services: Self)
        ensures
            services.validation == validation,
            services.task == task,
    {
        DeploymentServices { validation, task }
    }

    /// The status that validation gives the deployment, or the error that
    /// kept the service from answering. The manifest itself is not read.
    pub fn validate_manifest(&self, _manifest: String) -> (reply: Result<Status, DeploymentError>)
        ensures
            reply_view(reply) == self@.validation,
    {
        match &self.validation {
            Ok(status) => Ok(*status),
            Err(error) => Err(error.clone()),
        }
    }

    /// How the provisioning task ended.
    pub fn execute_task(&self) -> (outcome: TaskOutcome)
        ensures
            outcome == self@.task,
    {
        self.task
    }
}

/// A validation reply as contracts see it.
pub open spec fn reply_view(reply: Result<Status, DeploymentError>) -> Result<Status, Seq<char>> {
    match reply {
        Ok(status) => Ok(status),
        Err(error) => Err(error@),
    }
}

/// The state of a deployment: what its history folds to.
///
/// A state is meant to be derived, from the initial one, by applying the
/// events of a history in order.
#[derive(Debug, PartialEq, Eq)]
pub struct Deployment {
    pub deployment_id: String,
    pub status: Status,
    /// The sequence number of the last event applied: the concurrency token.
    pub version: u64,
}

/// A deployment's state as contracts see it.
pub struct DeploymentState {
    pub deployment_id: Seq<char>,
    pub status: Status,
    /// The sequence number of the last event applied.
    pub version: nat,
}

impl View for Deployment {
    type V = DeploymentState;

    open spec fn view(&self) -> DeploymentState {
        DeploymentState {
            deployment_id: self.deployment_id@,
            status: self.status,
            version: self.version as nat,
        }
    }
}

/// The state of a deployment without history.
pub open spec fn initial_state() -> DeploymentState {
    DeploymentState { deployment_id: Seq::empty(), status: Status::New, version: 0 }
}

/// The transition table: which command a deployment accepts in which status.
///
/// A deployment is submitted once, from `New`. Cancellation is accepted in
/// every status that is not terminal, `New` included: a deployment may be
/// cancelled before it was ever submitted. A terminal status accepts no
/// command at all.
pub open spec fn permitted(status: Status, kind: CommandKind) -> bool {
    match kind {
        CommandKind::Submit => status == Status::New,
        CommandKind::Validate => status == Status::Submitted,
        CommandKind::Process => status == Status::Validated,
        CommandKind::Deploy => status == Status::Processing,
        CommandKind::Cancel => !status.is_terminal(),
    }
}

/// The message of the error that refuses a command of the given kind.
pub open spec fn refusal(kind: CommandKind) -> Seq<char> {
    match kind {
        CommandKind::Submit => "Déploiement déjà initié ou finalisé."@,
        CommandKind::Validate => "Impossible de valider un manifeste non soumis."@,
        CommandKind::Process => "Impossible de traiter un déploiement non validé."@,
        CommandKind::Deploy => "Impossible de déployer un déploiement non en cours de traitement."@,
        CommandKind::Cancel => "Impossible d'annuler un déploiement finalisé."@,
    }
}

/// The event that ends the processing of a deployment: exactly one, by the
/// outcome of the provisioning task.
pub open spec fn processed_event(deployment_id: Seq<char>, outcome: TaskOutcome) -> EventView {
    if outcome == TaskOutcome::Succeeded {
        EventView { kind: EventKind::Deployed, deployment_id, status: Status::Deployed }
    } else {
        EventView { kind: EventKind::Canceled, deployment_id, status: Status::Cancelled }
    }
}

/// The event that records a validated manifest, unless the service failed.
pub open spec fn validated_events(
    deployment_id: Seq<char>,
    reply: Result<Status, Seq<char>>,
) -> Result<Seq<EventView>, Seq<char>> {
    match reply {
        Ok(status) => Ok(seq![EventView { kind: EventKind::ManifestValidated, deployment_id, status }]),
        Err(message) => Err(message),
    }
}

/// The state after an event: the event's status wins, the version counts it.
pub open spec fn evolve(state: DeploymentState, event: EventView) -> DeploymentState {
    DeploymentState {
        deployment_id: state.deployment_id,
        status: event.status,
        version: state.version + 1,
    }
}

/// The state that a history folds to, from the initial state on.
pub open spec fn replay(events: Seq<EventView>) -> DeploymentState
    decreases events.len(),
{
    if events.len() == 0 {
        initial_state()
    } else {
        evolve(replay(events.drop_last()), events.last())
    }
}

/// What `handle` returns, as contracts see it.
pub open spec fn decision_view(
    decision: Result<Vec<DeploymentEvent>, DeploymentError>,
) -> Result<Seq<EventView>, Seq<char>> {
    match decision {
        Ok(events) => Ok(events.deep_view()),
        Err(error) => Err(error@),
    }
}

/// What stands between an accepted command and its events.
#[derive(Debug, PartialEq, Eq)]
pub enum Plan {
    /// Nothing: the command is decided, and this event is its outcome.
    Emit(DeploymentEvent),
    /// The manifest has to be validated first.
    AwaitValidation { deployment_id: String },
    /// The provisioning task has to run first.
    AwaitTask { deployment_id: String },
}

/// A plan as contracts see it.
pub enum PlanView {
    Emit(EventView),
    AwaitValidation { deployment_id: Seq<char> },
    AwaitTask { deployment_id: Seq<char> },
}

impl View for Plan {
    type V = PlanView;

    open spec fn view(&self) -> PlanView {
        match *self {
            Plan::Emit(event) => PlanView::Emit(event@),
            Plan::AwaitValidation { deployment_id } => PlanView::AwaitValidation {
                deployment_id: deployment_id@,
            },
            Plan::AwaitTask { deployment_id } => PlanView::AwaitTask { deployment_id: deployment_id@ },
        }
    }
}

/// The plan for a command that the transition table permits.
pub open spec fn plan_for(command: CommandView) -> PlanView {
    let deployment_id = command.deployment_id;
    match command.kind {
        CommandKind::Submit => PlanView::Emit(
            EventView { kind: EventKind::Submitted, deployment_id, status: Status::Submitted },
        ),
        CommandKind::Validate => PlanView::AwaitValidation { deployment_id },
        CommandKind::Process => PlanView::AwaitTask { deployment_id },
        CommandKind::Deploy => PlanView::Emit(
            EventView { kind: EventKind::Deployed, deployment_id, status: Status::Deployed },
        ),
        CommandKind::Cancel => PlanView::Emit(
            EventView { kind: EventKind::Canceled, deployment_id, status: Status::Cancelled },
        ),
    }
}

/// What a plan comes to once the services have answered.
pub open spec fn carry_out(plan: PlanView, services: ServicesView) -> Result<Seq<EventView>, Seq<char>> {
    match plan {
        PlanView::Emit(event) => Ok(seq![event]),
        PlanView::AwaitValidation { deployment_id } => validated_events(deployment_id, services.validation),
        PlanView::AwaitTask { deployment_id } => Ok(seq![processed_event(deployment_id, services.task)]),
    }
}

/// What a command leads to in a given state: the events to record, or the
/// message of the error. A command that the transition table does not permit
/// is refused and yields no event; a permitted one follows its plan.
pub open spec fn decide(
    state: DeploymentState,
    command: CommandView,
    services: ServicesView,
) -> Result<Seq<EventView>, Seq<char>> {
    if permitted(state.status, command.kind) {
        carry_out(plan_for(command), services)
    } else {
        Err(refusal(command.kind))
    }
}

impl Default for Deployment {
    fn default() -> (deployment: Self)
        ensures
            deployment@ == initial_state(),
    {
        Deployment { deployment_id: String::new(), status: Status::New, version: 0 }
    }
}

impl Deployment {
    /// The name under which this kind of aggregate is recorded.
    pub fn aggregate_type() -> (name: String)
        ensures
            name@ == "Account"@,
    {
        "Account".to_owned()
    }

    /// Holds the command against the transition table. A permitted command
    /// gets its plan; any other is refused with the error of its kind, and
    /// nothing else happens.
    pub fn plan(&self, command: DeploymentCommand) -> (r: Result<Plan, DeploymentError>)
        ensures
            permitted(self@.status, command@.kind) ==> r is Ok && r->Ok_0@ == plan_for(command@),
            !permitted(self@.status, command@.kind) ==> r is Err && r->Err_0@ == refusal(
                command@.kind,
            ),
    {
        match command {
            DeploymentCommand::SubmitDeployment { deployment_id } => {
                if !matches!(self.status, Status::New) {
                    return Err(DeploymentError::from("Déploiement déjà initié ou finalisé."));
                }
                Ok(Plan::Emit(DeploymentEvent::DeploymentSubmited { status: Status::Submitted, deployment_id }))
            },
            DeploymentCommand::ValidateManifest { deployment_id } => {
                if !matches!(self.status, Status::Submitted) {
                    return Err(
                        DeploymentError::from("Impossible de valider un manifeste non soumis."),
                    );
                }
                Ok(Plan::AwaitValidation { deployment_id })
            },
            DeploymentCommand::ProcessDeployment { deployment_id } => {
                if !matches!(self.status, Status::Validated) {
                    return Err(
                        DeploymentError::from("Impossible de traiter un déploiement non validé."),
                    );
                }
                Ok(Plan::AwaitTask { deployment_id })
            },
            DeploymentCommand::Deploy { deployment_id } => {
                if !matches!(self.status, Status::Processing) {
                    return Err(
                        DeploymentError::from(
                            "Impossible de déployer un déploiement non en cours de traitement.",
                        ),
                    );
                }
                Ok(Plan::Emit(DeploymentEvent::Deployed { status: Status::Deployed, deployment_id }))
            },
            DeploymentCommand::CancelDeployment { deployment_id } => {
                if self.status.is_final() {
                    return Err(DeploymentError::from("Impossible d'annuler un déploiement finalisé."));
                }
                Ok(
                    Plan::Emit(
                        DeploymentEvent::DeploymentCanceled { status: Status::Cancelled, deployment_id },
                    ),
                )
            },
        }
    }

    /// The outcome of `ValidateManifest` once the service has answered: the
    /// status it returned is the one recorded; its error fails the command
    /// and leaves no event.
    pub fn manifest_validated(deployment_id: String, reply: Result<Status, DeploymentError>) -> (r: Result<
        Vec<DeploymentEvent>,
        DeploymentError,
    >)
        ensures
            decision_view(r) == validated_events(deployment_id@, reply_view(reply)),
    {
        match reply {
            Ok(status) => {
                let events = vec![DeploymentEvent::ManifestValidated { deployment_id, status }];
                assert(events.deep_view() =~= seq![events[0]@]);
                Ok(events)
            },
            Err(error) => Err(error),
        }
    }

    /// The outcome of `ProcessDeployment` once the task has ended: one event,
    /// `Deployed` after a success and `DeploymentCanceled` after anything else.
    pub fn task_finished(deployment_id: String, outcome: TaskOutcome) -> (events: Vec<DeploymentEvent>)
        ensures
            events.deep_view() == seq![processed_event(deployment_id@, outcome)],
    {
        let events = match outcome {
            TaskOutcome::Succeeded => vec![
                DeploymentEvent::Deployed { status: Status::Deployed, deployment_id },
            ],
            TaskOutcome::Failed | TaskOutcome::TimedOut => vec![
                DeploymentEvent::DeploymentCanceled { status: Status::Cancelled, deployment_id },
            ],
        };
        assert(events.deep_view() =~= seq![events[0]@]);
        events
    }

    /// Decides a command: the events to record, or the error that refuses it.
    pub fn handle(&self, command: DeploymentCommand, services: &DeploymentServices) -> (r: Result<
        Vec<DeploymentEvent>,
        DeploymentError,
    >)
        ensures
            decision_view(r) == decide(self@, command@, services@),
    {
        match self.plan(command) {
            Err(error) => Err(error),
            Ok(Plan::Emit(event)) => {
                let events = vec![event];
                assert(events.deep_view() =~= seq![events[0]@]);
                Ok(events)
            },
            Ok(Plan::AwaitValidation { deployment_id }) => {
                let reply = services.validate_manifest(String::new());
                Deployment::manifest_validated(deployment_id, reply)
            },
            Ok(Plan::AwaitTask { deployment_id }) => {
                let outcome = services.execute_task();
                Ok(Deployment::task_finished(deployment_id, outcome))
            },
        }
    }

    /// Applies an event: the deployment takes the event's status.
    pub fn apply(&mut self, event: DeploymentEvent)
        requires
            old(self)@.version < u64::MAX,
        ensures
            final(self)@ == evolve(old(self)@, event@),
    {
        self.status = event.status();
        self.version = self.version + 1;
    }

    /// Folds a history, oldest event first, from the initial state on.
    pub fn replay(events: &Vec<DeploymentEvent>) -> (deployment: Self)
        ensures
            deployment@ == replay(events.deep_view()),
    {
        let mut deployment = Deployment::default();
        let mut applied: usize = 0;
        while applied < events.len()
            invariant
                applied <= events.len(),
                deployment@ == replay(events.deep_view().take(applied as int)),
                deployment@.version == applied,
            decreases events.len() - applied,
        {
            deployment.apply(events[applied].clone());
            proof {
                let before = events.deep_view().take(applied as int);
                let after = events.deep_view().take(applied + 1);
                assert(after.drop_last() =~= before);
                assert(after.last() == events[applied as int]@);
            }
            applied = applied + 1;
        }
        assert(events.deep_view().take(applied as int) =~= events.deep_view());
        deployment
    }
}

} // verus!
