use deploy_with_cqrs::deployment::{
    Deployment, DeploymentCommand, DeploymentError, DeploymentEvent, DeploymentServices, TaskOutcome,
};
use deploy_with_cqrs::dispatcher::{Dispatcher, ExecuteError, RetryBudget, DEFAULT_RETRIES};
use deploy_with_cqrs::event_store::EventEnvelope;
use deploy_with_cqrs::queries::DeploymentView;
use deploy_with_cqrs::status::Status;

fn submit(id: &str) -> DeploymentCommand {
    DeploymentCommand::SubmitDeployment { deployment_id: id.to_string() }
}

fn validate(id: &str) -> DeploymentCommand {
    DeploymentCommand::ValidateManifest { deployment_id: id.to_string() }
}

fn process(id: &str) -> DeploymentCommand {
    DeploymentCommand::ProcessDeployment { deployment_id: id.to_string() }
}

fn deploy(id: &str) -> DeploymentCommand {
    DeploymentCommand::Deploy { deployment_id: id.to_string() }
}

fn cancel(id: &str) -> DeploymentCommand {
    DeploymentCommand::CancelDeployment { deployment_id: id.to_string() }
}

fn dispatcher(task: TaskOutcome) -> Dispatcher {
    Dispatcher::new(DeploymentServices::new(Ok(Status::Validated), task), 3)
}

fn record(id: &str, status: &str) -> DeploymentView {
    DeploymentView { deployment_id: Some(id.to_string()), status: Some(status.to_string()) }
}

fn status_of(dispatcher: &Dispatcher, id: &str) -> Status {
    dispatcher.load_aggregate(id).aggregate().status
}

fn rejected(message: &str) -> Result<(), ExecuteError> {
    Err(ExecuteError::Domain(DeploymentError::from(message)))
}

#[test]
fn new_dispatcher_has_no_history_and_no_view() {
    let dispatcher = dispatcher(TaskOutcome::Failed);
    assert_eq!(dispatcher.store().load("d1"), Vec::new());
    assert_eq!(dispatcher.query().load("d1"), None);
    let context = dispatcher.load_aggregate("d1");
    assert_eq!(context.aggregate_id(), "d1");
    assert_eq!(*context.aggregate(), Deployment::default());
}

#[test]
fn scenario_failed_task_ends_cancelled_and_deploy_is_rejected() {
    let mut dispatcher = dispatcher(TaskOutcome::Failed);
    assert_eq!(dispatcher.execute("d1", submit("d1"), 1), Ok(()));
    assert_eq!(status_of(&dispatcher, "d1"), Status::Submitted);
    assert_eq!(dispatcher.execute("d1", validate("d1"), 2), Ok(()));
    assert_eq!(status_of(&dispatcher, "d1"), Status::Validated);
    assert_eq!(dispatcher.execute("d1", process("d1"), 3), Ok(()));
    assert_eq!(status_of(&dispatcher, "d1"), Status::Cancelled);
    assert_eq!(
        dispatcher.execute("d1", deploy("d1"), 4),
        rejected("Impossible de déployer un déploiement non en cours de traitement.")
    );
    assert_eq!(status_of(&dispatcher, "d1"), Status::Cancelled);
    assert_eq!(dispatcher.store().version("d1"), 3);
    assert_eq!(dispatcher.query().load("d1"), Some(record("d1", "cancelled")));
}

#[test]
fn scenario_successful_task_ends_deployed_and_the_view_shows_it() {
    let mut dispatcher = dispatcher(TaskOutcome::Succeeded);
    assert_eq!(dispatcher.execute("d2", submit("d2"), 10), Ok(()));
    assert_eq!(dispatcher.execute("d2", validate("d2"), 20), Ok(()));
    assert_eq!(dispatcher.execute("d2", process("d2"), 30), Ok(()));
    assert_eq!(status_of(&dispatcher, "d2"), Status::Deployed);
    assert_eq!(
        dispatcher.query().load("d2"),
        Some(DeploymentView { deployment_id: Some("d2".to_string()), status: Some("deployed".to_string()) })
    );
    assert_eq!(
        dispatcher.store().load("d2"),
        vec![
            EventEnvelope {
                aggregate_id: "d2".to_string(),
                sequence: 1,
                payload: DeploymentEvent::DeploymentSubmited {
                    deployment_id: "d2".to_string(),
                    status: Status::Submitted,
                },
                timestamp: 10,
            },
            EventEnvelope {
                aggregate_id: "d2".to_string(),
                sequence: 2,
                payload: DeploymentEvent::ManifestValidated {
                    deployment_id: "d2".to_string(),
                    status: Status::Validated,
                },
                timestamp: 20,
            },
            EventEnvelope {
                aggregate_id: "d2".to_string(),
                sequence: 3,
                payload: DeploymentEvent::Deployed { deployment_id: "d2".to_string(), status: Status::Deployed },
                timestamp: 30,
            },
        ]
    );
}

#[test]
fn scenario_cancel_without_history_succeeds() {
    let mut dispatcher = dispatcher(TaskOutcome::Succeeded);
    assert_eq!(dispatcher.execute("d3", cancel("d3"), 1), Ok(()));
    assert_eq!(status_of(&dispatcher, "d3"), Status::Cancelled);
    assert_eq!(dispatcher.query().load("d3"), Some(record("d3", "cancelled")));
    assert_eq!(
        dispatcher.store().load("d3"),
        vec![EventEnvelope {
            aggregate_id: "d3".to_string(),
            sequence: 1,
            payload: DeploymentEvent::DeploymentCanceled {
                deployment_id: "d3".to_string(),
                status: Status::Cancelled,
            },
            timestamp: 1,
        }]
    );
    assert_eq!(
        dispatcher.execute("d3", cancel("d3"), 2),
        rejected("Impossible d'annuler un déploiement finalisé.")
    );
}

#[test]
fn timed_out_task_ends_cancelled() {
    let mut dispatcher = dispatcher(TaskOutcome::TimedOut);
    dispatcher.execute("d1", submit("d1"), 1).unwrap();
    dispatcher.execute("d1", validate("d1"), 2).unwrap();
    assert_eq!(dispatcher.execute("d1", process("d1"), 3), Ok(()));
    assert_eq!(status_of(&dispatcher, "d1"), Status::Cancelled);
}

#[test]
fn rejected_command_leaves_log_and_view_alone() {
    let mut dispatcher = dispatcher(TaskOutcome::Succeeded);
    assert_eq!(
        dispatcher.execute("d1", validate("d1"), 1),
        rejected("Impossible de valider un manifeste non soumis.")
    );
    assert_eq!(dispatcher.store().load("d1"), Vec::new());
    assert_eq!(dispatcher.query().load("d1"), None);
    dispatcher.execute("d1", submit("d1"), 2).unwrap();
    let log = dispatcher.store().load("d1");
    let view = dispatcher.query().load("d1");
    assert_eq!(
        dispatcher.execute("d1", process("d1"), 3),
        rejected("Impossible de traiter un déploiement non validé.")
    );
    assert_eq!(dispatcher.execute("d1", submit("d1"), 4), rejected("Déploiement déjà initié ou finalisé."));
    assert_eq!(dispatcher.store().load("d1"), log);
    assert_eq!(dispatcher.query().load("d1"), view);
}

#[test]
fn failing_validation_service_fails_the_command_without_an_event() {
    let services = DeploymentServices::new(Err(DeploymentError::from("offline")), TaskOutcome::Succeeded);
    let mut dispatcher = Dispatcher::new(services, 3);
    dispatcher.execute("d1", submit("d1"), 1).unwrap();
    assert_eq!(dispatcher.execute("d1", validate("d1"), 2), rejected("offline"));
    assert_eq!(dispatcher.store().version("d1"), 1);
    assert_eq!(dispatcher.query().load("d1"), Some(record("d1", "submitted")));
}

#[test]
fn deploy_follows_a_processing_status_that_validation_returned() {
    let services = DeploymentServices::new(Ok(Status::Processing), TaskOutcome::Failed);
    let mut dispatcher = Dispatcher::new(services, 0);
    dispatcher.execute("d1", submit("d1"), 1).unwrap();
    dispatcher.execute("d1", validate("d1"), 2).unwrap();
    assert_eq!(dispatcher.query().load("d1"), Some(record("d1", "processing")));
    assert_eq!(dispatcher.execute("d1", deploy("d1"), 3), Ok(()));
    assert_eq!(dispatcher.query().load("d1"), Some(record("d1", "deployed")));
}

#[test]
fn aggregates_do_not_interfere() {
    let mut dispatcher = dispatcher(TaskOutcome::Succeeded);
    dispatcher.execute("a", submit("a"), 1).unwrap();
    dispatcher.execute("b", cancel("b"), 2).unwrap();
    dispatcher.execute("a", validate("a"), 3).unwrap();
    assert_eq!(dispatcher.query().load("a"), Some(record("a", "validated")));
    assert_eq!(dispatcher.query().load("b"), Some(record("b", "cancelled")));
    assert_eq!(dispatcher.store().version("a"), 2);
    assert_eq!(dispatcher.store().version("b"), 1);
}

#[test]
fn concurrent_submissions_commit_exactly_once() {
    let mut dispatcher = dispatcher(TaskOutcome::Succeeded);
    let first = dispatcher.load_aggregate("d1");
    let second = dispatcher.load_aggregate("d1");
    assert_eq!(dispatcher.execute_from(first, submit("d1"), 1), Ok(()));
    assert_eq!(
        dispatcher.execute_from(second, submit("d1"), 2),
        rejected("Déploiement déjà initié ou finalisé.")
    );
    let log = dispatcher.store().load("d1");
    assert_eq!(log.len(), 1);
    assert_eq!(log[0].sequence, 1);
    assert_eq!(log[0].timestamp, 1);
    assert_eq!(dispatcher.query().load("d1"), Some(record("d1", "submitted")));
}

#[test]
fn concurrent_submissions_without_retries_end_in_contention() {
    let mut dispatcher = Dispatcher::new(DeploymentServices::default(), 0);
    let first = dispatcher.load_aggregate("d1");
    let second = dispatcher.load_aggregate("d1");
    assert_eq!(dispatcher.execute_from(first, submit("d1"), 1), Ok(()));
    assert_eq!(dispatcher.execute_from(second, submit("d1"), 2), Err(ExecuteError::Contention));
    assert_eq!(dispatcher.store().version("d1"), 1);
}

#[test]
fn submission_after_a_committed_one_is_rejected_by_the_aggregate() {
    let mut dispatcher = Dispatcher::new(DeploymentServices::default(), 0);
    assert_eq!(dispatcher.execute("d1", submit("d1"), 1), Ok(()));
    assert_eq!(dispatcher.execute("d1", submit("d1"), 2), rejected("Déploiement déjà initié ou finalisé."));
    assert_eq!(dispatcher.store().version("d1"), 1);
}

#[test]
fn stale_context_retries_on_the_fresh_history_and_may_still_succeed() {
    let mut dispatcher = dispatcher(TaskOutcome::Succeeded);
    dispatcher.execute("d1", submit("d1"), 1).unwrap();
    let stale = dispatcher.load_aggregate("d1");
    dispatcher.execute("d1", validate("d1"), 2).unwrap();
    assert_eq!(dispatcher.execute_from(stale, cancel("d1"), 3), Ok(()));
    let log = dispatcher.store().load("d1");
    assert_eq!(log.len(), 3);
    assert_eq!(log[2].sequence, 3);
    assert_eq!(
        log[2].payload,
        DeploymentEvent::DeploymentCanceled { deployment_id: "d1".to_string(), status: Status::Cancelled }
    );
    assert_eq!(dispatcher.query().load("d1"), Some(record("d1", "cancelled")));
}

#[test]
fn stale_context_decides_on_the_state_it_loaded() {
    let mut dispatcher = dispatcher(TaskOutcome::Succeeded);
    let stale = dispatcher.load_aggregate("d1");
    dispatcher.execute("d1", submit("d1"), 1).unwrap();
    assert_eq!(
        dispatcher.execute_from(stale, validate("d1"), 2),
        rejected("Impossible de valider un manifeste non soumis.")
    );
    assert_eq!(dispatcher.store().version("d1"), 1);
}

#[test]
fn context_of_another_dispatcher_conflicts_and_is_reloaded() {
    let mut elsewhere = dispatcher(TaskOutcome::Succeeded);
    elsewhere.execute("d1", submit("d1"), 1).unwrap();
    let foreign = elsewhere.load_aggregate("d1");
    let mut dispatcher = Dispatcher::new(DeploymentServices::default(), 1);
    assert_eq!(
        dispatcher.execute_from(foreign, validate("d1"), 2),
        rejected("Impossible de valider un manifeste non soumis.")
    );
    assert_eq!(dispatcher.store().version("d1"), 0);
}

#[test]
fn load_aggregate_replays_the_committed_history() {
    let mut dispatcher = dispatcher(TaskOutcome::Succeeded);
    dispatcher.execute("d1", submit("d1"), 1).unwrap();
    dispatcher.execute("d1", validate("d1"), 2).unwrap();
    let context = dispatcher.load_aggregate("d1");
    assert_eq!(
        *context.aggregate(),
        Deployment { deployment_id: String::new(), status: Status::Validated, version: 2 }
    );
    let first = dispatcher.load_aggregate("d1");
    assert_eq!(first, context);
}

#[test]
fn retry_budget_grants_as_many_retries_as_it_was_given() {
    let mut budget = RetryBudget::new(2);
    assert!(budget.spend());
    assert!(budget.spend());
    assert!(!budget.spend());
    assert!(!budget.spend());
    assert_eq!(budget, RetryBudget::new(0));
}

#[test]
fn retry_budget_of_zero_grants_nothing() {
    let mut budget = RetryBudget::new(0);
    assert!(!budget.spend());
}

#[test]
fn default_retries_are_three() {
    assert_eq!(DEFAULT_RETRIES, 3);
    let mut budget = RetryBudget::new(DEFAULT_RETRIES);
    let mut granted = 0;
    while budget.spend() {
        granted += 1;
    }
    assert_eq!(granted, 3);
}
