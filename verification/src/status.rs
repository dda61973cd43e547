//! The lifecycle status of a deployment and its text form.

use vstd::prelude::*;

verus! {

/// Where a deployment stands in its lifecycle.
///
/// `New` is the status of a deployment without history. `Deployed` and
/// `Cancelled` are terminal.
#[derive(Clone, Copy, Debug, PartialEq, Eq, Structural)]
pub enum Status {
    New,
    Submitted,
    Validated,
    Processing,
    Deployed,
    Cancelled,
}

impl Status {
    /// A terminal status accepts no further command.
    pub open spec fn is_terminal(self) -> bool {
        self == Status::Deployed || self == Status::Cancelled
    }

    /// The text under which a status is stored and shown to readers.
    pub open spec fn label(self) -> Seq<char> {
        match self {
            Status::New => ""@,
            Status::Submitted => "submitted"@,
            Status::Validated => "validated"@,
            Status::Processing => "processing"@,
            Status::Deployed => "deployed"@,
            Status::Cancelled => "cancelled"@,
        }
    }

    /// The status that a text names, if any.
    pub open spec fn from_label(text: Seq<char>) -> Option<Status> {
        if text == ""@ {
            Some(Status::New)
        } else if text == "submitted"@ {
            Some(Status::Submitted)
        } else if text == "validated"@ {
            Some(Status::Validated)
        } else if text == "processing"@ {
            Some(Status::Processing)
        } else if text == "deployed"@ {
            Some(Status::Deployed)
        } else if text == "cancelled"@ {
            Some(Status::Cancelled)
        } else {
            None
        }
    }

    pub fn as_str(&self) -> (text: &'static str)
        ensures
            text@ == self.label(),
    {
        match self {
            Status::New => "",
            Status::Submitted => "submitted",
            Status::Validated => "validated",
            Status::Processing => "processing",
            Status::Deployed => "deployed",
            Status::Cancelled => "cancelled",
        }
    }

    pub fn is_final(&self) -> (r: bool)
        ensures
            r == self.is_terminal(),
    {
        match self {
            Status::Deployed | Status::Cancelled => true,
            _ => false,
        }
    }

    /// Reads a status back from its text form.
    pub fn parse(text: &str) -> (r: Option<Status>)
        ensures
            r == Status::from_label(text@),
    {
        let owned = text.to_owned();
        if owned == "".to_owned() {
            Some(Status::New)
        } else if owned == "submitted".to_owned() {
            Some(Status::Submitted)
        } else if owned == "validated".to_owned() {
            Some(Status::Validated)
        } else if owned == "processing".to_owned() {
            Some(Status::Processing)
        } else if owned == "deployed".to_owned() {
            Some(Status::Deployed)
        } else if owned == "cancelled".to_owned() {
            Some(Status::Cancelled)
        } else {
            None
        }
    }
}

/// Every status is read back from its own text form.
pub proof fn label_round_trip(status: Status)
    ensures
        Status::from_label(status.label()) == Some(status),
{
    reveal_strlit("");
    reveal_strlit("submitted");
    reveal_strlit("validated");
    reveal_strlit("processing");
    reveal_strlit("deployed");
    reveal_strlit("cancelled");
    assert(""@.len() == 0);
    assert("submitted"@.len() == 9 && "submitted"@[0] == 's');
    assert("validated"@.len() == 9 && "validated"@[0] == 'v');
    assert("processing"@.len() == 10);
    assert("deployed"@.len() == 8);
    assert("cancelled"@.len() == 9 && "cancelled"@[0] == 'c');
}

} // verus!
