use vstd::prelude::*;

verus! {

/// Lifecycle state of a container, in the order in which a container
/// moves through them.
#[derive(Clone, Copy, PartialEq, Eq, Debug, Structural)]
pub enum Status {
    Creating,
    Created,
    Running,
    Stopped,
}

/// Position of a status in the lifecycle; a container only moves to
/// statuses of a larger or equal rank.
pub open spec fn rank(s: Status) -> nat {
    match s {
        Status::Creating => 0,
        Status::Created => 1,
        Status::Running => 2,
        Status::Stopped => 3,
    }
}

/// The name under which a status is reported and persisted.
pub open spec fn status_name(s: Status) -> Seq<char> {
    match s {
        Status::Creating => "creating"@,
        Status::Created => "created"@,
        Status::Running => "running"@,
        Status::Stopped => "stopped"@,
    }
}

/// The status whose reported name is `name`, if any.
pub open spec fn parse_status(name: Seq<char>) -> Option<Status> {
    if name == "creating"@ {
        Some(Status::Creating)
    } else if name == "created"@ {
        Some(Status::Created)
    } else if name == "running"@ {
        Some(Status::Running)
    } else if name == "stopped"@ {
        Some(Status::Stopped)
    } else {
        None
    }
}

impl Status {
    /// The status's reported name: `creating`, `created`, `running` or `stopped`.
    pub fn as_str(&self) -> (r: &'static str)
        ensures
            r@ == status_name(*self),
    {
        match self {
            Status::Creating => "creating",
            Status::Created => "created",
            Status::Running => "running",
            Status::Stopped => "stopped",
        }
    }

    /// Reads a status from its reported name; `None` for any other text.
    pub fn from_name(name: &str) -> (r: Option<Status>)
        ensures
            r == parse_status(name@),
    {
        let s = String::from_str(name);
        if s == String::from_str("creating") {
            Some(Status::Creating)
        } else if s == String::from_str("created") {
            Some(Status::Created)
        } else if s == String::from_str("running") {
            Some(Status::Running)
        } else if s == String::from_str("stopped") {
            Some(Status::Stopped)
        } else {
            None
        }
    }
}

/// A status read back from its reported name is the status itself, so a
/// persisted status survives being written and read again.
pub proof fn lemma_status_name_round_trip(s: Status)
    ensures
        parse_status(status_name(s)) == Some(s),
{
    reveal_strlit("creating");
    reveal_strlit("created");
    reveal_strlit("running");
    reveal_strlit("stopped");
    assert("creating"@[5] != "created"@[5]);
    assert("creating"@.len() != "running"@.len() || "creating"@[0] != "running"@[0]);
    assert("creating"@[0] != "stopped"@[0]);
    assert("created"@[0] != "running"@[0]);
    assert("created"@[0] != "stopped"@[0]);
    assert("running"@[0] != "stopped"@[0]);
}

} // verus!
