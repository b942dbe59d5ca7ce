use vstd::prelude::*;

verus! {

/// `create`: make a container from a bundle, with its process parked on
/// the start-gate.
#[derive(Clone, Debug)]
pub struct CreateCommand {
    pub container_id: String,
    pub bundle: String,
    pub pid_file: Option<String>,
    pub console_socket: Option<String>,
}

/// `delete`: forget a container's persisted state.
#[derive(Clone, Debug)]
pub struct DeleteCommand {
    pub container_id: String,
}

/// `spec`: write a default configuration document into a bundle.
#[derive(Clone, Debug)]
pub struct SpecCommand {
    pub bundle: String,
}

/// `state`: print a container's state report.
#[derive(Clone, Debug)]
pub struct StateCommand {
    pub container_id: String,
}

/// A command of the runtime, with its arguments.
#[derive(Clone, Debug)]
pub enum SubCommand {
    Create(CreateCommand),
    Spec(SpecCommand),
    State(StateCommand),
    Delete(DeleteCommand),
}

/// The bundle directory that a command uses when none is given.
pub const DEFAULT_BUNDLE: &'static str = ".";

/// The text of an optional string, as an optional sequence of characters.
pub open spec fn opt_view(s: Option<String>) -> Option<Seq<char>> {
    match s {
        Some(t) => Some(t@),
        None => None,
    }
}

fn owned_opt(s: Option<&str>) -> (r: Option<String>)
    ensures
        opt_view(r) == match s {
            Some(t) => Some(t@),
            None => None::<Seq<char>>,
        },
{
    match s {
        Some(t) => Some(String::from_str(t)),
        None => None,
    }
}

impl CreateCommand {
    /// The `create` command for `container_id`; the bundle is the current
    /// directory unless one is given.
    pub fn new(
        container_id: &str,
        bundle: Option<&str>,
        pid_file: Option<&str>,
        console_socket: Option<&str>,
    ) -> (r: CreateCommand)
        ensures
            r.container_id@ == container_id@,
            r.bundle@ == match bundle {
                Some(b) => b@,
                None => DEFAULT_BUNDLE@,
            },
            opt_view(r.pid_file) == match pid_file {
                Some(p) => Some(p@),
                None => None::<Seq<char>>,
            },
            opt_view(r.console_socket) == match console_socket {
                Some(c) => Some(c@),
                None => None::<Seq<char>>,
            },
    {
        let bundle = match bundle {
            Some(b) => String::from_str(b),
            None => String::from_str(DEFAULT_BUNDLE),
        };
        CreateCommand {
            container_id: String::from_str(container_id),
            bundle,
            pid_file: owned_opt(pid_file),
            console_socket: owned_opt(console_socket),
        }
    }
}

impl DeleteCommand {
    pub fn new(container_id: &str) -> (r: DeleteCommand)
        ensures
            r.container_id@ == container_id@,
    {
        DeleteCommand { container_id: String::from_str(container_id) }
    }
}

impl StateCommand {
    pub fn new(container_id: &str) -> (r: StateCommand)
        ensures
            r.container_id@ == container_id@,
    {
        StateCommand { container_id: String::from_str(container_id) }
    }
}

impl SpecCommand {
    /// The `spec` command for the bundle directory `bundle`, which the
    /// caller has resolved to an absolute path.
    pub fn new(bundle: &str) -> (r: SpecCommand)
        ensures
            r.bundle@ == bundle@,
    {
        SpecCommand { bundle: String::from_str(bundle) }
    }
}

} // verus!
