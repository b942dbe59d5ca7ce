use vstd::prelude::*;

verus! {

/// Directory that holds one metadata directory per container by default.
pub const DEFAULT_META_ROOT: &'static str = "/tmp/runt";

/// Name of the file, inside a container's metadata directory, that holds
/// its persisted state.
pub const METADATA_FILE: &'static str = "state.json";

/// Name of the start-gate named pipe inside a bundle directory.
pub const START_TRIGGER_FIFO: &'static str = "start_trigger.fifo";

/// Name of the configuration document inside a bundle directory.
pub const SPEC_FILE: &'static str = "config.json";

/// `name` inside the directory `dir`: the two joined by one separator,
/// none being added when `dir` already ends in one.
pub open spec fn join(dir: Seq<char>, name: Seq<char>) -> Seq<char> {
    if dir.len() > 0 && dir.last() == '/' {
        dir + name
    } else {
        dir + "/"@ + name
    }
}

/// The path of `name` inside the directory `dir`.
pub fn join_path(dir: &str, name: &str) -> (r: String)
    ensures
        r@ == join(dir@, name@),
{
    let n = dir.unicode_len();
    let mut r = String::from_str(dir);
    if n == 0 || dir.get_char(n - 1) != '/' {
        r.append("/");
        proof {
            reveal_strlit("/");
        }
    }
    r.append(name);
    r
}

/// The metadata directory of container `id` under the metadata root `root`.
pub fn metadata_dir(root: &str, id: &str) -> (r: String)
    ensures
        r@ == join(root@, id@),
{
    join_path(root, id)
}

/// The state file of container `id` under the metadata root `root`.
pub fn state_file(root: &str, id: &str) -> (r: String)
    ensures
        r@ == join(join(root@, id@), METADATA_FILE@),
{
    let dir = metadata_dir(root, id);
    join_path(dir.as_str(), METADATA_FILE)
}

/// The start-gate of the bundle directory `bundle`.
pub fn start_trigger_path(bundle: &str) -> (r: String)
    ensures
        r@ == join(bundle@, START_TRIGGER_FIFO@),
{
    join_path(bundle, START_TRIGGER_FIFO)
}

/// The configuration document of the bundle directory `bundle`.
pub fn spec_path(bundle: &str) -> (r: String)
    ensures
        r@ == join(bundle@, SPEC_FILE@),
{
    join_path(bundle, SPEC_FILE)
}

} // verus!
