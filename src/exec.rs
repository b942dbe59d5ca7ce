use vstd::prelude::*;

use crate::error::{Error, ErrorKind};
use crate::specs::string_views;

verus! {

/// The strings of a program image replacement, each ready to be handed to
/// the kernel as a NUL-terminated string.
#[derive(Clone, Debug)]
pub struct ExecArgs {
    pub path: String,
    pub args: Vec<String>,
    pub env: Vec<String>,
}

/// `s` holds no NUL character.
pub open spec fn nul_free(s: Seq<char>) -> bool {
    forall|i: int| 0 <= i < s.len() ==> s[i] != '\0'
}

/// An argument or environment entry as it is handed on: itself when it
/// holds no NUL character, the empty string otherwise.
pub open spec fn exec_string(s: Seq<char>) -> Seq<char> {
    if nul_free(s) {
        s
    } else {
        Seq::empty()
    }
}

/// Position of the first NUL character of `s`, or `None` when it has none.
fn first_nul(s: &str) -> (r: Option<usize>)
    ensures
        r is None <==> nul_free(s@),
        r matches Some(i) ==> i < s@.len() && s@[i as int] == '\0' && nul_free(
            s@.subrange(0, i as int),
        ),
{
    let n = s.unicode_len();
    let mut i: usize = 0;
    while i < n
        invariant
            n == s@.len(),
            i <= n,
            nul_free(s@.subrange(0, i as int)),
        decreases n - i,
    {
        if s.get_char(i) == '\0' {
            return Some(i);
        }
        assert(s@.subrange(0, i + 1) =~= s@.subrange(0, i as int).push(s@[i as int]));
        i = i + 1;
    }
    assert(s@.subrange(0, n as int) =~= s@);
    None
}

fn exec_strings(items: &Vec<String>) -> (r: Vec<String>)
    ensures
        string_views(r@) == string_views(items@).map_values(|s: Seq<char>| exec_string(s)),
{
    let mut r: Vec<String> = Vec::new();
    let mut i: usize = 0;
    while i < items.len()
        invariant
            i <= items@.len(),
            string_views(r@) == string_views(items@.subrange(0, i as int)).map_values(
                |s: Seq<char>| exec_string(s),
            ),
        decreases items@.len() - i,
    {
        let ghost before = r@;
        let item = if first_nul(items[i].as_str()).is_none() {
            items[i].clone()
        } else {
            String::new()
        };
        r.push(item);
        assert(string_views(r@) =~= string_views(before).push(exec_string(items@[i as int]@)));
        assert(string_views(items@.subrange(0, i + 1)).map_values(|s: Seq<char>| exec_string(s))
            =~= string_views(items@.subrange(0, i as int)).map_values(
            |s: Seq<char>| exec_string(s),
        ).push(exec_string(items@[i as int]@)));
        i = i + 1;
    }
    assert(items@.subrange(0, i as int) =~= items@);
    r
}

/// Prepares the strings for replacing the process image with the program
/// at `path`. A `path` that holds a NUL character is refused with a
/// `Null` error at the first such character; an argument or environment
/// entry that holds one is handed on as the empty string.
pub fn exec_args(path: &str, args: &Vec<String>, env: &Vec<String>) -> (r: Result<
    ExecArgs,
    Error,
>)
    ensures
        r is Ok <==> nul_free(path@),
        r matches Ok(e) ==> e.path@ == path@ && string_views(e.args@) == string_views(
            args@,
        ).map_values(|s: Seq<char>| exec_string(s)) && string_views(e.env@) == string_views(
            env@,
        ).map_values(|s: Seq<char>| exec_string(s)),
        r matches Err(e) ==> (e.inner matches ErrorKind::Null { position } && position
            < path@.len() && path@[position as int] == '\0' && nul_free(
            path@.subrange(0, position as int),
        )),
{
    match first_nul(path) {
        Some(position) => Err(Error { inner: ErrorKind::Null { position } }),
        None => Ok(
            ExecArgs {
                path: String::from_str(path),
                args: exec_strings(args),
                env: exec_strings(env),
            },
        ),
    }
}

} // verus!
