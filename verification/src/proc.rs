//! Helper processes: how one is named by its path, whether one is running,
//! and how one is stopped.

use vstd::prelude::*;
use vstd::string::*;

verus! {

/// A program to run, with its arguments.
#[derive(Debug)]
pub struct Launch {
    pub program: String,
    pub args: Vec<String>,
}

/// The arguments of a launch as plain values.
pub open spec fn arg_views(args: Seq<String>) -> Seq<Seq<char>> {
    args.map_values(|a: String| a@)
}

/// Whether `name` is the file name of `path`: what follows its last `/`,
/// or all of it where it holds none.
pub open spec fn is_filename_of(path: Seq<char>, name: Seq<char>) -> bool {
    exists|k: int|
        {
            &&& 0 <= k <= path.len()
            &&& name == #[trigger] path.subrange(k, path.len() as int)
            &&& !name.contains('/')
            &&& k == 0 || path[k - 1] == '/'
        }
}

/// The file name of a path: what follows its last `/`, or all of it where
/// it holds none.
pub fn get_filename_from_path(path: &str) -> (name: &str)
    ensures
        is_filename_of(path@, name@),
{
    let len: usize = path.unicode_len();
    let mut k: usize = len;
    while k > 0 && path.get_char(k - 1) != '/'
        invariant
            k <= len,
            len == path@.len(),
            !path@.subrange(k as int, len as int).contains('/'),
        decreases k,
    {
        proof {
            let longer = path@.subrange(k - 1, len as int);
            let shorter = path@.subrange(k as int, len as int);
            assert forall|i: int| 0 <= i < longer.len() implies longer[i] != '/' by {
                if i > 0 {
                    assert(longer[i] == shorter[i - 1]);
                    assert(shorter.contains(shorter[i - 1]));
                }
            }
        }
        k -= 1;
    }
    assert(k == 0 || path@[k - 1] == '/');
    path.substring_char(k, len)
}

/// Whether `needle` occurs in `hay`, as a run of characters.
pub open spec fn occurs_in(needle: Seq<char>, hay: Seq<char>) -> bool {
    exists|i: int|
        0 <= i && i + needle.len() <= hay.len() && #[trigger] hay.subrange(
            i,
            i + needle.len(),
        ) == needle
}

/// Tests with `str::contains` whether `needle` occurs in `hay`.
///
/// Trusted: the answer is true exactly where some run of characters of
/// `hay` is `needle`, as the documentation of `str::contains` says for a
/// string pattern.
#[verifier::external_body]
fn contains(hay: &str, needle: &str) -> (hit: bool)
    ensures
        hit == occurs_in(needle@, hay@),
{
    hay.contains(needle)
}

/// Whether the process listing names the program: some line of it holds
/// `name`.
pub fn is_proc_running(lines: &Vec<String>, name: &str) -> (running: bool)
    ensures
        running == exists|i: int| 0 <= i < lines.len() && occurs_in(name@, #[trigger] lines[i]@),
{
    let mut i: usize = 0;
    while i < lines.len()
        invariant
            i <= lines.len(),
            forall|j: int| 0 <= j < i ==> !occurs_in(name@, #[trigger] lines[j]@),
        decreases lines.len() - i,
    {
        if contains(lines[i].as_str(), name) {
            return true;
        }
        i += 1;
    }
    false
}

/// The command that stops every process of the program `name`, with the
/// processes it started.
pub fn kill(name: &str) -> (launch: Launch)
    ensures
        launch.program@ == "taskkill"@,
        arg_views(launch.args@) == seq!["/f"@, "/t"@, "/im"@, name@],
{
    let mut args: Vec<String> = Vec::new();
    args.push(String::from_str("/f"));
    args.push(String::from_str("/t"));
    args.push(String::from_str("/im"));
    args.push(String::from_str(name));
    assert(arg_views(args@) =~= seq!["/f"@, "/t"@, "/im"@, name@]);
    Launch { program: String::from_str("taskkill"), args }
}

/// The command that stops the download daemon.
pub fn kill_aria2c() -> (launch: Launch)
    ensures
        launch.program@ == "taskkill"@,
        arg_views(launch.args@) == seq!["/f"@, "/t"@, "/im"@, "aria2c.exe"@],
{
    kill("aria2c.exe")
}

} // verus!
