//! The command lines that unpack and repack `app.asar` through `npx`, and
//! what their outcome means.
use vstd::prelude::*;

use crate::Error;

verus! {

broadcast use vstd::string::group_string_axioms;

/// The Node.js package runner.
pub const NPX: &'static str = "npx";

/// The Windows command interpreter, through which `npx` is started there.
pub const CMD: &'static str = "cmd";

/// The interpreter's switch that runs the rest of the line.
pub const CMD_RUN: &'static str = "/c";

/// Lets `npx` install the package without asking.
pub const YES: &'static str = "--yes";

/// The package that reads and writes `asar` archives.
pub const ASAR_PACKAGE: &'static str = "@electron/asar";

/// Asks `npx` for its version, to see whether it runs at all.
pub const VERSION: &'static str = "--version";

/// The `asar` command that unpacks an archive.
pub const EXTRACT: &'static str = "extract";

/// The `asar` command that packs a directory.
pub const PACK: &'static str = "pack";

/// Error text: the command ran and failed.
pub const COMMAND_FAILED: &'static str = "команда завершилась с ошибкой";

/// Error text prefix: the command could not be started.
pub const LAUNCH_FAILED: &'static str = "не удалось запустить npx: ";

/// The texts of a list of strings.
pub open spec fn texts(v: Seq<String>) -> Seq<Seq<char>> {
    v.map_values(|s: String| s@)
}

/// How `npx` is started: through `cmd /c` on Windows, directly elsewhere.
pub open spec fn npx_launcher(windows: bool) -> Seq<Seq<char>> {
    if windows {
        seq![CMD@, CMD_RUN@, NPX@]
    } else {
        seq![NPX@]
    }
}

/// `v` followed by `s`.
fn push_str(v: &mut Vec<String>, s: &str)
    ensures
        texts(final(v)@) == texts(old(v)@).push(s@),
{
    let ghost before = v@;
    v.push(s.to_owned());
    assert(texts(v@) =~= texts(before).push(s@));
}

/// The start of every command line that runs `npx`.
fn launcher(windows: bool) -> (v: Vec<String>)
    ensures
        texts(v@) == npx_launcher(windows),
{
    let mut v: Vec<String> = Vec::new();
    if windows {
        push_str(&mut v, CMD);
        push_str(&mut v, CMD_RUN);
    }
    push_str(&mut v, NPX);
    assert(texts(v@) =~= npx_launcher(windows));
    v
}

/// The command line (program first) that checks that `npx` runs.
pub fn npx_probe_command(windows: bool) -> (v: Vec<String>)
    ensures
        texts(v@) == npx_launcher(windows).push(VERSION@),
{
    let mut v = launcher(windows);
    push_str(&mut v, VERSION);
    v
}

/// Whether `npx` runs, from the outcome of `npx_probe_command`: `None`
/// when it could not be started, else whether it exited successfully. A
/// probe that started but failed (as `cmd /c npx` does when there is no
/// `npx`) does not count.
pub fn npx_runs(probe: Option<bool>) -> (b: bool)
    ensures
        b == (probe == Some(true)),
{
    match probe {
        Some(ok) => ok,
        None => false,
    }
}

/// The command line (program first) that runs the `asar` tool with `args`.
pub fn asar_command(windows: bool, args: &Vec<String>) -> (v: Vec<String>)
    ensures
        texts(v@) == npx_launcher(windows) + seq![YES@, ASAR_PACKAGE@] + texts(args@),
{
    let mut v = launcher(windows);
    push_str(&mut v, YES);
    push_str(&mut v, ASAR_PACKAGE);
    let ghost head = texts(v@);
    let mut i: usize = 0;
    while i < args.len()
        invariant
            i <= args.len(),
            texts(v@) == head + texts(args@).take(i as int),
        decreases args.len() - i,
    {
        push_str(&mut v, args[i].as_str());
        assert(texts(args@).take(i + 1) =~= texts(args@).take(i as int).push(args@[i as int]@));
        i += 1;
    }
    assert(texts(args@).take(args.len() as int) =~= texts(args@));
    assert(head == npx_launcher(windows) + seq![YES@, ASAR_PACKAGE@]);
    v
}

/// The `asar` arguments that unpack `asar` into `dest`.
pub fn extract_args(asar: &str, dest: &str) -> (v: Vec<String>)
    ensures
        texts(v@) == seq![EXTRACT@, asar@, dest@],
{
    let mut v: Vec<String> = Vec::new();
    push_str(&mut v, EXTRACT);
    push_str(&mut v, asar);
    push_str(&mut v, dest);
    assert(texts(v@) =~= seq![EXTRACT@, asar@, dest@]);
    v
}

/// The `asar` arguments that pack the directory `src` into `asar`.
pub fn pack_args(src: &str, asar: &str) -> (v: Vec<String>)
    ensures
        texts(v@) == seq![PACK@, src@, asar@],
{
    let mut v: Vec<String> = Vec::new();
    push_str(&mut v, PACK);
    push_str(&mut v, src);
    push_str(&mut v, asar);
    assert(texts(v@) =~= seq![PACK@, src@, asar@]);
    v
}

/// What a run of the `asar` tool means: `Ok(success)` when it was started
/// and exited, `Err(text)` with the reason when it could not be started.
pub fn asar_outcome(status: Result<bool, String>) -> (res: Result<(), Error>)
    ensures
        match status {
            Ok(true) => res is Ok,
            Ok(false) => res matches Err(Error::AsarFailed(m)) && m@ == COMMAND_FAILED@,
            Err(reason) => res matches Err(Error::AsarFailed(m)) && m@ == LAUNCH_FAILED@ + reason@,
        },
{
    match status {
        Ok(true) => Ok(()),
        Ok(false) => Err(Error::AsarFailed(COMMAND_FAILED.to_owned())),
        Err(reason) => {
            let mut m = LAUNCH_FAILED.to_owned();
            vstd::string::StringExecFns::append(&mut m, reason.as_str());
            Err(Error::AsarFailed(m))
        },
    }
}

} // verus!
