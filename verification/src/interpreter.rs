//! Resolving a usable interpreter for the backend.
//!
//! The launch probes a fixed priority list of well-known interpreter names
//! and paths (each by a trial run of its version subcommand), then a path
//! inside the virtual-environment root the environment may name. The probing
//! itself is the hosting application's work; the choice over the probes'
//! outcomes is decided here.

use vstd::prelude::*;

use crate::supervisor::{
    spec_begin_start, spec_running, Liveness, StartError, SupervisorModel,
};

verus! {

/// The well-known interpreter candidates, in priority order.
pub open spec fn spec_candidates() -> Seq<Seq<char>> {
    seq!["python3"@, "python"@, "/usr/bin/python3"@, "/usr/local/bin/python3"@]
}

/// The interpreter path inside a virtual-environment root.
pub open spec fn venv_python_chars(venv: Seq<char>) -> Seq<char> {
    venv + "/bin/python"@
}

/// The view of an optional string, for contracts over the optional
/// virtual-environment root.
pub open spec fn opt_str_view(s: Option<&str>) -> Option<Seq<char>> {
    match s {
        Some(v) => Some(v@),
        None => None,
    }
}

/// The resolved interpreter: the first usable well-known candidate; failing
/// all of them, the virtual-environment interpreter when the environment
/// names a root and the interpreter exists on disk; else nothing.
pub open spec fn spec_resolve(
    usable: Seq<bool>,
    venv: Option<Seq<char>>,
    venv_exists: bool,
) -> Option<Seq<char>>
    recommends
        usable.len() == spec_candidates().len(),
{
    if usable[0] {
        Some(spec_candidates()[0])
    } else if usable[1] {
        Some(spec_candidates()[1])
    } else if usable[2] {
        Some(spec_candidates()[2])
    } else if usable[3] {
        Some(spec_candidates()[3])
    } else {
        match venv {
            Some(v) => if venv_exists {
                Some(venv_python_chars(v))
            } else {
                None
            },
            None => None,
        }
    }
}

/// The well-known candidates, for the hosting application to probe, in the
/// order `spec_resolve` ranks them.
pub fn interpreter_candidates() -> (v: Vec<String>)
    ensures
        v@.len() == spec_candidates().len(),
        forall|i: int| 0 <= i < v@.len() ==> v@[i]@ == spec_candidates()[i],
{
    let mut v: Vec<String> = Vec::new();
    v.push(String::from_str("python3"));
    v.push(String::from_str("python"));
    v.push(String::from_str("/usr/bin/python3"));
    v.push(String::from_str("/usr/local/bin/python3"));
    proof {
        assert forall|i: int| 0 <= i < v@.len() implies v@[i]@ == spec_candidates()[i] by {
            if i == 0 {
            } else if i == 1 {
            } else if i == 2 {
            } else {
            }
        }
    }
    v
}

/// Render the interpreter path inside a virtual-environment root.
pub fn venv_python_path(venv: &str) -> (p: String)
    ensures
        p@ == venv_python_chars(venv@),
{
    let mut p = venv.to_owned();
    p.append("/bin/python");
    p
}

/// Choose the interpreter to launch. `usable[i]` reports whether probing
/// candidate `i` of `interpreter_candidates()` succeeded; `venv` is the
/// virtual-environment root named by the environment, if any, and
/// `venv_exists` whether `venv_python_path` of that root exists on disk.
/// Fails with `InterpreterNotFound` exactly when nothing resolves.
pub fn resolve_interpreter(usable: &Vec<bool>, venv: Option<&str>, venv_exists: bool) -> (r: Result<
    String,
    StartError,
>)
    requires
        usable@.len() == spec_candidates().len(),
    ensures
        r matches Ok(path) ==> spec_resolve(usable@, opt_str_view(venv), venv_exists) == Some(
            path@,
        ),
        r matches Err(e) ==> (e is InterpreterNotFound && spec_resolve(
            usable@,
            opt_str_view(venv),
            venv_exists,
        ) is None),
{
    if usable[0] {
        Ok(String::from_str("python3"))
    } else if usable[1] {
        Ok(String::from_str("python"))
    } else if usable[2] {
        Ok(String::from_str("/usr/bin/python3"))
    } else if usable[3] {
        Ok(String::from_str("/usr/local/bin/python3"))
    } else {
        match venv {
            Some(root) => {
                if venv_exists {
                    Ok(venv_python_path(root))
                } else {
                    Err(StartError::InterpreterNotFound)
                }
            },
            None => Err(StartError::InterpreterNotFound),
        }
    }
}

/// When no interpreter resolves, a start that passed its liveness guard has
/// recorded the new configuration but never spawns: the process slot is
/// left empty, and the supervisor reports not running whatever a later
/// liveness poll says.
pub proof fn lemma_interpreter_not_found_leaves_slot_empty(
    m: SupervisorModel,
    port: u16,
    language: Seq<char>,
    poll: Liveness,
    usable: Seq<bool>,
    venv: Option<Seq<char>>,
    venv_exists: bool,
    later: Liveness,
)
    requires
        usable.len() == spec_candidates().len(),
        !spec_running(m, poll),
        spec_resolve(usable, venv, venv_exists) is None,
    ensures
        spec_begin_start(m, port, language, poll).handle is None,
        !spec_running(spec_begin_start(m, port, language, poll), later),
{
}

} // verus!
