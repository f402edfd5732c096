//! Hooks are ordinary targets, invoked by the tool re-running itself with
//! `run <name>`. A hook that does not succeed aborts the surrounding
//! sequence, and its own exit code is what the caller surfaces.

use vstd::prelude::*;

use crate::errors::{AppError, EXIT_SOFTWARE};

verus! {

/// How one hook invocation ended: the spawned self-invocation's exit code,
/// or the failure to spawn it at all.
#[derive(Debug)]
pub enum HookOutcome {
    Exited(i32),
    SpawnFailed(String),
}

/// The argument list a hook is invoked with: the tool re-runs itself with
/// `run <name>`, so the hook passes through the whole pipeline — its own
/// checks and hooks included.
pub fn hook_invocation_args(name: &String) -> (r: Vec<String>)
    ensures
        r.deep_view() == seq!["run"@, name@],
{
    let mut r: Vec<String> = Vec::new();
    r.push(String::from_str("run"));
    r.push(name.clone());
    proof {
        assert(r.deep_view() =~~= seq!["run"@, name@]);
    }
    r
}

/// Decides whether the sequence may continue after a hook: it may exactly
/// when the hook ran and exited successfully. A hook that could not be
/// spawned is an internal error; one that ran and failed aborts the sequence
/// with its own exit code, preserving causality.
pub fn hook_gate(outcome: &HookOutcome, msg: String) -> (r: Result<(), AppError>)
    ensures
        r is Ok <==> (outcome is Exited && outcome->Exited_0 == 0),
        outcome is SpawnFailed ==> r is Err && r.unwrap_err().exitcode == EXIT_SOFTWARE,
        outcome is Exited && outcome->Exited_0 != 0 ==> r is Err && r.unwrap_err().exitcode
            == outcome->Exited_0,
        r is Err ==> r.unwrap_err().msg == msg,
{
    match outcome {
        HookOutcome::Exited(code) => {
            if *code == 0 {
                Ok(())
            } else {
                Err(AppError { msg, exitcode: *code })
            }
        },
        HookOutcome::SpawnFailed(_) => Err(AppError { msg, exitcode: EXIT_SOFTWARE }),
    }
}

} // verus!
