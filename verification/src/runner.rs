//! What a process run means to the rest of the system. The actual spawning,
//! waiting, polling and killing happen in the surrounding binary; the logic
//! here fixes how a child's termination is read as an exit code, and what a
//! cancellable run reports.

use vstd::prelude::*;

use crate::config::ExecConfig;
use crate::envvars::EnvVars;
use crate::errors::EXIT_OK;
use crate::paths::clone_strings;

verus! {

/// One process to spawn: program, arguments, environment and working
/// directory.
#[derive(Debug)]
pub struct ProcessRunner {
    pub program: String,
    pub args: Vec<String>,
    pub vars: EnvVars,
    pub cwd: Option<String>,
}

/// The exit code a terminated child reports: its own code, or the
/// conventional default when it was terminated by a signal and has none.
pub fn exit_status_code(code: Option<i32>) -> (r: i32)
    ensures
        code is Some ==> r == code.unwrap(),
        code is None ==> r == 0,
{
    match code {
        Some(c) => c,
        None => 0,
    }
}

/// What a cancellable run reports: a run stopped by request is a success —
/// the synthetic "stopped by request" code, not the killed child's own — and
/// a run that ended naturally reports the child's real exit code.
pub open spec fn cancellable_outcome(cancelled: bool, natural: i32) -> i32 {
    if cancelled {
        EXIT_OK
    } else {
        natural
    }
}

/// Resolves the reported code of a cancellable run.
pub fn resolve_cancellable_outcome(cancelled: bool, natural: i32) -> (r: i32)
    ensures
        r == cancellable_outcome(cancelled, natural),
{
    if cancelled {
        EXIT_OK
    } else {
        natural
    }
}

/// A cancellable run during which cancellation was never requested reports
/// exactly what a plain synchronous run of the same child would: the child's
/// own exit code.
pub proof fn lemma_uncancelled_run_is_synchronous(natural: i32)
    ensures
        cancellable_outcome(false, natural) == natural,
{
}

/// The argument list for the main execution: the target's own arguments
/// followed by the extra arguments given on the command line.
pub fn exec_args_with_extra(exec_cfg: &ExecConfig, extra_args: &Vec<String>) -> (r: Vec<String>)
    ensures
        r.deep_view() == exec_cfg.args.deep_view() + extra_args.deep_view(),
{
    let mut r = clone_strings(&exec_cfg.args);
    let base_len = r.len();
    let ghost base = r.deep_view();
    let n = extra_args.len();
    for i in 0..n
        invariant
            n == extra_args@.len(),
            base_len == base.len(),
            base == exec_cfg.args.deep_view(),
            r@.len() == base_len + i,
            forall|j: int| 0 <= j < base_len ==> r.deep_view()[j] == base[j],
            forall|j: int|
                0 <= j < i ==> r.deep_view()[base_len + j] == extra_args.deep_view()[j],
    {
        let s = extra_args[i].clone();
        proof {
            assert(s@ == extra_args.deep_view()[i as int]);
        }
        r.push(s);
    }
    proof {
        assert(r.deep_view() =~~= exec_cfg.args.deep_view() + extra_args.deep_view());
    }
    r
}

} // verus!
