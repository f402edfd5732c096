//! The guard-condition evaluator. A target runs only when all of its checks
//! hold; evaluation walks the checks in order and stops at the first one that
//! does not hold, so no process is spawned for checks after it. The caller
//! performs each probe — spawning the check's process or testing the path —
//! and feeds the outcome back in.

use vstd::prelude::*;

use crate::config::{ExecConfig, TargetCheck, TargetCheckConfig};
use crate::envvars::EnvVars;
use crate::errors::{AppError, EXIT_DATAERR, EXIT_SOFTWARE};

verus! {

/// What the caller observed for one check: the exit code of the check's
/// process, the failure to spawn it at all, or the result of a path test.
#[derive(Debug)]
pub enum ProbeOutcome {
    Exited(i32),
    SpawnFailed(String),
    PathTested(bool),
}

/// Whether an outcome is of the kind the check calls for: process checks are
/// answered by a spawn attempt, path checks by a path test.
pub open spec fn probe_matches_check(check: TargetCheckConfig, outcome: ProbeOutcome) -> bool {
    match check.when {
        TargetCheck::ExecOk(_) => outcome is Exited || outcome is SpawnFailed,
        TargetCheck::ExecErr(_) => outcome is Exited || outcome is SpawnFailed,
        TargetCheck::PathExists { .. } => outcome is PathTested,
        TargetCheck::PathIsFile { .. } => outcome is PathTested,
        TargetCheck::PathIsDir { .. } => outcome is PathTested,
    }
}

/// The check's raw result, before `invert` is applied. A spawn failure has no
/// raw result: it is fatal, not a false check.
pub open spec fn raw_check_result(check: TargetCheckConfig, outcome: ProbeOutcome) -> bool {
    match check.when {
        TargetCheck::ExecOk(_) => outcome matches ProbeOutcome::Exited(c) && c == 0,
        TargetCheck::ExecErr(_) => outcome matches ProbeOutcome::Exited(c) && c != 0,
        _ => outcome matches ProbeOutcome::PathTested(b) && b,
    }
}

/// Whether the check holds: its raw result, flipped when `invert` is set.
pub open spec fn check_holds(check: TargetCheckConfig, outcome: ProbeOutcome) -> bool {
    raw_check_result(check, outcome) != check.invert
}

/// How the evaluation of a check list ends.
#[derive(Debug)]
pub enum CheckDecision {
    /// Every check held: the target should run.
    Run,
    /// Some check did not hold: the target is skipped.
    Skip,
    /// A check's process could not be spawned: fatal, with the error to
    /// surface.
    Fatal(AppError),
}

/// The evaluation of a whole check list against the outcomes observed for
/// its checks, in order: fatal at the first spawn failure, skip at the first
/// check that does not hold, run when every check held.
pub open spec fn spec_eval_checks(
    checks: Seq<TargetCheckConfig>,
    outcomes: Seq<ProbeOutcome>,
) -> CheckDecision
    decreases checks.len(),
{
    if checks.len() == 0 {
        CheckDecision::Run
    } else {
        match outcomes[0] {
            ProbeOutcome::SpawnFailed(msg) => CheckDecision::Fatal(
                AppError { msg, exitcode: EXIT_SOFTWARE },
            ),
            _ => {
                if !check_holds(checks[0], outcomes[0]) {
                    CheckDecision::Skip
                } else {
                    spec_eval_checks(checks.drop_first(), outcomes.drop_first())
                }
            },
        }
    }
}

/// An evaluation in progress: the index of the next check to probe, and the
/// decision once one is reached.
#[derive(Debug)]
pub struct CheckEvaluation {
    pub next_idx: usize,
    pub decision: Option<CheckDecision>,
}

/// The state `feed` leaves the evaluation in: a spawn failure is fatal with
/// that process's error, a check that does not hold skips the target, and
/// when the last check holds the target runs.
pub open spec fn spec_feed(
    s: CheckEvaluation,
    checks: Seq<TargetCheckConfig>,
    outcome: ProbeOutcome,
) -> CheckEvaluation {
    match outcome {
        ProbeOutcome::SpawnFailed(msg) => CheckEvaluation {
            next_idx: s.next_idx,
            decision: Some(CheckDecision::Fatal(AppError { msg, exitcode: EXIT_SOFTWARE })),
        },
        _ => {
            if !check_holds(checks[s.next_idx as int], outcome) {
                CheckEvaluation { next_idx: s.next_idx, decision: Some(CheckDecision::Skip) }
            } else if s.next_idx + 1 == checks.len() {
                CheckEvaluation {
                    next_idx: (s.next_idx + 1) as usize,
                    decision: Some(CheckDecision::Run),
                }
            } else {
                CheckEvaluation { next_idx: (s.next_idx + 1) as usize, decision: None }
            }
        },
    }
}

impl CheckEvaluation {
    /// Starts evaluating a check list; with no checks at all the target runs.
    pub fn begin(checks: &Vec<TargetCheckConfig>) -> (r: CheckEvaluation)
        ensures
            r.next_idx == 0,
            checks@.len() == 0 ==> r.decision == Some(CheckDecision::Run),
            checks@.len() > 0 ==> r.decision is None,
    {
        if checks.len() == 0 {
            CheckEvaluation { next_idx: 0, decision: Some(CheckDecision::Run) }
        } else {
            CheckEvaluation { next_idx: 0, decision: None }
        }
    }

    /// Feeds the outcome observed for the next check.
    pub fn feed(&mut self, checks: &Vec<TargetCheckConfig>, outcome: ProbeOutcome)
        requires
            old(self).decision is None,
            old(self).next_idx < checks@.len(),
            probe_matches_check(checks@[old(self).next_idx as int], outcome),
        ensures
            *final(self) == spec_feed(*old(self), checks@, outcome),
    {
        match outcome {
            ProbeOutcome::SpawnFailed(msg) => {
                self.decision = Some(
                    CheckDecision::Fatal(AppError { msg, exitcode: EXIT_SOFTWARE }),
                );
            },
            ProbeOutcome::Exited(code) => {
                let holds = match &checks[self.next_idx].when {
                    TargetCheck::ExecOk(_) => (code == 0) != checks[self.next_idx].invert,
                    TargetCheck::ExecErr(_) => (code != 0) != checks[self.next_idx].invert,
                    _ => {
                        proof {
                            assert(false);
                        }
                        false
                    },
                };
                self.advance(checks, holds);
            },
            ProbeOutcome::PathTested(found) => {
                let holds = match &checks[self.next_idx].when {
                    TargetCheck::ExecOk(_) | TargetCheck::ExecErr(_) => {
                        proof {
                            assert(false);
                        }
                        false
                    },
                    _ => found != checks[self.next_idx].invert,
                };
                self.advance(checks, holds);
            },
        }
    }

    fn advance(&mut self, checks: &Vec<TargetCheckConfig>, holds: bool)
        requires
            old(self).decision is None,
            old(self).next_idx < checks@.len(),
        ensures
            !holds ==> *final(self) == (CheckEvaluation {
                next_idx: old(self).next_idx,
                decision: Some(CheckDecision::Skip),
            }),
            holds && old(self).next_idx + 1 == checks@.len() ==> *final(self)
                == (CheckEvaluation {
                next_idx: (old(self).next_idx + 1) as usize,
                decision: Some(CheckDecision::Run),
            }),
            holds && old(self).next_idx + 1 < checks@.len() ==> *final(self)
                == (CheckEvaluation {
                next_idx: (old(self).next_idx + 1) as usize,
                decision: None,
            }),
    {
        let n = checks.len();
        if !holds {
            self.decision = Some(CheckDecision::Skip);
        } else {
            self.next_idx = self.next_idx + 1;
            if self.next_idx == n {
                self.decision = Some(CheckDecision::Run);
            }
        }
    }
}

/// The machine run on outcomes fed one by one, from a given state to the end
/// of the check list.
pub open spec fn spec_run_machine(
    s: CheckEvaluation,
    checks: Seq<TargetCheckConfig>,
    outcomes: Seq<ProbeOutcome>,
) -> CheckEvaluation
    decreases outcomes.len(),
{
    if s.decision is Some || outcomes.len() == 0 {
        s
    } else {
        spec_run_machine(spec_feed(s, checks, outcomes[0]), checks, outcomes.drop_first())
    }
}

/// The machine, started partway through the list, decides exactly as the
/// conjunctive short-circuit evaluation of the remaining checks does.
pub proof fn lemma_machine_from(
    checks: Seq<TargetCheckConfig>,
    outcomes: Seq<ProbeOutcome>,
    i: int,
)
    requires
        checks.len() == outcomes.len(),
        checks.len() <= usize::MAX,
        0 <= i < checks.len(),
    ensures
        spec_run_machine(
            CheckEvaluation { next_idx: i as usize, decision: None },
            checks,
            outcomes.skip(i),
        ).decision == Some(spec_eval_checks(checks.skip(i), outcomes.skip(i))),
    decreases checks.len() - i,
{
    let s = CheckEvaluation { next_idx: i as usize, decision: None };
    let rest_c = checks.skip(i);
    let rest_o = outcomes.skip(i);
    assert(rest_o[0] == outcomes[i]);
    assert(rest_c[0] == checks[i]);
    let fed = spec_feed(s, checks, rest_o[0]);
    assert(spec_run_machine(s, checks, rest_o) == spec_run_machine(
        fed,
        checks,
        rest_o.drop_first(),
    ));
    if rest_o[0] is SpawnFailed {
        assert(fed.decision is Some);
    } else if !check_holds(checks[i], outcomes[i]) {
        assert(fed.decision == Some(CheckDecision::Skip));
        assert(spec_eval_checks(rest_c, rest_o) == CheckDecision::Skip);
    } else if i + 1 == checks.len() {
        assert(fed.decision == Some(CheckDecision::Run));
        assert(rest_c.drop_first().len() == 0);
        assert(spec_eval_checks(rest_c.drop_first(), rest_o.drop_first())
            == CheckDecision::Run);
        assert(spec_eval_checks(rest_c, rest_o) == CheckDecision::Run);
    } else {
        assert(rest_o.drop_first() =~~= outcomes.skip(i + 1));
        assert(rest_c.drop_first() =~~= checks.skip(i + 1));
        assert(fed == CheckEvaluation { next_idx: (i + 1) as usize, decision: None::<
            CheckDecision,
        > });
        lemma_machine_from(checks, outcomes, i + 1);
        assert(spec_eval_checks(rest_c, rest_o) == spec_eval_checks(
            checks.skip(i + 1),
            outcomes.skip(i + 1),
        ));
    }
}

/// Feeding the machine one outcome per check, in order, decides exactly as
/// the conjunctive short-circuit evaluation of the whole list does: fatal at
/// the first spawn failure, skip at the first check that does not hold, run
/// when all held.
pub proof fn lemma_machine_evaluates_checks(
    checks: Seq<TargetCheckConfig>,
    outcomes: Seq<ProbeOutcome>,
    started: CheckEvaluation,
)
    requires
        checks.len() == outcomes.len(),
        checks.len() <= usize::MAX,
        started.next_idx == 0,
        checks.len() == 0 ==> started.decision == Some(CheckDecision::Run),
        checks.len() > 0 ==> started.decision is None,
    ensures
        spec_run_machine(started, checks, outcomes).decision == Some(
            spec_eval_checks(checks, outcomes),
        ),
{
    if checks.len() == 0 {
    } else {
        assert(outcomes.skip(0) =~~= outcomes);
        assert(checks.skip(0) =~~= checks);
        lemma_machine_from(checks, outcomes, 0);
    }
}

/// An inverted `path_exists` check on an absent path holds: the target
/// should run.
pub proof fn lemma_inverted_absent_path_runs(path: String)
    ensures
        check_holds(
            TargetCheckConfig { when: TargetCheck::PathExists { path }, invert: true },
            ProbeOutcome::PathTested(false),
        ),
{
}

/// A check process that cannot be spawned at all is fatal — an internal
/// error, never a false check result: the evaluation neither runs nor skips
/// the target.
pub proof fn lemma_spawn_failure_is_fatal(
    s: CheckEvaluation,
    checks: Seq<TargetCheckConfig>,
    msg: String,
)
    requires
        s.decision is None,
        s.next_idx < checks.len(),
    ensures
        ({
            let after = spec_feed(s, checks, ProbeOutcome::SpawnFailed(msg));
            after.decision matches Some(CheckDecision::Fatal(e)) && e.exitcode == EXIT_SOFTWARE
                && e.msg == msg
        }),
{
}

/// The environment for an `exec_ok` / `exec_err` check's process, resolved
/// with the same precedence as for the main execution; an environment file
/// that cannot be read or parsed is a fatal data error.
pub fn exec_check_env(spec_cfg: &ExecConfig) -> (r: Result<EnvVars, AppError>)
    ensures
        spec_cfg.env_file is None ==> r is Ok && r.unwrap()@ == spec_cfg.env@,
        r is Ok ==> forall|k: Seq<char>|
            spec_cfg.env@.dom().contains(k) ==> r.unwrap()@.dom().contains(k)
                && #[trigger] r.unwrap()@[k] == spec_cfg.env@[k],
        r is Ok ==> exists|file_vars: Seq<EnvVars>|
            r.unwrap()@ == crate::config::merged_files(file_vars).union_prefer_right(
                spec_cfg.env@,
            ),
        r is Err ==> r.unwrap_err().exitcode == EXIT_DATAERR,
{
    match spec_cfg.all_vars() {
        Ok(vars) => Ok(vars),
        Err(msg) => Err(AppError::data_error(msg)),
    }
}

} // verus!
