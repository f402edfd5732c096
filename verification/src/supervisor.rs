//! The supervision state machine for running one target: before-hooks, the
//! main execution, after-hooks, and — in watch mode — re-running the target
//! whenever a watched file changes, cancelling any run still in flight. The
//! surrounding binary performs the spawns, sleeps and file watching; every
//! decision about what happens next is taken here.
//!
//! The filesystem watcher communicates with the run loop through two flags
//! owned by this state machine: a debounced change event sets both
//! `restart_pending` (schedule a fresh run) and `cancel_requested`
//! (interrupt the run in flight) before the callback returns; the run loop
//! observes them no later than its next poll.

use vstd::prelude::*;

use crate::config::TargetConfig;
use crate::errors::{EXIT_OK, EXIT_SOFTWARE};
use crate::hooks::HookOutcome;
use crate::runner::cancellable_outcome;

verus! {

/// Where the supervisor stands within one iteration.
#[derive(Debug, Clone, Copy, PartialEq, Eq, Structural)]
pub enum SupervisorPhase {
    /// Between iterations: waiting to begin a run, to idle, or to finish.
    Deciding,
    /// Running the before-hook with this index.
    Before(usize),
    /// Running the target's main execution.
    MainExec,
    /// Running the after-hook with this index.
    After(usize),
    /// The supervisor is done; the exit code is final.
    Stopped,
}

/// The supervisor: the two coordination flags, the current phase, and the
/// exit code once stopped.
#[derive(Debug, Clone, Copy)]
pub struct Supervisor {
    /// Whether watch mode is on: off, the loop runs exactly one iteration.
    pub watch: bool,
    /// A fresh run is scheduled. Set initially, so the first iteration
    /// begins without waiting for any file event.
    pub restart_pending: bool,
    /// A run in flight should be interrupted.
    pub cancel_requested: bool,
    pub phase: SupervisorPhase,
    /// The final exit code; present exactly when the phase is `Stopped`.
    pub exit_code: Option<i32>,
}

/// What the driving loop should do next.
#[derive(Debug, Clone, Copy, PartialEq, Eq, Structural)]
pub enum SupervisorAction {
    /// Begin a fresh iteration.
    BeginIteration,
    /// Invoke the before-hook with this index and feed its outcome back.
    RunBeforeHook(usize),
    /// Spawn the main execution cancellably and feed its outcome back.
    RunExec,
    /// Invoke the after-hook with this index and feed its outcome back.
    RunAfterHook(usize),
    /// Nothing to do: sleep briefly and poll again.
    AwaitTrigger,
    /// Exit with this code.
    Finished(i32),
}

impl Supervisor {
    /// The states the machine moves through: the phase always points at work
    /// the target actually has, and an exit code exists exactly once
    /// stopped.
    pub open spec fn wf(self, t: &TargetConfig) -> bool {
        match self.phase {
            SupervisorPhase::Deciding => self.exit_code is None,
            SupervisorPhase::Before(i) => i < t.before_hooks.len() && self.exit_code is None,
            SupervisorPhase::MainExec => t.exec_spec is Some && self.exit_code is None,
            SupervisorPhase::After(i) => i < t.after_hooks.len() && self.exit_code is None,
            SupervisorPhase::Stopped => self.exit_code is Some,
        }
    }
}

/// The machine stopped with this exit code; the flags keep their values.
pub open spec fn spec_stopped(s: Supervisor, code: i32) -> Supervisor {
    Supervisor { phase: SupervisorPhase::Stopped, exit_code: Some(code), ..s }
}

/// After the after-hooks (or with none to run): back between iterations.
pub open spec fn spec_enter_after(s: Supervisor, t: &TargetConfig) -> Supervisor {
    if t.after_hooks.len() > 0 {
        Supervisor { phase: SupervisorPhase::After(0), ..s }
    } else {
        Supervisor { phase: SupervisorPhase::Deciding, ..s }
    }
}

/// Toward the main execution: a target without one is a no-op placeholder,
/// logged and skipped, and its after-hooks still run.
pub open spec fn spec_enter_exec(s: Supervisor, t: &TargetConfig) -> Supervisor {
    if t.exec_spec is Some {
        Supervisor { phase: SupervisorPhase::MainExec, ..s }
    } else {
        spec_enter_after(s, t)
    }
}

/// Toward the before-hooks, or straight on when there are none.
pub open spec fn spec_enter_before(s: Supervisor, t: &TargetConfig) -> Supervisor {
    if t.before_hooks.len() > 0 {
        Supervisor { phase: SupervisorPhase::Before(0), ..s }
    } else {
        spec_enter_exec(s, t)
    }
}

/// Beginning an iteration clears both flags, then heads for the first piece
/// of work the target has.
pub open spec fn spec_begin_iteration(s: Supervisor, t: &TargetConfig) -> Supervisor {
    spec_enter_before(
        Supervisor { restart_pending: false, cancel_requested: false, ..s },
        t,
    )
}

/// A debounced watcher event: a batch holding a change schedules a fresh
/// run, and any batch — change or watcher error — interrupts the run in
/// flight.
pub open spec fn spec_notify_file_event(s: Supervisor, changed: bool) -> Supervisor {
    Supervisor {
        restart_pending: s.restart_pending || changed,
        cancel_requested: true,
        ..s
    }
}

/// What a finished hook does to the machine: a hook that could not be
/// spawned stops everything as an internal error; one that exited non-zero
/// stops everything with that hook's own code; a successful hook hands over
/// to the next hook, the main execution, or the end of the iteration.
pub open spec fn spec_on_hook_result(
    s: Supervisor,
    t: &TargetConfig,
    outcome: HookOutcome,
) -> Supervisor {
    match outcome {
        HookOutcome::SpawnFailed(_) => spec_stopped(s, EXIT_SOFTWARE),
        HookOutcome::Exited(code) => {
            if code != 0 {
                spec_stopped(s, code)
            } else {
                match s.phase {
                    SupervisorPhase::Before(i) => {
                        if i + 1 < t.before_hooks.len() {
                            Supervisor { phase: SupervisorPhase::Before((i + 1) as usize), ..s }
                        } else {
                            spec_enter_exec(s, t)
                        }
                    },
                    SupervisorPhase::After(i) => {
                        if i + 1 < t.after_hooks.len() {
                            Supervisor { phase: SupervisorPhase::After((i + 1) as usize), ..s }
                        } else {
                            Supervisor { phase: SupervisorPhase::Deciding, ..s }
                        }
                    },
                    _ => s,
                }
            }
        },
    }
}

/// What the finished main execution does to the machine. A run stopped by
/// request reports success. A failing run stops everything with its code
/// when watch mode is off; with watch mode on the supervisor keeps waiting
/// for the next trigger. A successful run goes on to the after-hooks.
pub open spec fn spec_on_exec_result(
    s: Supervisor,
    t: &TargetConfig,
    natural: i32,
    cancelled: bool,
) -> Supervisor {
    let effective = cancellable_outcome(cancelled, natural);
    if effective != 0 {
        if s.watch {
            Supervisor { phase: SupervisorPhase::Deciding, ..s }
        } else {
            spec_stopped(s, effective)
        }
    } else {
        spec_enter_after(s, t)
    }
}

/// Idling between iterations: without watch mode the loop is over after its
/// one iteration; with watch mode it is over once a cancellation was
/// observed with no fresh run scheduled — otherwise it keeps waiting.
pub open spec fn spec_poll_idle(s: Supervisor) -> Supervisor {
    if !s.watch || s.cancel_requested {
        spec_stopped(s, EXIT_OK)
    } else {
        s
    }
}

/// What the loop should do in a given state.
pub open spec fn spec_next_action(s: Supervisor) -> SupervisorAction {
    match s.phase {
        SupervisorPhase::Deciding => {
            if s.restart_pending {
                SupervisorAction::BeginIteration
            } else if !s.watch || s.cancel_requested {
                SupervisorAction::Finished(EXIT_OK)
            } else {
                SupervisorAction::AwaitTrigger
            }
        },
        SupervisorPhase::Before(i) => SupervisorAction::RunBeforeHook(i),
        SupervisorPhase::MainExec => SupervisorAction::RunExec,
        SupervisorPhase::After(i) => SupervisorAction::RunAfterHook(i),
        SupervisorPhase::Stopped => SupervisorAction::Finished(s.exit_code.unwrap()),
    }
}

impl Supervisor {
    /// A fresh supervisor: a run is already scheduled, so the first
    /// iteration begins at once, without waiting for any file event.
    pub fn new(watch: bool) -> (r: Supervisor)
        ensures
            r.watch == watch,
            r.restart_pending,
            !r.cancel_requested,
            r.phase == SupervisorPhase::Deciding,
            r.exit_code is None,
    {
        Supervisor {
            watch,
            restart_pending: true,
            cancel_requested: false,
            phase: SupervisorPhase::Deciding,
            exit_code: None,
        }
    }

    /// Applies a debounced watcher event.
    pub fn notify_file_event(&mut self, changed: bool)
        ensures
            *final(self) == spec_notify_file_event(*old(self), changed),
    {
        if changed {
            self.restart_pending = true;
        }
        self.cancel_requested = true;
    }

    /// Begins a scheduled iteration.
    pub fn begin_iteration(&mut self, t: &TargetConfig)
        requires
            old(self).phase == SupervisorPhase::Deciding,
            old(self).restart_pending,
        ensures
            *final(self) == spec_begin_iteration(*old(self), t),
    {
        self.restart_pending = false;
        self.cancel_requested = false;
        if t.before_hooks.len() > 0 {
            self.phase = SupervisorPhase::Before(0);
        } else if t.exec_spec.is_some() {
            self.phase = SupervisorPhase::MainExec;
        } else if t.after_hooks.len() > 0 {
            self.phase = SupervisorPhase::After(0);
        } else {
            self.phase = SupervisorPhase::Deciding;
        }
    }

    /// Feeds the outcome of the hook the phase points at.
    pub fn on_hook_result(&mut self, t: &TargetConfig, outcome: &HookOutcome)
        requires
            old(self).wf(t),
            old(self).phase is Before || old(self).phase is After,
        ensures
            *final(self) == spec_on_hook_result(*old(self), t, *outcome),
            final(self).wf(t),
    {
        match outcome {
            HookOutcome::SpawnFailed(_) => {
                self.phase = SupervisorPhase::Stopped;
                self.exit_code = Some(EXIT_SOFTWARE);
            },
            HookOutcome::Exited(code) => {
                if *code != 0 {
                    self.phase = SupervisorPhase::Stopped;
                    self.exit_code = Some(*code);
                } else {
                    match self.phase {
                        SupervisorPhase::Before(i) => {
                            if i + 1 < t.before_hooks.len() {
                                self.phase = SupervisorPhase::Before(i + 1);
                            } else if t.exec_spec.is_some() {
                                self.phase = SupervisorPhase::MainExec;
                            } else if t.after_hooks.len() > 0 {
                                self.phase = SupervisorPhase::After(0);
                            } else {
                                self.phase = SupervisorPhase::Deciding;
                            }
                        },
                        SupervisorPhase::After(i) => {
                            if i + 1 < t.after_hooks.len() {
                                self.phase = SupervisorPhase::After(i + 1);
                            } else {
                                self.phase = SupervisorPhase::Deciding;
                            }
                        },
                        _ => {
                            proof {
                                assert(false);
                            }
                        },
                    }
                }
            },
        }
    }

    /// Feeds the outcome of the main execution: the child's own exit code,
    /// and whether the run was stopped by request.
    pub fn on_exec_result(&mut self, t: &TargetConfig, natural: i32, cancelled: bool)
        requires
            old(self).wf(t),
            old(self).phase == SupervisorPhase::MainExec,
        ensures
            *final(self) == spec_on_exec_result(*old(self), t, natural, cancelled),
            final(self).wf(t),
    {
        let effective = if cancelled {
            EXIT_OK
        } else {
            natural
        };
        if effective != 0 {
            if self.watch {
                self.phase = SupervisorPhase::Deciding;
            } else {
                self.phase = SupervisorPhase::Stopped;
                self.exit_code = Some(effective);
            }
        } else {
            if t.after_hooks.len() > 0 {
                self.phase = SupervisorPhase::After(0);
            } else {
                self.phase = SupervisorPhase::Deciding;
            }
        }
    }

    /// Polls between iterations, with no fresh run scheduled: decides
    /// whether the loop is over or should keep waiting.
    pub fn poll_idle(&mut self)
        requires
            old(self).phase == SupervisorPhase::Deciding,
            !old(self).restart_pending,
        ensures
            *final(self) == spec_poll_idle(*old(self)),
    {
        if !self.watch || self.cancel_requested {
            self.phase = SupervisorPhase::Stopped;
            self.exit_code = Some(EXIT_OK);
        }
    }

    /// What the loop should do next.
    pub fn next_action(&self, t: &TargetConfig) -> (r: SupervisorAction)
        requires
            self.wf(t),
        ensures
            r == spec_next_action(*self),
    {
        match self.phase {
            SupervisorPhase::Deciding => {
                if self.restart_pending {
                    SupervisorAction::BeginIteration
                } else if !self.watch || self.cancel_requested {
                    SupervisorAction::Finished(EXIT_OK)
                } else {
                    SupervisorAction::AwaitTrigger
                }
            },
            SupervisorPhase::Before(i) => SupervisorAction::RunBeforeHook(i),
            SupervisorPhase::MainExec => SupervisorAction::RunExec,
            SupervisorPhase::After(i) => SupervisorAction::RunAfterHook(i),
            SupervisorPhase::Stopped => {
                match self.exit_code {
                    Some(code) => SupervisorAction::Finished(code),
                    None => {
                        proof {
                            assert(false);
                        }
                        SupervisorAction::Finished(EXIT_OK)
                    },
                }
            },
        }
    }
}

/// A hook that exits non-zero aborts the whole sequence: the machine stops
/// at once — the remaining hooks and the main execution never run — and the
/// overall exit code is that hook's own code.
pub proof fn lemma_hook_failure_aborts(s: Supervisor, t: &TargetConfig, code: i32)
    requires
        s.phase is Before || s.phase is After,
        code != 0,
    ensures
        spec_on_hook_result(s, t, HookOutcome::Exited(code)) == spec_stopped(s, code),
        spec_next_action(spec_on_hook_result(s, t, HookOutcome::Exited(code)))
            == SupervisorAction::Finished(code),
{
}

/// A stopped machine issues no further work: the only action left is to
/// exit with the final code.
pub proof fn lemma_stopped_is_final(s: Supervisor, code: i32)
    ensures
        spec_next_action(spec_stopped(s, code)) == SupervisorAction::Finished(code),
{
}

/// A file change while the main execution is still running cancels the run
/// in flight and schedules a fresh one: the killed run counts as stopped by
/// request — a success, not a failure — and the supervisor begins a new
/// iteration without any further trigger.
pub proof fn lemma_trigger_during_exec_restarts(s: Supervisor, t: &TargetConfig, natural: i32)
    requires
        s.phase == SupervisorPhase::MainExec,
        s.watch,
        t.after_hooks.len() == 0,
    ensures
        ({
            let triggered = spec_notify_file_event(s, true);
            let done = spec_on_exec_result(triggered, t, natural, true);
            triggered.cancel_requested && triggered.restart_pending && cancellable_outcome(
                true,
                natural,
            ) == EXIT_OK && !(done.phase is Stopped) && done.phase
                == SupervisorPhase::Deciding && done.restart_pending && spec_next_action(done)
                == SupervisorAction::BeginIteration
        }),
{
}

/// The first non-zero code in a sequence of exit codes.
pub open spec fn seq_first_nonzero(s: Seq<i32>) -> Option<i32>
    decreases s.len(),
{
    if s.len() == 0 {
        None
    } else if s[0] != 0 {
        Some(s[0])
    } else {
        seq_first_nonzero(s.drop_first())
    }
}

/// The exit code of a plain sequential pipeline: the first failing
/// before-hook's code, else the main execution's code if it failed, else
/// the first failing after-hook's code, else success.
pub open spec fn spec_pipeline_code(
    before_codes: Seq<i32>,
    exec_code: i32,
    after_codes: Seq<i32>,
) -> i32 {
    match seq_first_nonzero(before_codes) {
        Some(c) => c,
        None => {
            if exec_code != 0 {
                exec_code
            } else {
                match seq_first_nonzero(after_codes) {
                    Some(c) => c,
                    None => EXIT_OK,
                }
            }
        },
    }
}

/// The machine fed one hook exit code after another, for as long as it is
/// in a hook phase.
pub open spec fn spec_run_hook_results(s: Supervisor, t: &TargetConfig, codes: Seq<i32>) -> Supervisor
    decreases codes.len(),
{
    if codes.len() == 0 {
        s
    } else if s.phase is Before || s.phase is After {
        spec_run_hook_results(
            spec_on_hook_result(s, t, HookOutcome::Exited(codes[0])),
            t,
            codes.drop_first(),
        )
    } else {
        s
    }
}

/// One whole scheduled iteration: begin, feed the before-hook codes, feed
/// the main execution's outcome, feed the after-hook codes, and poll once
/// idle.
pub open spec fn spec_run_to_completion(
    s: Supervisor,
    t: &TargetConfig,
    before_codes: Seq<i32>,
    exec_code: i32,
    cancelled: bool,
    after_codes: Seq<i32>,
) -> Supervisor {
    let started = spec_begin_iteration(s, t);
    let hooked = spec_run_hook_results(started, t, before_codes);
    let executed = if hooked.phase is MainExec {
        spec_on_exec_result(hooked, t, exec_code, cancelled)
    } else {
        hooked
    };
    let after = spec_run_hook_results(executed, t, after_codes);
    if after.phase == SupervisorPhase::Deciding && !after.restart_pending {
        spec_poll_idle(after)
    } else {
        after
    }
}

/// Running the before-hooks from hook `i` on: the first non-zero code stops
/// the machine with that code; with all codes zero the machine heads for
/// the main execution with its flags untouched.
proof fn lemma_run_before_hooks(s: Supervisor, t: &TargetConfig, codes: Seq<i32>, i: int)
    requires
        0 <= i < t.before_hooks.len(),
        s.phase == SupervisorPhase::Before(i as usize),
        codes.len() == t.before_hooks.len() - i,
        t.before_hooks.len() <= usize::MAX,
    ensures
        seq_first_nonzero(codes) matches Some(c) ==> spec_run_hook_results(s, t, codes)
            == spec_stopped(s, c),
        seq_first_nonzero(codes) is None ==> spec_run_hook_results(s, t, codes)
            == spec_enter_exec(s, t),
    decreases codes.len(),
{
    let fed = spec_on_hook_result(s, t, HookOutcome::Exited(codes[0]));
    if codes[0] != 0 {
        assert(spec_run_hook_results(fed, t, codes.drop_first()) == fed);
    } else if i + 1 < t.before_hooks.len() {
        lemma_run_before_hooks(fed, t, codes.drop_first(), i + 1);
        match seq_first_nonzero(codes.drop_first()) {
            Some(c) => {
                assert(spec_stopped(fed, c) == spec_stopped(s, c));
            },
            None => {
                assert(spec_enter_exec(fed, t) == spec_enter_exec(s, t));
            },
        }
    } else {
        assert(codes.drop_first().len() == 0);
        assert(spec_run_hook_results(fed, t, codes.drop_first()) == fed);
        assert(fed == spec_enter_exec(s, t));
    }
}

/// Running the after-hooks from hook `i` on: the first non-zero code stops
/// the machine with that code; with all codes zero the machine returns to
/// deciding with its flags untouched.
proof fn lemma_run_after_hooks(s: Supervisor, t: &TargetConfig, codes: Seq<i32>, i: int)
    requires
        0 <= i < t.after_hooks.len(),
        s.phase == SupervisorPhase::After(i as usize),
        codes.len() == t.after_hooks.len() - i,
        t.after_hooks.len() <= usize::MAX,
    ensures
        seq_first_nonzero(codes) matches Some(c) ==> spec_run_hook_results(s, t, codes)
            == spec_stopped(s, c),
        seq_first_nonzero(codes) is None ==> spec_run_hook_results(s, t, codes) == (Supervisor {
            phase: SupervisorPhase::Deciding,
            ..s
        }),
    decreases codes.len(),
{
    let fed = spec_on_hook_result(s, t, HookOutcome::Exited(codes[0]));
    if codes[0] != 0 {
        assert(spec_run_hook_results(fed, t, codes.drop_first()) == fed);
    } else if i + 1 < t.after_hooks.len() {
        lemma_run_after_hooks(fed, t, codes.drop_first(), i + 1);
    } else {
        assert(codes.drop_first().len() == 0);
        assert(spec_run_hook_results(fed, t, codes.drop_first()) == fed);
    }
}

/// With watch mode off and cancellation never requested, one supervised
/// iteration finishes with exactly the exit code of the plain sequential
/// pipeline: the first failing before-hook's code, else the main
/// execution's own code if it failed, else the first failing after-hook's
/// code, else success.
pub proof fn lemma_run_without_watch_matches_pipeline(
    s: Supervisor,
    t: &TargetConfig,
    before_codes: Seq<i32>,
    exec_code: i32,
    after_codes: Seq<i32>,
)
    requires
        !s.watch,
        s.phase == SupervisorPhase::Deciding,
        s.restart_pending,
        t.exec_spec is Some,
        before_codes.len() == t.before_hooks.len(),
        after_codes.len() == t.after_hooks.len(),
        t.before_hooks.len() <= usize::MAX,
        t.after_hooks.len() <= usize::MAX,
    ensures
        ({
            let r = spec_run_to_completion(s, t, before_codes, exec_code, false, after_codes);
            r.phase is Stopped && r.exit_code == Some(
                spec_pipeline_code(before_codes, exec_code, after_codes),
            )
        }),
{
    let started = spec_begin_iteration(s, t);
    let hooked = spec_run_hook_results(started, t, before_codes);
    if t.before_hooks.len() > 0 {
        lemma_run_before_hooks(started, t, before_codes, 0);
    } else {
        assert(before_codes.len() == 0);
        assert(hooked == spec_enter_exec(started, t));
    }
    if seq_first_nonzero(before_codes) is Some {
        let c = seq_first_nonzero(before_codes).unwrap();
        assert(hooked == spec_stopped(started, c));
        assert(spec_run_hook_results(hooked, t, after_codes) == hooked);
    } else {
        assert(hooked.phase == SupervisorPhase::MainExec);
        let executed = spec_on_exec_result(hooked, t, exec_code, false);
        assert(cancellable_outcome(false, exec_code) == exec_code);
        if exec_code != 0 {
            assert(executed == spec_stopped(hooked, exec_code));
            assert(spec_run_hook_results(executed, t, after_codes) == executed);
        } else {
            assert(executed == spec_enter_after(hooked, t));
            let after = spec_run_hook_results(executed, t, after_codes);
            if t.after_hooks.len() > 0 {
                lemma_run_after_hooks(executed, t, after_codes, 0);
            } else {
                assert(after_codes.len() == 0);
                assert(after == executed);
            }
            if seq_first_nonzero(after_codes) matches Some(c) {
            } else {
                assert(after.phase == SupervisorPhase::Deciding && !after.restart_pending);
                assert(spec_poll_idle(after) == spec_stopped(after, EXIT_OK));
            }
        }
    }
}

} // verus!
