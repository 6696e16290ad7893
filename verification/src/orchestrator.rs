//! The launch state machine.
//!
//! The orchestrator decides; the caller acts. `begin` hands out the pre-start
//! directives and the initial state; the caller then asks `next_action`, does
//! the blocking work on a worker context (runs a step, starts the program,
//! waits for it, runs the shutdown step) and reports what happened through the
//! matching `*_finished` method. `conclude` hands out the toast owed for a
//! failure and the post-exit directives. The ghost trace of directives handed
//! out and the log of actions performed carry the ordering guarantees.

use vstd::prelude::*;

use crate::outcome::{is_failure_toast, toast_for, CommandError, LaunchOutcome};
use crate::policy::{directives_for, policy, LaunchPhase, LauncherBehavior, UIDirective};
use crate::profile::LaunchStep;

verus! {

/// What the driver of an attempt must do next.
#[derive(Debug, Clone, Copy, PartialEq, Eq, Structural)]
pub enum Action {
    /// Run the preparation step with this index and report the result.
    RunStep(usize),
    /// Start the external program and report whether it could be created.
    StartProgram,
    /// Block until the program exits and report whether the wait returned.
    WaitForExit,
    /// Run the compatibility-layer shutdown step, best-effort.
    RunShutdown,
    /// Ask for the concluding directives.
    Conclude,
    /// The attempt is over; there is nothing left to do.
    Idle,
}

/// Where in its lifecycle an attempt stands.
#[derive(Debug, Clone, Copy, PartialEq, Eq, Structural)]
pub enum Stage {
    /// Preparation steps are still running.
    Preparing,
    /// All steps succeeded; the program has not been started yet.
    Starting,
    /// The program was started and has not been waited on yet.
    Running,
    /// The outcome is determined; the shutdown step has not run yet.
    ShuttingDown,
    /// Shutdown ran; the concluding directives have not been handed out.
    Concluding,
    /// The attempt is over.
    Finished,
}

/// The first `k` preparation-step actions, in order.
pub open spec fn step_actions(k: int) -> Seq<Action> {
    Seq::new(k as nat, |i: int| Action::RunStep(i as usize))
}

/// A one-action log fragment, present or absent.
pub open spec fn opt_action(present: bool, a: Action) -> Seq<Action> {
    if present {
        seq![a]
    } else {
        Seq::empty()
    }
}

/// How often an action stands in a log.
pub open spec fn occurrences(log: Seq<Action>, a: Action) -> nat
    decreases log.len(),
{
    if log.len() == 0 {
        0
    } else {
        (if log.last() == a {
            1nat
        } else {
            0nat
        }) + occurrences(log.drop_last(), a)
    }
}

/// Whether `tr` is exactly the directive trace one attempt owes: the pre-start
/// directives first, then — only if the outcome is a failure — the one toast
/// reporting it, then the post-exit directives.
pub open spec fn is_attempt_trace(
    b: LauncherBehavior,
    o: LaunchOutcome,
    tr: Seq<UIDirective>,
) -> bool {
    let pre = policy(b, LaunchPhase::PreStart);
    let post = policy(b, LaunchPhase::PostExit);
    if o.spec_is_failure() {
        &&& tr.len() == pre.len() + 1 + post.len()
        &&& tr.subrange(0, pre.len() as int) == pre
        &&& is_failure_toast(tr[pre.len() as int], o)
        &&& tr.subrange(pre.len() as int + 1, tr.len() as int) == post
    } else {
        tr == pre + post
    }
}

/// Whether `ds` is what `conclude` owes: the failure toast, if the outcome is
/// a failure, followed by the post-exit directives.
pub open spec fn conclusion_directives_ok(
    ds: Seq<UIDirective>,
    b: LauncherBehavior,
    o: LaunchOutcome,
) -> bool {
    let post = policy(b, LaunchPhase::PostExit);
    if o.spec_is_failure() {
        ds.len() == 1 + post.len() && is_failure_toast(ds[0], o) && ds.skip(1) == post
    } else {
        ds == post
    }
}

/// The state machine of one launch attempt.
///
/// At most one attempt may be in flight at a time; a caller that wants a
/// second launch must wait until this one reaches `Finished`.
pub struct Orchestrator {
    /// The behavior the attempt was begun with, read once at begin time.
    pub behavior: LauncherBehavior,
    /// The fixed, ordered preparation steps.
    pub steps: Vec<LaunchStep>,
    /// The index of the next step to run. On a step failure it stays at the
    /// failing step: later steps are never offered.
    pub next_step: usize,
    /// Where the attempt stands.
    pub stage: Stage,
    /// The attempt's result, determined exactly once.
    pub outcome: Option<LaunchOutcome>,
    /// The directives handed out so far, in order. The caller forwards them
    /// unchanged over a first-in-first-out channel, so this is also the order
    /// the front-end observes.
    pub sent: Ghost<Seq<UIDirective>>,
}

impl Orchestrator {
    /// How many steps have been attempted (run to completion of their
    /// command, successfully or not).
    pub open spec fn steps_attempted(self) -> int {
        if self.outcome matches Some(LaunchOutcome::FailedDuringPreparation { .. }) {
            self.next_step + 1
        } else {
            self.next_step as int
        }
    }

    /// Whether the program-start call was made.
    pub open spec fn start_attempted(self) -> bool {
        ||| self.stage is Running
        ||| (self.outcome matches Some(o) && !(o is FailedDuringPreparation))
    }

    /// Whether the wait call was made.
    pub open spec fn wait_attempted(self) -> bool {
        self.outcome matches Some(o) && (o is Succeeded || o is FailedDuringExecution)
    }

    /// Whether the shutdown step was run.
    pub open spec fn shutdown_done(self) -> bool {
        self.stage is Concluding || self.stage is Finished
    }

    /// The log of external actions performed so far, in order: each
    /// `*_finished` call appends the action it reports on.
    pub open spec fn performed_log(self) -> Seq<Action> {
        step_actions(self.steps_attempted()) + opt_action(
            self.start_attempted(),
            Action::StartProgram,
        ) + opt_action(self.wait_attempted(), Action::WaitForExit) + opt_action(
            self.shutdown_done(),
            Action::RunShutdown,
        )
    }

    /// The outcome a determined attempt ended with.
    pub open spec fn spec_outcome(self) -> LaunchOutcome {
        self.outcome->0
    }

    /// Well-formedness: the stage, the step index, the outcome and the trace
    /// agree. `begin` establishes it and every method preserves it.
    pub open spec fn wf(self) -> bool {
        &&& self.steps@.len() <= usize::MAX
        &&& self.next_step <= self.steps@.len()
        &&& (self.stage is Preparing ==> self.next_step < self.steps@.len() && self.outcome
            is None)
        &&& (self.stage is Starting ==> self.next_step == self.steps@.len() && self.outcome
            is None)
        &&& (self.stage is Running ==> self.next_step == self.steps@.len() && self.outcome
            is None)
        &&& (self.stage is ShuttingDown || self.stage is Concluding || self.stage is Finished
            ==> self.outcome is Some)
        &&& (self.outcome matches Some(o) ==> self.outcome_consistent(o))
        &&& (self.stage is Finished ==> is_attempt_trace(
            self.behavior,
            self.spec_outcome(),
            self.sent@,
        ))
        &&& (!(self.stage is Finished) ==> self.sent@ == policy(
            self.behavior,
            LaunchPhase::PreStart,
        ))
    }

    /// What each outcome says about how far the attempt got.
    pub open spec fn outcome_consistent(self, o: LaunchOutcome) -> bool {
        match o {
            LaunchOutcome::Succeeded => self.next_step == self.steps@.len(),
            LaunchOutcome::FailedDuringPreparation { step, cause: _ } => self.next_step
                < self.steps@.len() && step@ == self.steps@[self.next_step as int].name@,
            LaunchOutcome::FailedToStart { .. } => self.next_step == self.steps@.len(),
            LaunchOutcome::FailedDuringExecution { .. } => self.next_step == self.steps@.len(),
        }
    }

    /// The action the driver must perform next.
    pub open spec fn spec_next_action(self) -> Action {
        match self.stage {
            Stage::Preparing => Action::RunStep(self.next_step),
            Stage::Starting => Action::StartProgram,
            Stage::Running => Action::WaitForExit,
            Stage::ShuttingDown => Action::RunShutdown,
            Stage::Concluding => Action::Conclude,
            Stage::Finished => Action::Idle,
        }
    }

    /// Begin a launch attempt: evaluate behavior and steps once, hand out the
    /// pre-start directives. They must be forwarded before any step runs.
    pub fn begin(behavior: LauncherBehavior, steps: Vec<LaunchStep>) -> (r: (
        Orchestrator,
        Vec<UIDirective>,
    ))
        ensures
            r.0.wf(),
            r.1@ == policy(behavior, LaunchPhase::PreStart),
            r.0.behavior == behavior,
            r.0.steps@ == steps@,
            r.0.next_step == 0,
            r.0.outcome is None,
            r.0.stage == (if steps@.len() == 0 {
                Stage::Starting
            } else {
                Stage::Preparing
            }),
            r.0.sent@ == r.1@,
            r.0.performed_log() == Seq::<Action>::empty(),
    {
        let pre = directives_for(behavior, LaunchPhase::PreStart);
        let stage = if steps.len() == 0 {
            Stage::Starting
        } else {
            Stage::Preparing
        };
        let orch = Orchestrator {
            behavior,
            steps,
            next_step: 0,
            stage,
            outcome: None,
            sent: Ghost(policy(behavior, LaunchPhase::PreStart)),
        };
        proof {
            assert(orch.performed_log() =~= Seq::<Action>::empty());
        }
        (orch, pre)
    }

    /// The action the driver must perform next.
    pub fn next_action(&self) -> (a: Action)
        ensures
            a == self.spec_next_action(),
    {
        match self.stage {
            Stage::Preparing => Action::RunStep(self.next_step),
            Stage::Starting => Action::StartProgram,
            Stage::Running => Action::WaitForExit,
            Stage::ShuttingDown => Action::RunShutdown,
            Stage::Concluding => Action::Conclude,
            Stage::Finished => Action::Idle,
        }
    }

    /// The step the driver must run next.
    pub fn current_step(&self) -> (s: &LaunchStep)
        requires
            self.wf(),
            self.stage is Preparing,
        ensures
            *s == self.steps@[self.next_step as int],
    {
        &self.steps[self.next_step]
    }

    /// Report how the current preparation step went. On success the attempt
    /// moves to the next step, or to the program start after the last one. On
    /// failure the outcome is fixed to `FailedDuringPreparation`, no further
    /// step or program start is ever offered, and the attempt moves straight
    /// to the shutdown step.
    pub fn step_finished(&mut self, result: Result<(), CommandError>)
        requires
            old(self).wf(),
            old(self).stage is Preparing,
        ensures
            final(self).wf(),
            final(self).behavior == old(self).behavior,
            final(self).steps@ == old(self).steps@,
            final(self).sent@ == old(self).sent@,
            result is Ok ==> final(self).next_step == old(self).next_step + 1
                && final(self).outcome is None && final(self).stage == (
            if old(self).next_step + 1 == old(self).steps@.len() {
                Stage::Starting
            } else {
                Stage::Preparing
            }),
            result matches Err(e) ==> final(self).next_step == old(self).next_step
                && final(self).stage is ShuttingDown && (final(self).outcome matches Some(o)
                && o == (LaunchOutcome::FailedDuringPreparation {
                step: old(self).steps@[old(self).next_step as int].name,
                cause: e,
            })),
            final(self).performed_log() == old(self).performed_log().push(
                Action::RunStep(old(self).next_step),
            ),
    {
        let ghost k = self.next_step as int;
        match result {
            Ok(()) => {
                let len = self.steps.len();
                self.next_step = self.next_step + 1;
                if self.next_step == len {
                    self.stage = Stage::Starting;
                }
            },
            Err(e) => {
                let name = self.steps[self.next_step].name.clone();
                self.outcome = Some(
                    LaunchOutcome::FailedDuringPreparation { step: name, cause: e },
                );
                self.stage = Stage::ShuttingDown;
            },
        }
        proof {
            lemma_step_actions_push(k);
            assert(self.performed_log() =~= old(self).performed_log().push(
                Action::RunStep(old(self).next_step),
            ));
        }
    }

    /// Report how starting the program went. On success the attempt waits for
    /// the exit; on failure the outcome is fixed to `FailedToStart` and the
    /// attempt moves to the shutdown step.
    pub fn start_finished(&mut self, result: Result<(), CommandError>)
        requires
            old(self).wf(),
            old(self).stage is Starting,
        ensures
            final(self).wf(),
            final(self).behavior == old(self).behavior,
            final(self).steps@ == old(self).steps@,
            final(self).next_step == old(self).next_step,
            final(self).sent@ == old(self).sent@,
            result is Ok ==> final(self).stage is Running && final(self).outcome is None,
            result matches Err(e) ==> final(self).stage is ShuttingDown && final(self).outcome
                == Some(LaunchOutcome::FailedToStart { cause: e }),
            final(self).performed_log() == old(self).performed_log().push(Action::StartProgram),
    {
        match result {
            Ok(()) => {
                self.stage = Stage::Running;
            },
            Err(e) => {
                self.outcome = Some(LaunchOutcome::FailedToStart { cause: e });
                self.stage = Stage::ShuttingDown;
            },
        }
        proof {
            assert(self.performed_log() =~= old(self).performed_log().push(
                Action::StartProgram,
            ));
        }
    }

    /// Report how waiting for the program went. A clean return from the wait
    /// is success — the exit status itself is informational only; a wait
    /// error fixes the outcome to `FailedDuringExecution`. Either way the
    /// attempt moves to the shutdown step.
    pub fn wait_finished(&mut self, result: Result<(), CommandError>)
        requires
            old(self).wf(),
            old(self).stage is Running,
        ensures
            final(self).wf(),
            final(self).behavior == old(self).behavior,
            final(self).steps@ == old(self).steps@,
            final(self).next_step == old(self).next_step,
            final(self).sent@ == old(self).sent@,
            final(self).stage is ShuttingDown,
            result is Ok ==> final(self).outcome == Some(LaunchOutcome::Succeeded),
            result matches Err(e) ==> final(self).outcome == Some(
                LaunchOutcome::FailedDuringExecution { cause: e },
            ),
            final(self).performed_log() == old(self).performed_log().push(Action::WaitForExit),
    {
        match result {
            Ok(()) => {
                self.outcome = Some(LaunchOutcome::Succeeded);
            },
            Err(e) => {
                self.outcome = Some(LaunchOutcome::FailedDuringExecution { cause: e });
            },
        }
        self.stage = Stage::ShuttingDown;
        proof {
            assert(self.performed_log() =~= old(self).performed_log().push(
                Action::WaitForExit,
            ));
        }
    }

    /// Report that the shutdown step ran. It runs exactly once per attempt,
    /// whatever the outcome; its own failure is best-effort and never changes
    /// the already-determined outcome — the caller may log it and nothing
    /// more.
    pub fn shutdown_finished(&mut self, _result: Result<(), CommandError>)
        requires
            old(self).wf(),
            old(self).stage is ShuttingDown,
        ensures
            final(self).wf(),
            final(self).behavior == old(self).behavior,
            final(self).steps@ == old(self).steps@,
            final(self).next_step == old(self).next_step,
            final(self).sent@ == old(self).sent@,
            final(self).outcome == old(self).outcome,
            final(self).stage is Concluding,
            final(self).performed_log() == old(self).performed_log().push(Action::RunShutdown),
    {
        self.stage = Stage::Concluding;
        proof {
            assert(self.performed_log() =~= old(self).performed_log().push(
                Action::RunShutdown,
            ));
        }
    }

    /// Hand out the concluding directives: the one toast owed for a failure,
    /// then the post-exit directives. A directive for which
    /// `requires_main_context` holds must be forwarded through the interactive
    /// run loop's own delivery mechanism, never acted on from the worker.
    pub fn conclude(&mut self) -> (ds: Vec<UIDirective>)
        requires
            old(self).wf(),
            old(self).stage is Concluding,
        ensures
            final(self).wf(),
            final(self).behavior == old(self).behavior,
            final(self).steps@ == old(self).steps@,
            final(self).next_step == old(self).next_step,
            final(self).outcome == old(self).outcome,
            final(self).stage is Finished,
            final(self).performed_log() == old(self).performed_log(),
            conclusion_directives_ok(ds@, old(self).behavior, old(self).spec_outcome()),
            final(self).sent@ == old(self).sent@ + ds@,
            is_attempt_trace(final(self).behavior, final(self).spec_outcome(), final(self).sent@),
    {
        let toast = match &self.outcome {
            Some(oc) => toast_for(oc),
            None => None,
        };
        let mut ds: Vec<UIDirective> = Vec::new();
        if let Some(t) = toast {
            ds.push(t);
        }
        let mut post = directives_for(self.behavior, LaunchPhase::PostExit);
        ds.append(&mut post);
        self.stage = Stage::Finished;
        proof {
            self.sent@ = self.sent@ + ds@;
            let pre = policy(self.behavior, LaunchPhase::PreStart);
            let posts = policy(self.behavior, LaunchPhase::PostExit);
            let o = self.spec_outcome();
            if o.spec_is_failure() {
                assert(ds@.skip(1) =~= posts);
                assert(self.sent@.subrange(0, pre.len() as int) =~= pre);
                assert(self.sent@.subrange(pre.len() as int + 1, self.sent@.len() as int) =~= posts);
            } else {
                assert(ds@ =~= posts);
                assert(self.sent@ =~= pre + posts);
            }
            assert(self.performed_log() =~= old(self).performed_log());
        }
        ds
    }
}

/// One more attempted step appends one more step action to the log.
proof fn lemma_step_actions_push(k: int)
    requires
        0 <= k <= usize::MAX,
    ensures
        step_actions(k + 1) == step_actions(k).push(Action::RunStep(k as usize)),
{
    assert(step_actions(k + 1) =~= step_actions(k).push(Action::RunStep(k as usize)));
}

/// Occurrence counts add up over concatenation.
proof fn lemma_occurrences_add(x: Seq<Action>, y: Seq<Action>, a: Action)
    ensures
        occurrences(x + y, a) == occurrences(x, a) + occurrences(y, a),
    decreases y.len(),
{
    if y.len() == 0 {
        assert(x + y =~= x);
    } else {
        assert((x + y).drop_last() =~= x + y.drop_last());
        assert((x + y).last() == y.last());
        lemma_occurrences_add(x, y.drop_last(), a);
    }
}

/// A one-action fragment holds one occurrence of its action and none of any
/// other.
proof fn lemma_occurrences_opt(present: bool, act: Action, a: Action)
    ensures
        occurrences(opt_action(present, act), a) == (if present && act == a {
            1nat
        } else {
            0nat
        }),
{
    reveal_with_fuel(occurrences, 2);
    if present {
        assert(seq![act].drop_last() =~= Seq::<Action>::empty());
    }
}

/// Step actions are only step actions: no other action occurs among them, and
/// no step action with an index at or past `k`.
proof fn lemma_step_actions_occurrences(k: int, a: Action)
    requires
        0 <= k <= usize::MAX,
        match a {
            Action::RunStep(m) => m as int >= k,
            _ => true,
        },
    ensures
        occurrences(step_actions(k), a) == 0,
    decreases k,
{
    if k > 0 {
        assert(step_actions(k).last() == Action::RunStep((k - 1) as usize));
        assert(step_actions(k).drop_last() =~= step_actions(k - 1));
        lemma_step_actions_occurrences(k - 1, a);
    } else {
        assert(step_actions(0) =~= Seq::<Action>::empty());
    }
}

/// After a preparation step fails, no further step and no program start is
/// ever performed — the log holds exactly the steps up to and including the
/// failing one — yet the shutdown step is still performed, exactly once, by
/// the time the attempt is over.
pub proof fn lemma_step_failure_stops_attempt(o: Orchestrator)
    requires
        o.wf(),
        o.outcome matches Some(oc) && oc is FailedDuringPreparation,
    ensures
        occurrences(o.performed_log(), Action::StartProgram) == 0,
        occurrences(o.performed_log(), Action::WaitForExit) == 0,
        forall|m: usize|
            m > o.next_step ==> occurrences(o.performed_log(), Action::RunStep(m)) == 0,
        o.stage is Finished ==> occurrences(o.performed_log(), Action::RunShutdown) == 1,
{
    let sa = step_actions(o.steps_attempted());
    let s = opt_action(o.start_attempted(), Action::StartProgram);
    let w = opt_action(o.wait_attempted(), Action::WaitForExit);
    let sd = opt_action(o.shutdown_done(), Action::RunShutdown);
    assert forall|a: Action|
        (match a {
            Action::RunStep(m) => m > o.next_step,
            _ => true,
        }) implies occurrences(o.performed_log(), a) == (if o.shutdown_done() && a
        is RunShutdown {
        1nat
    } else {
        0nat
    }) by {
        lemma_occurrences_add(sa + s + w, sd, a);
        lemma_occurrences_add(sa + s, w, a);
        lemma_occurrences_add(sa, s, a);
        lemma_step_actions_occurrences(o.steps_attempted(), a);
        lemma_occurrences_opt(o.start_attempted(), Action::StartProgram, a);
        lemma_occurrences_opt(o.wait_attempted(), Action::WaitForExit, a);
        lemma_occurrences_opt(o.shutdown_done(), Action::RunShutdown, a);
    }
}

/// Every attempt that has run to its end performed the shutdown step exactly
/// once, whatever the outcome.
pub proof fn lemma_shutdown_exactly_once(o: Orchestrator)
    requires
        o.wf(),
        o.stage is Finished,
    ensures
        occurrences(o.performed_log(), Action::RunShutdown) == 1,
{
    let sa = step_actions(o.steps_attempted());
    let s = opt_action(o.start_attempted(), Action::StartProgram);
    let w = opt_action(o.wait_attempted(), Action::WaitForExit);
    let sd = opt_action(o.shutdown_done(), Action::RunShutdown);
    lemma_occurrences_add(sa + s + w, sd, Action::RunShutdown);
    lemma_occurrences_add(sa + s, w, Action::RunShutdown);
    lemma_occurrences_add(sa, s, Action::RunShutdown);
    lemma_step_actions_occurrences(o.steps_attempted(), Action::RunShutdown);
    lemma_occurrences_opt(o.start_attempted(), Action::StartProgram, Action::RunShutdown);
    lemma_occurrences_opt(o.wait_attempted(), Action::WaitForExit, Action::RunShutdown);
    lemma_occurrences_opt(o.shutdown_done(), Action::RunShutdown, Action::RunShutdown);
}

/// How many toasts a directive trace holds.
pub open spec fn toast_count(tr: Seq<UIDirective>) -> nat
    decreases tr.len(),
{
    if tr.len() == 0 {
        0
    } else {
        (if tr.last() is Toast {
            1nat
        } else {
            0nat
        }) + toast_count(tr.drop_last())
    }
}

/// Toast counts add up over concatenation.
proof fn lemma_toast_count_add(x: Seq<UIDirective>, y: Seq<UIDirective>)
    ensures
        toast_count(x + y) == toast_count(x) + toast_count(y),
    decreases y.len(),
{
    if y.len() == 0 {
        assert(x + y =~= x);
    } else {
        assert((x + y).drop_last() =~= x + y.drop_last());
        assert((x + y).last() == y.last());
        lemma_toast_count_add(x, y.drop_last());
    }
}

/// A trace without toasts counts none.
proof fn lemma_toast_count_none(tr: Seq<UIDirective>)
    requires
        forall|i: int| 0 <= i < tr.len() ==> !(tr[i] is Toast),
    ensures
        toast_count(tr) == 0,
    decreases tr.len(),
{
    if tr.len() > 0 {
        lemma_toast_count_none(tr.drop_last());
    }
}

/// The policy itself never toasts: error reporting is not its business.
proof fn lemma_policy_no_toast(b: LauncherBehavior, p: LaunchPhase)
    ensures
        toast_count(policy(b, p)) == 0,
        forall|i: int| 0 <= i < policy(b, p).len() ==> !(policy(b, p)[i] is Toast),
{
    assert forall|i: int| 0 <= i < policy(b, p).len() implies !(policy(b, p)[i] is Toast) by {
        match (b, p) {
            (LauncherBehavior::Nothing, _) => {
                assert(policy(b, p)[0] == policy(b, p)[i] || policy(b, p)[1] == policy(b, p)[i]);
            },
            _ => {
            },
        }
    }
    lemma_toast_count_none(policy(b, p));
}

/// A finished attempt's trace holds exactly one toast if and only if the
/// outcome is a failure variant, and no toast on success.
pub proof fn lemma_one_toast_iff_failure(o: Orchestrator)
    requires
        o.wf(),
        o.stage is Finished,
    ensures
        toast_count(o.sent@) == (if o.spec_outcome().spec_is_failure() {
            1nat
        } else {
            0nat
        }),
{
    let b = o.behavior;
    let oc = o.spec_outcome();
    let tr = o.sent@;
    let pre = policy(b, LaunchPhase::PreStart);
    let post = policy(b, LaunchPhase::PostExit);
    lemma_policy_no_toast(b, LaunchPhase::PreStart);
    lemma_policy_no_toast(b, LaunchPhase::PostExit);
    if oc.spec_is_failure() {
        let mid = seq![tr[pre.len() as int]];
        assert(tr =~= pre + mid + post);
        lemma_toast_count_add(pre + mid, post);
        lemma_toast_count_add(pre, mid);
        reveal_with_fuel(toast_count, 2);
        assert(mid.drop_last() =~= Seq::<UIDirective>::empty());
        assert(mid.last() is Toast);
    } else {
        lemma_toast_count_add(pre, post);
    }
}

/// Directive order is invariant: a finished attempt's trace is the pre-start
/// directives, then the failure toast if the outcome is a failure, then the
/// post-exit directives — so the pre-start directives strictly precede any
/// toast, which strictly precedes the post-exit directives.
pub proof fn lemma_directive_order(o: Orchestrator)
    requires
        o.wf(),
        o.stage is Finished,
    ensures
        is_attempt_trace(o.behavior, o.spec_outcome(), o.sent@),
        forall|i: int|
            0 <= i < o.sent@.len() && o.sent@[i] is Toast ==> i == policy(
                o.behavior,
                LaunchPhase::PreStart,
            ).len(),
{
    let pre = policy(o.behavior, LaunchPhase::PreStart);
    let post = policy(o.behavior, LaunchPhase::PostExit);
    let tr = o.sent@;
    lemma_policy_no_toast(o.behavior, LaunchPhase::PreStart);
    lemma_policy_no_toast(o.behavior, LaunchPhase::PostExit);
    assert forall|i: int| 0 <= i < tr.len() && tr[i] is Toast implies i == pre.len() by {
        if o.spec_outcome().spec_is_failure() {
            if i < pre.len() {
                assert(tr.subrange(0, pre.len() as int)[i] == tr[i]);
            } else if i > pre.len() {
                assert(tr.subrange(pre.len() as int + 1, tr.len() as int)[i - pre.len() - 1]
                    == tr[i]);
            }
        } else {
            assert(tr == pre + post);
            if i < pre.len() {
                assert(tr[i] == pre[i]);
            } else {
                assert(tr[i] == post[i - pre.len()]);
            }
        }
    }
}

} // verus!
