//! The behavior policy: which UI directives frame a launch attempt.
//!
//! A launcher behavior selects what the control window does while the external
//! program runs. The policy is a pure, total function from behavior and
//! lifecycle phase to an ordered sequence of directives.

use vstd::prelude::*;

verus! {

/// User-selected policy for the control window during a launch attempt.
#[derive(Debug, Clone, Copy, PartialEq, Eq, Structural)]
pub enum LauncherBehavior {
    /// Leave the window as it is; disable the launch controls instead.
    Nothing,
    /// Hide the window while the program runs, show it again afterwards.
    Hide,
    /// Close the whole application once the program has exited.
    Close,
}

/// The two lifecycle phases the policy distinguishes.
#[derive(Debug, Clone, Copy, PartialEq, Eq, Structural)]
pub enum LaunchPhase {
    /// Before any external command has run.
    PreStart,
    /// After the attempt has concluded.
    PostExit,
}

/// A one-way instruction to the front-end controller.
#[derive(Debug, Clone, PartialEq, Eq)]
pub enum UIDirective {
    /// Disable (true) or re-enable (false) the launch controls.
    DisableLaunchControls(bool),
    /// Show (true) or hide (false) the kill switch.
    SetKillSwitch(bool),
    /// Hide the control window.
    HideWindow,
    /// Show the control window again.
    ShowWindow,
    /// Surface a user-visible error report.
    Toast { title: String, detail: Option<String> },
    /// Quit the whole application.
    TerminateApplication,
}

impl UIDirective {
    /// Whether handling this directive is only valid on the interactive
    /// run loop, so that a worker context must route it there instead of
    /// acting on it directly.
    pub fn requires_main_context(&self) -> (r: bool)
        ensures
            r == (self is TerminateApplication),
    {
        match self {
            UIDirective::TerminateApplication => true,
            _ => false,
        }
    }
}

/// The directives the policy owes for a behavior in a phase, in order.
pub open spec fn policy(b: LauncherBehavior, p: LaunchPhase) -> Seq<UIDirective> {
    match (b, p) {
        (LauncherBehavior::Nothing, LaunchPhase::PreStart) => seq![
            UIDirective::DisableLaunchControls(true),
            UIDirective::SetKillSwitch(true),
        ],
        (LauncherBehavior::Nothing, LaunchPhase::PostExit) => seq![
            UIDirective::SetKillSwitch(false),
            UIDirective::DisableLaunchControls(false),
        ],
        (LauncherBehavior::Hide, LaunchPhase::PreStart) => seq![UIDirective::HideWindow],
        (LauncherBehavior::Hide, LaunchPhase::PostExit) => seq![UIDirective::ShowWindow],
        (LauncherBehavior::Close, LaunchPhase::PreStart) => Seq::empty(),
        (LauncherBehavior::Close, LaunchPhase::PostExit) => seq![
            UIDirective::TerminateApplication,
        ],
    }
}

/// Compute the directives for a behavior in a phase.
///
/// Returns zero, one or two directives; their order is part of the contract.
pub fn directives_for(b: LauncherBehavior, p: LaunchPhase) -> (r: Vec<UIDirective>)
    ensures
        r@ == policy(b, p),
{
    let mut r: Vec<UIDirective> = Vec::new();
    match (b, p) {
        (LauncherBehavior::Nothing, LaunchPhase::PreStart) => {
            r.push(UIDirective::DisableLaunchControls(true));
            r.push(UIDirective::SetKillSwitch(true));
        }
        (LauncherBehavior::Nothing, LaunchPhase::PostExit) => {
            r.push(UIDirective::SetKillSwitch(false));
            r.push(UIDirective::DisableLaunchControls(false));
        }
        (LauncherBehavior::Hide, LaunchPhase::PreStart) => {
            r.push(UIDirective::HideWindow);
        }
        (LauncherBehavior::Hide, LaunchPhase::PostExit) => {
            r.push(UIDirective::ShowWindow);
        }
        (LauncherBehavior::Close, LaunchPhase::PreStart) => {}
        (LauncherBehavior::Close, LaunchPhase::PostExit) => {
            r.push(UIDirective::TerminateApplication);
        }
    }
    proof {
        assert(r@ =~= policy(b, p));
    }
    r
}

/// The front-end state the directives act on, as the policy sees it.
pub struct UiState {
    pub controls_enabled: bool,
    pub kill_switch: bool,
    pub window_shown: bool,
    pub terminated: bool,
}

/// What one directive does to the front-end state. A toast changes no state.
pub open spec fn apply_directive(s: UiState, d: UIDirective) -> UiState {
    match d {
        UIDirective::DisableLaunchControls(b) => UiState { controls_enabled: !b, ..s },
        UIDirective::SetKillSwitch(b) => UiState { kill_switch: b, ..s },
        UIDirective::HideWindow => UiState { window_shown: false, ..s },
        UIDirective::ShowWindow => UiState { window_shown: true, ..s },
        UIDirective::Toast { .. } => s,
        UIDirective::TerminateApplication => UiState { terminated: true, ..s },
    }
}

/// What a sequence of directives does to the front-end state, left to right.
pub open spec fn apply_directives(s: UiState, ds: Seq<UIDirective>) -> UiState
    decreases ds.len(),
{
    if ds.len() == 0 {
        s
    } else {
        apply_directives(apply_directive(s, ds.first()), ds.drop_first())
    }
}

/// Toasts never change the front-end state.
pub proof fn lemma_toasts_preserve_state(s: UiState, mid: Seq<UIDirective>)
    requires
        forall|i: int| 0 <= i < mid.len() ==> mid[i] is Toast,
    ensures
        apply_directives(s, mid) == s,
    decreases mid.len(),
{
    if mid.len() > 0 {
        assert(mid.first() is Toast);
        lemma_toasts_preserve_state(s, mid.drop_first());
    }
}

/// Applying a singleton directive sequence is applying its directive.
proof fn lemma_apply_one(s: UiState, a: UIDirective)
    ensures
        apply_directives(s, seq![a]) == apply_directive(s, a),
{
    reveal_with_fuel(apply_directives, 2);
    assert(seq![a].drop_first() =~= Seq::<UIDirective>::empty());
}

/// Applying a two-directive sequence applies both, left to right.
proof fn lemma_apply_two(s: UiState, a: UIDirective, b: UIDirective)
    ensures
        apply_directives(s, seq![a, b]) == apply_directive(apply_directive(s, a), b),
{
    let ds = seq![a, b];
    assert(ds.drop_first() =~= seq![b]);
    lemma_apply_one(apply_directive(s, a), b);
}

/// The pre-start directives, eventually followed by the post-exit directives,
/// restore what they touched: with behavior `Nothing` the launch controls
/// (disabled, then re-enabled) and the kill switch (shown, then removed)
/// return to their pre-launch state — controls enabled, no kill switch, as
/// they stand whenever a launch can be requested — and with behavior `Hide`
/// the window ends up shown. Any toasts reported in between change nothing.
pub proof fn lemma_policy_restores_ui(b: LauncherBehavior, s: UiState, mid: Seq<UIDirective>)
    requires
        forall|i: int| 0 <= i < mid.len() ==> mid[i] is Toast,
        b is Nothing ==> s.controls_enabled && !s.kill_switch,
    ensures
        ({
            let t = apply_directives(
                apply_directives(apply_directives(s, policy(b, LaunchPhase::PreStart)), mid),
                policy(b, LaunchPhase::PostExit),
            );
            &&& b is Nothing ==> t.controls_enabled == s.controls_enabled
                && t.kill_switch == s.kill_switch
            &&& b is Hide ==> t.window_shown
        }),
{
    let pre = apply_directives(s, policy(b, LaunchPhase::PreStart));
    lemma_toasts_preserve_state(pre, mid);
    match b {
        LauncherBehavior::Nothing => {
            lemma_apply_two(
                s,
                UIDirective::DisableLaunchControls(true),
                UIDirective::SetKillSwitch(true),
            );
            lemma_apply_two(
                pre,
                UIDirective::SetKillSwitch(false),
                UIDirective::DisableLaunchControls(false),
            );
        }
        LauncherBehavior::Hide => {
            lemma_apply_one(s, UIDirective::HideWindow);
            lemma_apply_one(pre, UIDirective::ShowWindow);
        }
        LauncherBehavior::Close => {
            lemma_apply_one(pre, UIDirective::TerminateApplication);
        }
    }
}

} // verus!
