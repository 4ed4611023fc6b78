//! The top-level game flow: hold the start screen, show the rules, then drop
//! into the game. Winning and losing are decided by the other tasks.
use vstd::prelude::*;
use crate::state::{AppState, spec_initial_game};

verus! {

/// How long the start screen is held, in seconds.
pub const START_SCREEN_SECS: u64 = 20;

/// How long the rules are shown, in seconds.
pub const RULES_SCREEN_SECS: u64 = 30;

/// Where the flow stands: which action it has asked for last.
#[derive(Clone, Copy, Debug, PartialEq, Eq, Structural)]
pub enum FlowPhase {
    /// Asked to show the start screen.
    ShowStart,
    /// Holding the start screen.
    HoldStart,
    /// Asked to show the rules.
    ShowRules,
    /// Holding the rules.
    HoldRules,
    /// Asked to begin the game.
    BeginGame,
    /// Done.
    Finished,
}

/// The next thing the caller is to do.
#[derive(Clone, Copy, Debug, PartialEq, Eq, Structural)]
pub enum FlowAction {
    /// Replace the shared state by `state`.
    SetState { state: AppState },
    /// Sleep for `secs` seconds.
    Sleep { secs: u64 },
    /// End the task.
    Stop,
}

/// The game flow as a state machine. Every action it asks for reports
/// nothing back, so a step needs no input.
pub struct GameFlow {
    phase: FlowPhase,
}

impl View for GameFlow {
    type V = FlowPhase;

    closed spec fn view(&self) -> FlowPhase {
        self.phase
    }
}

/// One step of the flow: once the action asked for in phase `p` is done, the
/// flow moves to the first component and asks for the second.
pub open spec fn spec_flow_step(p: FlowPhase) -> (FlowPhase, FlowAction) {
    match p {
        FlowPhase::ShowStart => (FlowPhase::HoldStart, FlowAction::Sleep { secs: START_SCREEN_SECS }),
        FlowPhase::HoldStart => (FlowPhase::ShowRules, FlowAction::SetState { state: AppState::Rules }),
        FlowPhase::ShowRules => (FlowPhase::HoldRules, FlowAction::Sleep { secs: RULES_SCREEN_SECS }),
        FlowPhase::HoldRules => (FlowPhase::BeginGame, FlowAction::SetState { state: spec_initial_game() }),
        FlowPhase::BeginGame => (FlowPhase::Finished, FlowAction::Stop),
        FlowPhase::Finished => (FlowPhase::Finished, FlowAction::Stop),
    }
}

/// The actions asked for in `n` steps from phase `p`, in order.
pub open spec fn spec_flow_trace(p: FlowPhase, n: nat) -> Seq<FlowAction>
    decreases n,
{
    if n == 0 {
        Seq::empty()
    } else {
        let (q, a) = spec_flow_step(p);
        seq![a] + spec_flow_trace(q, (n - 1) as nat)
    }
}

impl GameFlow {
    /// A fresh flow, and the first thing it asks for: the start screen.
    pub fn start() -> (r: (GameFlow, FlowAction))
        ensures
            r.0@ == FlowPhase::ShowStart,
            r.1 == (FlowAction::SetState { state: AppState::Start }),
    {
        (GameFlow { phase: FlowPhase::ShowStart }, FlowAction::SetState { state: AppState::Start })
    }

    /// The phase the flow is in.
    pub fn phase(&self) -> (p: FlowPhase)
        ensures
            p == self@,
    {
        self.phase
    }

    /// Reports the last action done, and returns the next one.
    pub fn step(&mut self) -> (a: FlowAction)
        ensures
            (final(self)@, a) == spec_flow_step(old(self)@),
    {
        let (q, a) = match self.phase {
            FlowPhase::ShowStart => (FlowPhase::HoldStart, FlowAction::Sleep { secs: START_SCREEN_SECS }),
            FlowPhase::HoldStart => (FlowPhase::ShowRules, FlowAction::SetState { state: AppState::Rules }),
            FlowPhase::ShowRules => (FlowPhase::HoldRules, FlowAction::Sleep { secs: RULES_SCREEN_SECS }),
            FlowPhase::HoldRules => (FlowPhase::BeginGame, FlowAction::SetState { state: AppState::initial_game() }),
            FlowPhase::BeginGame => (FlowPhase::Finished, FlowAction::Stop),
            FlowPhase::Finished => (FlowPhase::Finished, FlowAction::Stop),
        };
        self.phase = q;
        a
    }
}

/// The whole flow: after showing the start screen it holds it for 20 s,
/// shows the rules, holds them for 30 s, begins a game at full health with a
/// neutral soup, and stops.
pub proof fn lemma_flow_schedule()
    ensures
        spec_flow_trace(FlowPhase::ShowStart, 5) == seq![
            FlowAction::Sleep { secs: 20 },
            FlowAction::SetState { state: AppState::Rules },
            FlowAction::Sleep { secs: 30 },
            FlowAction::SetState { state: spec_initial_game() },
            FlowAction::Stop,
        ],
{
    reveal_with_fuel(spec_flow_trace, 6);
    assert(spec_flow_trace(FlowPhase::ShowStart, 5) =~= seq![
        FlowAction::Sleep { secs: 20 },
        FlowAction::SetState { state: AppState::Rules },
        FlowAction::Sleep { secs: 30 },
        FlowAction::SetState { state: spec_initial_game() },
        FlowAction::Stop,
    ]);
}

/// Once finished the flow asks for nothing but to stop, however often it is
/// stepped.
pub proof fn lemma_flow_finished_is_final(n: nat)
    ensures
        spec_flow_trace(FlowPhase::Finished, n) == Seq::new(n, |i: int| FlowAction::Stop),
    decreases n,
{
    if n > 0 {
        lemma_flow_finished_is_final((n - 1) as nat);
        assert(spec_flow_trace(FlowPhase::Finished, n) =~= Seq::new(n, |i: int| FlowAction::Stop));
    } else {
        assert(spec_flow_trace(FlowPhase::Finished, n) =~= Seq::new(n, |i: int| FlowAction::Stop));
    }
}

} // verus!
