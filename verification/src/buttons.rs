//! The reaction mini-game: light a random LED and drain the player's health
//! if the matching button is not pressed in time. No damage is dealt inside
//! the reaction window; after it the player loses 1 hit point, then 2, 4, ...
//! on every damage tick (doubling, saturating) until the button is pressed.
use vstd::prelude::*;
use vstd::arithmetic::power2::pow2;
use crate::leds::{Rgb, LED_COUNT, spec_dark_frame, spec_lit_frame, dark_frame, lit_frame};
use crate::state::{AppState, spec_player_defeated};

verus! {

/// Time after lighting an LED in which a press costs the player nothing, in
/// microseconds (800 ms).
pub const REACTION_WINDOW_US: u64 = 800_000;

/// Pause between two damage ticks once the reaction window has passed, in
/// milliseconds.
pub const DAMAGE_TICK_MS: u64 = 150;

/// Pause between two looks at the shared state while waiting for the game
/// to begin, in milliseconds.
pub const GAME_POLL_MS: u64 = 50;

/// Pause between two looks at the lit button inside the reaction window, in
/// milliseconds.
pub const REACTION_POLL_MS: u64 = 5;

/// Shortest pause between a press and the next LED, in milliseconds.
pub const GAP_MIN_MS: u32 = 300;

/// The pause between a press and the next LED is `GAP_MIN_MS` plus a random
/// amount below this, in milliseconds.
pub const GAP_SPREAD_MS: u32 = 700;


/// Where the reaction task stands: which action it has asked for and is
/// waiting to hear the outcome of.
#[derive(Clone, Copy, Debug, PartialEq, Eq, Structural)]
pub enum ReactionPhase {
    /// Asked for the shared state, to see whether the game has begun.
    AwaitGame,
    /// Sleeping before looking at the shared state again.
    AwaitGameRetry,
    /// Asked for the shared state at the start of a round.
    RoundStart,
    /// Asked for a random number to choose the LED.
    PickLed,
    /// Asked to light `led` and note the time.
    Lighting { led: usize },
    /// Asked for the button levels; `damage` is the next tick's damage.
    Polling { led: usize, damage: u32 },
    /// Asked for the time since the LED was lit.
    Timing { led: usize, damage: u32 },
    /// Asked to deal `damage` to the player.
    Damaging { led: usize, damage: u32 },
    /// Asked for the shared state after dealing damage.
    Checking { led: usize, damage: u32 },
    /// Sleeping before polling the button again.
    Waiting { led: usize, damage: u32 },
    /// Asked to darken the strip after a press.
    Releasing,
    /// Asked for a random number to choose the pause before the next LED.
    PickGap,
    /// Sleeping before the next round.
    Resting,
    /// Asked to darken the strip after the player was defeated.
    Defeated,
    /// Asked for the last action before stopping.
    Finishing,
    /// Stopped.
    Finished,
}

/// What the caller observed when carrying out the last action.
#[derive(Clone, Copy, Debug, PartialEq, Eq)]
pub enum ReactionEvent {
    /// The action was carried out and has nothing to report.
    Done,
    /// The shared state that was read.
    State(AppState),
    /// A random number that was drawn.
    Random(u32),
    /// For each button, whether it is pressed (its line reads low).
    Buttons([bool; 4]),
    /// Microseconds since the LED was lit.
    Elapsed(u64),
}

/// The next thing the caller is to do.
#[derive(Clone, Copy, Debug, PartialEq, Eq)]
pub enum ReactionAction {
    /// Read the shared state and report it.
    ReadState,
    /// Sleep for `ms` milliseconds.
    Sleep { ms: u64 },
    /// Draw a random number and report it.
    DrawRandom,
    /// Write `frame` to the strip and note the time as the moment the LED
    /// was lit.
    Light { frame: [Rgb; 4] },
    /// Write `frame` to the strip.
    Clear { frame: [Rgb; 4] },
    /// Read the four buttons and report which are pressed.
    ReadButtons,
    /// Report the time since the LED was lit.
    ReadElapsed,
    /// Lower the player's health in the shared state by `amount`.
    Damage { amount: u32 },
    /// Replace the shared state by `state`.
    SetState { state: AppState },
    /// End the task.
    Stop,
}

/// The reaction task as a state machine.
pub struct ReactionGame {
    phase: ReactionPhase,
}

/// A run of the reaction task: it passes through `phases`, hearing
/// `events[i]` in `phases[i]`, moving to `phases[i + 1]` and asking for
/// `actions[i]`.
pub open spec fn spec_reaction_run(
    phases: Seq<ReactionPhase>,
    events: Seq<ReactionEvent>,
    actions: Seq<ReactionAction>,
) -> bool {
    &&& phases.len() == events.len() + 1
    &&& actions.len() == events.len()
    &&& forall|i: int| #![trigger events[i]] 0 <= i < events.len() ==> spec_reaction_step(phases[i], events[i], phases[i + 1], actions[i])
}

/// How many times the player has been damaged since the last LED was lit,
/// among the actions `acts` (all of them if no LED was lit).
pub open spec fn spec_damages_since_light(acts: Seq<ReactionAction>) -> nat
    decreases acts.len(),
{
    if acts.len() == 0 {
        0
    } else if acts.last() is Light {
        0
    } else if acts.last() is Damage {
        spec_damages_since_light(acts.drop_last()) + 1
    } else {
        spec_damages_since_light(acts.drop_last())
    }
}

/// What the damage carried by phase `p` says, after actions `acts`: it is
/// the damage of the tick numbered by the damages dealt since the LED was
/// lit.
pub open spec fn spec_damage_matches_run(p: ReactionPhase, acts: Seq<ReactionAction>) -> bool {
    match p {
        ReactionPhase::Lighting { .. } => spec_damages_since_light(acts) == 0,
        ReactionPhase::Polling { damage, .. } => damage == spec_tick_damage(spec_damages_since_light(acts)),
        ReactionPhase::Timing { damage, .. } => damage == spec_tick_damage(spec_damages_since_light(acts)),
        ReactionPhase::Waiting { damage, .. } => damage == spec_tick_damage(spec_damages_since_light(acts)),
        ReactionPhase::Damaging { damage, .. } => spec_damages_since_light(acts) >= 1
            && damage == spec_tick_damage((spec_damages_since_light(acts) - 1) as nat),
        ReactionPhase::Checking { damage, .. } => spec_damages_since_light(acts) >= 1
            && damage == spec_tick_damage((spec_damages_since_light(acts) - 1) as nat),
        _ => true,
    }
}

proof fn lemma_damage_matches_run(
    phases: Seq<ReactionPhase>,
    events: Seq<ReactionEvent>,
    actions: Seq<ReactionAction>,
    n: int,
)
    requires
        spec_reaction_run(phases, events, actions),
        phases[0] == ReactionPhase::AwaitGame,
        0 <= n <= events.len(),
    ensures
        spec_damage_matches_run(phases[n], actions.take(n)),
    decreases n,
{
    if n > 0 {
        lemma_damage_matches_run(phases, events, actions, n - 1);
        let prev = actions.take(n - 1);
        let cur = actions.take(n);
        assert(cur.drop_last() =~= prev);
        assert(cur.last() == actions[n - 1]);
        assert(spec_reaction_step(phases[n - 1], events[n - 1], phases[n], actions[n - 1]));
        let c = spec_damages_since_light(prev);
        if c > 0 {
            lemma_tick_damage_doubles((c - 1) as nat);
        }
        lemma_first_tick_damage();
    }
}

/// Within a round, the `k`-th damage (counting from one) lowers the
/// player's health by `2^(k-1)`, saturating at `u32::MAX`, and comes only
/// after the reaction window: in any run of the task from its start, each
/// request to damage the player asks for the damage of the tick numbered by
/// the damages already dealt since the LED was lit, so the count starts
/// again at 1 in every round.
pub proof fn lemma_round_damage_schedule(
    phases: Seq<ReactionPhase>,
    events: Seq<ReactionEvent>,
    actions: Seq<ReactionAction>,
    i: int,
)
    requires
        spec_reaction_run(phases, events, actions),
        phases[0] == ReactionPhase::AwaitGame,
        0 <= i < actions.len(),
        actions[i] is Damage,
    ensures
        actions[i] == (ReactionAction::Damage { amount: spec_tick_damage(spec_damages_since_light(actions.take(i))) }),
        events[i] matches ReactionEvent::Elapsed(t) && t > REACTION_WINDOW_US,
{
    lemma_damage_matches_run(phases, events, actions, i);
    assert(spec_reaction_step(phases[i], events[i], phases[i + 1], actions[i]));
    lemma_damage_only_after_window(phases[i], events[i], phases[i + 1], actions[i]);
}

/// Once the player is defeated, the task never asks for damage again.
proof fn lemma_defeat_is_final(
    phases: Seq<ReactionPhase>,
    events: Seq<ReactionEvent>,
    actions: Seq<ReactionAction>,
    start: int,
    k: int,
)
    requires
        spec_reaction_run(phases, events, actions),
        0 <= start <= k <= events.len(),
        phases[start] == ReactionPhase::Defeated,
    ensures
        phases[k] == ReactionPhase::Defeated || phases[k] == ReactionPhase::Finishing
            || phases[k] == ReactionPhase::Finished,
        k < events.len() ==> !(actions[k] is Damage),
    decreases k - start,
{
    if k > start {
        lemma_defeat_is_final(phases, events, actions, start, k - 1);
        assert(spec_reaction_step(phases[k - 1], events[k - 1], phases[k], actions[k - 1]));
    }
    if k < events.len() {
        assert(spec_reaction_step(phases[k], events[k], phases[k + 1], actions[k]));
    }
}

/// Two damages are separated by a `DAMAGE_TICK_MS` sleep: after each one
/// the task reads the state and then either sleeps for a damage tick or, the
/// player being defeated, never damages again.
pub proof fn lemma_damage_ticks_spaced(
    phases: Seq<ReactionPhase>,
    events: Seq<ReactionEvent>,
    actions: Seq<ReactionAction>,
    i: int,
    j: int,
)
    requires
        spec_reaction_run(phases, events, actions),
        0 <= i < j < actions.len(),
        actions[i] is Damage,
        actions[j] is Damage,
    ensures
        actions[i + 1] == ReactionAction::ReadState,
        actions[i + 2] == (ReactionAction::Sleep { ms: DAMAGE_TICK_MS }),
        i + 2 < j,
{
    assert(spec_reaction_step(phases[i], events[i], phases[i + 1], actions[i]));
    assert(spec_reaction_step(phases[i + 1], events[i + 1], phases[i + 2], actions[i + 1]));
    assert(i + 1 != j);
    assert(j >= i + 2);
    assert(spec_reaction_step(phases[i + 2], events[i + 2], phases[i + 3], actions[i + 2]));
    if phases[i + 3] == ReactionPhase::Defeated {
        lemma_defeat_is_final(phases, events, actions, i + 3, j);
        assert(false);
    }
}

/// The LED that a phase watches, if it is in a round.
pub open spec fn spec_watched_led(p: ReactionPhase) -> Option<usize> {
    match p {
        ReactionPhase::Lighting { led } => Some(led),
        ReactionPhase::Polling { led, .. } => Some(led),
        ReactionPhase::Timing { led, .. } => Some(led),
        ReactionPhase::Damaging { led, .. } => Some(led),
        ReactionPhase::Checking { led, .. } => Some(led),
        ReactionPhase::Waiting { led, .. } => Some(led),
        _ => None,
    }
}

/// Within a round the watched LED never changes: a step between two phases
/// of a round keeps the LED, and a round can only be entered by lighting an
/// LED.
pub proof fn lemma_step_keeps_watched_led(
    p: ReactionPhase,
    e: ReactionEvent,
    q: ReactionPhase,
    a: ReactionAction,
)
    requires
        spec_reaction_step(p, e, q, a),
        spec_watched_led(q) is Some,
    ensures
        !(q is Lighting) ==> spec_watched_led(p) == spec_watched_led(q),
        (spec_watched_led(p) is None) ==> (q is Lighting && p == ReactionPhase::PickLed),
{
}

/// In any run, every phase after `Lighting { led }` and up to the next
/// `Lighting` that is in a round watches that same `led`; so pressing the
/// button of the lit LED is what ends the round.
pub proof fn lemma_run_keeps_watched_led(
    phases: Seq<ReactionPhase>,
    events: Seq<ReactionEvent>,
    actions: Seq<ReactionAction>,
    i: int,
    j: int,
    led: usize,
)
    requires
        spec_reaction_run(phases, events, actions),
        0 <= i <= j < phases.len(),
        phases[i] == (ReactionPhase::Lighting { led }),
        forall|k: int| i < k <= j ==> !(#[trigger] phases[k] is Lighting),
    ensures
        spec_watched_led(phases[j]) is Some ==> spec_watched_led(phases[j]) == Some(led),
    decreases j - i,
{
    if j > i {
        assert(!(phases[j] is Lighting));
        assert(spec_reaction_step(phases[j - 1], events[j - 1], phases[j], actions[j - 1]));
        if spec_watched_led(phases[j]) is Some {
            lemma_step_keeps_watched_led(phases[j - 1], events[j - 1], phases[j], actions[j - 1]);
            lemma_run_keeps_watched_led(phases, events, actions, i, j - 1, led);
        }
    }
}

/// Once the reaction window has passed, every look at the clock deals the
/// round's current damage; inside the window it deals none and polls again
/// after `REACTION_POLL_MS`. The LED and damage carry over.
pub proof fn lemma_timing_decides_damage(
    led: usize,
    damage: u32,
    t: u64,
    q: ReactionPhase,
    a: ReactionAction,
)
    requires
        spec_reaction_step(ReactionPhase::Timing { led, damage }, ReactionEvent::Elapsed(t), q, a),
    ensures
        t > REACTION_WINDOW_US ==> a == (ReactionAction::Damage { amount: damage })
            && q == (ReactionPhase::Damaging { led, damage }),
        t <= REACTION_WINDOW_US ==> a == (ReactionAction::Sleep { ms: 5 })
            && q == (ReactionPhase::Waiting { led, damage }),
{
}

/// After dealing damage the task looks at the state: a defeated player,
/// whatever the damage reached, ends the game (the strip goes dark on the
/// way to the losing end screen); otherwise it waits a damage tick and the
/// next tick's damage is twice this one, or `u32::MAX` once that no longer
/// fits.
pub proof fn lemma_checking_decides_defeat(
    led: usize,
    damage: u32,
    s: AppState,
    q: ReactionPhase,
    a: ReactionAction,
)
    requires
        spec_reaction_step(ReactionPhase::Checking { led, damage }, ReactionEvent::State(s), q, a),
    ensures
        spec_player_defeated(s) ==> q == ReactionPhase::Defeated && spec_is_dark(a),
        !spec_player_defeated(s) ==> a == (ReactionAction::Sleep { ms: 150 })
            && (q matches ReactionPhase::Waiting { led: l2, damage: d2 }
                && l2 == led
                && (2 * damage <= u32::MAX ==> d2 == 2 * damage)
                && (2 * damage > u32::MAX ==> d2 == u32::MAX)),
{
}

/// The steps between looks at the button keep the round as it is: dealing
/// damage is followed by reading the state, and a sleep by reading the
/// buttons, with the same LED and damage.
pub proof fn lemma_round_bookkeeping(
    led: usize,
    damage: u32,
    e: ReactionEvent,
    q1: ReactionPhase,
    a1: ReactionAction,
    q2: ReactionPhase,
    a2: ReactionAction,
)
    ensures
        spec_reaction_step(ReactionPhase::Damaging { led, damage }, e, q1, a1) ==>
            q1 == (ReactionPhase::Checking { led, damage }) && a1 == ReactionAction::ReadState,
        spec_reaction_step(ReactionPhase::Waiting { led, damage }, e, q2, a2) ==>
            q2 == (ReactionPhase::Polling { led, damage }) && a2 == ReactionAction::ReadButtons,
{
}

/// Before and between rounds the task follows the shared state: it starts
/// a round (reading the state, then drawing the LED) only while a game runs;
/// before the game it polls every `GAME_POLL_MS`, and after it darkens the
/// strip and stops.
pub proof fn lemma_rounds_follow_game(
    s: AppState,
    q1: ReactionPhase,
    a1: ReactionAction,
    q2: ReactionPhase,
    a2: ReactionAction,
)
    ensures
        spec_reaction_step(ReactionPhase::AwaitGame, ReactionEvent::State(s), q1, a1) ==>
            (s is Game ==> q1 == ReactionPhase::RoundStart && a1 == ReactionAction::ReadState)
            && (!(s is Game) ==> q1 == ReactionPhase::AwaitGameRetry && a1 == (ReactionAction::Sleep { ms: 50 })),
        spec_reaction_step(ReactionPhase::RoundStart, ReactionEvent::State(s), q2, a2) ==>
            (s is Game ==> q2 == ReactionPhase::PickLed && a2 == ReactionAction::DrawRandom)
            && (!(s is Game) ==> q2 == ReactionPhase::Finishing && spec_is_dark(a2)),
{
}

impl ReactionGame {
    /// The task is always in a valid phase.
    #[verifier::type_invariant]
    closed spec fn inv(self) -> bool {
        spec_valid_phase(self.phase)
    }
}

impl View for ReactionGame {
    type V = ReactionPhase;

    closed spec fn view(&self) -> ReactionPhase {
        self.phase
    }
}

/// The damage of the `k`-th damage tick of a round, counting from zero:
/// `2^k`, or `u32::MAX` once that no longer fits.
pub open spec fn spec_tick_damage(k: nat) -> u32 {
    if pow2(k) > u32::MAX {
        u32::MAX
    } else {
        pow2(k) as u32
    }
}

/// Damage that some tick of a round deals.
pub open spec fn spec_valid_damage(d: u32) -> bool {
    exists|k: nat| d == #[trigger] spec_tick_damage(k)
}

/// `d` doubled, or `u32::MAX` where that does not fit.
pub open spec fn spec_doubled(d: u32) -> u32 {
    if 2 * d > u32::MAX {
        u32::MAX
    } else {
        (2 * d) as u32
    }
}

/// The phases the machine can be in: an LED index names one of the LEDs, and
/// a damage is one that some tick deals.
pub open spec fn spec_valid_phase(p: ReactionPhase) -> bool {
    match p {
        ReactionPhase::Lighting { led } => led < LED_COUNT,
        ReactionPhase::Polling { led, damage } => led < LED_COUNT && spec_valid_damage(damage),
        ReactionPhase::Timing { led, damage } => led < LED_COUNT && spec_valid_damage(damage),
        ReactionPhase::Damaging { led, damage } => led < LED_COUNT && spec_valid_damage(damage),
        ReactionPhase::Checking { led, damage } => led < LED_COUNT && spec_valid_damage(damage),
        ReactionPhase::Waiting { led, damage } => led < LED_COUNT && spec_valid_damage(damage),
        _ => true,
    }
}

/// Whether `e` is the kind of outcome that the action asked for in phase `p`
/// reports.
pub open spec fn spec_accepts(p: ReactionPhase, e: ReactionEvent) -> bool {
    match p {
        ReactionPhase::AwaitGame => e is State,
        ReactionPhase::RoundStart => e is State,
        ReactionPhase::Checking { .. } => e is State,
        ReactionPhase::PickLed => e is Random,
        ReactionPhase::PickGap => e is Random,
        ReactionPhase::Polling { .. } => e is Buttons,
        ReactionPhase::Timing { .. } => e is Elapsed,
        ReactionPhase::Finished => true,
        _ => e is Done,
    }
}

/// An action that darkens the whole strip.
pub open spec fn spec_is_dark(a: ReactionAction) -> bool {
    a matches ReactionAction::Clear { frame } && frame@ == spec_dark_frame()
}

/// An action that lights `led` alone and notes the time.
pub open spec fn spec_is_light(a: ReactionAction, led: int) -> bool {
    a matches ReactionAction::Light { frame } && frame@ == spec_lit_frame(led)
}

/// One step of the reaction task: in phase `p`, on outcome `e`, it moves to
/// phase `q` and asks for action `a`.
pub open spec fn spec_reaction_step(
    p: ReactionPhase,
    e: ReactionEvent,
    q: ReactionPhase,
    a: ReactionAction,
) -> bool {
    match p {
        ReactionPhase::AwaitGame => match e {
            ReactionEvent::State(s) => if s is Game {
                q == ReactionPhase::RoundStart && a == ReactionAction::ReadState
            } else {
                q == ReactionPhase::AwaitGameRetry && a == (ReactionAction::Sleep { ms: GAME_POLL_MS })
            },
            _ => false,
        },
        ReactionPhase::AwaitGameRetry => q == ReactionPhase::AwaitGame && a == ReactionAction::ReadState,
        ReactionPhase::RoundStart => match e {
            ReactionEvent::State(s) => if s is Game {
                q == ReactionPhase::PickLed && a == ReactionAction::DrawRandom
            } else {
                q == ReactionPhase::Finishing && spec_is_dark(a)
            },
            _ => false,
        },
        ReactionPhase::PickLed => match e {
            ReactionEvent::Random(r) => {
                let led = (r % 4) as usize;
                q == (ReactionPhase::Lighting { led }) && spec_is_light(a, led as int)
            },
            _ => false,
        },
        ReactionPhase::Lighting { led } =>
            q == (ReactionPhase::Polling { led, damage: 1 }) && a == ReactionAction::ReadButtons,
        ReactionPhase::Polling { led, damage } => match e {
            ReactionEvent::Buttons(b) => if b@[led as int] {
                q == ReactionPhase::Releasing && spec_is_dark(a)
            } else {
                q == (ReactionPhase::Timing { led, damage }) && a == ReactionAction::ReadElapsed
            },
            _ => false,
        },
        ReactionPhase::Timing { led, damage } => match e {
            ReactionEvent::Elapsed(t) => if t > REACTION_WINDOW_US {
                q == (ReactionPhase::Damaging { led, damage }) && a == (ReactionAction::Damage { amount: damage })
            } else {
                q == (ReactionPhase::Waiting { led, damage }) && a == (ReactionAction::Sleep { ms: REACTION_POLL_MS })
            },
            _ => false,
        },
        ReactionPhase::Damaging { led, damage } =>
            q == (ReactionPhase::Checking { led, damage }) && a == ReactionAction::ReadState,
        ReactionPhase::Checking { led, damage } => match e {
            ReactionEvent::State(s) => if spec_player_defeated(s) {
                q == ReactionPhase::Defeated && spec_is_dark(a)
            } else {
                q == (ReactionPhase::Waiting { led, damage: spec_doubled(damage) })
                    && a == (ReactionAction::Sleep { ms: DAMAGE_TICK_MS })
            },
            _ => false,
        },
        ReactionPhase::Waiting { led, damage } =>
            q == (ReactionPhase::Polling { led, damage }) && a == ReactionAction::ReadButtons,
        ReactionPhase::Releasing => q == ReactionPhase::PickGap && a == ReactionAction::DrawRandom,
        ReactionPhase::PickGap => match e {
            ReactionEvent::Random(r) =>
                q == ReactionPhase::Resting && a == (ReactionAction::Sleep { ms: (GAP_MIN_MS + r % GAP_SPREAD_MS) as u64 }),
            _ => false,
        },
        ReactionPhase::Resting => q == ReactionPhase::RoundStart && a == ReactionAction::ReadState,
        ReactionPhase::Defeated =>
            q == ReactionPhase::Finishing && a == (ReactionAction::SetState { state: AppState::EndScreen { player_won: false } }),
        ReactionPhase::Finishing => q == ReactionPhase::Finished && a == ReactionAction::Stop,
        ReactionPhase::Finished => q == ReactionPhase::Finished && a == ReactionAction::Stop,
    }
}

/// `d` doubled, or `u32::MAX` where that does not fit: the next tick's
/// damage after one that dealt `d`.
pub fn doubled(d: u32) -> (r: u32)
    ensures
        r == spec_doubled(d),
{
    match d.checked_mul(2) {
        Some(v) => v,
        None => u32::MAX,
    }
}

/// Doubling the damage of one tick gives the damage of the next.
pub proof fn lemma_tick_damage_doubles(k: nat)
    ensures
        spec_doubled(spec_tick_damage(k)) == spec_tick_damage(k + 1),
{
    vstd::arithmetic::power2::lemma_pow2_unfold(k + 1);
    vstd::arithmetic::power2::lemma_pow2_pos(k);
}

/// The first tick of a round deals 1 hit point.
pub proof fn lemma_first_tick_damage()
    ensures
        spec_tick_damage(0) == 1,
        spec_valid_damage(1),
{
    vstd::arithmetic::power2::lemma2_to64();
    assert(spec_tick_damage(0) == 1);
}

/// No damage is dealt inside the reaction window: the task asks to damage
/// the player only on hearing that more than `REACTION_WINDOW_US` have passed
/// since the LED was lit, and the amount is the damage the round has reached.
pub proof fn lemma_damage_only_after_window(
    p: ReactionPhase,
    e: ReactionEvent,
    q: ReactionPhase,
    a: ReactionAction,
)
    requires
        spec_reaction_step(p, e, q, a),
        a is Damage,
    ensures
        p matches ReactionPhase::Timing { damage, .. } && a == (ReactionAction::Damage { amount: damage }),
        e matches ReactionEvent::Elapsed(t) && t > REACTION_WINDOW_US,
{
}

/// Pressing the button of the lit LED ends the round: the strip goes dark
/// and no damage follows; any other button does not.
pub proof fn lemma_press_ends_round(
    led: usize,
    damage: u32,
    b: [bool; 4],
    q: ReactionPhase,
    a: ReactionAction,
)
    requires
        led < LED_COUNT,
        spec_reaction_step(ReactionPhase::Polling { led, damage }, ReactionEvent::Buttons(b), q, a),
    ensures
        b@[led as int] ==> q == ReactionPhase::Releasing && spec_is_dark(a),
        !b@[led as int] ==> q == (ReactionPhase::Timing { led, damage }) && a == ReactionAction::ReadElapsed,
{
}

/// Each round lights the LED chosen by the random number, alone and in its
/// own colour, and then watches that same LED's button with a first damage
/// of 1 hit point.
pub proof fn lemma_round_lights_chosen_led(
    r: u32,
    q1: ReactionPhase,
    a1: ReactionAction,
    q2: ReactionPhase,
    a2: ReactionAction,
)
    requires
        spec_reaction_step(ReactionPhase::PickLed, ReactionEvent::Random(r), q1, a1),
        spec_reaction_step(q1, ReactionEvent::Done, q2, a2),
    ensures
        spec_is_light(a1, (r % 4) as int),
        q2 == (ReactionPhase::Polling { led: (r % 4) as usize, damage: 1 }),
        spec_tick_damage(0) == 1,
{
    lemma_first_tick_damage();
}

/// Within a round the damage of consecutive ticks doubles, saturating at
/// `u32::MAX`: if the current tick deals the damage of tick `k`, the next
/// one deals that of tick `k + 1`.
pub proof fn lemma_damage_doubles_per_tick(
    led: usize,
    k: nat,
    s: AppState,
    q: ReactionPhase,
    a: ReactionAction,
)
    requires
        spec_reaction_step(ReactionPhase::Checking { led, damage: spec_tick_damage(k) }, ReactionEvent::State(s), q, a),
        !spec_player_defeated(s),
    ensures
        q == (ReactionPhase::Waiting { led, damage: spec_tick_damage(k + 1) }),
        a == (ReactionAction::Sleep { ms: DAMAGE_TICK_MS }),
{
    lemma_tick_damage_doubles(k);
}

/// The end screen, with the player losing, is set only after the player was
/// seen defeated, and the strip was darkened in between.
pub proof fn lemma_end_screen_only_on_defeat(
    p: ReactionPhase,
    e: ReactionEvent,
    q: ReactionPhase,
    a: ReactionAction,
)
    requires
        spec_reaction_step(p, e, q, a),
    ensures
        a is SetState ==> p == ReactionPhase::Defeated
            && a == (ReactionAction::SetState { state: AppState::EndScreen { player_won: false } }),
        q == ReactionPhase::Defeated ==> (p is Checking && (e matches ReactionEvent::State(s) && spec_player_defeated(s))
            && spec_is_dark(a)),
{
}

/// The task stops only after darkening the strip: it asks to stop only from
/// `Finishing` (or once stopped), and it enters `Finishing` only by asking
/// to darken the strip, or by setting the end screen right after doing so.
pub proof fn lemma_stop_follows_dark_strip(
    p: ReactionPhase,
    e: ReactionEvent,
    q: ReactionPhase,
    a: ReactionAction,
)
    requires
        spec_reaction_step(p, e, q, a),
    ensures
        a == ReactionAction::Stop ==> p == ReactionPhase::Finishing || p == ReactionPhase::Finished,
        q == ReactionPhase::Finishing ==> spec_is_dark(a) || p == ReactionPhase::Defeated,
        q == ReactionPhase::Defeated ==> spec_is_dark(a),
{
}

/// Once stopped the task stays stopped.
pub proof fn lemma_finished_is_final(e: ReactionEvent, q: ReactionPhase, a: ReactionAction)
    requires
        spec_reaction_step(ReactionPhase::Finished, e, q, a),
    ensures
        q == ReactionPhase::Finished,
        a == ReactionAction::Stop,
{
}

/// The pause between a press and the next LED lasts from 300 ms up to, but
/// not including, 1000 ms: 300 ms plus the random number modulo 700; after
/// it the next round begins by reading the state.
pub proof fn lemma_gap_bounds(r: u32, q: ReactionPhase, a: ReactionAction, e: ReactionEvent, q2: ReactionPhase, a2: ReactionAction)
    requires
        spec_reaction_step(ReactionPhase::PickGap, ReactionEvent::Random(r), q, a),
    ensures
        a matches ReactionAction::Sleep { ms } && 300 <= ms < 1000 && ms == 300 + r % 700,
        spec_reaction_step(q, e, q2, a2) ==> q2 == ReactionPhase::RoundStart && a2 == ReactionAction::ReadState,
{
}

/// After a press darkens the strip the task draws a random number for the
/// pause; while waiting for the game it looks again after each poll sleep.
pub proof fn lemma_between_rounds(e: ReactionEvent, q1: ReactionPhase, a1: ReactionAction, q2: ReactionPhase, a2: ReactionAction)
    ensures
        spec_reaction_step(ReactionPhase::Releasing, e, q1, a1) ==>
            q1 == ReactionPhase::PickGap && a1 == ReactionAction::DrawRandom,
        spec_reaction_step(ReactionPhase::AwaitGameRetry, e, q2, a2) ==>
            q2 == ReactionPhase::AwaitGame && a2 == ReactionAction::ReadState,
{
}

/// A defeat always ends with the losing end screen and then the end of the
/// task: from `Defeated` the task sets `EndScreen { player_won: false }`,
/// and from `Finishing` it stops.
pub proof fn lemma_defeat_ends_game(e1: ReactionEvent, q1: ReactionPhase, a1: ReactionAction, e2: ReactionEvent, q2: ReactionPhase, a2: ReactionAction)
    ensures
        spec_reaction_step(ReactionPhase::Defeated, e1, q1, a1) ==> q1 == ReactionPhase::Finishing
            && a1 == (ReactionAction::SetState { state: AppState::EndScreen { player_won: false } }),
        spec_reaction_step(ReactionPhase::Finishing, e2, q2, a2) ==> q2 == ReactionPhase::Finished
            && a2 == ReactionAction::Stop,
{
}

/// A lit LED is polled at once, starting the round's damage at 1 hit point.
pub proof fn lemma_lit_led_is_polled(led: usize, e: ReactionEvent, q: ReactionPhase, a: ReactionAction)
    requires
        spec_reaction_step(ReactionPhase::Lighting { led }, e, q, a),
    ensures
        q == (ReactionPhase::Polling { led, damage: 1 }),
        a == ReactionAction::ReadButtons,
{
}

/// A task that finds the game over at the start of a round darkens the strip
/// and stops.
pub proof fn lemma_game_over_stops_task(s: AppState, q1: ReactionPhase, a1: ReactionAction, q2: ReactionPhase, a2: ReactionAction)
    requires
        !(s is Game),
        spec_reaction_step(ReactionPhase::RoundStart, ReactionEvent::State(s), q1, a1),
        spec_reaction_step(q1, ReactionEvent::Done, q2, a2),
    ensures
        spec_is_dark(a1),
        a2 == ReactionAction::Stop,
{
}

impl ReactionGame {
    /// A reaction task that has not yet seen the game begin, and the first
    /// thing it asks for: the shared state.
    pub fn start() -> (r: (ReactionGame, ReactionAction))
        ensures
            r.0@ == ReactionPhase::AwaitGame,
            r.1 == ReactionAction::ReadState,
            spec_valid_phase(r.0@),
    {
        (ReactionGame { phase: ReactionPhase::AwaitGame }, ReactionAction::ReadState)
    }

    /// The phase the task is in.
    pub fn phase(&self) -> (p: ReactionPhase)
        ensures
            p == self@,
            spec_valid_phase(p),
    {
        proof {
            use_type_invariant(self);
        }
        self.phase
    }

    /// Whether `event` is the kind of outcome the task is waiting for.
    pub fn accepts(&self, event: &ReactionEvent) -> (b: bool)
        ensures
            b == spec_accepts(self@, *event),
    {
        match self.phase {
            ReactionPhase::AwaitGame | ReactionPhase::RoundStart | ReactionPhase::Checking { .. } =>
                matches!(event, ReactionEvent::State(_)),
            ReactionPhase::PickLed | ReactionPhase::PickGap => matches!(event, ReactionEvent::Random(_)),
            ReactionPhase::Polling { .. } => matches!(event, ReactionEvent::Buttons(_)),
            ReactionPhase::Timing { .. } => matches!(event, ReactionEvent::Elapsed(_)),
            ReactionPhase::Finished => true,
            _ => matches!(event, ReactionEvent::Done),
        }
    }

    /// Hands the task the outcome of the action it asked for last, and
    /// returns the next action.
    pub fn step(&mut self, event: ReactionEvent) -> (a: ReactionAction)
        requires
            spec_accepts(old(self)@, event),
        ensures
            spec_reaction_step(old(self)@, event, final(self)@, a),
            spec_valid_phase(final(self)@),
    {
        proof {
            use_type_invariant(&*self);
        }
        let (q, a) = match self.phase {
            ReactionPhase::AwaitGame => match event {
                ReactionEvent::State(s) => if s.is_game() {
                    (ReactionPhase::RoundStart, ReactionAction::ReadState)
                } else {
                    (ReactionPhase::AwaitGameRetry, ReactionAction::Sleep { ms: GAME_POLL_MS })
                },
                _ => vstd::pervasive::unreached(),
            },
            ReactionPhase::AwaitGameRetry => (ReactionPhase::AwaitGame, ReactionAction::ReadState),
            ReactionPhase::RoundStart => match event {
                ReactionEvent::State(s) => if s.is_game() {
                    (ReactionPhase::PickLed, ReactionAction::DrawRandom)
                } else {
                    (ReactionPhase::Finishing, ReactionAction::Clear { frame: dark_frame() })
                },
                _ => vstd::pervasive::unreached(),
            },
            ReactionPhase::PickLed => match event {
                ReactionEvent::Random(r) => {
                    let led = (r % 4) as usize;
                    (ReactionPhase::Lighting { led }, ReactionAction::Light { frame: lit_frame(led) })
                },
                _ => vstd::pervasive::unreached(),
            },
            ReactionPhase::Lighting { led } => {
                proof {
                    lemma_first_tick_damage();
                }
                (ReactionPhase::Polling { led, damage: 1 }, ReactionAction::ReadButtons)
            },
            ReactionPhase::Polling { led, damage } => match event {
                ReactionEvent::Buttons(b) => if b[led] {
                    (ReactionPhase::Releasing, ReactionAction::Clear { frame: dark_frame() })
                } else {
                    (ReactionPhase::Timing { led, damage }, ReactionAction::ReadElapsed)
                },
                _ => vstd::pervasive::unreached(),
            },
            ReactionPhase::Timing { led, damage } => match event {
                ReactionEvent::Elapsed(t) => if t > REACTION_WINDOW_US {
                    (ReactionPhase::Damaging { led, damage }, ReactionAction::Damage { amount: damage })
                } else {
                    (ReactionPhase::Waiting { led, damage }, ReactionAction::Sleep { ms: REACTION_POLL_MS })
                },
                _ => vstd::pervasive::unreached(),
            },
            ReactionPhase::Damaging { led, damage } => (ReactionPhase::Checking { led, damage }, ReactionAction::ReadState),
            ReactionPhase::Checking { led, damage } => match event {
                ReactionEvent::State(s) => if s.player_defeated() {
                    (ReactionPhase::Defeated, ReactionAction::Clear { frame: dark_frame() })
                } else {
                    proof {
                        let k = choose|k: nat| damage == #[trigger] spec_tick_damage(k);
                        lemma_tick_damage_doubles(k);
                        assert(spec_doubled(damage) == spec_tick_damage(k + 1));
                    }
                    (ReactionPhase::Waiting { led, damage: doubled(damage) }, ReactionAction::Sleep { ms: DAMAGE_TICK_MS })
                },
                _ => vstd::pervasive::unreached(),
            },
            ReactionPhase::Waiting { led, damage } => (ReactionPhase::Polling { led, damage }, ReactionAction::ReadButtons),
            ReactionPhase::Releasing => (ReactionPhase::PickGap, ReactionAction::DrawRandom),
            ReactionPhase::PickGap => match event {
                ReactionEvent::Random(r) =>
                    (ReactionPhase::Resting, ReactionAction::Sleep { ms: (GAP_MIN_MS + r % GAP_SPREAD_MS) as u64 }),
                _ => vstd::pervasive::unreached(),
            },
            ReactionPhase::Resting => (ReactionPhase::RoundStart, ReactionAction::ReadState),
            ReactionPhase::Defeated =>
                (ReactionPhase::Finishing, ReactionAction::SetState { state: AppState::EndScreen { player_won: false } }),
            ReactionPhase::Finishing => (ReactionPhase::Finished, ReactionAction::Stop),
            ReactionPhase::Finished => (ReactionPhase::Finished, ReactionAction::Stop),
        };
        self.phase = q;
        a
    }
}

} // verus!
