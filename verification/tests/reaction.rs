use firmware::buttons::doubled;
use firmware::buttons::{ReactionAction, ReactionEvent, ReactionGame, ReactionPhase};
use firmware::leds::{dark_frame, lit_frame};
use firmware::state::{AppState, SoupStatus};

fn game(player_hp: u32) -> AppState {
    AppState::Game {
        soup_hp: 100,
        player_hp,
        soup_status: SoupStatus::Neutral,
        sweet_spot_min: 0,
        sweet_spot_max: 0,
        sweet_spot_progress: 0,
        loadcell_reading: 0,
    }
}

fn step(g: &mut ReactionGame, e: ReactionEvent) -> ReactionAction {
    assert!(g.accepts(&e));
    g.step(e)
}

/// A task that is in a round with LED `led` lit and polling its button.
fn in_round(led: u32) -> ReactionGame {
    let (mut g, a) = ReactionGame::start();
    assert_eq!(a, ReactionAction::ReadState);
    assert_eq!(step(&mut g, ReactionEvent::State(game(100))), ReactionAction::ReadState);
    assert_eq!(step(&mut g, ReactionEvent::State(game(100))), ReactionAction::DrawRandom);
    assert_eq!(
        step(&mut g, ReactionEvent::Random(led)),
        ReactionAction::Light { frame: lit_frame((led % 4) as usize) }
    );
    assert_eq!(step(&mut g, ReactionEvent::Done), ReactionAction::ReadButtons);
    g
}

#[test]
fn waits_for_the_game_to_begin() {
    let (mut g, a) = ReactionGame::start();
    assert_eq!(a, ReactionAction::ReadState);
    assert_eq!(g.phase(), ReactionPhase::AwaitGame);
    assert_eq!(step(&mut g, ReactionEvent::State(AppState::Start)), ReactionAction::Sleep { ms: 50 });
    assert_eq!(step(&mut g, ReactionEvent::Done), ReactionAction::ReadState);
    assert_eq!(step(&mut g, ReactionEvent::State(AppState::Rules)), ReactionAction::Sleep { ms: 50 });
    assert_eq!(step(&mut g, ReactionEvent::Done), ReactionAction::ReadState);
    assert_eq!(step(&mut g, ReactionEvent::State(game(100))), ReactionAction::ReadState);
    assert_eq!(g.phase(), ReactionPhase::RoundStart);
}

#[test]
fn led_is_random_number_mod_four() {
    let g = in_round(6);
    assert_eq!(g.phase(), ReactionPhase::Polling { led: 2, damage: 1 });
    let g = in_round(u32::MAX);
    assert_eq!(g.phase(), ReactionPhase::Polling { led: 3, damage: 1 });
    let g = in_round(0);
    assert_eq!(g.phase(), ReactionPhase::Polling { led: 0, damage: 1 });
}

#[test]
fn no_damage_inside_reaction_window() {
    let mut g = in_round(1);
    assert_eq!(step(&mut g, ReactionEvent::Buttons([false; 4])), ReactionAction::ReadElapsed);
    assert_eq!(step(&mut g, ReactionEvent::Elapsed(0)), ReactionAction::Sleep { ms: 5 });
    assert_eq!(step(&mut g, ReactionEvent::Done), ReactionAction::ReadButtons);
    assert_eq!(step(&mut g, ReactionEvent::Buttons([false; 4])), ReactionAction::ReadElapsed);
    assert_eq!(step(&mut g, ReactionEvent::Elapsed(800_000)), ReactionAction::Sleep { ms: 5 });
    assert_eq!(step(&mut g, ReactionEvent::Done), ReactionAction::ReadButtons);
    assert_eq!(step(&mut g, ReactionEvent::Buttons([false; 4])), ReactionAction::ReadElapsed);
    assert_eq!(step(&mut g, ReactionEvent::Elapsed(800_001)), ReactionAction::Damage { amount: 1 });
}

#[test]
fn other_buttons_do_not_end_the_round() {
    let mut g = in_round(1);
    assert_eq!(
        step(&mut g, ReactionEvent::Buttons([true, false, true, true])),
        ReactionAction::ReadElapsed
    );
    assert_eq!(g.phase(), ReactionPhase::Timing { led: 1, damage: 1 });
}

#[test]
fn press_darkens_strip_and_pauses() {
    let mut g = in_round(2);
    assert_eq!(
        step(&mut g, ReactionEvent::Buttons([false, false, true, false])),
        ReactionAction::Clear { frame: dark_frame() }
    );
    assert_eq!(step(&mut g, ReactionEvent::Done), ReactionAction::DrawRandom);
    assert_eq!(step(&mut g, ReactionEvent::Random(1234)), ReactionAction::Sleep { ms: 834 });
    assert_eq!(step(&mut g, ReactionEvent::Done), ReactionAction::ReadState);
    assert_eq!(g.phase(), ReactionPhase::RoundStart);
}

fn gap_for(r: u32) -> ReactionAction {
    let mut g = in_round(0);
    step(&mut g, ReactionEvent::Buttons([true, false, false, false]));
    step(&mut g, ReactionEvent::Done);
    step(&mut g, ReactionEvent::Random(r))
}

#[test]
fn gap_between_rounds_is_300_to_999_ms() {
    assert_eq!(gap_for(0), ReactionAction::Sleep { ms: 300 });
    assert_eq!(gap_for(699), ReactionAction::Sleep { ms: 999 });
    assert_eq!(gap_for(700), ReactionAction::Sleep { ms: 300 });
    assert_eq!(gap_for(u32::MAX), ReactionAction::Sleep { ms: 695 });
}

#[test]
fn damage_doubles_each_tick_and_saturates() {
    let mut g = in_round(3);
    let mut expected: u64 = 1;
    for _ in 0..40 {
        assert_eq!(step(&mut g, ReactionEvent::Buttons([false; 4])), ReactionAction::ReadElapsed);
        let want = if expected > u32::MAX as u64 { u32::MAX } else { expected as u32 };
        assert_eq!(step(&mut g, ReactionEvent::Elapsed(900_000)), ReactionAction::Damage { amount: want });
        assert_eq!(step(&mut g, ReactionEvent::Done), ReactionAction::ReadState);
        assert_eq!(step(&mut g, ReactionEvent::State(game(100))), ReactionAction::Sleep { ms: 150 });
        assert_eq!(step(&mut g, ReactionEvent::Done), ReactionAction::ReadButtons);
        expected *= 2;
        if expected > u32::MAX as u64 {
            expected = u32::MAX as u64 + 1;
        }
    }
    assert_eq!(g.phase(), ReactionPhase::Polling { led: 3, damage: u32::MAX });
}

#[test]
fn damage_resets_each_round() {
    let mut g = in_round(1);
    step(&mut g, ReactionEvent::Buttons([false; 4]));
    step(&mut g, ReactionEvent::Elapsed(900_000));
    step(&mut g, ReactionEvent::Done);
    step(&mut g, ReactionEvent::State(game(99)));
    step(&mut g, ReactionEvent::Done);
    assert_eq!(g.phase(), ReactionPhase::Polling { led: 1, damage: 2 });
    step(&mut g, ReactionEvent::Buttons([false, true, false, false]));
    step(&mut g, ReactionEvent::Done);
    step(&mut g, ReactionEvent::Random(5));
    step(&mut g, ReactionEvent::Done);
    step(&mut g, ReactionEvent::State(game(99)));
    step(&mut g, ReactionEvent::Random(9));
    assert_eq!(step(&mut g, ReactionEvent::Done), ReactionAction::ReadButtons);
    assert_eq!(g.phase(), ReactionPhase::Polling { led: 1, damage: 1 });
}

#[test]
fn defeat_shows_losing_end_screen_and_stops() {
    let mut g = in_round(0);
    step(&mut g, ReactionEvent::Buttons([false; 4]));
    assert_eq!(step(&mut g, ReactionEvent::Elapsed(1_000_000)), ReactionAction::Damage { amount: 1 });
    assert_eq!(step(&mut g, ReactionEvent::Done), ReactionAction::ReadState);
    assert_eq!(
        step(&mut g, ReactionEvent::State(game(0))),
        ReactionAction::Clear { frame: dark_frame() }
    );
    assert_eq!(
        step(&mut g, ReactionEvent::Done),
        ReactionAction::SetState { state: AppState::EndScreen { player_won: false } }
    );
    assert_eq!(step(&mut g, ReactionEvent::Done), ReactionAction::Stop);
    assert_eq!(g.phase(), ReactionPhase::Finished);
    assert_eq!(step(&mut g, ReactionEvent::Random(3)), ReactionAction::Stop);
    assert_eq!(step(&mut g, ReactionEvent::Done), ReactionAction::Stop);
}

#[test]
fn game_over_between_rounds_darkens_and_stops() {
    let mut g = in_round(0);
    step(&mut g, ReactionEvent::Buttons([true, false, false, false]));
    step(&mut g, ReactionEvent::Done);
    step(&mut g, ReactionEvent::Random(0));
    step(&mut g, ReactionEvent::Done);
    assert_eq!(
        step(&mut g, ReactionEvent::State(AppState::EndScreen { player_won: true })),
        ReactionAction::Clear { frame: dark_frame() }
    );
    assert_eq!(step(&mut g, ReactionEvent::Done), ReactionAction::Stop);
}

#[test]
fn state_outside_a_game_after_damage_keeps_round_going() {
    let mut g = in_round(0);
    step(&mut g, ReactionEvent::Buttons([false; 4]));
    step(&mut g, ReactionEvent::Elapsed(1_000_000));
    step(&mut g, ReactionEvent::Done);
    assert_eq!(
        step(&mut g, ReactionEvent::State(AppState::EndScreen { player_won: true })),
        ReactionAction::Sleep { ms: 150 }
    );
}

#[test]
fn accepts_only_the_awaited_outcome() {
    let (g, _) = ReactionGame::start();
    assert!(g.accepts(&ReactionEvent::State(AppState::Start)));
    assert!(!g.accepts(&ReactionEvent::Done));
    assert!(!g.accepts(&ReactionEvent::Random(1)));
    let g = in_round(0);
    assert!(g.accepts(&ReactionEvent::Buttons([false; 4])));
    assert!(!g.accepts(&ReactionEvent::Elapsed(0)));
}

#[test]
fn doubled_saturates() {
    assert_eq!(doubled(1), 2);
    assert_eq!(doubled(0x8000_0000), u32::MAX);
    assert_eq!(doubled(0x7FFF_FFFF), 0xFFFF_FFFE);
    assert_eq!(doubled(u32::MAX), u32::MAX);
}
