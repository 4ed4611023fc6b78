use firmware::state::{AppState, SoupStatus};

fn game(player_hp: u32) -> AppState {
    AppState::Game {
        soup_hp: 70,
        player_hp,
        soup_status: SoupStatus::Angry,
        sweet_spot_min: 3,
        sweet_spot_max: 9,
        sweet_spot_progress: 4,
        loadcell_reading: -12,
    }
}

#[test]
fn initial_game_is_full_health_and_neutral() {
    assert_eq!(
        AppState::initial_game(),
        AppState::Game {
            soup_hp: 100,
            player_hp: 100,
            soup_status: SoupStatus::Neutral,
            sweet_spot_min: 0,
            sweet_spot_max: 0,
            sweet_spot_progress: 0,
            loadcell_reading: 0,
        }
    );
}

#[test]
fn damage_lowers_only_player_hp() {
    assert_eq!(game(50).damaged(8), game(42));
}

#[test]
fn damage_saturates_at_zero_health() {
    assert_eq!(game(5).damaged(6), game(0));
    assert_eq!(game(5).damaged(u32::MAX), game(0));
    assert_eq!(game(5).damaged(5), game(0));
    assert!(game(5).damaged(5).player_defeated());
}

#[test]
fn damage_outside_a_game_changes_nothing() {
    assert_eq!(AppState::Start.damaged(3), AppState::Start);
    assert_eq!(AppState::Rules.damaged(3), AppState::Rules);
    assert_eq!(
        AppState::EndScreen { player_won: true }.damaged(3),
        AppState::EndScreen { player_won: true }
    );
}

#[test]
fn zero_damage_keeps_state() {
    assert_eq!(game(17).damaged(0), game(17));
}

#[test]
fn game_and_defeat_predicates() {
    assert!(game(1).is_game());
    assert!(!game(1).player_defeated());
    assert!(game(0).player_defeated());
    assert!(!AppState::Start.is_game());
    assert!(!AppState::EndScreen { player_won: false }.player_defeated());
}
