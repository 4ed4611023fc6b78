use vstd::prelude::*;

verus! {

/// Mood of the soup shown on the screen during the game.
#[derive(Clone, Copy, Debug, PartialEq, Eq, Structural)]
pub enum SoupStatus {
    Angry,
    Sad,
    Neutral,
}

/// The application state shared by all tasks.
#[derive(Clone, Copy, Debug, PartialEq, Eq, Structural)]
pub enum AppState {
    /// Title screen.
    Start,
    /// Rules screen.
    Rules,
    /// The game proper.
    Game {
        soup_hp: u32,
        player_hp: u32,
        soup_status: SoupStatus,
        sweet_spot_min: u32,
        sweet_spot_max: u32,
        sweet_spot_progress: u32,
        loadcell_reading: i32,
    },
    /// Final screen.
    EndScreen { player_won: bool },
}

/// The state in which a game begins: both sides at full health, a neutral
/// soup, and no sweet spot or load-cell reading yet.
pub open spec fn spec_initial_game() -> AppState {
    AppState::Game {
        soup_hp: 100,
        player_hp: 100,
        soup_status: SoupStatus::Neutral,
        sweet_spot_min: 0,
        sweet_spot_max: 0,
        sweet_spot_progress: 0,
        loadcell_reading: 0,
    }
}

/// What `s` becomes when the player takes `damage` hit points: during a game
/// the player's health drops by `damage`, stopping at zero, and nothing else
/// changes; outside a game the state is left as it is.
pub open spec fn spec_damaged(s: AppState, damage: u32) -> AppState {
    match s {
        AppState::Game {
            soup_hp,
            player_hp,
            soup_status,
            sweet_spot_min,
            sweet_spot_max,
            sweet_spot_progress,
            loadcell_reading,
        } => AppState::Game {
            soup_hp,
            player_hp: if player_hp >= damage { (player_hp - damage) as u32 } else { 0 },
            soup_status,
            sweet_spot_min,
            sweet_spot_max,
            sweet_spot_progress,
            loadcell_reading,
        },
        other => other,
    }
}

/// True when `s` is a game in which the player has no health left.
pub open spec fn spec_player_defeated(s: AppState) -> bool {
    s matches AppState::Game { player_hp, .. } && player_hp == 0
}

impl AppState {
    /// The state in which a game begins.
    pub fn initial_game() -> (s: AppState)
        ensures
            s == spec_initial_game(),
    {
        AppState::Game {
            soup_hp: 100,
            player_hp: 100,
            soup_status: SoupStatus::Neutral,
            sweet_spot_min: 0,
            sweet_spot_max: 0,
            sweet_spot_progress: 0,
            loadcell_reading: 0,
        }
    }

    /// True while a game is running.
    pub fn is_game(&self) -> (b: bool)
        ensures
            b == (*self is Game),
    {
        match self {
            AppState::Game { .. } => true,
            _ => false,
        }
    }

    /// True when this is a game in which the player has no health left.
    pub fn player_defeated(&self) -> (b: bool)
        ensures
            b == spec_player_defeated(*self),
    {
        match self {
            AppState::Game { player_hp, .. } => *player_hp == 0,
            _ => false,
        }
    }

    /// This state after the player takes `damage` hit points (saturating at
    /// zero health); states outside a game are returned unchanged.
    pub fn damaged(&self, damage: u32) -> (s: AppState)
        ensures
            s == spec_damaged(*self, damage),
    {
        match self {
            AppState::Game {
                soup_hp,
                player_hp,
                soup_status,
                sweet_spot_min,
                sweet_spot_max,
                sweet_spot_progress,
                loadcell_reading,
            } => AppState::Game {
                soup_hp: *soup_hp,
                player_hp: player_hp.saturating_sub(damage),
                soup_status: *soup_status,
                sweet_spot_min: *sweet_spot_min,
                sweet_spot_max: *sweet_spot_max,
                sweet_spot_progress: *sweet_spot_progress,
                loadcell_reading: *loadcell_reading,
            },
            other => *other,
        }
    }
}

/// Taking damage never raises the player's health, never touches anything
/// but the player's health, and leaves states outside a game alone.
pub proof fn lemma_damage_only_lowers_player_hp(s: AppState, damage: u32)
    ensures
        match (s, spec_damaged(s, damage)) {
            (
                AppState::Game { soup_hp: a, player_hp: p, soup_status: st, sweet_spot_min: mn, sweet_spot_max: mx, sweet_spot_progress: pr, loadcell_reading: lc },
                AppState::Game { soup_hp: a2, player_hp: p2, soup_status: st2, sweet_spot_min: mn2, sweet_spot_max: mx2, sweet_spot_progress: pr2, loadcell_reading: lc2 },
            ) => p2 <= p && a2 == a && st2 == st && mn2 == mn && mx2 == mx && pr2 == pr && lc2 == lc,
            (AppState::Game { .. }, _) => false,
            (other, d) => d == other,
        },
{
}

/// Damage that is at least the player's health defeats the player.
pub proof fn lemma_lethal_damage_defeats(s: AppState, damage: u32)
    requires
        s matches AppState::Game { player_hp, .. } && damage >= player_hp,
    ensures
        spec_player_defeated(spec_damaged(s, damage)),
{
}


/// Damage lowers a game's player health by exactly the damage, down to zero
/// and no further: health and damage add up to the old health when the
/// damage fits, and a damage of at least the health leaves none.
pub proof fn lemma_damage_exact(s: AppState, damage: u32)
    requires
        s is Game,
    ensures
        spec_damaged(s, damage) is Game,
        spec_damaged(s, damage) matches AppState::Game { player_hp: p2, .. } && (s matches AppState::Game { player_hp: p, .. }
            && (damage <= p ==> p2 + damage == p)
            && (damage >= p ==> p2 == 0)),
{
}

/// Damage below the player's health leaves the player alive with the rest of
/// it.
pub proof fn lemma_non_lethal_damage_spares(s: AppState, damage: u32)
    requires
        s matches AppState::Game { player_hp, .. } && damage < player_hp,
    ensures
        !spec_player_defeated(spec_damaged(s, damage)),
        spec_damaged(s, damage) matches AppState::Game { player_hp: p2, .. } && p2 > 0,
{
}

/// Damage defeats a player exactly when it is at least the player's health:
/// a game ends in defeat after `damage` if and only if `damage` covers what
/// was left, and states outside a game are never a defeat.
pub proof fn lemma_defeat_iff_lethal(s: AppState, damage: u32)
    ensures
        s matches AppState::Game { player_hp, .. } ==> (spec_player_defeated(spec_damaged(s, damage)) <==> damage >= player_hp),
        !(s is Game) ==> !spec_player_defeated(s) && !spec_player_defeated(spec_damaged(s, damage)),
{
}

/// A game starts with both sides at 100 hit points, a neutral soup and no
/// sweet spot or reading, and the player is not defeated.
pub proof fn lemma_initial_game()
    ensures
        spec_initial_game() matches AppState::Game { soup_hp, player_hp, soup_status, sweet_spot_min, sweet_spot_max, sweet_spot_progress, loadcell_reading }
            && soup_hp == 100 && player_hp == 100 && soup_status == SoupStatus::Neutral
            && sweet_spot_min == 0 && sweet_spot_max == 0 && sweet_spot_progress == 0 && loadcell_reading == 0,
        !spec_player_defeated(spec_initial_game()),
{
}

} // verus!
