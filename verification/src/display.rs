//! What the screen shows for each application state.
use vstd::prelude::*;
use crate::state::AppState;

verus! {

/// A colour in the display's 16-bit format: 5 bits of red, 6 of green and
/// 5 of blue.
#[derive(Clone, Copy, Debug, PartialEq, Eq, Structural)]
pub struct Color565 {
    pub r: u8,
    pub g: u8,
    pub b: u8,
}

/// The pictures stored in the firmware.
#[derive(Clone, Copy, Debug, PartialEq, Eq, Structural)]
pub enum Picture {
    /// The title sign.
    Sign,
    /// A sad soup.
    Sad,
    /// An angry soup.
    Angry,
    /// A neutral soup.
    Neutral,
}

/// One drawing operation on the screen.
#[derive(Clone, Copy, Debug, PartialEq, Eq, Structural)]
pub enum ScreenCommand {
    /// Fill the whole screen with `color`.
    Clear { color: Color565 },
    /// Draw `picture` with its top-left corner at (`x`, `y`).
    Draw { picture: Picture, x: i32, y: i32 },
}

/// White: every channel at its maximum.
pub open spec fn spec_white() -> Color565 {
    Color565 { r: 31, g: 63, b: 31 }
}

/// Whether the screen has a drawing for state `s`. Only the title screen
/// has one so far.
pub open spec fn spec_has_screen(s: AppState) -> bool {
    s is Start
}

/// The drawing for state `s`: for the title screen, a white background with
/// the sign in the top-left corner; no other state has one yet. The
/// commands are carried out in order, and a failed one abandons the rest.
pub open spec fn spec_screen_plan(s: AppState) -> Seq<ScreenCommand> {
    match s {
        AppState::Start => seq![
            ScreenCommand::Clear { color: spec_white() },
            ScreenCommand::Draw { picture: Picture::Sign, x: 0, y: 0 },
        ],
        _ => Seq::empty(),
    }
}

/// The command to carry out after `done` commands of `plan`, the last of
/// which succeeded if `last_ok`: the next one, unless the plan is finished
/// or the last command failed.
pub open spec fn spec_next_command(plan: Seq<ScreenCommand>, done: int, last_ok: bool) -> Option<ScreenCommand> {
    if last_ok && 0 <= done < plan.len() {
        Some(plan[done])
    } else {
        None
    }
}

impl Color565 {
    /// White.
    pub fn white() -> (c: Color565)
        ensures
            c == spec_white(),
    {
        Color565 { r: 31, g: 63, b: 31 }
    }
}

/// Whether the screen has a drawing for `state`.
pub fn has_screen(state: &AppState) -> (b: bool)
    ensures
        b == spec_has_screen(*state),
{
    matches!(state, AppState::Start)
}

/// The drawing operations that show `state`.
pub fn screen_plan(state: &AppState) -> (plan: Vec<ScreenCommand>)
    requires
        spec_has_screen(*state),
    ensures
        plan@ == spec_screen_plan(*state),
{
    let mut plan: Vec<ScreenCommand> = Vec::new();
    plan.push(ScreenCommand::Clear { color: Color565::white() });
    plan.push(ScreenCommand::Draw { picture: Picture::Sign, x: 0, y: 0 });
    assert(plan@ =~= spec_screen_plan(*state));
    plan
}

/// The command to carry out after `done` commands of `plan`, the last of
/// which succeeded if `last_ok` (pass `true` before the first): the next
/// one, or `None` once the plan is finished or a command has failed.
pub fn next_command(plan: &Vec<ScreenCommand>, done: usize, last_ok: bool) -> (c: Option<ScreenCommand>)
    ensures
        c == spec_next_command(plan@, done as int, last_ok),
{
    if last_ok && done < plan.len() {
        Some(plan[done])
    } else {
        None
    }
}

/// Drawing stops at the first failed command: once a command fails nothing
/// more of the plan is drawn, and while all succeed the commands come in the
/// plan's order until it is finished.
pub proof fn lemma_drawing_stops_at_failure(plan: Seq<ScreenCommand>, done: int)
    requires
        0 <= done,
    ensures
        spec_next_command(plan, done, false) is None,
        done < plan.len() ==> spec_next_command(plan, done, true) == Some(plan[done]),
        done >= plan.len() ==> spec_next_command(plan, done, true) is None,
{
}

} // verus!
