use firmware::game::{FlowAction, FlowPhase, GameFlow};
use firmware::state::AppState;

#[test]
fn flow_shows_start_rules_then_game() {
    let (mut f, a) = GameFlow::start();
    assert_eq!(a, FlowAction::SetState { state: AppState::Start });
    assert_eq!(f.step(), FlowAction::Sleep { secs: 20 });
    assert_eq!(f.step(), FlowAction::SetState { state: AppState::Rules });
    assert_eq!(f.step(), FlowAction::Sleep { secs: 30 });
    assert_eq!(f.step(), FlowAction::SetState { state: AppState::initial_game() });
    assert_eq!(f.step(), FlowAction::Stop);
    assert_eq!(f.phase(), FlowPhase::Finished);
}

#[test]
fn finished_flow_only_stops() {
    let (mut f, _) = GameFlow::start();
    for _ in 0..5 {
        f.step();
    }
    for _ in 0..3 {
        assert_eq!(f.step(), FlowAction::Stop);
        assert_eq!(f.phase(), FlowPhase::Finished);
    }
}
