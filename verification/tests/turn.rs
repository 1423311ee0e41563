use ss_engine::session::EngineStage;
use ss_engine::turn::{next_turn_step, BeatKind, TurnAction, TurnEvent, TurnPhase};

#[test]
fn successful_turn_plays_beats_in_plan_order() {
    let beats = vec![BeatKind::Narrator, BeatKind::Actor];
    let mut phase = TurnPhase::RecordInput;
    let mut actions = Vec::new();
    for _ in 0..6 {
        let (next, action) = next_turn_step(phase, TurnEvent::Succeeded, &beats);
        actions.push(action);
        phase = next;
    }
    assert_eq!(phase, TurnPhase::Completed);
    assert_eq!(
        actions,
        vec![
            TurnAction::RunFirstKeeper,
            TurnAction::RunDirector,
            TurnAction::PlayBeat(0),
            TurnAction::PlayBeat(1),
            TurnAction::RunSecondKeeper,
            TurnAction::Finish,
        ]
    );
    assert_eq!(next_turn_step(phase, TurnEvent::Succeeded, &beats), (TurnPhase::Completed, TurnAction::Nothing));
}

#[test]
fn failures_report_their_stage() {
    let beats = vec![BeatKind::Narrator, BeatKind::Actor];
    assert_eq!(
        next_turn_step(TurnPhase::Beat(1), TurnEvent::Failed, &beats),
        (TurnPhase::Failed(EngineStage::Actor), TurnAction::ReportFailure(EngineStage::Actor))
    );
    assert_eq!(
        next_turn_step(TurnPhase::Beat(0), TurnEvent::Failed, &beats).1,
        TurnAction::ReportFailure(EngineStage::Narrator)
    );
    assert_eq!(
        next_turn_step(TurnPhase::FirstKeeper, TurnEvent::Failed, &beats).0,
        TurnPhase::Failed(EngineStage::KeeperAfterPlayerInput)
    );
    let failed = TurnPhase::Failed(EngineStage::Director);
    assert_eq!(next_turn_step(failed, TurnEvent::Succeeded, &beats), (failed, TurnAction::Nothing));
    assert_eq!(
        next_turn_step(TurnPhase::Director, TurnEvent::Succeeded, &vec![]),
        (TurnPhase::SecondKeeper, TurnAction::RunSecondKeeper)
    );
}
