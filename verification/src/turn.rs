//! The order of the work in a turn: the player's input is recorded, the first
//! keeper updates the state, the director plans the beats, each beat is played
//! in plan order by the narrator or an actor, and the second keeper updates
//! the state; the first stage that fails ends the turn and is reported.
//!
//! The runner performs each action and reports its outcome; `next_turn_step`
//! decides what comes next.
use vstd::prelude::*;

use crate::graph::node_index;
use crate::runtime::{card_index, RuntimeError, RuntimeErrorView, RuntimeState};
use crate::schema::CharacterCard;
use crate::session::EngineStage;
use crate::world::strings_contain;

verus! {

/// Who plays a beat of the director's plan.
#[derive(Debug, Clone, Copy, PartialEq, Eq, Structural)]
pub enum BeatKind {
    Narrator,
    Actor,
}

/// Where a turn stands.
#[derive(Debug, Clone, Copy, PartialEq, Eq, Structural)]
pub enum TurnPhase {
    RecordInput,
    FirstKeeper,
    Director,
    Beat(usize),
    SecondKeeper,
    Completed,
    Failed(EngineStage),
}

/// What the runner reports after performing the current action.
#[derive(Debug, Clone, Copy, PartialEq, Eq, Structural)]
pub enum TurnEvent {
    Succeeded,
    Failed,
}

/// What the runner is to do next.
#[derive(Debug, Clone, Copy, PartialEq, Eq, Structural)]
pub enum TurnAction {
    RunFirstKeeper,
    RunDirector,
    PlayBeat(usize),
    RunSecondKeeper,
    Finish,
    ReportFailure(EngineStage),
    Nothing,
}

/// The stage whose failure the current phase reports.
pub open spec fn stage_of(phase: TurnPhase, beats: Seq<BeatKind>) -> EngineStage {
    match phase {
        TurnPhase::RecordInput => EngineStage::RecordPlayerInput,
        TurnPhase::FirstKeeper => EngineStage::KeeperAfterPlayerInput,
        TurnPhase::Director => EngineStage::Director,
        TurnPhase::Beat(i) => if 0 <= i < beats.len() && beats[i as int] == BeatKind::Actor {
            EngineStage::Actor
        } else {
            EngineStage::Narrator
        },
        TurnPhase::SecondKeeper => EngineStage::KeeperAfterTurnOutputs,
        TurnPhase::Completed => EngineStage::KeeperAfterTurnOutputs,
        TurnPhase::Failed(s) => s,
    }
}

/// The phase after the director's plan or a beat succeeded: the next beat,
/// or the second keeper when no beat is left.
pub open spec fn after_beat(i: int, beats: Seq<BeatKind>) -> (TurnPhase, TurnAction) {
    if i < beats.len() {
        (TurnPhase::Beat(i as usize), TurnAction::PlayBeat(i as usize))
    } else {
        (TurnPhase::SecondKeeper, TurnAction::RunSecondKeeper)
    }
}

/// The next phase and action, from the current phase and the outcome of its
/// action. A failure ends the turn with the stage of the failed phase; a
/// finished or failed turn does not move.
pub open spec fn turn_step(phase: TurnPhase, event: TurnEvent, beats: Seq<BeatKind>) -> (TurnPhase, TurnAction) {
    match phase {
        TurnPhase::Completed => (TurnPhase::Completed, TurnAction::Nothing),
        TurnPhase::Failed(s) => (TurnPhase::Failed(s), TurnAction::Nothing),
        _ => match event {
            TurnEvent::Failed => (
                TurnPhase::Failed(stage_of(phase, beats)),
                TurnAction::ReportFailure(stage_of(phase, beats)),
            ),
            TurnEvent::Succeeded => match phase {
                TurnPhase::RecordInput => (TurnPhase::FirstKeeper, TurnAction::RunFirstKeeper),
                TurnPhase::FirstKeeper => (TurnPhase::Director, TurnAction::RunDirector),
                TurnPhase::Director => after_beat(0, beats),
                TurnPhase::Beat(i) => after_beat(i + 1, beats),
                _ => (TurnPhase::Completed, TurnAction::Finish),
            },
        },
    }
}

/// The stage whose failure the current phase reports (see `stage_of`).
pub fn failure_stage(phase: TurnPhase, beats: &Vec<BeatKind>) -> (s: EngineStage)
    ensures
        s == stage_of(phase, beats@),
{
    match phase {
        TurnPhase::RecordInput => EngineStage::RecordPlayerInput,
        TurnPhase::FirstKeeper => EngineStage::KeeperAfterPlayerInput,
        TurnPhase::Director => EngineStage::Director,
        TurnPhase::Beat(i) => if i < beats.len() && beats[i] == BeatKind::Actor {
            EngineStage::Actor
        } else {
            EngineStage::Narrator
        },
        TurnPhase::SecondKeeper => EngineStage::KeeperAfterTurnOutputs,
        TurnPhase::Completed => EngineStage::KeeperAfterTurnOutputs,
        TurnPhase::Failed(s) => s,
    }
}

/// Decides the next phase and action of a turn (see `turn_step`).
pub fn next_turn_step(phase: TurnPhase, event: TurnEvent, beats: &Vec<BeatKind>) -> (r: (TurnPhase, TurnAction))
    ensures
        r == turn_step(phase, event, beats@),
{
    let stage = match phase {
        TurnPhase::RecordInput => EngineStage::RecordPlayerInput,
        TurnPhase::FirstKeeper => EngineStage::KeeperAfterPlayerInput,
        TurnPhase::Director => EngineStage::Director,
        TurnPhase::Beat(i) => if i < beats.len() && beats[i] == BeatKind::Actor {
            EngineStage::Actor
        } else {
            EngineStage::Narrator
        },
        TurnPhase::SecondKeeper => EngineStage::KeeperAfterTurnOutputs,
        TurnPhase::Completed => EngineStage::KeeperAfterTurnOutputs,
        TurnPhase::Failed(s) => s,
    };
    match phase {
        TurnPhase::Completed => return (TurnPhase::Completed, TurnAction::Nothing),
        TurnPhase::Failed(s) => return (TurnPhase::Failed(s), TurnAction::Nothing),
        _ => {},
    }
    match event {
        TurnEvent::Failed => (TurnPhase::Failed(stage), TurnAction::ReportFailure(stage)),
        TurnEvent::Succeeded => match phase {
            TurnPhase::RecordInput => (TurnPhase::FirstKeeper, TurnAction::RunFirstKeeper),
            TurnPhase::FirstKeeper => (TurnPhase::Director, TurnAction::RunDirector),
            TurnPhase::Director => if beats.len() > 0 {
                (TurnPhase::Beat(0), TurnAction::PlayBeat(0))
            } else {
                (TurnPhase::SecondKeeper, TurnAction::RunSecondKeeper)
            },
            TurnPhase::Beat(i) => if i < beats.len() && i + 1 < beats.len() {
                (TurnPhase::Beat(i + 1), TurnAction::PlayBeat(i + 1))
            } else {
                (TurnPhase::SecondKeeper, TurnAction::RunSecondKeeper)
            },
            _ => (TurnPhase::Completed, TurnAction::Finish),
        },
    }
}

/// The phases a turn passes through when every action succeeds, starting
/// from `phase`, for `n` steps.
pub open spec fn run_ok(phase: TurnPhase, beats: Seq<BeatKind>, n: nat) -> TurnPhase
    decreases n,
{
    if n == 0 {
        phase
    } else {
        run_ok(turn_step(phase, TurnEvent::Succeeded, beats).0, beats, (n - 1) as nat)
    }
}

/// Steps from a beat onward when every action succeeds.
proof fn lemma_beats_in_order(i: nat, beats: Seq<BeatKind>)
    requires
        i < beats.len(),
        beats.len() < usize::MAX,
    ensures
        forall|k: nat| #![trigger run_ok(TurnPhase::Beat(i as usize), beats, k)]
            k < beats.len() - i ==> run_ok(TurnPhase::Beat(i as usize), beats, k) == TurnPhase::Beat(
                (i + k) as usize,
            ),
        run_ok(TurnPhase::Beat(i as usize), beats, (beats.len() - i) as nat) == TurnPhase::SecondKeeper,
    decreases beats.len() - i,
{
    let next = turn_step(TurnPhase::Beat(i as usize), TurnEvent::Succeeded, beats).0;
    if i + 1 < beats.len() {
        lemma_beats_in_order(i + 1, beats);
        assert forall|k: nat| #![trigger run_ok(TurnPhase::Beat(i as usize), beats, k)]
            k < beats.len() - i implies run_ok(TurnPhase::Beat(i as usize), beats, k) == TurnPhase::Beat(
                (i + k) as usize,
            ) by {
            if k > 0 {
                assert(run_ok(TurnPhase::Beat(i as usize), beats, k) == run_ok(next, beats, (k - 1) as nat));
                assert(run_ok(TurnPhase::Beat((i + 1) as usize), beats, (k - 1) as nat) == TurnPhase::Beat(
                    (i + 1 + (k - 1)) as usize,
                ));
            }
        }
        assert(run_ok(TurnPhase::Beat(i as usize), beats, (beats.len() - i) as nat) == run_ok(
            next,
            beats,
            (beats.len() - i - 1) as nat,
        ));
    } else {
        assert forall|k: nat| #![trigger run_ok(TurnPhase::Beat(i as usize), beats, k)]
            k < beats.len() - i implies run_ok(TurnPhase::Beat(i as usize), beats, k) == TurnPhase::Beat(
                (i + k) as usize,
            ) by {
            assert(k == 0);
        }
        assert(run_ok(TurnPhase::Beat(i as usize), beats, 1) == run_ok(next, beats, 0));
    }
}

/// A turn in which every action succeeds records the input, runs the first
/// keeper and the director, plays every beat in plan order, runs the second
/// keeper and completes: after `beats.len() + 4` steps.
pub proof fn lemma_successful_turn(beats: Seq<BeatKind>)
    requires
        beats.len() < usize::MAX,
    ensures
        run_ok(TurnPhase::RecordInput, beats, 1) == TurnPhase::FirstKeeper,
        run_ok(TurnPhase::RecordInput, beats, 2) == TurnPhase::Director,
        forall|k: nat| #![trigger run_ok(TurnPhase::RecordInput, beats, k + 3)]
            k < beats.len() ==> run_ok(TurnPhase::RecordInput, beats, k + 3) == TurnPhase::Beat(
                k as usize,
            ),
        run_ok(TurnPhase::RecordInput, beats, beats.len() + 3) == TurnPhase::SecondKeeper,
        run_ok(TurnPhase::RecordInput, beats, beats.len() + 4) == TurnPhase::Completed,
{
    assert(run_ok(TurnPhase::RecordInput, beats, 1) == run_ok(TurnPhase::FirstKeeper, beats, 0));
    assert(run_ok(TurnPhase::RecordInput, beats, 2) == run_ok(TurnPhase::FirstKeeper, beats, 1));
    assert(run_ok(TurnPhase::FirstKeeper, beats, 1) == run_ok(TurnPhase::Director, beats, 0));
    lemma_prefix(beats);
    if beats.len() > 0 {
        lemma_beats_in_order(0, beats);
        assert forall|k: nat| #![trigger run_ok(TurnPhase::RecordInput, beats, k + 3)]
            k < beats.len() implies run_ok(TurnPhase::RecordInput, beats, k + 3) == TurnPhase::Beat(
                k as usize,
            ) by {
            assert(run_ok(TurnPhase::RecordInput, beats, k + 3) == run_ok(TurnPhase::Beat(0), beats, k));
        }
        assert(run_ok(TurnPhase::RecordInput, beats, beats.len() + 3) == run_ok(
            TurnPhase::Beat(0),
            beats,
            beats.len(),
        ));
    } else {
        assert(run_ok(TurnPhase::RecordInput, beats, 3) == run_ok(TurnPhase::SecondKeeper, beats, 0));
    }
    lemma_run_ok_add(TurnPhase::RecordInput, beats, beats.len() + 3, 1);
    assert(run_ok(TurnPhase::SecondKeeper, beats, 1) == run_ok(TurnPhase::Completed, beats, 0));
}

/// From the start, three successful steps reach the director's first step.
proof fn lemma_prefix(beats: Seq<BeatKind>)
    ensures
        forall|k: nat| #![trigger run_ok(TurnPhase::RecordInput, beats, k + 3)]
            run_ok(TurnPhase::RecordInput, beats, k + 3) == run_ok(
                turn_step(TurnPhase::Director, TurnEvent::Succeeded, beats).0,
                beats,
                k,
            ),
{
    assert forall|k: nat| #![trigger run_ok(TurnPhase::RecordInput, beats, k + 3)]
        run_ok(TurnPhase::RecordInput, beats, k + 3) == run_ok(
            turn_step(TurnPhase::Director, TurnEvent::Succeeded, beats).0,
            beats,
            k,
        ) by {
        assert(run_ok(TurnPhase::RecordInput, beats, k + 3) == run_ok(TurnPhase::FirstKeeper, beats, k + 2));
        assert(run_ok(TurnPhase::FirstKeeper, beats, k + 2) == run_ok(TurnPhase::Director, beats, k + 1));
    }
}

/// Running `a` then `b` steps is running `a + b` steps.
proof fn lemma_run_ok_add(phase: TurnPhase, beats: Seq<BeatKind>, a: nat, b: nat)
    ensures
        run_ok(phase, beats, a + b) == run_ok(run_ok(phase, beats, a), beats, b),
    decreases a,
{
    if a > 0 {
        lemma_run_ok_add(turn_step(phase, TurnEvent::Succeeded, beats).0, beats, (a - 1) as nat, b);
        assert(run_ok(phase, beats, a + b) == run_ok(
            turn_step(phase, TurnEvent::Succeeded, beats).0,
            beats,
            (a + b - 1) as nat,
        ));
    }
}

/// A failure ends the turn and reports the stage that failed, and an ended
/// turn stays ended.
pub proof fn lemma_failure_reports_stage(phase: TurnPhase, beats: Seq<BeatKind>)
    requires
        phase != TurnPhase::Completed,
        !(phase is Failed),
    ensures
        turn_step(phase, TurnEvent::Failed, beats) == (
            TurnPhase::Failed(stage_of(phase, beats)),
            TurnAction::ReportFailure(stage_of(phase, beats)),
        ),
        forall|e: TurnEvent| #[trigger] turn_step(TurnPhase::Failed(stage_of(phase, beats)), e, beats).0
            == TurnPhase::Failed(stage_of(phase, beats)),
{
}

/// Why an actor beat cannot be played: the session's node is missing from
/// the graph, or the beat's speaker is not in the scene or has no card.
#[derive(Debug)]
pub enum BeatSpeakerError {
    Runtime(RuntimeError),
    InvalidBeatSpeaker { speaker_id: String, node_id: String },
}

/// The card of the speaker of an actor beat: the speaker must be in the
/// scene and have a card; the session's node must be in the graph.
pub fn resolve_beat_speaker<'a>(runtime_state: &'a RuntimeState, speaker_id: &str) -> (r: Result<
    &'a CharacterCard,
    BeatSpeakerError,
>)
    ensures
        match node_index(runtime_state@.graph, runtime_state@.world.current_node) {
            None => r matches Err(BeatSpeakerError::Runtime(e)) && e@ == RuntimeErrorView::MissingCurrentNode(
                runtime_state@.world.current_node,
            ),
            Some(n) => {
                let in_scene = runtime_state@.world.active_characters.contains(speaker_id@);
                match card_index(runtime_state@.cards, speaker_id@) {
                    Some(c) if in_scene => r is Ok && (r->Ok_0)@ == runtime_state@.cards[c],
                    _ => r matches Err(BeatSpeakerError::InvalidBeatSpeaker { speaker_id: s, node_id: id })
                        && s@ == speaker_id@ && id@ == runtime_state@.graph.nodes[n].id,
                }
            },
        },
{
    let node = match runtime_state.current_node() {
        Ok(n) => n,
        Err(e) => {
            return Err(BeatSpeakerError::Runtime(e));
        },
    };
    if !strings_contain(&runtime_state.world_state().active_characters, speaker_id) {
        return Err(
            BeatSpeakerError::InvalidBeatSpeaker {
                speaker_id: speaker_id.to_string(),
                node_id: node.id.clone(),
            },
        );
    }
    match runtime_state.character_card(speaker_id) {
        Some(card) => Ok(card),
        None => Err(
            BeatSpeakerError::InvalidBeatSpeaker {
                speaker_id: speaker_id.to_string(),
                node_id: node.id.clone(),
            },
        ),
    }
}

} // verus!
