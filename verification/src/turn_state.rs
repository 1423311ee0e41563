//! The state a turn works on and how each reported outcome changes it: the
//! player's input and the narrations go into the bounded shared history of
//! the world state, the keepers' updates are applied to the world state, the
//! turn is counted once the first keeper has succeeded, the director's
//! session-character actions register the created characters' cards and move
//! characters in and out of the scene, and a failure ends the turn keeping
//! every change made before it.
//!
//! The runner performs each action and reports its outcome. Two things are
//! the runner's own: any change that the director makes to the world state
//! while it plans is made by the runner before it reports the plan, and the
//! keeper's progression fallback (`progression::apply_progression_fallback`)
//! is applied by the runner to the second keeper's update before it reports
//! it.
use vstd::prelude::*;

use crate::graph::lemma_first_where;
use crate::runtime::{card_index, has_card_id, upserted, RuntimeState, RuntimeView};
use crate::schema::{card_ids, CardView};
use crate::session::{session_character_record_to_character_card, SessionCharacterAction, SessionCharacterRecord};
use crate::story::{op_views, OpView, StateOp};
use crate::text::trim_seq;
use crate::turn::{after_beat, stage_of, BeatKind, TurnAction, TurnPhase};
use crate::world::{
    apply_ops_spec, bounded_push, differs_from, narration_entry, player_input_entry, ActorMemoryKind, MemoryView,
    WorldView,
};

verus! {

/// What a session-character action of the director came to.
#[derive(Debug)]
pub enum SessionCharacterOutcome {
    /// A new character was created, given a card and put in the scene.
    CreatedAndEntered { character: SessionCharacterRecord },
    /// A character that already had a card entered the scene (its card was
    /// replaced by the new text).
    EnteredScene { session_character_id: String },
    /// A character left the scene.
    LeftScene { session_character_id: String },
    /// A character that was not in the scene was asked to leave it.
    Noop,
}

/// The value of a session-character record: id, session id, display name,
/// personality, style, system prompt, creation and update times.
pub type RecordView = (Seq<char>, Seq<char>, Seq<char>, Seq<char>, Seq<char>, Seq<char>, u64, u64);

/// The value of a session-character record.
pub open spec fn record_view(r: SessionCharacterRecord) -> RecordView {
    (
        r.session_character_id@,
        r.session_id@,
        r.display_name@,
        r.personality@,
        r.style@,
        r.system_prompt@,
        r.created_at_ms,
        r.updated_at_ms,
    )
}

/// The value of an outcome.
pub enum OutcomeView {
    CreatedAndEntered(RecordView),
    EnteredScene(Seq<char>),
    LeftScene(Seq<char>),
    Noop,
}

impl View for SessionCharacterOutcome {
    type V = OutcomeView;

    open spec fn view(&self) -> OutcomeView {
        match self {
            SessionCharacterOutcome::CreatedAndEntered { character } => OutcomeView::CreatedAndEntered(
                record_view(*character),
            ),
            SessionCharacterOutcome::EnteredScene { session_character_id } => OutcomeView::EnteredScene(
                session_character_id@,
            ),
            SessionCharacterOutcome::LeftScene { session_character_id } => OutcomeView::LeftScene(
                session_character_id@,
            ),
            SessionCharacterOutcome::Noop => OutcomeView::Noop,
        }
    }
}

/// The values of outcomes.
pub open spec fn outcome_views(v: Seq<SessionCharacterOutcome>) -> Seq<OutcomeView> {
    v.map_values(|o: SessionCharacterOutcome| o@)
}

/// The state a turn works on.
#[derive(Debug)]
pub struct TurnState {
    pub runtime: RuntimeState,
    pub shared_memory_limit: usize,
    pub phase: TurnPhase,
    pub beats: Vec<BeatKind>,
    pub outcomes: Vec<SessionCharacterOutcome>,
}

/// The value of a turn's state.
pub struct TurnView {
    pub runtime: RuntimeView,
    pub limit: nat,
    pub phase: TurnPhase,
    pub beats: Seq<BeatKind>,
    pub outcomes: Seq<OutcomeView>,
}

impl View for TurnState {
    type V = TurnView;

    open spec fn view(&self) -> TurnView {
        TurnView {
            runtime: self.runtime@,
            limit: self.shared_memory_limit as nat,
            phase: self.phase,
            beats: self.beats@,
            outcomes: outcome_views(self.outcomes@),
        }
    }
}

/// What the runner reports after performing the current action.
#[derive(Debug)]
pub enum TurnReport {
    /// A keeper succeeded with these state operations.
    KeeperUpdate(Vec<StateOp>),
    /// The director succeeded with this plan and these session-character
    /// actions, at this time (milliseconds since the Unix epoch).
    DirectorPlan { beats: Vec<BeatKind>, actions: Vec<SessionCharacterAction>, now_ms: u64 },
    /// The narrator played its beat with this text.
    Narration(String),
    /// An actor played its beat.
    ActorDone,
    /// The current action failed.
    Failed,
}

/// The value of a session-character action.
pub enum ActionView {
    CreateAndEnter {
        id: Seq<char>,
        display_name: Seq<char>,
        personality: Seq<char>,
        style: Seq<char>,
        system_prompt: Seq<char>,
    },
    LeaveScene { id: Seq<char> },
}

/// The value of a session-character action.
pub open spec fn action_view(a: SessionCharacterAction) -> ActionView {
    match a {
        SessionCharacterAction::CreateAndEnter { session_character_id, display_name, personality, style, system_prompt } =>
            ActionView::CreateAndEnter {
            id: session_character_id@,
            display_name: display_name@,
            personality: personality@,
            style: style@,
            system_prompt: system_prompt@,
        },
        SessionCharacterAction::LeaveScene { session_character_id } => ActionView::LeaveScene {
            id: session_character_id@,
        },
    }
}

/// The value of a report.
pub enum ReportView {
    KeeperUpdate(Seq<OpView>),
    DirectorPlan { beats: Seq<BeatKind>, actions: Seq<ActionView>, now_ms: u64 },
    Narration(Seq<char>),
    ActorDone,
    Failed,
}

impl View for TurnReport {
    type V = ReportView;

    open spec fn view(&self) -> ReportView {
        match self {
            TurnReport::KeeperUpdate(ops) => ReportView::KeeperUpdate(op_views(ops@)),
            TurnReport::DirectorPlan { beats, actions, now_ms } => ReportView::DirectorPlan {
                beats: beats@,
                actions: actions@.map_values(|a: SessionCharacterAction| action_view(a)),
                now_ms: *now_ms,
            },
            TurnReport::Narration(t) => ReportView::Narration(t@),
            TurnReport::ActorDone => ReportView::ActorDone,
            TurnReport::Failed => ReportView::Failed,
        }
    }
}

/// The card a created session character plays with: its id, name and text,
/// with no state schema.
pub open spec fn created_card(
    id: Seq<char>,
    display_name: Seq<char>,
    personality: Seq<char>,
    style: Seq<char>,
    system_prompt: Seq<char>,
) -> CardView {
    CardView { id, name: display_name, personality, style, state_schema: seq![], system_prompt }
}

/// The runtime state and outcome after one session-character action at time
/// `now`. A created character gets a card (replacing one with its id) and
/// enters the scene; it counts as created unless a card with its id was
/// there before, and its record has no session id and `now` as both times.
/// A leaving character leaves the scene; the outcome says whether it was
/// there.
pub open spec fn apply_action_spec(rt: RuntimeView, a: ActionView, now: u64) -> (RuntimeView, OutcomeView) {
    match a {
        ActionView::CreateAndEnter { id, display_name, personality, style, system_prompt } => {
            let existed = card_index(rt.cards, id) is Some;
            let w = rt.world;
            let world = WorldView {
                active_characters: if w.active_characters.contains(id) {
                    w.active_characters
                } else {
                    w.active_characters.push(id)
                },
                ..w
            };
            (
                RuntimeView {
                    cards: upserted(rt.cards, created_card(id, display_name, personality, style, system_prompt)),
                    world,
                    ..rt
                },
                if existed {
                    OutcomeView::EnteredScene(id)
                } else {
                    OutcomeView::CreatedAndEntered(
                        (id, seq![], display_name, personality, style, system_prompt, now, now),
                    )
                },
            )
        },
        ActionView::LeaveScene { id } => {
            let w = rt.world;
            (
                RuntimeView {
                    world: WorldView { active_characters: w.active_characters.filter(differs_from(id)), ..w },
                    ..rt
                },
                if w.active_characters.contains(id) {
                    OutcomeView::LeftScene(id)
                } else {
                    OutcomeView::Noop
                },
            )
        },
    }
}

/// The runtime state and outcomes after session-character actions, in order.
pub open spec fn apply_actions_spec(rt: RuntimeView, acts: Seq<ActionView>, now: u64) -> (RuntimeView, Seq<OutcomeView>)
    decreases acts.len(),
{
    if acts.len() == 0 {
        (rt, seq![])
    } else {
        let (r1, o1) = apply_actions_spec(rt, acts.drop_last(), now);
        let (r2, o2) = apply_action_spec(r1, acts.last(), now);
        (r2, o1.push(o2))
    }
}

/// One more turn counted, saturating at the largest `u64`.
pub open spec fn next_turn_index(t: u64) -> u64 {
    if t == u64::MAX {
        u64::MAX
    } else {
        (t + 1) as u64
    }
}

/// The runtime state with a changed world.
pub open spec fn with_world(r: RuntimeView, w: WorldView) -> RuntimeView {
    RuntimeView { world: w, ..r }
}

/// The narrator's line for the shared history: its trimmed text.
pub open spec fn narration_line(text: Seq<char>) -> MemoryView {
    ("narrator"@, "Narrator"@, ActorMemoryKind::Narration, trim_seq(text))
}

/// The player's line for the shared history.
pub open spec fn player_line(text: Seq<char>) -> MemoryView {
    ("player"@, "Player"@, ActorMemoryKind::PlayerInput, text)
}

/// The runtime state with a line added to the world's shared history.
pub open spec fn with_line(r: RuntimeView, line: MemoryView, limit: nat) -> RuntimeView {
    with_world(r, WorldView { shared_history: bounded_push(r.world.shared_history, line, limit), ..r.world })
}

/// The state and action after a report. A finished or failed turn does not
/// move; a failure ends the turn with the stage of its phase and keeps every
/// change made before it; a report that does not fit the phase changes
/// nothing.
pub open spec fn turn_step_spec(s: TurnView, r: ReportView) -> (TurnView, TurnAction) {
    let unchanged = (s, TurnAction::Nothing);
    match s.phase {
        TurnPhase::Completed => unchanged,
        TurnPhase::Failed(_) => unchanged,
        _ => match r {
            ReportView::Failed => {
                let stage = stage_of(s.phase, s.beats);
                (TurnView { phase: TurnPhase::Failed(stage), ..s }, TurnAction::ReportFailure(stage))
            },
            ReportView::KeeperUpdate(ops) => match s.phase {
                TurnPhase::FirstKeeper => {
                    let rt = with_world(s.runtime, apply_ops_spec(s.runtime.world, ops));
                    (
                        TurnView {
                            runtime: RuntimeView { turn_index: next_turn_index(s.runtime.turn_index), ..rt },
                            phase: TurnPhase::Director,
                            ..s
                        },
                        TurnAction::RunDirector,
                    )
                },
                TurnPhase::SecondKeeper => (
                    TurnView {
                        runtime: with_world(s.runtime, apply_ops_spec(s.runtime.world, ops)),
                        phase: TurnPhase::Completed,
                        ..s
                    },
                    TurnAction::Finish,
                ),
                _ => unchanged,
            },
            ReportView::DirectorPlan { beats, actions, now_ms } => match s.phase {
                TurnPhase::Director => {
                    let (phase, action) = after_beat(0, beats);
                    let (rt, outcomes) = apply_actions_spec(s.runtime, actions, now_ms);
                    (TurnView { runtime: rt, beats, phase, outcomes: s.outcomes + outcomes, ..s }, action)
                },
                _ => unchanged,
            },
            ReportView::Narration(text) => match s.phase {
                TurnPhase::Beat(i) => if i < s.beats.len() && s.beats[i as int] == BeatKind::Narrator {
                    let (phase, action) = after_beat(i + 1, s.beats);
                    let runtime = if trim_seq(text).len() > 0 {
                        with_line(s.runtime, narration_line(text), s.limit)
                    } else {
                        s.runtime
                    };
                    (TurnView { runtime, phase, ..s }, action)
                } else {
                    unchanged
                },
                _ => unchanged,
            },
            ReportView::ActorDone => match s.phase {
                TurnPhase::Beat(i) => if i < s.beats.len() && s.beats[i as int] == BeatKind::Actor {
                    let (phase, action) = after_beat(i + 1, s.beats);
                    (TurnView { phase, ..s }, action)
                } else {
                    unchanged
                },
                _ => unchanged,
            },
        },
    }
}

/// Applies one session-character action at time `now`.
fn apply_action(runtime: &mut RuntimeState, action: &SessionCharacterAction, now: u64) -> (o: SessionCharacterOutcome)
    ensures
        (final(runtime)@, o@) == apply_action_spec(old(runtime)@, action_view(*action), now),
{
    match action {
        SessionCharacterAction::CreateAndEnter { session_character_id, display_name, personality, style, system_prompt } => {
            let existed = match runtime.character_card(session_character_id.as_str()) {
                Some(_) => true,
                None => false,
            };
            let record = SessionCharacterRecord {
                session_character_id: session_character_id.clone(),
                session_id: String::new(),
                display_name: display_name.clone(),
                personality: personality.clone(),
                style: style.clone(),
                system_prompt: system_prompt.clone(),
                created_at_ms: now,
                updated_at_ms: now,
            };
            let card = session_character_record_to_character_card(&record);
            proof {
                assert(card@ == created_card(
                    session_character_id@,
                    display_name@,
                    personality@,
                    style@,
                    system_prompt@,
                ));
            }
            runtime.upsert_card(card);
            runtime.world_state_mut().add_active_character(session_character_id.clone());
            if existed {
                SessionCharacterOutcome::EnteredScene { session_character_id: session_character_id.clone() }
            } else {
                proof {
                    assert(record.session_id@ =~= seq![]);
                }
                SessionCharacterOutcome::CreatedAndEntered { character: record }
            }
        },
        SessionCharacterAction::LeaveScene { session_character_id } => {
            if runtime.world_state_mut().remove_active_character(session_character_id.as_str()) {
                SessionCharacterOutcome::LeftScene { session_character_id: session_character_id.clone() }
            } else {
                SessionCharacterOutcome::Noop
            }
        },
    }
}

/// Applies session-character actions in order, adding their outcomes.
fn apply_actions(
    runtime: &mut RuntimeState,
    outcomes: &mut Vec<SessionCharacterOutcome>,
    actions: &Vec<SessionCharacterAction>,
    now: u64,
)
    ensures
        (final(runtime)@, outcome_views(final(outcomes)@)) == ({
            let (rt, os) = apply_actions_spec(
                old(runtime)@,
                actions@.map_values(|a: SessionCharacterAction| action_view(a)),
                now,
            );
            (rt, outcome_views(old(outcomes)@) + os)
        }),
{
    let ghost start = runtime@;
    let ghost start_outcomes = outcome_views(outcomes@);
    let ghost av = actions@.map_values(|a: SessionCharacterAction| action_view(a));
    let mut i: usize = 0;
    while i < actions.len()
        invariant
            i <= actions@.len(),
            av == actions@.map_values(|a: SessionCharacterAction| action_view(a)),
            runtime@ == apply_actions_spec(start, av.take(i as int), now).0,
            outcome_views(outcomes@) == start_outcomes + apply_actions_spec(start, av.take(i as int), now).1,
        decreases actions.len() - i,
    {
        proof {
            assert(av.take(i + 1).drop_last() =~= av.take(i as int));
            assert(av.take(i + 1).last() == action_view(actions@[i as int]));
        }
        let ghost before = outcomes@;
        let o = apply_action(runtime, &actions[i], now);
        outcomes.push(o);
        proof {
            assert(outcome_views(outcomes@) =~= outcome_views(before).push(outcomes@.last()@));
            let prev = apply_actions_spec(start, av.take(i as int), now).1;
            assert(start_outcomes + prev.push(outcomes@.last()@) =~= (start_outcomes + prev).push(
                outcomes@.last()@,
            ));
        }
        i = i + 1;
    }
    assert(av.take(actions@.len() as int) =~= av);
}

/// Starts a turn: records the player's input in the world's shared history
/// (keeping the latest `shared_memory_limit` lines); the first keeper runs
/// next.
pub fn begin_turn(runtime: RuntimeState, shared_memory_limit: usize, player_input: &str) -> (r: (
    TurnState,
    TurnAction,
))
    ensures
        r.0@ == (TurnView {
            runtime: with_line(runtime@, player_line(player_input@), shared_memory_limit as nat),
            limit: shared_memory_limit as nat,
            phase: TurnPhase::FirstKeeper,
            beats: seq![],
            outcomes: seq![],
        }),
        r.1 == TurnAction::RunFirstKeeper,
{
    let mut runtime = runtime;
    runtime.world_state_mut().push_shared_history(player_input_entry(player_input), shared_memory_limit);
    let state = TurnState {
        runtime,
        shared_memory_limit,
        phase: TurnPhase::FirstKeeper,
        beats: Vec::new(),
        outcomes: Vec::new(),
    };
    assert(state@.beats =~= seq![]);
    assert(state@.outcomes =~= seq![]);
    (state, TurnAction::RunFirstKeeper)
}

/// Changes the turn's state by a report and says what the runner does next
/// (see `turn_step_spec`).
pub fn turn_transition(state: &mut TurnState, report: TurnReport) -> (action: TurnAction)
    ensures
        (final(state)@, action) == turn_step_spec(old(state)@, report@),
{
    match state.phase {
        TurnPhase::Completed => return TurnAction::Nothing,
        TurnPhase::Failed(_) => return TurnAction::Nothing,
        _ => {},
    }
    match report {
        TurnReport::Failed => {
            let stage = crate::turn::failure_stage(state.phase, &state.beats);
            state.phase = TurnPhase::Failed(stage);
            TurnAction::ReportFailure(stage)
        },
        TurnReport::KeeperUpdate(ops) => match state.phase {
            TurnPhase::FirstKeeper => {
                state.runtime.world_state_mut().apply_ops(&ops);
                state.runtime.advance_turn();
                state.phase = TurnPhase::Director;
                TurnAction::RunDirector
            },
            TurnPhase::SecondKeeper => {
                state.runtime.world_state_mut().apply_ops(&ops);
                state.phase = TurnPhase::Completed;
                TurnAction::Finish
            },
            _ => TurnAction::Nothing,
        },
        TurnReport::DirectorPlan { beats, actions, now_ms } => match state.phase {
            TurnPhase::Director => {
                apply_actions(&mut state.runtime, &mut state.outcomes, &actions, now_ms);
                let action = if beats.len() > 0 {
                    state.phase = TurnPhase::Beat(0);
                    TurnAction::PlayBeat(0)
                } else {
                    state.phase = TurnPhase::SecondKeeper;
                    TurnAction::RunSecondKeeper
                };
                state.beats = beats;
                action
            },
            _ => TurnAction::Nothing,
        },
        TurnReport::Narration(text) => match state.phase {
            TurnPhase::Beat(i) => if i < state.beats.len() && state.beats[i] == BeatKind::Narrator {
                match narration_entry(text.as_str()) {
                    Some(e) => {
                        let limit = state.shared_memory_limit;
                        state.runtime.world_state_mut().push_shared_history(e, limit);
                    },
                    None => {},
                }
                next_beat(state, i)
            } else {
                TurnAction::Nothing
            },
            _ => TurnAction::Nothing,
        },
        TurnReport::ActorDone => match state.phase {
            TurnPhase::Beat(i) => if i < state.beats.len() && state.beats[i] == BeatKind::Actor {
                next_beat(state, i)
            } else {
                TurnAction::Nothing
            },
            _ => TurnAction::Nothing,
        },
    }
}

/// Moves past beat `i`: to the next beat, or to the second keeper.
fn next_beat(state: &mut TurnState, i: usize) -> (action: TurnAction)
    requires
        i < old(state)@.beats.len(),
    ensures
        final(state)@ == (TurnView { phase: after_beat(i + 1, old(state)@.beats).0, ..old(state)@ }),
        action == after_beat(i + 1, old(state)@.beats).1,
{
    if i < state.beats.len() - 1 {
        state.phase = TurnPhase::Beat(i + 1);
        TurnAction::PlayBeat(i + 1)
    } else {
        state.phase = TurnPhase::SecondKeeper;
        TurnAction::RunSecondKeeper
    }
}

/// The turn is counted exactly when the first keeper's update is applied:
/// every other report leaves the turn counter as it was.
pub proof fn lemma_turn_counted_after_first_keeper(s: TurnView, r: ReportView)
    ensures
        turn_step_spec(s, r).0.runtime.turn_index == if s.phase == TurnPhase::FirstKeeper && r is KeeperUpdate {
            next_turn_index(s.runtime.turn_index)
        } else {
            s.runtime.turn_index
        },
{
    if s.phase == TurnPhase::Director {
        if let ReportView::DirectorPlan { beats, actions, now_ms } = r {
            lemma_actions_keep_turn_index(s.runtime, actions, now_ms);
        }
    }
}

/// Session-character actions do not change the turn counter.
proof fn lemma_actions_keep_turn_index(rt: RuntimeView, acts: Seq<ActionView>, now: u64)
    ensures
        apply_actions_spec(rt, acts, now).0.turn_index == rt.turn_index,
    decreases acts.len(),
{
    if acts.len() > 0 {
        lemma_actions_keep_turn_index(rt, acts.drop_last(), now);
    }
}

/// A failure ends the turn reporting the stage of its phase, and keeps the
/// runtime state (its world and shared history included) as the earlier
/// steps left it.
pub proof fn lemma_failure_keeps_changes(s: TurnView)
    requires
        s.phase != TurnPhase::Completed,
        !(s.phase is Failed),
    ensures
        turn_step_spec(s, ReportView::Failed).0.runtime == s.runtime,
        turn_step_spec(s, ReportView::Failed).0.outcomes == s.outcomes,
        turn_step_spec(s, ReportView::Failed).0.phase == TurnPhase::Failed(stage_of(s.phase, s.beats)),
        turn_step_spec(s, ReportView::Failed).1 == TurnAction::ReportFailure(stage_of(s.phase, s.beats)),
{
}

/// The shared history never holds more than its limit, once a line was added,
/// and the added line is its last.
pub proof fn lemma_history_bounded(h: Seq<MemoryView>, e: MemoryView, limit: nat)
    ensures
        bounded_push(h, e, limit).len() <= if limit > h.len() + 1 { h.len() + 1 } else { limit },
        bounded_push(h, e, limit).len() > 0 ==> bounded_push(h, e, limit).last() == e,
{
}

/// A character the director creates ends up with a card and in the scene.
pub proof fn lemma_created_character_has_card(rt: RuntimeView, a: ActionView, now: u64)
    requires
        a is CreateAndEnter,
    ensures
        apply_action_spec(rt, a, now).0.world.active_characters.contains(a->CreateAndEnter_id),
        card_index(apply_action_spec(rt, a, now).0.cards, a->CreateAndEnter_id) is Some,
{
    let id = a->CreateAndEnter_id;
    let c = created_card(
        id,
        a->CreateAndEnter_display_name,
        a->CreateAndEnter_personality,
        a->CreateAndEnter_style,
        a->CreateAndEnter_system_prompt,
    );
    let cards2 = upserted(rt.cards, c);
    let w = rt.world;
    if !w.active_characters.contains(id) {
        assert(w.active_characters.push(id)[w.active_characters.len() as int] == id);
    }
    let k: int = match card_index(rt.cards, id) {
        Some(i) => i,
        None => rt.cards.len() as int,
    };
    crate::runtime::lemma_card_index_contains(rt.cards, id);
    if card_index(rt.cards, id) is Some {
        lemma_first_where(rt.cards.len() as int, has_card_id(rt.cards, id), 0);
    }
    assert(0 <= k < cards2.len() && cards2[k].id == id);
    assert(card_ids(cards2)[k] == id);
    crate::runtime::lemma_card_index_contains(cards2, id);
}

/// A turn ends once: after it has completed or failed, every report leaves
/// its state as it is and asks nothing more of the runner.
pub proof fn lemma_ended_turn_stays(s: TurnView, r: ReportView)
    requires
        s.phase == TurnPhase::Completed || s.phase is Failed,
    ensures
        turn_step_spec(s, r) == (s, TurnAction::Nothing),
{
}

/// A turn starts by recording the player's input: when the history keeps at
/// least one line, the player's line is the last line of the world's shared
/// history, and nothing else of the runtime state changes.
pub proof fn lemma_turn_starts_with_input(rt: RuntimeView, limit: nat, input: Seq<char>)
    requires
        limit > 0,
    ensures
        with_line(rt, player_line(input), limit).world.shared_history.last() == player_line(input),
        with_line(rt, player_line(input), limit).world.shared_history.len() > 0,
        with_line(rt, player_line(input), limit).turn_index == rt.turn_index,
        with_line(rt, player_line(input), limit).cards == rt.cards,
{
}

} // verus!
