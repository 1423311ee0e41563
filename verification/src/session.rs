//! Sessions: the stages of a turn, the characters created during a session,
//! and the messages a finished turn is stored as.
use vstd::prelude::*;

use crate::prompt::types::str_eq;
use crate::schema::{CardView, CharacterCard, StateSchema};
use crate::ordering::{has_key, lemma_insert_by_key, lemma_sorted_stably_is, ordered_by, sorted_stably, stably_sorted, strict_total};
use crate::text::{
    decimal, lemma_seq_lt_asym, lemma_seq_lt_total, lemma_seq_lt_trans, push_str, seq_lt, str_lt, string_of_chars,
    trim_seq, trim_text, u64_decimal,
};
use crate::util::{SessionMessageKind, SessionMessageRecord};

verus! {

/// The stage of a turn, named when a turn fails.
#[derive(Debug, Clone, Copy, PartialEq, Eq, Structural)]
pub enum EngineStage {
    RecordPlayerInput,
    KeeperAfterPlayerInput,
    Director,
    Narrator,
    Actor,
    KeeperAfterTurnOutputs,
}

/// The snake-case name of a stage.
pub open spec fn stage_name(s: EngineStage) -> Seq<char> {
    match s {
        EngineStage::RecordPlayerInput => "record_player_input"@,
        EngineStage::KeeperAfterPlayerInput => "keeper_after_player_input"@,
        EngineStage::Director => "director"@,
        EngineStage::Narrator => "narrator"@,
        EngineStage::Actor => "actor"@,
        EngineStage::KeeperAfterTurnOutputs => "keeper_after_turn_outputs"@,
    }
}

impl EngineStage {
    /// The snake-case name of the stage.
    pub fn as_str(&self) -> (s: &'static str)
        ensures
            s@ == stage_name(*self),
    {
        match self {
            EngineStage::RecordPlayerInput => "record_player_input",
            EngineStage::KeeperAfterPlayerInput => "keeper_after_player_input",
            EngineStage::Director => "director",
            EngineStage::Narrator => "narrator",
            EngineStage::Actor => "actor",
            EngineStage::KeeperAfterTurnOutputs => "keeper_after_turn_outputs",
        }
    }
}

/// New text for a session character.
#[derive(Debug)]
pub struct SessionCharacterUpdate {
    pub display_name: String,
    pub personality: String,
    pub style: String,
    pub system_prompt: String,
}

/// A character created during a session.
#[derive(Debug)]
pub struct SessionCharacterRecord {
    pub session_character_id: String,
    pub session_id: String,
    pub display_name: String,
    pub personality: String,
    pub style: String,
    pub system_prompt: String,
    pub created_at_ms: u64,
    pub updated_at_ms: u64,
}

/// The error when a session character belongs to another session: it is
/// reported missing, by its id.
#[derive(Debug)]
pub struct MissingSessionCharacter(pub String);

/// Accepts a session character of session `session_id`; reports any other as
/// missing.
pub fn ensure_session_character_belongs(session_id: &str, character: &SessionCharacterRecord) -> (r:
    Result<(), MissingSessionCharacter>)
    ensures
        match r {
            Ok(_) => character.session_id@ == session_id@,
            Err(e) => character.session_id@ != session_id@ && e.0@ == character.session_character_id@,
        },
{
    if str_eq(character.session_id.as_str(), session_id) {
        return Ok(());
    }
    Err(MissingSessionCharacter(character.session_character_id.clone()))
}

/// The record with the update's text and the given update time; the id, the
/// session and the creation time are kept.
pub fn apply_session_character_update(
    character: SessionCharacterRecord,
    update: SessionCharacterUpdate,
    now_ms: u64,
) -> (r: SessionCharacterRecord)
    ensures
        r.session_character_id@ == character.session_character_id@,
        r.session_id@ == character.session_id@,
        r.created_at_ms == character.created_at_ms,
        r.display_name@ == update.display_name@,
        r.personality@ == update.personality@,
        r.style@ == update.style@,
        r.system_prompt@ == update.system_prompt@,
        r.updated_at_ms == now_ms,
{
    SessionCharacterRecord {
        display_name: update.display_name,
        personality: update.personality,
        style: update.style,
        system_prompt: update.system_prompt,
        updated_at_ms: now_ms,
        ..character
    }
}

/// The card a session character plays with: its id, name and text, with no
/// state schema.
pub open spec fn session_card(c: SessionCharacterRecord) -> CardView {
    CardView {
        id: c.session_character_id@,
        name: c.display_name@,
        personality: c.personality@,
        style: c.style@,
        state_schema: seq![],
        system_prompt: c.system_prompt@,
    }
}

/// The card a session character plays with.
pub fn session_character_record_to_character_card(character: &SessionCharacterRecord) -> (c:
    CharacterCard)
    ensures
        c@ == session_card(*character),
{
    let schema = StateSchema::new();
    assert(schema@ =~= seq![]);
    CharacterCard {
        id: character.session_character_id.clone(),
        name: character.display_name.clone(),
        personality: character.personality.clone(),
        style: character.style.clone(),
        state_schema: schema,
        system_prompt: character.system_prompt.clone(),
    }
}

/// The listing key of a session character: its creation time, then its id.
pub open spec fn listing_key() -> spec_fn(SessionCharacterRecord) -> (u64, Seq<char>) {
    |c: SessionCharacterRecord| (c.created_at_ms, c.session_character_id@)
}

/// The listing order: earlier creation first, then by id.
pub open spec fn listing_lt() -> spec_fn((u64, Seq<char>), (u64, Seq<char>)) -> bool {
    |a: (u64, Seq<char>), b: (u64, Seq<char>)| a.0 < b.0 || (a.0 == b.0 && seq_lt(a.1, b.1))
}

/// Session characters in listing order.
pub open spec fn listed_characters(cs: Seq<SessionCharacterRecord>) -> Seq<SessionCharacterRecord> {
    sorted_stably(cs, listing_key(), listing_lt())
}

proof fn lemma_listing_lt_total()
    ensures
        strict_total(listing_lt()),
{
    let lt = listing_lt();
    assert forall|a: (u64, Seq<char>)| !#[trigger] lt(a, a) by {
        lemma_seq_lt_asym(a.1, a.1);
    }
    assert forall|a: (u64, Seq<char>), b: (u64, Seq<char>), c: (u64, Seq<char>)|
        #[trigger] lt(a, b) && #[trigger] lt(b, c) implies lt(a, c) by {
        if a.0 == b.0 && b.0 == c.0 {
            lemma_seq_lt_trans(a.1, b.1, c.1);
        }
    }
    assert forall|a: (u64, Seq<char>), b: (u64, Seq<char>)| a != b implies #[trigger] lt(a, b) || #[trigger] lt(
        b,
        a,
    ) by {
        lemma_seq_lt_total(a.1, b.1);
        if a.0 == b.0 && a.1 == b.1 {
            assert(a == b);
        }
    }
}

/// Sorts session characters for listing: by creation time, then by id.
pub fn sort_session_characters(characters: Vec<SessionCharacterRecord>) -> (r: Vec<SessionCharacterRecord>)
    ensures
        r@ == listed_characters(characters@),
{
    let ghost all = characters@;
    let ghost key = listing_key();
    let ghost lt = listing_lt();
    proof {
        lemma_listing_lt_total();
    }
    let mut src = characters;
    let mut out: Vec<SessionCharacterRecord> = Vec::new();
    while src.len() > 0
        invariant
            key == listing_key(),
            lt == listing_lt(),
            strict_total(lt),
            src@.len() <= all.len(),
            src@ == all.skip(all.len() - src@.len()),
            ordered_by(out@, key, lt),
            forall|k: (u64, Seq<char>)| #[trigger]
                out@.filter(has_key(key, k)) == all.take(all.len() - src@.len()).filter(has_key(key, k)),
        decreases src.len(),
    {
        let ghost n = all.len() - src@.len();
        let x = src.remove(0);
        proof {
            assert(x == all[n]);
            assert(src@ =~= all.skip(all.len() - src@.len()));
        }
        let mut pos: usize = 0;
        while pos < out.len() && !(x.created_at_ms < out[pos].created_at_ms || (x.created_at_ms
            == out[pos].created_at_ms && str_lt(x.session_character_id.as_str(), out[pos].session_character_id.as_str())))
            invariant
                key == listing_key(),
                lt == listing_lt(),
                pos <= out@.len(),
                forall|j: int| 0 <= j < pos ==> !lt(key(x), key(#[trigger] out@[j])),
            decreases out.len() - pos,
        {
            pos = pos + 1;
        }
        let ghost out_before = out@;
        out.insert(pos, x);
        proof {
            lemma_insert_by_key(out_before, pos as int, x, key, lt);
            assert(out@ == out_before.insert(pos as int, x));
            assert(all.take(n + 1) =~= all.take(n).push(x));
            assert forall|k: (u64, Seq<char>)| #[trigger]
                out@.filter(has_key(key, k)) == all.take(all.len() - src@.len()).filter(has_key(key, k)) by {
                all.take(n).lemma_filter_push(x, has_key(key, k));
                assert(out_before.filter(has_key(key, k)) == all.take(n).filter(has_key(key, k)));
            }
        }
    }
    proof {
        assert(all.take(all.len() as int) =~= all);
        assert(stably_sorted(out@, all, key, lt));
        lemma_sorted_stably_is(out@, all, key, lt);
    }
    out
}

/// What the director asks of a session character.
#[derive(Debug)]
pub enum SessionCharacterAction {
    CreateAndEnter {
        session_character_id: String,
        display_name: String,
        personality: String,
        style: String,
        system_prompt: String,
    },
    LeaveScene { session_character_id: String },
}

/// The id of the session character an action is about.
pub fn action_session_character_id(action: &SessionCharacterAction) -> (s: &str)
    ensures
        s@ == match action {
            SessionCharacterAction::CreateAndEnter { session_character_id, .. } => session_character_id@,
            SessionCharacterAction::LeaveScene { session_character_id } => session_character_id@,
        },
{
    match action {
        SessionCharacterAction::CreateAndEnter { session_character_id, .. } => session_character_id.as_str(),
        SessionCharacterAction::LeaveScene { session_character_id } => session_character_id.as_str(),
    }
}

/// What a segment of an actor's output is.
#[derive(Debug, Clone, Copy, PartialEq, Eq, Structural)]
pub enum ActorSegmentKind {
    Dialogue,
    Action,
    Thought,
}

/// A segment of an actor's output.
#[derive(Debug)]
pub struct ActorSegment {
    pub kind: ActorSegmentKind,
    pub text: String,
}

/// A beat that was played in a turn.
#[derive(Debug)]
pub enum ExecutedBeat {
    Narrator { text: String },
    Actor { speaker_id: String, speaker_name: String, segments: Vec<ActorSegment> },
}

/// The result of a turn, as far as it is stored.
#[derive(Debug)]
pub struct EngineTurnResult {
    pub turn_index: u64,
    pub player_input: String,
    pub completed_beats: Vec<ExecutedBeat>,
}

/// A line to store: its kind, speaker id, speaker name and text.
pub type Line = (SessionMessageKind, Seq<char>, Seq<char>, Seq<char>);

/// The stored lines of one segment of an actor: dialogue and action with text,
/// trimmed; thoughts are not stored.
pub open spec fn segment_lines(id: Seq<char>, name: Seq<char>, s: ActorSegment) -> Seq<Line> {
    if s.kind == ActorSegmentKind::Thought || trim_seq(s.text@).len() == 0 {
        seq![]
    } else {
        seq![(
            if s.kind == ActorSegmentKind::Dialogue {
                SessionMessageKind::Dialogue
            } else {
                SessionMessageKind::Action
            },
            id,
            name,
            trim_seq(s.text@),
        )]
    }
}

/// The stored lines of the segments of an actor.
pub open spec fn segments_lines(id: Seq<char>, name: Seq<char>, ss: Seq<ActorSegment>) -> Seq<Line>
    decreases ss.len(),
{
    if ss.len() == 0 {
        seq![]
    } else {
        segments_lines(id, name, ss.drop_last()) + segment_lines(id, name, ss.last())
    }
}

/// The stored lines of a beat: the narration (trimmed, when not blank), or
/// the actor's dialogue and action.
pub open spec fn beat_lines(b: ExecutedBeat) -> Seq<Line> {
    match b {
        ExecutedBeat::Narrator { text } => if trim_seq(text@).len() == 0 {
            seq![]
        } else {
            seq![(SessionMessageKind::Narration, "narrator"@, "Narrator"@, trim_seq(text@))]
        },
        ExecutedBeat::Actor { speaker_id, speaker_name, segments } => segments_lines(
            speaker_id@,
            speaker_name@,
            segments@,
        ),
    }
}

/// The stored lines of a list of beats, in order.
pub open spec fn beats_lines(bs: Seq<ExecutedBeat>) -> Seq<Line>
    decreases bs.len(),
{
    if bs.len() == 0 {
        seq![]
    } else {
        beats_lines(bs.drop_last()) + beat_lines(bs.last())
    }
}

/// The stored lines of a turn: the player's input, then those of the beats.
pub open spec fn turn_lines(r: EngineTurnResult) -> Seq<Line> {
    seq![(SessionMessageKind::PlayerInput, "player"@, "Player"@, r.player_input@)] + beats_lines(
        r.completed_beats@,
    )
}

/// The sequence number `k` places after `start`, saturating.
pub open spec fn seq_at(start: u64, k: int) -> u64 {
    if start + k > u64::MAX {
        u64::MAX
    } else {
        (start + k) as u64
    }
}

/// Whether a stored message is line `k` of a turn stored from sequence
/// `start`.
pub open spec fn is_stored_line(
    m: SessionMessageRecord,
    l: Line,
    session_id: Seq<char>,
    record_session_id: Seq<char>,
    turn_index: u64,
    at_ms: u64,
    seq: u64,
) -> bool {
    &&& m.message_id@ == session_id + "-message-"@ + decimal(seq as nat)
    &&& m.session_id@ == record_session_id
    &&& m.kind == l.0
    &&& m.sequence == seq
    &&& m.turn_index == turn_index
    &&& m.recorded_at_ms == at_ms
    &&& m.created_at_ms == at_ms
    &&& m.updated_at_ms == at_ms
    &&& m.speaker_id@ == l.1
    &&& m.speaker_name@ == l.2
    &&& m.text@ == l.3
}

/// Builds one stored message.
fn stored_message(
    session_id: &str,
    record_session_id: &String,
    kind: SessionMessageKind,
    sequence: u64,
    turn_index: u64,
    at_ms: u64,
    speaker_id: String,
    speaker_name: String,
    text: String,
) -> (m: SessionMessageRecord)
    ensures
        is_stored_line(
            m,
            (kind, speaker_id@, speaker_name@, text@),
            session_id@,
            record_session_id@,
            turn_index,
            at_ms,
            sequence,
        ),
{
    let mut id: Vec<char> = Vec::new();
    push_str(&mut id, session_id);
    push_str(&mut id, "-message-");
    let n = u64_decimal(sequence);
    push_str(&mut id, n.as_str());
    SessionMessageRecord {
        message_id: string_of_chars(id.as_slice()),
        session_id: record_session_id.clone(),
        kind,
        sequence,
        turn_index,
        recorded_at_ms: at_ms,
        created_at_ms: at_ms,
        updated_at_ms: at_ms,
        speaker_id,
        speaker_name,
        text,
    }
}

/// The messages a finished turn is stored as: the player's input, each
/// non-blank narration, and each non-blank dialogue and action segment
/// (trimmed; thoughts are not stored), numbered from `starting_sequence`
/// (saturating), all stamped with `recorded_at_ms`.
pub fn build_session_messages(
    session_id: &str,
    record_session_id: &String,
    result: &EngineTurnResult,
    recorded_at_ms: u64,
    starting_sequence: u64,
) -> (r: Vec<SessionMessageRecord>)
    ensures
        r@.len() == turn_lines(*result).len(),
        forall|k: int|
            0 <= k < r@.len() ==> is_stored_line(
                #[trigger] r@[k],
                turn_lines(*result)[k],
                session_id@,
                record_session_id@,
                result.turn_index,
                recorded_at_ms,
                seq_at(starting_sequence, k),
            ),
{
    let ghost lines = turn_lines(*result);
    let mut messages: Vec<SessionMessageRecord> = Vec::new();
    messages.push(
        stored_message(
            session_id,
            record_session_id,
            SessionMessageKind::PlayerInput,
            starting_sequence,
            result.turn_index,
            recorded_at_ms,
            "player".to_string(),
            "Player".to_string(),
            result.player_input.clone(),
        ),
    );
    let mut next = starting_sequence.saturating_add(1);
    let ghost mut done = seq![(SessionMessageKind::PlayerInput, "player"@, "Player"@, result.player_input@)];
    let mut b: usize = 0;
    assert(result.completed_beats@.take(0) =~= Seq::<ExecutedBeat>::empty());
    while b < result.completed_beats.len()
        invariant
            lines == turn_lines(*result),
            b <= result.completed_beats@.len(),
            done == seq![(SessionMessageKind::PlayerInput, "player"@, "Player"@, result.player_input@)]
                + beats_lines(result.completed_beats@.take(b as int)),
            messages@.len() == done.len(),
            next == seq_at(starting_sequence, done.len() as int),
            forall|k: int|
                0 <= k < messages@.len() ==> is_stored_line(
                    #[trigger] messages@[k],
                    done[k],
                    session_id@,
                    record_session_id@,
                    result.turn_index,
                    recorded_at_ms,
                    seq_at(starting_sequence, k),
                ),
        decreases result.completed_beats.len() - b,
    {
        proof {
            assert(result.completed_beats@.take(b + 1).drop_last() =~= result.completed_beats@.take(
                b as int,
            ));
            assert(result.completed_beats@.take(b + 1).last() == result.completed_beats@[b as int]);
        }
        match &result.completed_beats[b] {
            ExecutedBeat::Narrator { text } => {
                let t = trim_text(text.as_str());
                if !crate::text::text_is_blank(text.as_str()) {
                    let ghost before = messages@;
                    let ghost l = (SessionMessageKind::Narration, "narrator"@, "Narrator"@, t@);
                    messages.push(
                        stored_message(
                            session_id,
                            record_session_id,
                            SessionMessageKind::Narration,
                            next,
                            result.turn_index,
                            recorded_at_ms,
                            "narrator".to_string(),
                            "Narrator".to_string(),
                            t,
                        ),
                    );
                    proof {
                        assert(messages@ == before.push(messages@.last()));
                        assert forall|k: int| 0 <= k < messages@.len() implies is_stored_line(
                            #[trigger] messages@[k],
                            done.push(l)[k],
                            session_id@,
                            record_session_id@,
                            result.turn_index,
                            recorded_at_ms,
                            seq_at(starting_sequence, k),
                        ) by {
                            if k < before.len() {
                                assert(messages@[k] == before[k]);
                            }
                        }
                        done = done.push(l);
                    }
                    next = next.saturating_add(1);
                }
                proof {
                    assert(done =~= seq![(SessionMessageKind::PlayerInput, "player"@, "Player"@, result.player_input@)]
                        + beats_lines(result.completed_beats@.take(b + 1)));
                }
            },
            ExecutedBeat::Actor { speaker_id, speaker_name, segments } => {
                let ghost done0 = done;
                let mut s: usize = 0;
                assert(segments@.take(0) =~= Seq::<ActorSegment>::empty());
                while s < segments.len()
                    invariant
                        s <= segments@.len(),
                        done == done0 + segments_lines(speaker_id@, speaker_name@, segments@.take(s as int)),
                        messages@.len() == done.len(),
                        next == seq_at(starting_sequence, done.len() as int),
                        forall|k: int|
                            0 <= k < messages@.len() ==> is_stored_line(
                                #[trigger] messages@[k],
                                done[k],
                                session_id@,
                                record_session_id@,
                                result.turn_index,
                                recorded_at_ms,
                                seq_at(starting_sequence, k),
                            ),
                    decreases segments.len() - s,
                {
                    proof {
                        assert(segments@.take(s + 1).drop_last() =~= segments@.take(s as int));
                        assert(segments@.take(s + 1).last() == segments@[s as int]);
                    }
                    let seg = &segments[s];
                    if seg.kind != ActorSegmentKind::Thought && !crate::text::text_is_blank(seg.text.as_str()) {
                        let kind = if seg.kind == ActorSegmentKind::Dialogue {
                            SessionMessageKind::Dialogue
                        } else {
                            SessionMessageKind::Action
                        };
                        let t = trim_text(seg.text.as_str());
                        let ghost before = messages@;
                        let ghost l = (kind, speaker_id@, speaker_name@, t@);
                        messages.push(
                            stored_message(
                                session_id,
                                record_session_id,
                                kind,
                                next,
                                result.turn_index,
                                recorded_at_ms,
                                speaker_id.clone(),
                                speaker_name.clone(),
                                t,
                            ),
                        );
                        proof {
                            assert(messages@ == before.push(messages@.last()));
                            assert forall|k: int| 0 <= k < messages@.len() implies is_stored_line(
                                #[trigger] messages@[k],
                                done.push(l)[k],
                                session_id@,
                                record_session_id@,
                                result.turn_index,
                                recorded_at_ms,
                                seq_at(starting_sequence, k),
                            ) by {
                                if k < before.len() {
                                    assert(messages@[k] == before[k]);
                                }
                            }
                            done = done.push(l);
                        }
                        next = next.saturating_add(1);
                    }
                    proof {
                        assert(done =~= done0 + segments_lines(
                            speaker_id@,
                            speaker_name@,
                            segments@.take(s + 1),
                        ));
                    }
                    s = s + 1;
                }
                proof {
                    assert(segments@.take(segments@.len() as int) =~= segments@);
                    assert(done =~= seq![(SessionMessageKind::PlayerInput, "player"@, "Player"@, result.player_input@)]
                        + beats_lines(result.completed_beats@.take(b + 1)));
                }
            },
        }
        b = b + 1;
    }
    proof {
        assert(result.completed_beats@.take(result.completed_beats@.len() as int) =~= result.completed_beats@);
    }
    messages
}

} // verus!
