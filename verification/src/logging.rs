//! Summaries of agent outputs for the engine's logs: counts, touched state
//! keys, and text previews cut to 160 characters.
use vstd::prelude::*;

use crate::schema::StateSchema;
use crate::session::{ActorSegment, ActorSegmentKind};
use crate::story::NarrativeNode;
use crate::util::NodeTransitionPatch;
use crate::story::{OpView, StateOp, StateUpdate, StoryGraph, op_views};
use crate::text::{push_str, str_chars, string_of_chars, string_seq_views, take_chars, take_prefix};

verus! {

/// The most characters of a text that a log preview keeps.
pub const MAX_PREVIEW_CHARS: usize = 160;

/// A text as a log shows it: unchanged up to 160 characters, otherwise its
/// first 160 characters followed by `...[truncated]`.
pub open spec fn preview_text(s: Seq<char>) -> Seq<char> {
    if s.len() <= MAX_PREVIEW_CHARS {
        s
    } else {
        take_chars(s, MAX_PREVIEW_CHARS as nat) + "...[truncated]"@
    }
}

/// A text as a log shows it (see `preview_text`).
pub fn truncate_text(text: &str) -> (r: String)
    ensures
        r@ == preview_text(text@),
{
    let v = str_chars(text);
    if v.len() <= MAX_PREVIEW_CHARS {
        return text.to_string();
    }
    let mut out = take_prefix(v.as_slice(), MAX_PREVIEW_CHARS);
    push_str(&mut out, "...[truncated]");
    string_of_chars(out.as_slice())
}

/// The snake-case name of a state operation.
pub open spec fn op_type_name(o: OpView) -> Seq<char> {
    match o {
        OpView::SetCurrentNode { .. } => "set_current_node"@,
        OpView::SetActiveCharacters { .. } => "set_active_characters"@,
        OpView::AddActiveCharacter { .. } => "add_active_character"@,
        OpView::RemoveActiveCharacter { .. } => "remove_active_character"@,
        OpView::SetState { .. } => "set_state"@,
        OpView::RemoveState { .. } => "remove_state"@,
        OpView::SetPlayerState { .. } => "set_player_state"@,
        OpView::RemovePlayerState { .. } => "remove_player_state"@,
        OpView::SetCharacterState { .. } => "set_character_state"@,
        OpView::RemoveCharacterState { .. } => "remove_character_state"@,
    }
}

/// The snake-case name of a state operation.
fn op_type(op: &StateOp) -> (s: &'static str)
    ensures
        s@ == op_type_name(op@),
{
    match op {
        StateOp::SetCurrentNode { .. } => "set_current_node",
        StateOp::SetActiveCharacters { .. } => "set_active_characters",
        StateOp::AddActiveCharacter { .. } => "add_active_character",
        StateOp::RemoveActiveCharacter { .. } => "remove_active_character",
        StateOp::SetState { .. } => "set_state",
        StateOp::RemoveState { .. } => "remove_state",
        StateOp::SetPlayerState { .. } => "set_player_state",
        StateOp::RemovePlayerState { .. } => "remove_player_state",
        StateOp::SetCharacterState { .. } => "set_character_state",
        StateOp::RemoveCharacterState { .. } => "remove_character_state",
    }
}

/// The names of the operations of an update, in order.
pub fn keeper_op_types(update: &StateUpdate) -> (r: Vec<&'static str>)
    ensures
        r@.map_values(|s: &'static str| s@) == op_views(update.ops@).map_values(|o: OpView| op_type_name(o)),
{
    let ghost ov = op_views(update.ops@);
    let mut out: Vec<&'static str> = Vec::new();
    let mut i: usize = 0;
    while i < update.ops.len()
        invariant
            ov == op_views(update.ops@),
            i <= ov.len(),
            out@.map_values(|s: &'static str| s@) =~= ov.take(i as int).map_values(
                |o: OpView| op_type_name(o),
            ),
        decreases update.ops.len() - i,
    {
        let ghost before = out@;
        out.push(op_type(&update.ops[i]));
        proof {
            assert(out@ =~= before.push(out@.last()));
            assert(ov.take(i + 1) =~= ov.take(i as int).push(update.ops@[i as int]@));
            assert(out@.map_values(|s: &'static str| s@) =~= before.map_values(|s: &'static str| s@).push(
                out@.last()@,
            ));
        }
        i = i + 1;
    }
    proof {
        assert(ov.take(ov.len() as int) =~= ov);
    }
    out
}

/// Which keys an operation touches, for one kind of state: the global key, the
/// player key, or `character:key` for a character's key.
pub enum TouchScope {
    Global,
    Player,
    Character,
}

/// The label of what an operation touches in the given scope, if anything.
pub open spec fn touched_label(o: OpView, scope: TouchScope) -> Option<Seq<char>> {
    match (o, scope) {
        (OpView::SetState { key, .. }, TouchScope::Global) => Some(key),
        (OpView::RemoveState { key }, TouchScope::Global) => Some(key),
        (OpView::SetPlayerState { key, .. }, TouchScope::Player) => Some(key),
        (OpView::RemovePlayerState { key }, TouchScope::Player) => Some(key),
        (OpView::SetCharacterState { character, key, .. }, TouchScope::Character) => Some(
            character + ":"@ + key,
        ),
        (OpView::RemoveCharacterState { character, key }, TouchScope::Character) => Some(
            character + ":"@ + key,
        ),
        _ => None,
    }
}

/// The labels of what a list of operations touches in a scope, in order.
pub open spec fn touched_labels(ops: Seq<OpView>, scope: TouchScope) -> Seq<Seq<char>>
    decreases ops.len(),
{
    if ops.len() == 0 {
        seq![]
    } else {
        let prev = touched_labels(ops.drop_last(), scope);
        match touched_label(ops.last(), scope) {
            Some(l) => prev.push(l),
            None => prev,
        }
    }
}

/// The label of what an operation touches in a scope.
fn touched_of(op: &StateOp, scope: &TouchScope) -> (r: Option<String>)
    ensures
        match r {
            Some(s) => touched_label(op@, *scope) == Some(s@),
            None => touched_label(op@, *scope) is None,
        },
{
    match (op, scope) {
        (StateOp::SetState { key, .. }, TouchScope::Global) => Some(key.clone()),
        (StateOp::RemoveState { key }, TouchScope::Global) => Some(key.clone()),
        (StateOp::SetPlayerState { key, .. }, TouchScope::Player) => Some(key.clone()),
        (StateOp::RemovePlayerState { key }, TouchScope::Player) => Some(key.clone()),
        (StateOp::SetCharacterState { character, key, .. }, TouchScope::Character)
        | (StateOp::RemoveCharacterState { character, key }, TouchScope::Character) => {
            let mut v: Vec<char> = Vec::new();
            push_str(&mut v, character.as_str());
            push_str(&mut v, ":");
            push_str(&mut v, key.as_str());
            Some(string_of_chars(v.as_slice()))
        },
        _ => None,
    }
}

/// The labels of what an update touches in a scope, in order.
fn touched(update: &StateUpdate, scope: TouchScope) -> (r: Vec<String>)
    ensures
        string_seq_views(r@) == touched_labels(op_views(update.ops@), scope),
{
    let ghost ov = op_views(update.ops@);
    let mut out: Vec<String> = Vec::new();
    let mut i: usize = 0;
    while i < update.ops.len()
        invariant
            ov == op_views(update.ops@),
            i <= ov.len(),
            string_seq_views(out@) == touched_labels(ov.take(i as int), scope),
        decreases update.ops.len() - i,
    {
        proof {
            assert(ov.take(i + 1).drop_last() =~= ov.take(i as int));
            assert(ov.take(i + 1).last() == update.ops@[i as int]@);
        }
        match touched_of(&update.ops[i], &scope) {
            Some(l) => {
                let ghost before = out@;
                out.push(l);
                proof {
                    assert(out@ =~= before.push(out@.last()));
                    assert(string_seq_views(out@) =~= string_seq_views(before).push(out@.last()@));
                }
            },
            None => {},
        }
        i = i + 1;
    }
    proof {
        assert(ov.take(ov.len() as int) =~= ov);
    }
    out
}

/// The global keys an update writes or removes, in order.
pub fn touched_global_keys(update: &StateUpdate) -> (r: Vec<String>)
    ensures
        string_seq_views(r@) == touched_labels(op_views(update.ops@), TouchScope::Global),
{
    touched(update, TouchScope::Global)
}

/// The player keys an update writes or removes, in order.
pub fn touched_player_keys(update: &StateUpdate) -> (r: Vec<String>)
    ensures
        string_seq_views(r@) == touched_labels(op_views(update.ops@), TouchScope::Player),
{
    touched(update, TouchScope::Player)
}

/// The `character:key` pairs an update writes or removes, in order.
pub fn touched_character_pairs(update: &StateUpdate) -> (r: Vec<String>)
    ensures
        string_seq_views(r@) == touched_labels(op_views(update.ops@), TouchScope::Character),
{
    touched(update, TouchScope::Character)
}

/// The number of transitions of a list of nodes.
pub open spec fn transition_count(nodes: Seq<crate::story::NodeView>) -> int
    decreases nodes.len(),
{
    if nodes.len() == 0 {
        0
    } else {
        transition_count(nodes.drop_last()) + nodes.last().transitions.len()
    }
}

/// The number of transitions of a graph (saturating).
pub fn count_graph_transitions(graph: &StoryGraph) -> (n: usize)
    ensures
        n == (if transition_count(graph@.nodes) > usize::MAX {
            usize::MAX as int
        } else {
            transition_count(graph@.nodes)
        }),
{
    let ghost nv = graph@.nodes;
    let mut total: usize = 0;
    let mut i: usize = 0;
    while i < graph.nodes.len()
        invariant
            nv == graph@.nodes,
            i <= nv.len(),
            total == (if transition_count(nv.take(i as int)) > usize::MAX {
                usize::MAX as int
            } else {
                transition_count(nv.take(i as int))
            }),
        decreases graph.nodes.len() - i,
    {
        proof {
            assert(nv.take(i + 1).drop_last() =~= nv.take(i as int));
            assert(nv.take(i + 1).last() == graph.nodes@[i as int]@);
            lemma_transition_count_nonneg(nv.take(i as int));
        }
        total = total.saturating_add(graph.nodes[i].transitions.len());
        i = i + 1;
    }
    proof {
        assert(nv.take(nv.len() as int) =~= nv);
    }
    total
}

/// Transition counts are not negative.
proof fn lemma_transition_count_nonneg(nodes: Seq<crate::story::NodeView>)
    ensures
        transition_count(nodes) >= 0,
    decreases nodes.len(),
{
    if nodes.len() > 0 {
        lemma_transition_count_nonneg(nodes.drop_last());
    }
}

/// What an actor said, did and thought in one beat.
#[derive(Debug)]
pub struct ActorResponse {
    pub speaker_id: String,
    pub speaker_name: String,
    pub segments: Vec<ActorSegment>,
    pub raw_output: String,
}

/// The log summary of an actor's output.
#[derive(Debug)]
pub struct ActorLogSummary {
    pub speaker_id: String,
    pub speaker_name: String,
    pub segment_count: usize,
    pub thought_chars: usize,
    pub action_chars: usize,
    pub dialogue_chars: usize,
}

/// The number of characters of the segments of one kind.
pub open spec fn kind_chars(ss: Seq<ActorSegment>, kind: ActorSegmentKind) -> int
    decreases ss.len(),
{
    if ss.len() == 0 {
        0
    } else {
        kind_chars(ss.drop_last(), kind) + if ss.last().kind == kind {
            ss.last().text@.len() as int
        } else {
            0
        }
    }
}

/// A count clamped to `usize`.
pub open spec fn clamp_usize(n: int) -> int {
    if n > usize::MAX {
        usize::MAX as int
    } else {
        n
    }
}

/// Summarizes an actor's output: its speaker, its number of segments, and the
/// number of characters of its thoughts, actions and dialogue (each
/// saturating).
pub fn summarize_actor_response(response: &ActorResponse) -> (s: ActorLogSummary)
    ensures
        s.speaker_id@ == response.speaker_id@,
        s.speaker_name@ == response.speaker_name@,
        s.segment_count == response.segments@.len(),
        s.thought_chars == clamp_usize(kind_chars(response.segments@, ActorSegmentKind::Thought)),
        s.action_chars == clamp_usize(kind_chars(response.segments@, ActorSegmentKind::Action)),
        s.dialogue_chars == clamp_usize(kind_chars(response.segments@, ActorSegmentKind::Dialogue)),
{
    let ghost ss = response.segments@;
    let mut thought: usize = 0;
    let mut action: usize = 0;
    let mut dialogue: usize = 0;
    let mut i: usize = 0;
    while i < response.segments.len()
        invariant
            ss == response.segments@,
            i <= ss.len(),
            thought == clamp_usize(kind_chars(ss.take(i as int), ActorSegmentKind::Thought)),
            action == clamp_usize(kind_chars(ss.take(i as int), ActorSegmentKind::Action)),
            dialogue == clamp_usize(kind_chars(ss.take(i as int), ActorSegmentKind::Dialogue)),
        decreases response.segments.len() - i,
    {
        proof {
            assert(ss.take(i + 1).drop_last() =~= ss.take(i as int));
            assert(ss.take(i + 1).last() == ss[i as int]);
            lemma_kind_chars_nonneg(ss.take(i as int), ActorSegmentKind::Thought);
            lemma_kind_chars_nonneg(ss.take(i as int), ActorSegmentKind::Action);
            lemma_kind_chars_nonneg(ss.take(i as int), ActorSegmentKind::Dialogue);
        }
        let seg = &response.segments[i];
        let n = str_chars(seg.text.as_str()).len();
        match seg.kind {
            ActorSegmentKind::Thought => thought = thought.saturating_add(n),
            ActorSegmentKind::Action => action = action.saturating_add(n),
            ActorSegmentKind::Dialogue => dialogue = dialogue.saturating_add(n),
        }
        i = i + 1;
    }
    proof {
        assert(ss.take(ss.len() as int) =~= ss);
    }
    ActorLogSummary {
        speaker_id: response.speaker_id.clone(),
        speaker_name: response.speaker_name.clone(),
        segment_count: response.segments.len(),
        thought_chars: thought,
        action_chars: action,
        dialogue_chars: dialogue,
    }
}

/// Character counts are not negative.
proof fn lemma_kind_chars_nonneg(ss: Seq<ActorSegment>, kind: ActorSegmentKind)
    ensures
        kind_chars(ss, kind) >= 0,
    decreases ss.len(),
{
    if ss.len() > 0 {
        lemma_kind_chars_nonneg(ss.drop_last(), kind);
    }
}

/// When a keeper ran in a turn.
#[derive(Debug, Clone, Copy, PartialEq, Eq, Structural)]
pub enum KeeperPhase {
    AfterPlayerInput,
    AfterTurnOutputs,
}

/// The log summary of a keeper's update.
#[derive(Debug)]
pub struct KeeperLogSummary {
    pub phase: KeeperPhase,
    pub op_count: usize,
    pub op_types: Vec<&'static str>,
    pub touched_global_keys: Vec<String>,
    pub touched_player_keys: Vec<String>,
    pub touched_character_pairs: Vec<String>,
}

/// Summarizes a keeper's update: its phase, its number of operations, their
/// names, and the keys they touch.
pub fn summarize_keeper_response(phase: KeeperPhase, update: &StateUpdate) -> (s: KeeperLogSummary)
    ensures
        s.phase == phase,
        s.op_count == update.ops@.len(),
        s.op_types@.map_values(|t: &'static str| t@) == op_views(update.ops@).map_values(
            |o: OpView| op_type_name(o),
        ),
        string_seq_views(s.touched_global_keys@) == touched_labels(op_views(update.ops@), TouchScope::Global),
        string_seq_views(s.touched_player_keys@) == touched_labels(op_views(update.ops@), TouchScope::Player),
        string_seq_views(s.touched_character_pairs@) == touched_labels(
            op_views(update.ops@),
            TouchScope::Character,
        ),
{
    KeeperLogSummary {
        phase,
        op_count: update.ops.len(),
        op_types: keeper_op_types(update),
        touched_global_keys: touched_global_keys(update),
        touched_player_keys: touched_player_keys(update),
        touched_character_pairs: touched_character_pairs(update),
    }
}

/// A reply the player may pick.
#[derive(Debug)]
pub struct ReplyOption {
    pub id: String,
    pub text: String,
}

/// The log summary of suggested replies.
#[derive(Debug)]
pub struct ReplyerLogSummary {
    pub reply_count: usize,
    pub reply_ids: Vec<String>,
    pub previews: Vec<String>,
}

/// Summarizes suggested replies: their number, their ids, and a preview of
/// each text (see `preview_text`).
pub fn summarize_reply_options(replies: &Vec<ReplyOption>) -> (s: ReplyerLogSummary)
    ensures
        s.reply_count == replies@.len(),
        string_seq_views(s.reply_ids@) == replies@.map_values(|r: ReplyOption| r.id@),
        string_seq_views(s.previews@) == replies@.map_values(|r: ReplyOption| preview_text(r.text@)),
{
    let mut ids: Vec<String> = Vec::new();
    let mut previews: Vec<String> = Vec::new();
    let mut i: usize = 0;
    while i < replies.len()
        invariant
            i <= replies@.len(),
            string_seq_views(ids@) =~= replies@.take(i as int).map_values(|r: ReplyOption| r.id@),
            string_seq_views(previews@) =~= replies@.take(i as int).map_values(
                |r: ReplyOption| preview_text(r.text@),
            ),
        decreases replies.len() - i,
    {
        let ghost (b1, b2) = (ids@, previews@);
        ids.push(replies[i].id.clone());
        previews.push(truncate_text(replies[i].text.as_str()));
        proof {
            assert(ids@ =~= b1.push(ids@.last()));
            assert(previews@ =~= b2.push(previews@.last()));
            assert(replies@.take(i + 1) =~= replies@.take(i as int).push(replies@[i as int]));
            assert(string_seq_views(ids@) =~= string_seq_views(b1).push(replies@[i as int].id@));
            assert(string_seq_views(previews@) =~= string_seq_views(b2).push(
                preview_text(replies@[i as int].text@),
            ));
        }
        i = i + 1;
    }
    proof {
        assert(replies@.take(replies@.len() as int) =~= replies@);
    }
    ReplyerLogSummary { reply_count: replies.len(), reply_ids: ids, previews }
}

/// The number of line breaks in a text.
pub open spec fn newline_count(s: Seq<char>) -> nat
    decreases s.len(),
{
    if s.len() == 0 {
        0
    } else {
        newline_count(s.drop_last()) + if s.last() == '\n' {
            1nat
        } else {
            0nat
        }
    }
}

/// The number of lines of a text as `str::lines` counts them: one per line
/// break, and one more for a last line without one.
pub open spec fn line_count(s: Seq<char>) -> nat {
    if s.len() == 0 {
        0
    } else if s.last() == '\n' {
        newline_count(s)
    } else {
        newline_count(s) + 1
    }
}

proof fn lemma_newline_count_le(s: Seq<char>)
    ensures
        newline_count(s) <= s.len(),
    decreases s.len(),
{
    if s.len() > 0 {
        lemma_newline_count_le(s.drop_last());
    }
}

/// Counts the lines of a text as `str::lines` does.
pub fn count_lines(text: &str) -> (n: usize)
    ensures
        n == line_count(text@),
{
    let v = str_chars(text);
    let mut breaks: usize = 0;
    let mut i: usize = 0;
    while i < v.len()
        invariant
            v@ == text@,
            i <= v@.len(),
            breaks == newline_count(v@.take(i as int)),
            breaks <= i,
        decreases v.len() - i,
    {
        proof {
            assert(v@.take(i + 1).drop_last() =~= v@.take(i as int));
            assert(v@.take(i + 1).last() == v@[i as int]);
        }
        if v[i] == '\n' {
            breaks = breaks + 1;
        }
        i = i + 1;
    }
    proof {
        assert(v@.take(v@.len() as int) =~= v@);
    }
    if v.len() == 0 || v[v.len() - 1] == '\n' {
        breaks
    } else {
        proof {
            lemma_newline_count_le(v@.drop_last());
        }
        breaks + 1
    }
}

/// The planner's story script.
#[derive(Debug)]
pub struct PlannerResponse {
    pub story_script: String,
}

/// What the log keeps of a planner response.
#[derive(Debug)]
pub struct PlannerLogSummary {
    pub story_script_chars: usize,
    pub story_script_lines: usize,
    pub preview: String,
}

/// Summarizes a planner response: the script's characters and lines, and its
/// preview.
pub fn summarize_planner_response(response: &PlannerResponse) -> (s: PlannerLogSummary)
    ensures
        s.story_script_chars == response.story_script@.len(),
        s.story_script_lines == line_count(response.story_script@),
        s.preview@ == preview_text(response.story_script@),
{
    let chars = str_chars(response.story_script.as_str());
    PlannerLogSummary {
        story_script_chars: chars.len(),
        story_script_lines: count_lines(response.story_script.as_str()),
        preview: truncate_text(response.story_script.as_str()),
    }
}

/// The narrator's text.
#[derive(Debug)]
pub struct NarratorResponse {
    pub text: String,
}

/// What the log keeps of a narrator response.
#[derive(Debug)]
pub struct NarratorLogSummary {
    pub text_chars: usize,
    pub preview: String,
}

/// Summarizes a narrator response: its characters and its preview.
pub fn summarize_narrator_response(response: &NarratorResponse) -> (s: NarratorLogSummary)
    ensures
        s.text_chars == response.text@.len(),
        s.preview@ == preview_text(response.text@),
{
    let chars = str_chars(response.text.as_str());
    NarratorLogSummary { text_chars: chars.len(), preview: truncate_text(response.text.as_str()) }
}

/// The architect's full story: the graph, the state schemas and the
/// introduction.
#[derive(Debug)]
pub struct ArchitectResponse {
    pub graph: StoryGraph,
    pub world_state_schema: StateSchema,
    pub player_state_schema: StateSchema,
    pub introduction: String,
}

/// What the log keeps of an architect response.
#[derive(Debug)]
pub struct ArchitectLogSummary {
    pub node_count: usize,
    pub transition_count: usize,
    pub world_schema_fields: usize,
    pub player_schema_fields: usize,
    pub introduction_preview: String,
}

/// Summarizes an architect response: node, transition and schema field
/// counts, and the introduction's preview.
pub fn summarize_architect_response(response: &ArchitectResponse) -> (s: ArchitectLogSummary)
    ensures
        s.node_count == response.graph@.nodes.len(),
        s.transition_count == (if transition_count(response.graph@.nodes) > usize::MAX {
            usize::MAX as int
        } else {
            transition_count(response.graph@.nodes)
        }),
        s.world_schema_fields == response.world_state_schema.fields@.len(),
        s.player_schema_fields == response.player_state_schema.fields@.len(),
        s.introduction_preview@ == preview_text(response.introduction@),
{
    ArchitectLogSummary {
        node_count: response.graph.nodes.len(),
        transition_count: count_graph_transitions(&response.graph),
        world_schema_fields: response.world_state_schema.fields.len(),
        player_schema_fields: response.player_state_schema.fields.len(),
        introduction_preview: truncate_text(response.introduction.as_str()),
    }
}

/// The architect's first section of a drafted story.
#[derive(Debug)]
pub struct ArchitectDraftInitResponse {
    pub nodes: Vec<NarrativeNode>,
    pub transition_patches: Vec<NodeTransitionPatch>,
    pub world_state_schema: StateSchema,
    pub player_state_schema: StateSchema,
    pub section_summary: String,
    pub introduction: String,
}

/// A further section of a drafted story.
#[derive(Debug)]
pub struct ArchitectDraftChunkResponse {
    pub nodes: Vec<NarrativeNode>,
    pub transition_patches: Vec<NodeTransitionPatch>,
    pub section_summary: String,
}

/// What the log keeps of a drafted section.
#[derive(Debug)]
pub struct ArchitectDraftLogSummary {
    pub section_index: usize,
    pub total_sections: usize,
    pub node_count: usize,
    pub transition_patch_count: usize,
    pub world_schema_fields: usize,
    pub player_schema_fields: usize,
    pub section_summary_preview: String,
    pub introduction_preview: String,
}

/// Summarizes the first drafted section.
pub fn summarize_architect_draft_init(
    response: &ArchitectDraftInitResponse,
    section_index: usize,
    total_sections: usize,
) -> (s: ArchitectDraftLogSummary)
    ensures
        s.section_index == section_index,
        s.total_sections == total_sections,
        s.node_count == response.nodes@.len(),
        s.transition_patch_count == response.transition_patches@.len(),
        s.world_schema_fields == response.world_state_schema.fields@.len(),
        s.player_schema_fields == response.player_state_schema.fields@.len(),
        s.section_summary_preview@ == preview_text(response.section_summary@),
        s.introduction_preview@ == preview_text(response.introduction@),
{
    ArchitectDraftLogSummary {
        section_index,
        total_sections,
        node_count: response.nodes.len(),
        transition_patch_count: response.transition_patches.len(),
        world_schema_fields: response.world_state_schema.fields.len(),
        player_schema_fields: response.player_state_schema.fields.len(),
        section_summary_preview: truncate_text(response.section_summary.as_str()),
        introduction_preview: truncate_text(response.introduction.as_str()),
    }
}

/// Summarizes a further drafted section: it has no schemas and no
/// introduction.
pub fn summarize_architect_draft_chunk(
    response: &ArchitectDraftChunkResponse,
    section_index: usize,
    total_sections: usize,
) -> (s: ArchitectDraftLogSummary)
    ensures
        s.section_index == section_index,
        s.total_sections == total_sections,
        s.node_count == response.nodes@.len(),
        s.transition_patch_count == response.transition_patches@.len(),
        s.world_schema_fields == 0,
        s.player_schema_fields == 0,
        s.section_summary_preview@ == preview_text(response.section_summary@),
        s.introduction_preview@ == Seq::<char>::empty(),
{
    ArchitectDraftLogSummary {
        section_index,
        total_sections,
        node_count: response.nodes.len(),
        transition_patch_count: response.transition_patches.len(),
        world_schema_fields: 0,
        player_schema_fields: 0,
        section_summary_preview: truncate_text(response.section_summary.as_str()),
        introduction_preview: String::new(),
    }
}

/// Who a planned beat is for.
#[derive(Debug, Clone, Copy, PartialEq, Eq, Structural)]
pub enum ResponseBeat {
    Narrator,
    Actor,
}

/// The director's decision for a turn: the node before and after, and the
/// beats to run.
#[derive(Debug)]
pub struct DirectorResult {
    pub previous_node_id: String,
    pub current_node_id: String,
    pub transitioned: bool,
    pub beats: Vec<ResponseBeat>,
}

/// What the log keeps of a director decision.
#[derive(Debug)]
pub struct DirectorLogSummary {
    pub previous_node_id: String,
    pub current_node_id: String,
    pub transitioned: bool,
    pub beat_count: usize,
    pub beat_types: Vec<&'static str>,
}

/// The log name of a beat.
pub open spec fn beat_type(b: ResponseBeat) -> Seq<char> {
    match b {
        ResponseBeat::Narrator => "narrator"@,
        ResponseBeat::Actor => "actor"@,
    }
}

/// Summarizes a director decision: the nodes, whether it moved, and the
/// beats' count and kinds in order.
pub fn summarize_director_result(result: &DirectorResult) -> (s: DirectorLogSummary)
    ensures
        s.previous_node_id@ == result.previous_node_id@,
        s.current_node_id@ == result.current_node_id@,
        s.transitioned == result.transitioned,
        s.beat_count == result.beats@.len(),
        s.beat_types@.len() == result.beats@.len(),
        forall|i: int| 0 <= i < result.beats@.len() ==> (#[trigger] s.beat_types@[i])@ == beat_type(result.beats@[i]),
{
    let mut types: Vec<&'static str> = Vec::new();
    let mut i: usize = 0;
    while i < result.beats.len()
        invariant
            i <= result.beats@.len(),
            types@.len() == i,
            forall|k: int| 0 <= k < i ==> (#[trigger] types@[k])@ == beat_type(result.beats@[k]),
        decreases result.beats.len() - i,
    {
        let t = match result.beats[i] {
            ResponseBeat::Narrator => "narrator",
            ResponseBeat::Actor => "actor",
        };
        types.push(t);
        i = i + 1;
    }
    DirectorLogSummary {
        previous_node_id: result.previous_node_id.clone(),
        current_node_id: result.current_node_id.clone(),
        transitioned: result.transitioned,
        beat_count: result.beats.len(),
        beat_types: types,
    }
}

} // verus!
