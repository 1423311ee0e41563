//! Helpers of the engine manager: the planned story text, truncation, the
//! clock, message sequence numbers, the history the reply suggester sees,
//! and checks and patches of generated story graphs.
use vstd::prelude::*;

use crate::ordering::{has_key, lemma_insert_by_key, lemma_sorted_stably_is, ordered_by, sorted_stably, stably_sorted, strict_total};
use crate::graph::{DefectView, GraphDefect, find_graph_defect, find_node, first_where, graph_defect, has_id};
use crate::prompt::types::str_eq;
use crate::story::{
    GraphView, NarrativeNode, NodeView, StoryGraph, Transition, TransitionView, clone_transitions, node_views,
    transition_views,
};
use crate::text::{is_blank, push_str, string_of_chars, text_is_blank, truncate_chars, truncated_seq};

verus! {

/// Milliseconds since the Unix epoch, read from the system clock through
/// `SystemTime::now` and `duration_since(UNIX_EPOCH)`; `None` when the clock
/// reads a time before the epoch. Nothing is promised of the value: it
/// depends on the machine's clock.
#[verifier::external_body]
fn system_time_millis() -> (r: Option<u128>) {
    match std::time::SystemTime::now().duration_since(std::time::UNIX_EPOCH) {
        Ok(d) => Some(d.as_millis()),
        Err(_) => None,
    }
}

/// A millisecond count clamped to `u64` (0 for a clock before the epoch).
pub open spec fn clamp_millis(ms: Option<u128>) -> u64 {
    match ms {
        Some(m) => if m > u64::MAX as u128 {
            u64::MAX
        } else {
            m as u64
        },
        None => 0,
    }
}

/// A millisecond count clamped to `u64`.
pub fn timestamp_from_millis(ms: Option<u128>) -> (t: u64)
    ensures
        t == clamp_millis(ms),
{
    match ms {
        Some(m) => if m > u64::MAX as u128 {
            u64::MAX
        } else {
            m as u64
        },
        None => 0,
    }
}

/// The current time in milliseconds since the Unix epoch, clamped to `u64`;
/// 0 when the system clock reads a time before the epoch.
pub fn now_timestamp_ms() -> (t: u64)
    ensures
        exists|ms: Option<u128>| t == clamp_millis(ms),
{
    let ms = system_time_millis();
    timestamp_from_millis(ms)
}

/// The planned story, unless it is missing or blank.
pub open spec fn planned_story_or_none(planned_story: Option<Seq<char>>) -> Option<Seq<char>> {
    match planned_story {
        Some(s) => if is_blank(s) {
            None
        } else {
            Some(s)
        },
        None => None,
    }
}

/// The planned story, unless it is missing or only whitespace.
pub fn non_empty_planned_story(planned_story: Option<&str>) -> (r: Option<String>)
    ensures
        match r {
            Some(s) => planned_story_or_none(
                match planned_story {
                    Some(p) => Some(p@),
                    None => None,
                },
            ) == Some(s@),
            None => planned_story_or_none(
                match planned_story {
                    Some(p) => Some(p@),
                    None => None,
                },
            ) is None,
        },
{
    match planned_story {
        Some(p) => if text_is_blank(p) {
            None
        } else {
            Some(p.to_string())
        },
        None => None,
    }
}

/// The text a story is generated from: the planned story when there is one
/// that is not blank, the story concept otherwise.
pub fn effective_planned_story_text(planned_story: Option<&str>, story_concept: &str) -> (r: String)
    ensures
        r@ == match planned_story_or_none(
            match planned_story {
                Some(p) => Some(p@),
                None => None,
            },
        ) {
            Some(s) => s,
            None => story_concept@,
        },
{
    match non_empty_planned_story(planned_story) {
        Some(s) => s,
        None => story_concept.to_string(),
    }
}

/// Keeps at most `max_chars` characters and appends `...` when the text was
/// longer.
pub fn truncate_text(text: &str, max_chars: usize) -> (r: String)
    ensures
        r@ == truncated_seq(text@, max_chars as nat),
{
    truncate_chars(text, max_chars)
}

/// What a stored session message is.
#[derive(Debug, Clone, Copy, PartialEq, Eq, Structural)]
pub enum SessionMessageKind {
    PlayerInput,
    Narration,
    Dialogue,
    Action,
}

/// A stored message of a session.
#[derive(Debug)]
pub struct SessionMessageRecord {
    pub message_id: String,
    pub session_id: String,
    pub kind: SessionMessageKind,
    pub sequence: u64,
    pub turn_index: u64,
    pub recorded_at_ms: u64,
    pub created_at_ms: u64,
    pub updated_at_ms: u64,
    pub speaker_id: String,
    pub speaker_name: String,
    pub text: String,
}

/// The largest sequence number of a list of messages.
pub open spec fn max_sequence(ms: Seq<SessionMessageRecord>) -> Option<u64>
    decreases ms.len(),
{
    if ms.len() == 0 {
        None
    } else {
        match max_sequence(ms.drop_last()) {
            Some(m) => Some(if m >= ms.last().sequence {
                m
            } else {
                ms.last().sequence
            }),
            None => Some(ms.last().sequence),
        }
    }
}

/// The sequence number for the next message: one after the largest so far
/// (saturating), 0 for a session without messages.
pub fn next_session_message_sequence(existing: &[SessionMessageRecord]) -> (n: u64)
    ensures
        n == match max_sequence(existing@) {
            Some(m) => if m == u64::MAX {
                u64::MAX
            } else {
                (m + 1) as u64
            },
            None => 0,
        },
{
    let mut best: Option<u64> = None;
    let mut i: usize = 0;
    while i < existing.len()
        invariant
            i <= existing@.len(),
            best == max_sequence(existing@.take(i as int)),
        decreases existing.len() - i,
    {
        proof {
            assert(existing@.take(i + 1).drop_last() =~= existing@.take(i as int));
        }
        let s = existing[i].sequence;
        best = match best {
            Some(m) => Some(if m >= s {
                m
            } else {
                s
            }),
            None => Some(s),
        };
        i = i + 1;
    }
    proof {
        assert(existing@.take(existing@.len() as int) =~= existing@);
    }
    match best {
        Some(m) => m.saturating_add(1),
        None => 0,
    }
}

/// What a line of the reply suggester's history is.
#[derive(Debug, Clone, Copy, PartialEq, Eq, Structural)]
pub enum ReplyHistoryKind {
    PlayerInput,
    Narration,
    Dialogue,
    Action,
}

/// A line of the reply suggester's history.
#[derive(Debug)]
pub struct ReplyHistoryMessage {
    pub kind: ReplyHistoryKind,
    pub turn_index: u64,
    pub speaker_id: String,
    pub speaker_name: String,
    pub text: String,
}

/// The value of a history line.
pub struct ReplyView {
    pub kind: ReplyHistoryKind,
    pub turn_index: u64,
    pub speaker_id: Seq<char>,
    pub speaker_name: Seq<char>,
    pub text: Seq<char>,
}

impl View for ReplyHistoryMessage {
    type V = ReplyView;

    open spec fn view(&self) -> ReplyView {
        ReplyView {
            kind: self.kind,
            turn_index: self.turn_index,
            speaker_id: self.speaker_id@,
            speaker_name: self.speaker_name@,
            text: self.text@,
        }
    }
}

impl ReplyHistoryMessage {
    /// A copy of the line.
    pub fn duplicate(&self) -> (m: ReplyHistoryMessage)
        ensures
            m@ == self@,
    {
        ReplyHistoryMessage {
            kind: self.kind,
            turn_index: self.turn_index,
            speaker_id: self.speaker_id.clone(),
            speaker_name: self.speaker_name.clone(),
            text: self.text.clone(),
        }
    }
}

/// The views of history lines.
pub open spec fn reply_views(v: Seq<ReplyHistoryMessage>) -> Seq<ReplyView> {
    v.map_values(|m: ReplyHistoryMessage| m@)
}

/// The history line for a stored message.
pub open spec fn reply_of(m: SessionMessageRecord) -> ReplyView {
    ReplyView {
        kind: match m.kind {
            SessionMessageKind::PlayerInput => ReplyHistoryKind::PlayerInput,
            SessionMessageKind::Narration => ReplyHistoryKind::Narration,
            SessionMessageKind::Dialogue => ReplyHistoryKind::Dialogue,
            SessionMessageKind::Action => ReplyHistoryKind::Action,
        },
        turn_index: m.turn_index,
        speaker_id: m.speaker_id@,
        speaker_name: m.speaker_name@,
        text: m.text@,
    }
}

/// The history line for a stored message.
pub fn session_message_to_reply_history(message: SessionMessageRecord) -> (r: ReplyHistoryMessage)
    ensures
        r@ == reply_of(message),
{
    ReplyHistoryMessage {
        kind: match message.kind {
            SessionMessageKind::PlayerInput => ReplyHistoryKind::PlayerInput,
            SessionMessageKind::Narration => ReplyHistoryKind::Narration,
            SessionMessageKind::Dialogue => ReplyHistoryKind::Dialogue,
            SessionMessageKind::Action => ReplyHistoryKind::Action,
        },
        turn_index: message.turn_index,
        speaker_id: message.speaker_id,
        speaker_name: message.speaker_name,
        text: message.text,
    }
}

/// The latest turn with narration in a history.
pub open spec fn latest_narration_turn(h: Seq<ReplyView>) -> Option<u64>
    decreases h.len(),
{
    if h.len() == 0 {
        None
    } else {
        let rest = latest_narration_turn(h.drop_last());
        if h.last().kind == ReplyHistoryKind::Narration {
            match rest {
                Some(t) => Some(if t >= h.last().turn_index {
                    t
                } else {
                    h.last().turn_index
                }),
                None => Some(h.last().turn_index),
            }
        } else {
            rest
        }
    }
}

/// Whether a history line is kept: every line but narration of a turn other
/// than `latest`.
pub open spec fn kept_line(latest: Option<u64>) -> spec_fn(ReplyView) -> bool {
    |m: ReplyView| m.kind != ReplyHistoryKind::Narration || latest == Some(m.turn_index)
}

/// The history without narration of turns before the latest narrated turn.
pub open spec fn latest_narration_only(h: Seq<ReplyView>) -> Seq<ReplyView> {
    h.filter(kept_line(latest_narration_turn(h)))
}

/// Drops the narration of every turn but the latest narrated one, keeping the
/// other lines in order.
pub fn filter_replyer_history_to_latest_narration_turn(history: Vec<ReplyHistoryMessage>) -> (r: Vec<
    ReplyHistoryMessage,
>)
    ensures
        reply_views(r@) == latest_narration_only(reply_views(history@)),
{
    let ghost hv = reply_views(history@);
    let mut latest: Option<u64> = None;
    let mut i: usize = 0;
    while i < history.len()
        invariant
            hv == reply_views(history@),
            i <= history@.len(),
            latest == latest_narration_turn(hv.take(i as int)),
        decreases history.len() - i,
    {
        proof {
            assert(hv.take(i + 1).drop_last() =~= hv.take(i as int));
            assert(hv.take(i + 1).last() == history@[i as int]@);
        }
        if history[i].kind == ReplyHistoryKind::Narration {
            let t = history[i].turn_index;
            latest = match latest {
                Some(m) => Some(if m >= t {
                    m
                } else {
                    t
                }),
                None => Some(t),
            };
        }
        i = i + 1;
    }
    proof {
        assert(hv.take(history@.len() as int) =~= hv);
    }
    let ghost pred = kept_line(latest);
    let mut out: Vec<ReplyHistoryMessage> = Vec::new();
    let mut k: usize = 0;
    while k < history.len()
        invariant
            hv == reply_views(history@),
            k <= history@.len(),
            pred == kept_line(latest),
            reply_views(out@) == hv.take(k as int).filter(pred),
        decreases history.len() - k,
    {
        proof {
            assert(hv.take(k + 1) =~= hv.take(k as int).push(hv[k as int]));
            hv.take(k as int).lemma_filter_push(hv[k as int], pred);
            assert(hv[k as int] == history@[k as int]@);
        }
        let m = &history[k];
        if m.kind != ReplyHistoryKind::Narration || latest == Some(m.turn_index) {
            let ghost before = out@;
            out.push(m.duplicate());
            proof {
                assert(out@ =~= before.push(out@.last()));
                assert(reply_views(out@) =~= reply_views(before).push(hv[k as int]));
            }
        }
        k = k + 1;
    }
    proof {
        assert(hv.take(history@.len() as int) =~= hv);
    }
    out
}

/// The last `limit` stored messages as history lines, with the narration of
/// earlier turns dropped.
pub open spec fn reply_history(ms: Seq<SessionMessageRecord>, limit: nat) -> Seq<ReplyView> {
    let start = if ms.len() >= limit {
        ms.len() - limit
    } else {
        0
    };
    latest_narration_only(ms.subrange(start as int, ms.len() as int).map_values(|m: SessionMessageRecord| reply_of(m)))
}

/// The stored messages from `start` on, as history lines.
fn reply_lines(messages: &Vec<SessionMessageRecord>, start: usize) -> (r: Vec<ReplyHistoryMessage>)
    requires
        start <= messages@.len(),
    ensures
        reply_views(r@) == messages@.subrange(start as int, messages@.len() as int).map_values(
            |m: SessionMessageRecord| reply_of(m),
        ),
{
    let ghost all = messages@;
    let ghost f = |m: SessionMessageRecord| reply_of(m);
    let ghost sub = all.subrange(start as int, all.len() as int);
    let mut lines: Vec<ReplyHistoryMessage> = Vec::new();
    let mut i: usize = start;
    while i < messages.len()
        invariant
            all == messages@,
            start <= i <= all.len(),
            sub == all.subrange(start as int, all.len() as int),
            f == (|m: SessionMessageRecord| reply_of(m)),
            reply_views(lines@) =~= sub.take(i - start).map_values(f),
        decreases messages.len() - i,
    {
        let m = &messages[i];
        let line = ReplyHistoryMessage {
            kind: match m.kind {
                SessionMessageKind::PlayerInput => ReplyHistoryKind::PlayerInput,
                SessionMessageKind::Narration => ReplyHistoryKind::Narration,
                SessionMessageKind::Dialogue => ReplyHistoryKind::Dialogue,
                SessionMessageKind::Action => ReplyHistoryKind::Action,
            },
            turn_index: m.turn_index,
            speaker_id: m.speaker_id.clone(),
            speaker_name: m.speaker_name.clone(),
            text: m.text.clone(),
        };
        let ghost before = lines@;
        lines.push(line);
        proof {
            assert(lines@ =~= before.push(lines@.last()));
            assert(sub.take(i - start + 1) =~= sub.take(i - start).push(all[i as int]));
            assert(reply_views(lines@) =~= reply_views(before).push(f(all[i as int])));
        }
        i = i + 1;
    }
    proof {
        assert(sub.take(all.len() - start) =~= sub);
    }
    lines
}

/// The history the reply suggester sees: the last `history_limit` messages,
/// with the narration of turns before the latest narrated one dropped.
pub fn build_reply_history(messages: Vec<SessionMessageRecord>, history_limit: usize) -> (r: Vec<
    ReplyHistoryMessage,
>)
    ensures
        reply_views(r@) == reply_history(messages@, history_limit as nat),
{
    let start = messages.len().saturating_sub(history_limit);
    let lines = reply_lines(&messages, start);
    filter_replyer_history_to_latest_narration_turn(lines)
}

/// How many stored messages the reply suggester is shown.
pub const DEFAULT_REPLY_HISTORY_LIMIT: usize = 8;

/// The sequence number of a stored message.
pub open spec fn sequence_key() -> spec_fn(SessionMessageRecord) -> u64 {
    |m: SessionMessageRecord| m.sequence
}

/// The order of sequence numbers.
pub open spec fn sequence_lt() -> spec_fn(u64, u64) -> bool {
    |a: u64, b: u64| a < b
}

/// Stored messages in order of sequence number, messages of one number in
/// the order they were listed.
pub open spec fn messages_by_sequence(ms: Seq<SessionMessageRecord>) -> Seq<SessionMessageRecord> {
    sorted_stably(ms, sequence_key(), sequence_lt())
}

proof fn lemma_sequence_lt_total()
    ensures
        strict_total(sequence_lt()),
{
}

/// Sorts stored messages by sequence number, keeping the listed order of
/// messages with one number.
pub fn sort_messages_by_sequence(messages: Vec<SessionMessageRecord>) -> (r: Vec<SessionMessageRecord>)
    ensures
        r@ == messages_by_sequence(messages@),
{
    let ghost all = messages@;
    let ghost key = sequence_key();
    let ghost lt = sequence_lt();
    proof {
        lemma_sequence_lt_total();
    }
    let mut src = messages;
    let mut out: Vec<SessionMessageRecord> = Vec::new();
    while src.len() > 0
        invariant
            key == sequence_key(),
            lt == sequence_lt(),
            strict_total(lt),
            src@.len() <= all.len(),
            src@ == all.skip(all.len() - src@.len()),
            ordered_by(out@, key, lt),
            forall|k: u64| #[trigger]
                out@.filter(has_key(key, k)) == all.take(all.len() - src@.len()).filter(has_key(key, k)),
        decreases src.len(),
    {
        let ghost n = all.len() - src@.len();
        let x = src.remove(0);
        proof {
            assert(x == all[n]);
            assert(src@ =~= all.skip(all.len() - src@.len()));
        }
        let mut pos: usize = 0;
        while pos < out.len() && !(x.sequence < out[pos].sequence)
            invariant
                key == sequence_key(),
                lt == sequence_lt(),
                pos <= out@.len(),
                forall|j: int| 0 <= j < pos ==> !lt(key(x), key(#[trigger] out@[j])),
            decreases out.len() - pos,
        {
            pos = pos + 1;
        }
        let ghost out_before = out@;
        out.insert(pos, x);
        proof {
            lemma_insert_by_key(out_before, pos as int, x, key, lt);
            assert(out@ == out_before.insert(pos as int, x));
            assert(all.take(n + 1) =~= all.take(n).push(x));
            assert forall|k: u64| #[trigger]
                out@.filter(has_key(key, k)) == all.take(all.len() - src@.len()).filter(has_key(key, k)) by {
                all.take(n).lemma_filter_push(x, has_key(key, k));
                assert(out_before.filter(has_key(key, k)) == all.take(n).filter(has_key(key, k)));
            }
        }
    }
    proof {
        assert(all.take(all.len() as int) =~= all);
        assert(stably_sorted(out@, all, key, lt));
        lemma_sorted_stably_is(out@, all, key, lt);
    }
    out
}

/// The last `limit` of messages (all when there are fewer).
pub open spec fn last_messages(ms: Seq<SessionMessageRecord>, limit: nat) -> Seq<SessionMessageRecord> {
    if ms.len() >= limit {
        ms.subrange(ms.len() - limit, ms.len() as int)
    } else {
        ms
    }
}

/// The history the reply suggester is given: the last eight stored messages
/// in order of sequence number, each as a history line.
pub open spec fn recent_reply_lines(ms: Seq<SessionMessageRecord>) -> Seq<ReplyView> {
    last_messages(messages_by_sequence(ms), DEFAULT_REPLY_HISTORY_LIMIT as nat).map_values(
        |m: SessionMessageRecord| reply_of(m),
    )
}

/// The history the reply suggester is given: the stored messages ordered by
/// sequence number, the last eight of them as history lines.
pub fn recent_reply_history(messages: Vec<SessionMessageRecord>) -> (r: Vec<ReplyHistoryMessage>)
    ensures
        reply_views(r@) == recent_reply_lines(messages@),
{
    let sorted = sort_messages_by_sequence(messages);
    let start = sorted.len().saturating_sub(DEFAULT_REPLY_HISTORY_LIMIT);
    let r = reply_lines(&sorted, start);
    proof {
        if sorted@.len() < DEFAULT_REPLY_HISTORY_LIMIT {
            assert(sorted@.subrange(0, sorted@.len() as int) =~= sorted@);
        }
    }
    r
}

/// The history a prompt preview shows the reply suggester: the stored
/// messages ordered by sequence number, then the last `history_limit` of
/// them with the narration of earlier turns dropped.
pub fn preview_reply_history(messages: Vec<SessionMessageRecord>, history_limit: usize) -> (r: Vec<
    ReplyHistoryMessage,
>)
    ensures
        reply_views(r@) == reply_history(messages_by_sequence(messages@), history_limit as nat),
{
    let sorted = sort_messages_by_sequence(messages);
    build_reply_history(sorted, history_limit)
}

/// Checks the structure of a generated story graph: it has nodes, node ids are
/// unique, the start node exists and every transition leads to a node.
///
/// This is the structural check only. The story crate's check of its state
/// conventions, which the manager runs after it on a generated graph, is not
/// part of this function and is not modelled by this library: a caller that
/// needs it runs it separately, after this check succeeds.
pub fn validate_story_graph(graph: &StoryGraph) -> (r: Result<(), GraphDefect>)
    ensures
        match r {
            Ok(_) => graph_defect(graph@) is None,
            Err(d) => graph_defect(graph@) == Some(d@),
        },
{
    match find_graph_defect(graph) {
        Some(d) => Err(d),
        None => Ok(()),
    }
}

/// Transitions that a draft chunk adds to an existing node.
#[derive(Debug)]
pub struct NodeTransitionPatch {
    pub node_id: String,
    pub add_transitions: Vec<Transition>,
}

/// The value of a transition patch.
pub struct PatchView {
    pub node_id: Seq<char>,
    pub add_transitions: Seq<TransitionView>,
}

impl View for NodeTransitionPatch {
    type V = PatchView;

    open spec fn view(&self) -> PatchView {
        PatchView { node_id: self.node_id@, add_transitions: transition_views(self.add_transitions@) }
    }
}

/// The views of transition patches.
pub open spec fn patch_views(v: Seq<NodeTransitionPatch>) -> Seq<PatchView> {
    v.map_values(|p: NodeTransitionPatch| p@)
}

/// Why a draft chunk could not be merged into a story graph.
#[derive(Debug)]
pub enum DraftError {
    ReusedNodeId(String),
    MissingPatchNode(String),
    Graph(GraphDefect),
}

/// The value of a draft error.
pub enum DraftErrorView {
    ReusedNodeId(Seq<char>),
    MissingPatchNode(Seq<char>),
    Graph(DefectView),
}

impl View for DraftError {
    type V = DraftErrorView;

    open spec fn view(&self) -> DraftErrorView {
        match self {
            DraftError::ReusedNodeId(id) => DraftErrorView::ReusedNodeId(id@),
            DraftError::MissingPatchNode(id) => DraftErrorView::MissingPatchNode(id@),
            DraftError::Graph(d) => DraftErrorView::Graph(d@),
        }
    }
}

/// The readable text of a draft error.
pub open spec fn draft_error_text(e: DraftErrorView) -> Seq<char> {
    match e {
        DraftErrorView::ReusedNodeId(id) => "architect draft reused existing partial graph node id '"@ + id
            + "' as a new node; existing nodes must only be referenced in transition targets or transition_patches"@,
        DraftErrorView::MissingPatchNode(id) => "architect draft attempted to patch missing node '"@ + id
            + "'"@,
        DraftErrorView::Graph(d) => crate::graph::defect_text(d),
    }
}

impl DraftError {
    /// The readable text of the error.
    pub fn message(&self) -> (s: String)
        ensures
            s@ == draft_error_text(self@),
    {
        let mut out: Vec<char> = Vec::new();
        match self {
            DraftError::ReusedNodeId(id) => {
                push_str(&mut out, "architect draft reused existing partial graph node id '");
                push_str(&mut out, id.as_str());
                push_str(
                    &mut out,
                    "' as a new node; existing nodes must only be referenced in transition targets or transition_patches",
                );
            },
            DraftError::MissingPatchNode(id) => {
                push_str(&mut out, "architect draft attempted to patch missing node '");
                push_str(&mut out, id.as_str());
                push_str(&mut out, "'");
            },
            DraftError::Graph(d) => {
                let m = d.message();
                push_str(&mut out, m.as_str());
            },
        }
        proof {
            assert(out@ =~= draft_error_text(self@));
        }
        string_of_chars(out.as_slice())
    }
}

/// The graph with `ts` appended to the transitions of the node at `i`.
pub open spec fn with_added_transitions(g: GraphView, i: int, ts: Seq<TransitionView>) -> GraphView {
    GraphView {
        nodes: g.nodes.update(i, NodeView { transitions: g.nodes[i].transitions + ts, ..g.nodes[i] }),
        ..g
    }
}

/// The graph after applying patches in order, and the id of the first patched
/// node that does not exist (patches before it stay applied).
pub open spec fn patched(g: GraphView, ps: Seq<PatchView>) -> (GraphView, Option<Seq<char>>)
    decreases ps.len(),
{
    if ps.len() == 0 {
        (g, None)
    } else {
        let (g1, e) = patched(g, ps.drop_last());
        if e is Some {
            (g1, e)
        } else {
            match crate::graph::node_index(g1, ps.last().node_id) {
                None => (g1, Some(ps.last().node_id)),
                Some(i) => (with_added_transitions(g1, i, ps.last().add_transitions), None),
            }
        }
    }
}

/// Appends the transitions of each patch to the node it names, in order;
/// stops at the first patch that names a missing node.
pub fn apply_transition_patches(graph: &mut StoryGraph, transition_patches: &[NodeTransitionPatch]) -> (r:
    Result<(), DraftError>)
    ensures
        final(graph)@ == patched(old(graph)@, patch_views(transition_patches@)).0,
        match r {
            Ok(_) => patched(old(graph)@, patch_views(transition_patches@)).1 is None,
            Err(e) => patched(old(graph)@, patch_views(transition_patches@)).1 matches Some(id) && e@
                == DraftErrorView::MissingPatchNode(id),
        },
{
    let ghost start = graph@;
    let ghost pv = patch_views(transition_patches@);
    let mut k: usize = 0;
    while k < transition_patches.len()
        invariant
            start == old(graph)@,
            pv == patch_views(transition_patches@),
            k <= pv.len(),
            patched(start, pv.take(k as int)) == (graph@, None::<Seq<char>>),
        decreases transition_patches.len() - k,
    {
        let patch = &transition_patches[k];
        proof {
            assert(pv.take(k + 1).drop_last() =~= pv.take(k as int));
            assert(pv.take(k + 1).last() == patch@);
        }
        match find_node(&graph.nodes, patch.node_id.as_str()) {
            None => {
                proof {
                    assert(pv.take(pv.len() as int) =~= pv);
                    lemma_patched_stops(start, pv, k as int + 1);
                }
                return Err(DraftError::MissingPatchNode(patch.node_id.clone()));
            },
            Some(i) => {
                let ghost g0 = graph@;
                let mut node = graph.nodes.remove(i);
                assert(node@ == g0.nodes[i as int]);
                let extra = clone_transitions(&patch.add_transitions);
                let ghost tv0 = transition_views(node.transitions@);
                let ghost nv0 = node@;
                let mut t: usize = 0;
                let ghost ev = transition_views(extra@);
                while t < extra.len()
                    invariant
                        t <= ev.len(),
                        node@ == (NodeView { transitions: transition_views(node.transitions@), ..nv0 }),
                        ev == transition_views(extra@),
                        transition_views(node.transitions@) =~= tv0 + ev.take(t as int),
                    decreases extra.len() - t,
                {
                    let ghost before = node.transitions@;
                    node.transitions.push(extra[t].duplicate());
                    proof {
                        assert(node.transitions@ =~= before.push(node.transitions@.last()));
                        assert(ev.take(t + 1) =~= ev.take(t as int).push(extra@[t as int]@));
                        assert(transition_views(node.transitions@) =~= transition_views(before).push(
                            extra@[t as int]@,
                        ));
                    }
                    t = t + 1;
                }
                let ghost nv = node@;
                graph.nodes.insert(i, node);
                proof {
                    assert(ev.take(ev.len() as int) =~= ev);
                    assert(node_views(graph.nodes@) =~= g0.nodes.update(i as int, nv));
                    assert(nv == NodeView { transitions: g0.nodes[i as int].transitions + patch@.add_transitions, ..g0.nodes[i as int] });
                    assert(graph@ == with_added_transitions(g0, i as int, patch@.add_transitions));
                }
            },
        }
        k = k + 1;
    }
    proof {
        assert(pv.take(pv.len() as int) =~= pv);
    }
    Ok(())
}

/// Once a patch fails, later patches change nothing.
proof fn lemma_patched_stops(g: GraphView, ps: Seq<PatchView>, k: int)
    requires
        0 < k <= ps.len(),
        patched(g, ps.take(k)).1 is Some,
    ensures
        patched(g, ps) == patched(g, ps.take(k)),
    decreases ps.len() - k,
{
    if k < ps.len() {
        assert(ps.take(k + 1).drop_last() =~= ps.take(k));
        lemma_patched_stops(g, ps, k + 1);
    } else {
        assert(ps.take(k) =~= ps);
    }
}

/// The graph after adding new nodes in order, and the id of the first new
/// node whose id the graph already has (nodes before it stay added).
pub open spec fn with_new_nodes(g: GraphView, ns: Seq<NodeView>) -> (GraphView, Option<Seq<char>>)
    decreases ns.len(),
{
    if ns.len() == 0 {
        (g, None)
    } else {
        let (g1, e) = with_new_nodes(g, ns.drop_last());
        if e is Some {
            (g1, e)
        } else if crate::graph::node_ids(g1.nodes).contains(ns.last().id) {
            (g1, Some(ns.last().id))
        } else {
            (GraphView { nodes: g1.nodes.push(ns.last()), ..g1 }, None)
        }
    }
}

/// The graph after merging a draft chunk, and the first problem met: a new
/// node reusing an id, a patch of a missing node, or a defect of the merged
/// graph.
pub open spec fn merged(g: GraphView, ns: Seq<NodeView>, ps: Seq<PatchView>) -> (GraphView, Option<
    DraftErrorView,
>) {
    let (g1, e1) = with_new_nodes(g, ns);
    match e1 {
        Some(id) => (g1, Some(DraftErrorView::ReusedNodeId(id))),
        None => {
            let (g2, e2) = patched(g1, ps);
            match e2 {
                Some(id) => (g2, Some(DraftErrorView::MissingPatchNode(id))),
                None => match graph_defect(g2) {
                    Some(d) => (g2, Some(DraftErrorView::Graph(d))),
                    None => (g2, None),
                },
            }
        },
    }
}

/// Once a node is rejected, later nodes change nothing.
proof fn lemma_new_nodes_stop(g: GraphView, ns: Seq<NodeView>, k: int)
    requires
        0 < k <= ns.len(),
        with_new_nodes(g, ns.take(k)).1 is Some,
    ensures
        with_new_nodes(g, ns) == with_new_nodes(g, ns.take(k)),
    decreases ns.len() - k,
{
    if k < ns.len() {
        assert(ns.take(k + 1).drop_last() =~= ns.take(k));
        lemma_new_nodes_stop(g, ns, k + 1);
    } else {
        assert(ns.take(k) =~= ns);
    }
}

/// Merges a draft chunk into a story graph: adds its new nodes, applies its
/// transition patches, then checks the graph's structure; stops at the first
/// problem, keeping the changes made before it.
pub fn merge_story_chunk(
    graph: &mut StoryGraph,
    nodes: &[NarrativeNode],
    transition_patches: &[NodeTransitionPatch],
) -> (r: Result<(), DraftError>)
    ensures
        final(graph)@ == merged(old(graph)@, node_views(nodes@), patch_views(transition_patches@)).0,
        match r {
            Ok(_) => merged(old(graph)@, node_views(nodes@), patch_views(transition_patches@)).1 is None,
            Err(e) => merged(old(graph)@, node_views(nodes@), patch_views(transition_patches@)).1 == Some(
                e@,
            ),
        },
{
    let ghost start = graph@;
    let ghost nv = node_views(nodes@);
    let mut k: usize = 0;
    while k < nodes.len()
        invariant
            start == old(graph)@,
            nv == node_views(nodes@),
            k <= nv.len(),
            with_new_nodes(start, nv.take(k as int)) == (graph@, None::<Seq<char>>),
        decreases nodes.len() - k,
    {
        proof {
            assert(nv.take(k + 1).drop_last() =~= nv.take(k as int));
            assert(nv.take(k + 1).last() == nodes@[k as int]@);
        }
        let ghost g0 = graph@;
        match find_node(&graph.nodes, nodes[k].id.as_str()) {
            Some(_) => {
                proof {
                    crate::graph::lemma_first_where(g0.nodes.len() as int, has_id(g0.nodes, nodes@[k as int]@.id), 0);
                    let j = crate::graph::node_index(g0, nodes@[k as int]@.id)->0;
                    assert(crate::graph::node_ids(g0.nodes)[j] == nodes@[k as int]@.id);
                    assert(nv.take(nv.len() as int) =~= nv);
                    lemma_new_nodes_stop(start, nv, k as int + 1);
                }
                return Err(DraftError::ReusedNodeId(nodes[k].id.clone()));
            },
            None => {
                proof {
                    crate::graph::lemma_first_where(g0.nodes.len() as int, has_id(g0.nodes, nodes@[k as int]@.id), 0);
                    let ids = crate::graph::node_ids(g0.nodes);
                    if ids.contains(nodes@[k as int]@.id) {
                        let j = choose|j: int| 0 <= j < ids.len() && ids[j] == nodes@[k as int]@.id;
                        assert(has_id(g0.nodes, nodes@[k as int]@.id)(j));
                    }
                }
                let copy = nodes[k].duplicate();
                let ghost before = graph.nodes@;
                graph.nodes.push(copy);
                proof {
                    assert(node_views(graph.nodes@) =~= node_views(before).push(nodes@[k as int]@));
                }
            },
        }
        k = k + 1;
    }
    proof {
        assert(nv.take(nv.len() as int) =~= nv);
    }
    match apply_transition_patches(graph, transition_patches) {
        Err(e) => return Err(e),
        Ok(_) => {},
    }
    match validate_story_graph(graph) {
        Err(d) => Err(DraftError::Graph(d)),
        Ok(_) => Ok(()),
    }
}

} // verus!
