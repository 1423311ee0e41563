//! The text blocks that prompt previews are assembled from: titled sections,
//! bulleted lists, the player, section summaries, the purpose of a request,
//! and the nodes, transitions and conditions of the story graph.
use vstd::prelude::*;

use crate::progression::{condition_text, describe_condition, transitions_to};
use crate::prompt::types::str_eq;
use crate::text::{inline_seq, normalize_inline_text};
use crate::prompt::types::{
    PromptPreviewActorPurpose, PromptPreviewKeeperPhase, PromptPreviewNarratorPurpose,
};
use crate::story::{
    ConditionScope, ConditionView, NarrativeNode, NodeView, Transition, TransitionView,
    transition_views,
};
use crate::text::{
    decimal, joined, join_strings, push_str, string_of_chars, string_seq_views, trim_end_seq,
    trim_end_text, usize_decimal,
};
use crate::world::{StateValue, assoc_set, memory_views, pair_views, set_value, ActorMemoryEntry, ActorMemoryKind, MemoryView};
use crate::graph::node_index;
use crate::runtime::RuntimeState;
use crate::story::Condition;

verus! {

/// `title:` on a line of its own, then the body without trailing whitespace.
pub open spec fn section_text(title: Seq<char>, body: Seq<char>) -> Seq<char> {
    title + ":\n"@ + trim_end_seq(body)
}

/// The views of titled sections.
pub open spec fn section_views<'a>(s: Seq<(&'a str, String)>) -> Seq<(Seq<char>, Seq<char>)> {
    s.map_values(|p: (&'a str, String)| (p.0@, p.1@))
}

/// Titled sections, separated by blank lines.
pub open spec fn sections_text(s: Seq<(Seq<char>, Seq<char>)>) -> Seq<char> {
    joined(s.map_values(|p: (Seq<char>, Seq<char>)| section_text(p.0, p.1)), "\n\n"@)
}

/// Renders titled sections, separated by blank lines.
pub fn render_sections(sections: &[(&str, String)]) -> (r: String)
    ensures
        r@ == sections_text(section_views(sections@)),
{
    let ghost sv = section_views(sections@);
    let ghost f = |p: (Seq<char>, Seq<char>)| section_text(p.0, p.1);
    let mut parts: Vec<String> = Vec::new();
    let mut i: usize = 0;
    while i < sections.len()
        invariant
            sv == section_views(sections@),
            f == (|p: (Seq<char>, Seq<char>)| section_text(p.0, p.1)),
            i <= sections@.len(),
            string_seq_views(parts@) =~= sv.take(i as int).map_values(f),
        decreases sections.len() - i,
    {
        let (title, body) = &sections[i];
        let mut out: Vec<char> = Vec::new();
        push_str(&mut out, *title);
        push_str(&mut out, ":\n");
        let trimmed = trim_end_text(body.as_str());
        push_str(&mut out, trimmed.as_str());
        let ghost before = parts@;
        parts.push(string_of_chars(out.as_slice()));
        proof {
            assert(sv[i as int] == (title@, body@));
            assert(parts@ =~= before.push(parts@.last()));
            assert(sv.take(i + 1) =~= sv.take(i as int).push(sv[i as int]));
            assert(string_seq_views(parts@) =~= string_seq_views(before).push(f(sv[i as int])));
        }
        i = i + 1;
    }
    proof {
        assert(sv.take(sections@.len() as int) =~= sv);
    }
    join_strings(&parts, "\n\n")
}

/// Lines each prefixed by `- `, one per line; `- none` for no lines.
pub open spec fn list_text(lines: Seq<Seq<char>>) -> Seq<char> {
    if lines.len() == 0 {
        "- none"@
    } else {
        joined(lines.map_values(|l: Seq<char>| "- "@ + l), "\n"@)
    }
}

/// Prefixes each string with `p`.
pub fn prefix_each(lines: &Vec<String>, p: &str) -> (r: Vec<String>)
    ensures
        string_seq_views(r@) == string_seq_views(lines@).map_values(|l: Seq<char>| p@ + l),
{
    let ghost lv = string_seq_views(lines@);
    let ghost f = |l: Seq<char>| p@ + l;
    let mut out: Vec<String> = Vec::new();
    let mut i: usize = 0;
    while i < lines.len()
        invariant
            lv == string_seq_views(lines@),
            f == (|l: Seq<char>| p@ + l),
            i <= lines@.len(),
            string_seq_views(out@) =~= lv.take(i as int).map_values(f),
        decreases lines.len() - i,
    {
        let mut v: Vec<char> = Vec::new();
        push_str(&mut v, p);
        push_str(&mut v, lines[i].as_str());
        let ghost before = out@;
        out.push(string_of_chars(v.as_slice()));
        proof {
            assert(out@ =~= before.push(out@.last()));
            assert(lv.take(i + 1) =~= lv.take(i as int).push(lv[i as int]));
            assert(string_seq_views(out@) =~= string_seq_views(before).push(f(lv[i as int])));
        }
        i = i + 1;
    }
    proof {
        assert(lv.take(lines@.len() as int) =~= lv);
    }
    out
}

/// Renders lines as a bulleted list; `- none` when there are none.
pub fn render_list_lines(lines: &Vec<String>) -> (r: String)
    ensures
        r@ == list_text(string_seq_views(lines@)),
{
    if lines.len() == 0 {
        return "- none".to_string();
    }
    let items = prefix_each(lines, "- ");
    join_strings(&items, "\n")
}

/// The player block: the name (`User` when none is known) and the
/// description.
pub open spec fn player_text(name: Option<Seq<char>>, description: Seq<char>) -> Seq<char> {
    sections_text(
        seq![
            ("name"@, match name {
                Some(n) => n,
                None => "User"@,
            }),
            ("description"@, description),
        ],
    )
}

/// Renders the player block.
pub fn render_player(name: Option<&str>, description: &str) -> (r: String)
    ensures
        r@ == player_text(
            match name {
                Some(n) => Some(n@),
                None => None,
            },
            description@,
        ),
{
    let shown = match name {
        Some(n) => n.to_string(),
        None => "User".to_string(),
    };
    let mut sections: Vec<(&str, String)> = Vec::new();
    sections.push(("name", shown));
    sections.push(("description", description.to_string()));
    proof {
        assert(section_views(sections@) =~= seq![
            ("name"@, match name {
                Some(n) => n@,
                None => "User"@,
            }),
            ("description"@, description@),
        ]);
    }
    let r = render_sections(sections.as_slice());
    proof {
        let nm = match name {
            Some(n) => Some(n@),
            None => None,
        };
        assert(seq![
            ("name"@, match name {
                Some(n) => n@,
                None => "User"@,
            }),
            ("description"@, description@),
        ] =~= seq![
            ("name"@, match nm {
                Some(n) => n,
                None => "User"@,
            }),
            ("description"@, description@),
        ]);
    }
    r
}

/// `- [index] summary` per summary, one per line; `- none` for none.
pub open spec fn summaries_text(s: Seq<Seq<char>>) -> Seq<char> {
    if s.len() == 0 {
        "- none"@
    } else {
        joined(Seq::new(s.len(), |i: int| "- ["@ + decimal(i as nat) + "] "@ + s[i]), "\n"@)
    }
}

/// Renders the summaries of earlier sections, numbered from 0.
pub fn render_section_summaries(section_summaries: &Vec<String>) -> (r: String)
    ensures
        r@ == summaries_text(string_seq_views(section_summaries@)),
{
    if section_summaries.len() == 0 {
        return "- none".to_string();
    }
    let ghost sv = string_seq_views(section_summaries@);
    let ghost all = Seq::new(sv.len(), |i: int| "- ["@ + decimal(i as nat) + "] "@ + sv[i]);
    let mut out: Vec<String> = Vec::new();
    let mut i: usize = 0;
    while i < section_summaries.len()
        invariant
            sv == string_seq_views(section_summaries@),
            all == Seq::new(sv.len(), |i: int| "- ["@ + decimal(i as nat) + "] "@ + sv[i]),
            i <= sv.len(),
            string_seq_views(out@) =~= all.take(i as int),
        decreases section_summaries.len() - i,
    {
        let mut v: Vec<char> = Vec::new();
        push_str(&mut v, "- [");
        let n = usize_decimal(i);
        push_str(&mut v, n.as_str());
        push_str(&mut v, "] ");
        push_str(&mut v, section_summaries[i].as_str());
        let ghost before = out@;
        out.push(string_of_chars(v.as_slice()));
        proof {
            assert(out@ =~= before.push(out@.last()));
            assert(all.take(i + 1) =~= all.take(i as int).push(all[i as int]));
            assert(string_seq_views(out@) =~= string_seq_views(before).push(all[i as int]));
        }
        i = i + 1;
    }
    proof {
        assert(all.take(sv.len() as int) =~= all);
    }
    join_strings(&out, "\n")
}

/// The JSON text of an actor's purpose.
pub open spec fn actor_purpose_text(p: PromptPreviewActorPurpose) -> Seq<char> {
    match p {
        PromptPreviewActorPurpose::AdvanceGoal => "\"AdvanceGoal\""@,
        PromptPreviewActorPurpose::ReactToPlayer => "\"ReactToPlayer\""@,
        PromptPreviewActorPurpose::CommentOnScene => "\"CommentOnScene\""@,
    }
}

/// Renders an actor's purpose as its JSON text.
pub fn render_actor_purpose(purpose: PromptPreviewActorPurpose) -> (r: String)
    ensures
        r@ == actor_purpose_text(purpose),
{
    match purpose {
        PromptPreviewActorPurpose::AdvanceGoal => "\"AdvanceGoal\"".to_string(),
        PromptPreviewActorPurpose::ReactToPlayer => "\"ReactToPlayer\"".to_string(),
        PromptPreviewActorPurpose::CommentOnScene => "\"CommentOnScene\"".to_string(),
    }
}

/// The JSON text of a narrator's purpose.
pub open spec fn narrator_purpose_text(p: PromptPreviewNarratorPurpose) -> Seq<char> {
    match p {
        PromptPreviewNarratorPurpose::DescribeTransition => "\"DescribeTransition\""@,
        PromptPreviewNarratorPurpose::DescribeScene => "\"DescribeScene\""@,
        PromptPreviewNarratorPurpose::DescribeResult => "\"DescribeResult\""@,
    }
}

/// Renders a narrator's purpose as its JSON text.
pub fn render_narrator_purpose(purpose: PromptPreviewNarratorPurpose) -> (r: String)
    ensures
        r@ == narrator_purpose_text(purpose),
{
    match purpose {
        PromptPreviewNarratorPurpose::DescribeTransition => "\"DescribeTransition\"".to_string(),
        PromptPreviewNarratorPurpose::DescribeScene => "\"DescribeScene\"".to_string(),
        PromptPreviewNarratorPurpose::DescribeResult => "\"DescribeResult\"".to_string(),
    }
}

/// The JSON text of a keeper phase.
pub open spec fn keeper_phase_text(p: PromptPreviewKeeperPhase) -> Seq<char> {
    match p {
        PromptPreviewKeeperPhase::AfterPlayerInput => "\"AfterPlayerInput\""@,
        PromptPreviewKeeperPhase::AfterTurnOutputs => "\"AfterTurnOutputs\""@,
    }
}

/// Renders a keeper phase as its JSON text.
pub fn render_keeper_phase(phase: PromptPreviewKeeperPhase) -> (r: String)
    ensures
        r@ == keeper_phase_text(phase),
{
    match phase {
        PromptPreviewKeeperPhase::AfterPlayerInput => "\"AfterPlayerInput\"".to_string(),
        PromptPreviewKeeperPhase::AfterTurnOutputs => "\"AfterTurnOutputs\"".to_string(),
    }
}

/// Sets `key` in a prompt context when a value is given; leaves the context
/// unchanged otherwise.
pub fn insert_optional(map: &mut Vec<StateValue>, key: &str, value: Option<String>)
    ensures
        pair_views(final(map)@) == match value {
            Some(v) => assoc_set(pair_views(old(map)@), key@, v@),
            None => pair_views(old(map)@),
        },
{
    match value {
        Some(v) => set_value(map, key.to_string(), v),
        None => {},
    }
}

/// `to node=<id> when <condition>`, or `when always` without a condition.
pub open spec fn transition_text(t: TransitionView) -> Seq<char> {
    match t.condition {
        Some(c) => "to node="@ + t.to + " when "@ + condition_text(c),
        None => "to node="@ + t.to + " when always"@,
    }
}

/// The scope, key and (for a character condition) character that a keeper
/// should track for a condition.
pub open spec fn tracking_scope(c: ConditionView) -> Seq<char> {
    match c.scope {
        ConditionScope::Global => "global"@,
        ConditionScope::Player => "player"@,
        ConditionScope::Character => "character"@,
    }
}

/// The progression hint for a transition: its target, its condition, and the
/// state the keeper should track for it.
pub open spec fn hint_text(t: TransitionView) -> Seq<char> {
    match t.condition {
        Some(c) => {
            let base = "target_node="@ + t.to + " | condition="@ + condition_text(c)
                + " | likely_state_scope="@ + tracking_scope(c) + " | tracked_key="@ + c.key;
            match (c.scope, c.character) {
                (ConditionScope::Character, Some(ch)) => base + " | tracked_character="@ + ch,
                _ => base,
            }
        },
        None => "target_node="@ + t.to
            + " | condition=always | likely_state_scope=none | tracked_key=none"@,
    }
}

/// Renders a transition.
pub fn render_transition(transition: &Transition) -> (r: String)
    ensures
        r@ == transition_text(transition@),
{
    let mut out: Vec<char> = Vec::new();
    push_str(&mut out, "to node=");
    push_str(&mut out, transition.to.as_str());
    match &transition.condition {
        Some(c) => {
            push_str(&mut out, " when ");
            let d = describe_condition(c);
            push_str(&mut out, d.as_str());
        },
        None => push_str(&mut out, " when always"),
    }
    proof {
        assert(out@ =~= transition_text(transition@));
    }
    string_of_chars(out.as_slice())
}

/// Renders the progression hint for a transition.
pub fn render_keeper_progression_hint_line(transition: &Transition) -> (r: String)
    ensures
        r@ == hint_text(transition@),
{
    let mut out: Vec<char> = Vec::new();
    push_str(&mut out, "target_node=");
    push_str(&mut out, transition.to.as_str());
    match &transition.condition {
        Some(c) => {
            push_str(&mut out, " | condition=");
            let d = describe_condition(c);
            push_str(&mut out, d.as_str());
            push_str(&mut out, " | likely_state_scope=");
            match c.scope {
                ConditionScope::Global => push_str(&mut out, "global"),
                ConditionScope::Player => push_str(&mut out, "player"),
                ConditionScope::Character => push_str(&mut out, "character"),
            }
            push_str(&mut out, " | tracked_key=");
            push_str(&mut out, c.key.as_str());
            if c.scope == ConditionScope::Character {
                match &c.character {
                    Some(ch) => {
                        push_str(&mut out, " | tracked_character=");
                        push_str(&mut out, ch.as_str());
                    },
                    None => {},
                }
            }
        },
        None => push_str(&mut out, " | condition=always | likely_state_scope=none | tracked_key=none"),
    }
    proof {
        assert(out@ =~= hint_text(transition@));
    }
    string_of_chars(out.as_slice())
}

/// Renders each transition of a list, as a plain line or as a progression
/// hint.
fn transition_lines(ts: &Vec<Transition>, hints: bool) -> (r: Vec<String>)
    ensures
        string_seq_views(r@) == transition_views(ts@).map_values(
            |t: TransitionView|
                if hints {
                    hint_text(t)
                } else {
                    transition_text(t)
                },
        ),
{
    let ghost tv = transition_views(ts@);
    let ghost f = |t: TransitionView|
        if hints {
            hint_text(t)
        } else {
            transition_text(t)
        };
    let mut out: Vec<String> = Vec::new();
    let mut i: usize = 0;
    while i < ts.len()
        invariant
            tv == transition_views(ts@),
            f == (|t: TransitionView|
                if hints {
                    hint_text(t)
                } else {
                    transition_text(t)
                }),
            i <= ts@.len(),
            string_seq_views(out@) =~= tv.take(i as int).map_values(f),
        decreases ts.len() - i,
    {
        let line = if hints {
            render_keeper_progression_hint_line(&ts[i])
        } else {
            render_transition(&ts[i])
        };
        let ghost before = out@;
        out.push(line);
        proof {
            assert(tv[i as int] == ts@[i as int]@);
            assert(out@ =~= before.push(out@.last()));
            assert(tv.take(i + 1) =~= tv.take(i as int).push(tv[i as int]));
            assert(string_seq_views(out@) =~= string_seq_views(before).push(f(tv[i as int])));
        }
        i = i + 1;
    }
    proof {
        assert(tv.take(ts@.len() as int) =~= tv);
    }
    out
}

/// The sections describing a node, with its transitions rendered as given.
pub open spec fn node_sections(n: NodeView, last_title: Seq<char>, last_body: Seq<char>) -> Seq<
    (Seq<char>, Seq<char>),
> {
    seq![
        ("id"@, n.id),
        ("title"@, n.title),
        ("scene"@, n.scene),
        ("goal"@, n.goal),
        ("characters"@, joined(n.characters, ", "@)),
        (last_title, last_body),
    ]
}

/// A node: its id, title, scene, goal, characters and transitions.
pub open spec fn node_text(n: NodeView) -> Seq<char> {
    sections_text(
        node_sections(n, "transitions"@, list_text(n.transitions.map_values(|t: TransitionView| transition_text(t)))),
    )
}

/// A node as a keeper sees it: like `node_text`, with the transitions as
/// `candidate_transitions`.
pub open spec fn keeper_node_text(n: NodeView) -> Seq<char> {
    sections_text(
        node_sections(
            n,
            "candidate_transitions"@,
            list_text(n.transitions.map_values(|t: TransitionView| transition_text(t))),
        ),
    )
}

/// Renders the sections of a node with the given last section.
fn render_node_sections(node: &NarrativeNode, last_title: &str, last_body: String) -> (r: String)
    ensures
        r@ == sections_text(node_sections(node@, last_title@, last_body@)),
{
    let mut sections: Vec<(&str, String)> = Vec::new();
    sections.push(("id", node.id.clone()));
    sections.push(("title", node.title.clone()));
    sections.push(("scene", node.scene.clone()));
    sections.push(("goal", node.goal.clone()));
    sections.push(("characters", join_strings(&node.characters, ", ")));
    sections.push((last_title, last_body));
    proof {
        assert(section_views(sections@) =~= node_sections(node@, last_title@, last_body@));
    }
    render_sections(sections.as_slice())
}

/// Renders a node.
pub fn render_node(node: &NarrativeNode) -> (r: String)
    ensures
        r@ == node_text(node@),
{
    let lines = transition_lines(&node.transitions, false);
    let body = render_list_lines(&lines);
    proof {
        assert(string_seq_views(lines@) =~= node@.transitions.map_values(
            |t: TransitionView| transition_text(t),
        ));
    }
    render_node_sections(node, "transitions", body)
}

/// Renders a node as a keeper sees it.
pub fn render_keeper_node(node: &NarrativeNode) -> (r: String)
    ensures
        r@ == keeper_node_text(node@),
{
    let lines = transition_lines(&node.transitions, false);
    let body = render_list_lines(&lines);
    proof {
        assert(string_seq_views(lines@) =~= node@.transitions.map_values(
            |t: TransitionView| transition_text(t),
        ));
    }
    render_node_sections(node, "candidate_transitions", body)
}

/// The progression hints of all transitions of a node.
pub open spec fn hints_text(n: NodeView) -> Seq<char> {
    list_text(n.transitions.map_values(|t: TransitionView| hint_text(t)))
}

/// Renders the progression hints of all transitions of a node.
pub fn render_keeper_progression_hints(node: &NarrativeNode) -> (r: String)
    ensures
        r@ == hints_text(node@),
{
    let lines = transition_lines(&node.transitions, true);
    proof {
        assert(string_seq_views(lines@) =~= node@.transitions.map_values(
            |t: TransitionView| hint_text(t),
        ));
    }
    render_list_lines(&lines)
}

/// How a keeper sees a move between nodes: whether the node changed, from
/// and to which node, and the hints of the transitions between the two;
/// `null` when there was no previous node.
pub open spec fn node_change_text(previous: Option<NodeView>, current: NodeView) -> Seq<char> {
    match previous {
        None => "null"@,
        Some(p) => sections_text(
            seq![
                ("transitioned"@, if p.id != current.id {
                    "true"@
                } else {
                    "false"@
                }),
                ("from"@, p.id),
                ("to"@, current.id),
                ("matched_transition_hints"@, list_text(
                    transitions_to(p.transitions, current.id).map_values(|t: TransitionView| hint_text(t)),
                )),
            ],
        ),
    }
}

/// Renders how a keeper sees a move between nodes.
pub fn render_keeper_node_change(previous_node: Option<&NarrativeNode>, current_node: &NarrativeNode) -> (r:
    String)
    ensures
        r@ == node_change_text(
            match previous_node {
                Some(n) => Some(n@),
                None => None,
            },
            current_node@,
        ),
{
    let previous = match previous_node {
        Some(p) => p,
        None => return "null".to_string(),
    };
    let ghost tv = previous@.transitions;
    let ghost cur = current_node@.id;
    let ghost pred = |t: TransitionView| t.to == cur;
    let ghost f = |t: TransitionView| hint_text(t);
    let mut lines: Vec<String> = Vec::new();
    let mut i: usize = 0;
    while i < previous.transitions.len()
        invariant
            tv == previous@.transitions,
            tv == transition_views(previous.transitions@),
            cur == current_node@.id,
            pred == (|t: TransitionView| t.to == cur),
            f == (|t: TransitionView| hint_text(t)),
            i <= tv.len(),
            string_seq_views(lines@) =~= tv.take(i as int).filter(pred).map_values(f),
        decreases previous.transitions.len() - i,
    {
        proof {
            assert(tv.take(i + 1) =~= tv.take(i as int).push(tv[i as int]));
            tv.take(i as int).lemma_filter_push(tv[i as int], pred);
            assert(tv[i as int] == previous.transitions@[i as int]@);
        }
        if str_eq(previous.transitions[i].to.as_str(), current_node.id.as_str()) {
            let line = render_keeper_progression_hint_line(&previous.transitions[i]);
            let ghost before = lines@;
            lines.push(line);
            proof {
                assert(lines@ =~= before.push(lines@.last()));
                assert(string_seq_views(lines@) =~= string_seq_views(before).push(f(tv[i as int])));
            }
        }
        i = i + 1;
    }
    proof {
        assert(tv.take(tv.len() as int) =~= tv);
        assert(transitions_to(tv, cur) == tv.filter(pred));
    }
    let transitioned = if str_eq(previous.id.as_str(), current_node.id.as_str()) {
        "false".to_string()
    } else {
        "true".to_string()
    };
    let mut sections: Vec<(&str, String)> = Vec::new();
    sections.push(("transitioned", transitioned));
    sections.push(("from", previous.id.clone()));
    sections.push(("to", current_node.id.clone()));
    sections.push(("matched_transition_hints", render_list_lines(&lines)));
    proof {
        assert(section_views(sections@) =~= seq![
            ("transitioned"@, if previous@.id != current_node@.id {
                "true"@
            } else {
                "false"@
            }),
            ("from"@, previous@.id),
            ("to"@, current_node@.id),
            ("matched_transition_hints"@, list_text(
                transitions_to(tv, cur).map_values(|t: TransitionView| hint_text(t)),
            )),
        ]);
    }
    render_sections(sections.as_slice())
}

/// The label of a kind of history line.
pub open spec fn memory_kind_text(k: ActorMemoryKind) -> Seq<char> {
    match k {
        ActorMemoryKind::PlayerInput => "player_input"@,
        ActorMemoryKind::Narration => "narration"@,
        ActorMemoryKind::Dialogue => "dialogue"@,
        ActorMemoryKind::Thought => "thought"@,
        ActorMemoryKind::Action => "action"@,
    }
}

/// The label of a kind of history line.
pub fn actor_memory_kind_label(kind: ActorMemoryKind) -> (s: &'static str)
    ensures
        s@ == memory_kind_text(kind),
{
    match kind {
        ActorMemoryKind::PlayerInput => "player_input",
        ActorMemoryKind::Narration => "narration",
        ActorMemoryKind::Dialogue => "dialogue",
        ActorMemoryKind::Thought => "thought",
        ActorMemoryKind::Action => "action",
    }
}

/// `[speaker id|speaker name|kind] text`, the text on one line.
pub open spec fn memory_line(e: MemoryView) -> Seq<char> {
    "["@ + e.0 + "|"@ + e.1 + "|"@ + memory_kind_text(e.2) + "] "@ + inline_seq(e.3)
}

/// The shared history an actor sees, one bulleted line per entry.
pub open spec fn history_text(entries: Seq<MemoryView>) -> Seq<char> {
    list_text(entries.map_values(|e: MemoryView| memory_line(e)))
}

/// Renders the shared history an actor sees.
pub fn render_actor_history(entries: &Vec<ActorMemoryEntry>) -> (r: String)
    ensures
        r@ == history_text(memory_views(entries@)),
{
    let r = render_history_from(entries, 0);
    assert(memory_views(entries@).subrange(0, entries@.len() as int) =~= memory_views(entries@));
    r
}

/// The latest `limit` lines of a shared history (all of it when shorter),
/// oldest first.
pub open spec fn recent_entries(entries: Seq<MemoryView>, limit: nat) -> Seq<MemoryView> {
    if entries.len() > limit {
        entries.subrange(entries.len() - limit, entries.len() as int)
    } else {
        entries
    }
}

/// Renders the latest `limit` lines of a shared history.
pub fn render_recent_history(entries: &Vec<ActorMemoryEntry>, limit: usize) -> (r: String)
    ensures
        r@ == history_text(recent_entries(memory_views(entries@), limit as nat)),
{
    let start = entries.len().saturating_sub(limit);
    let r = render_history_from(entries, start);
    assert(entries@.len() <= limit ==> memory_views(entries@).subrange(0, entries@.len() as int) =~= memory_views(
        entries@,
    ));
    r
}

/// Renders a shared history from line `start` on.
fn render_history_from(entries: &Vec<ActorMemoryEntry>, start: usize) -> (r: String)
    requires
        start <= entries@.len(),
    ensures
        r@ == history_text(memory_views(entries@).subrange(start as int, entries@.len() as int)),
{
    let ghost f = |e: MemoryView| memory_line(e);
    let ghost sub = memory_views(entries@).subrange(start as int, entries@.len() as int);
    let mut lines: Vec<String> = Vec::new();
    let mut i: usize = start;
    while i < entries.len()
        invariant
            f == (|e: MemoryView| memory_line(e)),
            start <= i <= entries@.len(),
            sub == memory_views(entries@).subrange(start as int, entries@.len() as int),
            string_seq_views(lines@) =~= sub.take(i - start).map_values(f),
        decreases entries.len() - i,
    {
        let e = &entries[i];
        let mut v: Vec<char> = Vec::new();
        push_str(&mut v, "[");
        push_str(&mut v, e.speaker_id.as_str());
        push_str(&mut v, "|");
        push_str(&mut v, e.speaker_name.as_str());
        push_str(&mut v, "|");
        push_str(&mut v, actor_memory_kind_label(e.kind));
        push_str(&mut v, "] ");
        let t = normalize_inline_text(e.text.as_str());
        push_str(&mut v, t.as_str());
        let ghost before = lines@;
        lines.push(string_of_chars(v.as_slice()));
        proof {
            assert(lines@ =~= before.push(lines@.last()));
            assert(sub.take(i - start + 1) =~= sub.take(i - start).push(entries@[i as int]@));
            assert(string_seq_views(lines@) =~= string_seq_views(before).push(f(entries@[i as int]@)));
        }
        i = i + 1;
    }
    proof {
        assert(sub.take(entries@.len() - start) =~= sub);
    }
    render_list_lines(&lines)
}

/// Renders a transition condition: `<scope>.<key> <op> <value>`.
pub fn render_condition(condition: &Condition) -> (s: String)
    ensures
        s@ == condition_text(condition@),
{
    describe_condition(condition)
}

/// Renders a transition condition for the keeper, as `render_condition`
/// does.
pub fn render_keeper_condition(condition: &Condition) -> (s: String)
    ensures
        s@ == condition_text(condition@),
{
    describe_condition(condition)
}

/// How the keeper is shown a transition: `to node=<target> when <condition>`,
/// or `when always` for a transition without a condition.
pub open spec fn keeper_transition_text(t: TransitionView) -> Seq<char> {
    "to node="@ + t.to + match t.condition {
        Some(c) => " when "@ + condition_text(c),
        None => " when always"@,
    }
}

/// Renders a transition for the keeper.
pub fn render_keeper_transition(transition: &Transition) -> (s: String)
    ensures
        s@ == keeper_transition_text(transition@),
{
    let mut out: Vec<char> = Vec::new();
    push_str(&mut out, "to node=");
    push_str(&mut out, transition.to.as_str());
    match &transition.condition {
        Some(condition) => {
            push_str(&mut out, " when ");
            let c = describe_condition(condition);
            push_str(&mut out, c.as_str());
        },
        None => push_str(&mut out, " when always"),
    }
    let r = string_of_chars(out.as_slice());
    proof {
        assert(r@ =~= keeper_transition_text(transition@));
    }
    r
}

/// What the keeper should track for a condition: its scope, its key, and its
/// character when it is a character condition.
pub fn keeper_condition_tracking_hint<'a>(condition: &'a Condition) -> (r: (&'static str, &'a str, Option<&'a str>))
    ensures
        r.0@ == tracking_scope(condition@),
        r.1@ == condition@.key,
        match r.2 {
            Some(c) => condition@.scope == ConditionScope::Character && condition@.character == Some(c@),
            None => condition@.scope != ConditionScope::Character || condition@.character is None,
        },
{
    match condition.scope {
        ConditionScope::Global => ("global", condition.key.as_str(), None),
        ConditionScope::Player => ("player", condition.key.as_str(), None),
        ConditionScope::Character => {
            let character = match &condition.character {
                Some(c) => Some(c.as_str()),
                None => None,
            };
            ("character", condition.key.as_str(), character)
        },
    }
}

/// The message for a previous node id that the graph lacks.
pub open spec fn missing_previous_text(id: Seq<char>) -> Seq<char> {
    "previous_node_id '"@ + id + "' was not found in runtime graph"@
}

/// The node a preview names as the previous one: none when no id is given,
/// the node with that id, or an error when the graph has no such node.
pub fn previous_node<'a>(runtime_state: &'a RuntimeState, previous_node_id: Option<&str>) -> (r: Result<
    Option<&'a NarrativeNode>,
    String,
>)
    ensures
        match previous_node_id {
            None => r is Ok && r->Ok_0 is None,
            Some(id) => match node_index(runtime_state@.graph, id@) {
                Some(i) => r is Ok && r->Ok_0 is Some && (r->Ok_0->0)@ == runtime_state@.graph.nodes[i],
                None => r is Err && (r->Err_0)@ == missing_previous_text(id@),
            },
        },
{
    match previous_node_id {
        None => Ok(None),
        Some(id) => match runtime_state.runtime_graph().get_node(id) {
            Some(node) => Ok(Some(node)),
            None => {
                let mut out: Vec<char> = Vec::new();
                push_str(&mut out, "previous_node_id '");
                push_str(&mut out, id);
                push_str(&mut out, "' was not found in runtime graph");
                proof {
                    assert(out@ =~= missing_previous_text(id@));
                }
                Err(string_of_chars(out.as_slice()))
            },
        },
    }
}

} // verus!
