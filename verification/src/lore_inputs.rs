//! The texts each agent's lorebook is matched against, and the lorebook
//! blocks chosen with them: a turn's current node, latest shared history and
//! player input; the reply suggester's node and history; and the story
//! concept, planned story and extra texts of story generation.
use vstd::prelude::*;

use crate::graph::{node_index, RuntimeStoryGraph};
use crate::lorebook::{
    build_lorebook_prompt_sections, chosen, entries_text, haystack, lore_views, opt_text, LoreView,
    LorebookEntryRecord, LorebookPromptSections,
};
use crate::story::{GraphView, NarrativeNode, NodeView};
use crate::text::{is_blank, text_is_blank};
use crate::util::{reply_views, ReplyHistoryMessage, ReplyView};
use crate::world::{memory_views, ActorMemoryEntry, MemoryView};

verus! {

/// `r` holds the lorebook blocks chosen from `entries` for the texts `inputs`.
pub open spec fn sections_for(r: LorebookPromptSections, entries: Seq<LoreView>, inputs: Seq<Seq<char>>) -> bool {
    let c = chosen(entries, haystack(inputs));
    &&& opt_text(r.base) == entries_text(c.0)
    &&& opt_text(r.matched) == entries_text(c.1)
}

/// A node's title, scene and goal.
pub open spec fn node_texts(n: NodeView) -> Seq<Seq<char>> {
    seq![n.title, n.scene, n.goal]
}

/// The texts of the latest `limit` lines of a shared history, newest first.
pub open spec fn latest_texts(h: Seq<MemoryView>, limit: nat) -> Seq<Seq<char>> {
    let k = if h.len() < limit {
        h.len()
    } else {
        limit
    };
    Seq::new(k, |i: int| h[h.len() - 1 - i].3)
}

/// The texts a turn's lorebook is matched against: the current node's title,
/// scene and goal (nothing when the graph has no such node), the latest
/// `limit` lines of the shared history, newest first, and the player's input.
pub open spec fn runtime_match_inputs(
    g: GraphView,
    node_id: Seq<char>,
    h: Seq<MemoryView>,
    limit: nat,
    player_input: Seq<char>,
) -> Seq<Seq<char>> {
    let node = match node_index(g, node_id) {
        Some(i) => node_texts(g.nodes[i]),
        None => seq![],
    };
    node + latest_texts(h, limit) + seq![player_input]
}

/// The views of text slices.
pub open spec fn text_views(v: Seq<&str>) -> Seq<Seq<char>> {
    v.map_values(|t: &str| t@)
}

/// Not blank.
pub open spec fn not_blank() -> spec_fn(Seq<char>) -> bool {
    |t: Seq<char>| !is_blank(t)
}

fn push_node_texts<'a>(inputs: &mut Vec<&'a str>, node: &'a NarrativeNode)
    ensures
        text_views(final(inputs)@) == text_views(old(inputs)@) + node_texts(node@),
{
    let ghost before = text_views(inputs@);
    inputs.push(node.title.as_str());
    inputs.push(node.scene.as_str());
    inputs.push(node.goal.as_str());
    assert(text_views(inputs@) =~= before + node_texts(node@));
}

/// The lorebook blocks of a turn, chosen from `entries` for the current
/// node's texts, the latest `shared_memory_limit` lines of the shared history
/// and the player's input.
pub fn runtime_lorebook_sections(
    entries: &Vec<LorebookEntryRecord>,
    graph: &RuntimeStoryGraph,
    current_node_id: &str,
    shared_history: &Vec<ActorMemoryEntry>,
    shared_memory_limit: usize,
    player_input: &str,
) -> (r: LorebookPromptSections)
    ensures
        sections_for(
            r,
            lore_views(entries@),
            runtime_match_inputs(
                graph@,
                current_node_id@,
                memory_views(shared_history@),
                shared_memory_limit as nat,
                player_input@,
            ),
        ),
{
    let mut inputs: Vec<&str> = Vec::new();
    match graph.get_node(current_node_id) {
        Some(node) => push_node_texts(&mut inputs, node),
        None => {},
    }
    let ghost node_part = text_views(inputs@);
    let ghost h = memory_views(shared_history@);
    let n = shared_history.len();
    let k = if n < shared_memory_limit {
        n
    } else {
        shared_memory_limit
    };
    let mut i: usize = 0;
    while i < k
        invariant
            h == memory_views(shared_history@),
            n == h.len(),
            k <= n,
            k == (if h.len() < shared_memory_limit as nat { h.len() } else { shared_memory_limit as nat }),
            i <= k,
            text_views(inputs@) == node_part + latest_texts(h, shared_memory_limit as nat).take(i as int),
        decreases k - i,
    {
        let ghost before = text_views(inputs@);
        inputs.push(shared_history[n - 1 - i].text.as_str());
        proof {
            let l = latest_texts(h, shared_memory_limit as nat);
            assert(l.take(i + 1) =~= l.take(i as int).push(l[i as int]));
            assert(h[n - 1 - i] == shared_history@[n - 1 - i]@);
            assert(text_views(inputs@) =~= before.push(h[n - 1 - i].3));
        }
        i = i + 1;
    }
    let ghost before = text_views(inputs@);
    inputs.push(player_input);
    proof {
        let l = latest_texts(h, shared_memory_limit as nat);
        assert(l.take(k as int) =~= l);
        assert(text_views(inputs@) =~= before.push(player_input@));
        assert(text_views(inputs@) =~= runtime_match_inputs(
            graph@,
            current_node_id@,
            h,
            shared_memory_limit as nat,
            player_input@,
        ));
    }
    build_lorebook_prompt_sections(entries, &inputs)
}

/// The texts of history lines.
pub open spec fn reply_texts(h: Seq<ReplyView>) -> Seq<Seq<char>> {
    h.map_values(|m: ReplyView| m.text)
}

/// The texts the reply suggester's lorebook is matched against: the current
/// node's title, scene and goal, then the history lines that are not blank.
pub open spec fn replyer_match_inputs(node: NodeView, history: Seq<ReplyView>) -> Seq<Seq<char>> {
    node_texts(node) + reply_texts(history).filter(not_blank())
}

/// The lorebook blocks of the reply suggester, chosen from `entries` for the
/// current node's texts and the lines of its history.
pub fn replyer_lorebook_sections(
    entries: &Vec<LorebookEntryRecord>,
    current_node: &NarrativeNode,
    history: &Vec<ReplyHistoryMessage>,
) -> (r: LorebookPromptSections)
    ensures
        sections_for(r, lore_views(entries@), replyer_match_inputs(current_node@, reply_views(history@))),
{
    let mut inputs: Vec<&str> = Vec::new();
    push_node_texts(&mut inputs, current_node);
    let ghost node_part = text_views(inputs@);
    let ghost texts = reply_texts(reply_views(history@));
    let mut i: usize = 0;
    while i < history.len()
        invariant
            texts == reply_texts(reply_views(history@)),
            i <= history@.len(),
            text_views(inputs@) == node_part + texts.take(i as int).filter(not_blank()),
        decreases history.len() - i,
    {
        proof {
            assert(texts.take(i + 1) =~= texts.take(i as int).push(texts[i as int]));
            texts.take(i as int).lemma_filter_push(texts[i as int], not_blank());
            assert(texts[i as int] == history@[i as int].text@);
        }
        let t = history[i].text.as_str();
        if !text_is_blank(t) {
            let ghost before = text_views(inputs@);
            inputs.push(t);
            assert(text_views(inputs@) =~= before.push(t@));
        }
        i = i + 1;
    }
    proof {
        assert(texts.take(history@.len() as int) =~= texts);
    }
    build_lorebook_prompt_sections(entries, &inputs)
}

/// The texts story generation's lorebook is matched against: the story
/// concept, the planned story when there is one, then the extra texts that
/// are not blank.
pub open spec fn story_generation_match_inputs(
    concept: Seq<char>,
    planned_story: Option<Seq<char>>,
    extra: Seq<Seq<char>>,
) -> Seq<Seq<char>> {
    let head = match planned_story {
        Some(p) => seq![concept, p],
        None => seq![concept],
    };
    head + extra.filter(not_blank())
}

/// The lorebook blocks of story generation, chosen from `entries` for the
/// story concept, the planned story and the extra texts.
pub fn story_generation_lorebook_sections(
    entries: &Vec<LorebookEntryRecord>,
    story_concept: &str,
    planned_story: Option<&str>,
    extra_inputs: &Vec<&str>,
) -> (r: LorebookPromptSections)
    ensures
        sections_for(
            r,
            lore_views(entries@),
            story_generation_match_inputs(
                story_concept@,
                match planned_story {
                    Some(p) => Some(p@),
                    None => None,
                },
                text_views(extra_inputs@),
            ),
        ),
{
    let mut inputs: Vec<&str> = Vec::new();
    inputs.push(story_concept);
    match planned_story {
        Some(p) => inputs.push(p),
        None => {},
    }
    let ghost head = text_views(inputs@);
    let ghost texts = text_views(extra_inputs@);
    let mut i: usize = 0;
    while i < extra_inputs.len()
        invariant
            texts == text_views(extra_inputs@),
            i <= extra_inputs@.len(),
            text_views(inputs@) == head + texts.take(i as int).filter(not_blank()),
        decreases extra_inputs.len() - i,
    {
        proof {
            assert(texts.take(i + 1) =~= texts.take(i as int).push(texts[i as int]));
            texts.take(i as int).lemma_filter_push(texts[i as int], not_blank());
        }
        let t = extra_inputs[i];
        if !text_is_blank(t) {
            let ghost before = text_views(inputs@);
            inputs.push(t);
            assert(text_views(inputs@) =~= before.push(t@));
        }
        i = i + 1;
    }
    proof {
        assert(texts.take(extra_inputs@.len() as int) =~= texts);
        match planned_story {
            Some(p) => assert(head =~= seq![story_concept@, p@]),
            None => assert(head =~= seq![story_concept@]),
        }
    }
    build_lorebook_prompt_sections(entries, &inputs)
}

} // verus!
