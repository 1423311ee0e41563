//! The contexts the director, narrator and keeper prompt previews are
//! rendered with, and the cast summaries they show.
//!
//! A character's summary shows its card as the story's templating renders it
//! for the preview (the player's name and the character's state filled in);
//! that rendering belongs to a crate this library does not hold, so the
//! rendered cards are passed in, one per card of the runtime state.
use vstd::prelude::*;

use crate::graph::first_where;
use crate::lore_inputs::{
    replyer_lorebook_sections, replyer_match_inputs,
    runtime_lorebook_sections, runtime_match_inputs, story_generation_lorebook_sections, story_generation_match_inputs,
    text_views,
};
use crate::lorebook::{build_lorebook_prompt_sections, chosen, entries_text, haystack, lore_views, LorebookEntryRecord};
use crate::history::{
    limit_or_default, resolve_actor_private_memory_limit, resolve_actor_shared_history_limit,
    resolve_director_shared_history_limit, resolve_narrator_shared_history_limit,
};
use crate::preview::{
    actor_purpose_text, history_text, narrator_purpose_text, render_actor_purpose, node_text, recent_entries, render_narrator_purpose, render_node,
    insert_optional, render_recent_history, hints_text, keeper_node_text, keeper_phase_text, list_text, missing_previous_text, node_change_text,
    player_text, previous_node, render_keeper_node, render_keeper_node_change, render_keeper_phase,
    render_keeper_progression_hints, render_list_lines, render_player, sections_text,
};
use crate::prompt::types::{AgentPresetConfig, PromptPreviewActorPurpose, PromptPreviewKeeperPhase, PromptPreviewNarratorPurpose, RuntimePromptPreviewOptions};
use crate::runtime::{card_index, find_card, has_card_id, RuntimeError, RuntimeErrorView, RuntimeState, RuntimeView};
use crate::schema::{card_views, schema_field_views, CardView, CharacterCard, SchemaFieldView, StateSchema};
use crate::state_text::{render_actor_world_state, render_compact_schema_text, render_director_world_state, render_observable_world_state, render_state_schema_fields, schema_fields_text, world_sections};
use crate::story::{node_views, NarrativeNode, NodeView};
use crate::util::{reply_views, ReplyHistoryKind, ReplyHistoryMessage, ReplyView};
use crate::graph::node_index;
use crate::text::{decimal, u64_decimal, usize_decimal, inline_seq, normalize_inline_text, push_str, string_of_chars, string_seq_views};
use crate::world::{assoc_set, memory_views, private_of, pair_views, MemoryView, ActorMemoryEntry, PairView, StateValue, WorldView};

verus! {

/// A character's summary line: `id | name | personality=… | style=… |
/// state_schema=…`, with personality and style on one line.
pub open spec fn summary_line(c: CardView) -> Seq<char> {
    c.id + " | "@ + c.name + " | personality="@ + inline_seq(c.personality) + " | style="@ + inline_seq(c.style)
        + " | state_schema="@ + schema_fields_text(c.state_schema, true)
}

/// Renders a character's summary line.
pub fn render_summary_line(card: &CharacterCard) -> (r: String)
    ensures
        r@ == summary_line(card@),
{
    let mut out: Vec<char> = Vec::new();
    push_str(&mut out, card.id.as_str());
    push_str(&mut out, " | ");
    push_str(&mut out, card.name.as_str());
    push_str(&mut out, " | personality=");
    let p = normalize_inline_text(card.personality.as_str());
    push_str(&mut out, p.as_str());
    push_str(&mut out, " | style=");
    let s = normalize_inline_text(card.style.as_str());
    push_str(&mut out, s.as_str());
    push_str(&mut out, " | state_schema=");
    let f = render_state_schema_fields(&card.state_schema.fields);
    push_str(&mut out, f.as_str());
    let r = string_of_chars(out.as_slice());
    assert(r@ =~= summary_line(card@));
    r
}

/// Renders every rendered card's summary line as a list, in order.
pub fn render_character_summaries(summaries: &Vec<CharacterCard>) -> (r: String)
    ensures
        r@ == list_text(card_views(summaries@).map_values(|c: CardView| summary_line(c))),
{
    let ghost target = card_views(summaries@).map_values(|c: CardView| summary_line(c));
    let mut lines: Vec<String> = Vec::new();
    let mut i: usize = 0;
    while i < summaries.len()
        invariant
            target == card_views(summaries@).map_values(|c: CardView| summary_line(c)),
            i <= summaries@.len(),
            string_seq_views(lines@) =~= target.take(i as int),
        decreases summaries.len() - i,
    {
        let ghost before = lines@;
        lines.push(render_summary_line(&summaries[i]));
        proof {
            assert(string_seq_views(lines@) =~= string_seq_views(before).push(target[i as int]));
            assert(target.take(i + 1) =~= target.take(i as int).push(target[i as int]));
        }
        i = i + 1;
    }
    assert(target.take(summaries@.len() as int) =~= target);
    render_list_lines(&lines)
}

/// The summary lines of the characters `ids`, in order, from their rendered
/// cards; the first id without a card when there is one.
pub open spec fn cast_lines(cards: Seq<CardView>, ids: Seq<Seq<char>>) -> Result<Seq<Seq<char>>, Seq<char>>
    decreases ids.len(),
{
    if ids.len() == 0 {
        Ok(seq![])
    } else {
        match cast_lines(cards, ids.drop_last()) {
            Err(e) => Err(e),
            Ok(ls) => match card_index(cards, ids.last()) {
                Some(i) => Ok(ls.push(summary_line(cards[i]))),
                None => Err(ids.last()),
            },
        }
    }
}

/// A cast's summaries: one line each as a list, or the id without a card.
pub open spec fn cast_text(cards: Seq<CardView>, ids: Seq<Seq<char>>) -> Result<Seq<char>, Seq<char>> {
    match cast_lines(cards, ids) {
        Ok(ls) => Ok(list_text(ls)),
        Err(e) => Err(e),
    }
}

proof fn lemma_cast_error_stays(cards: Seq<CardView>, ids: Seq<Seq<char>>, k: int)
    requires
        0 <= k <= ids.len(),
        cast_lines(cards, ids.take(k)) is Err,
    ensures
        cast_lines(cards, ids) == cast_lines(cards, ids.take(k)),
    decreases ids.len(),
{
    if k == ids.len() {
        assert(ids.take(k) =~= ids);
    } else {
        assert(ids.drop_last().take(k) =~= ids.take(k));
        lemma_cast_error_stays(cards, ids.drop_last(), k);
    }
}

/// Renders the summaries of a cast from the rendered cards: the character
/// `ids` in order, one line each; refused at the first id without a card.
pub fn render_cast(summaries: &Vec<CharacterCard>, ids: &Vec<String>) -> (r: Result<String, RuntimeError>)
    ensures
        match cast_text(card_views(summaries@), string_seq_views(ids@)) {
            Ok(t) => r is Ok && (r->Ok_0)@ == t,
            Err(id) => r is Err && (r->Err_0)@ == RuntimeErrorView::MissingCharacterCard(id),
        },
{
    let ghost cv = card_views(summaries@);
    let ghost iv = string_seq_views(ids@);
    let mut lines: Vec<String> = Vec::new();
    let mut i: usize = 0;
    assert(iv.take(0) =~= seq![]);
    assert(string_seq_views(lines@) =~= seq![]);
    while i < ids.len()
        invariant
            cv == card_views(summaries@),
            iv == string_seq_views(ids@),
            i <= ids@.len(),
            cast_lines(cv, iv.take(i as int)) == Ok::<Seq<Seq<char>>, Seq<char>>(string_seq_views(lines@)),
        decreases ids.len() - i,
    {
        proof {
            assert(iv.take(i + 1).drop_last() =~= iv.take(i as int));
            assert(iv.take(i + 1).last() == ids@[i as int]@);
        }
        match find_card(summaries, ids[i].as_str()) {
            Some(k) => {
                let line = render_summary_line(&summaries[k]);
                let ghost before = lines@;
                lines.push(line);
                proof {
                    assert(cv[k as int] == summaries@[k as int]@);
                    assert(string_seq_views(lines@) =~= string_seq_views(before).push(summary_line(cv[k as int])));
                }
            },
            None => {
                proof {
                    lemma_cast_error_stays(cv, iv, i + 1);
                }
                return Err(RuntimeError::MissingCharacterCard(ids[i].clone()));
            },
        }
        i = i + 1;
    }
    proof {
        assert(iv.take(ids@.len() as int) =~= iv);
    }
    Ok(render_list_lines(&lines))
}

/// Why a preview context could not be assembled.
#[derive(Debug)]
pub enum ContextError {
    Runtime(RuntimeError),
    PreviousNode(String),
    /// An actor preview names no character.
    MissingCharacterId,
    /// The story draft has no outline section.
    NoOutlineSections,
    /// Every outline section of the story draft is drafted already.
    NoRemainingSection,
}

/// The value of a context error.
pub enum ContextErrorView {
    Runtime(RuntimeErrorView),
    PreviousNode(Seq<char>),
    MissingCharacterId,
    NoOutlineSections,
    NoRemainingSection,
}

impl View for ContextError {
    type V = ContextErrorView;

    open spec fn view(&self) -> ContextErrorView {
        match self {
            ContextError::Runtime(e) => ContextErrorView::Runtime(e@),
            ContextError::PreviousNode(m) => ContextErrorView::PreviousNode(m@),
            ContextError::MissingCharacterId => ContextErrorView::MissingCharacterId,
            ContextError::NoOutlineSections => ContextErrorView::NoOutlineSections,
            ContextError::NoRemainingSection => ContextErrorView::NoRemainingSection,
        }
    }
}

/// The readable text of a context error.
pub open spec fn context_error_text(e: ContextErrorView) -> Seq<char> {
    match e {
        ContextErrorView::Runtime(r) => crate::runtime::runtime_error_text(r),
        ContextErrorView::PreviousNode(m) => m,
        ContextErrorView::MissingCharacterId => "actor runtime preview requires character_id"@,
        ContextErrorView::NoOutlineSections => "story draft has no outline sections"@,
        ContextErrorView::NoRemainingSection => "story draft has no remaining outline section"@,
    }
}

impl ContextError {
    /// The readable text of the error.
    pub fn message(&self) -> (s: String)
        ensures
            s@ == context_error_text(self@),
    {
        match self {
            ContextError::Runtime(r) => r.message(),
            ContextError::PreviousNode(m) => m.clone(),
            ContextError::MissingCharacterId => "actor runtime preview requires character_id".to_string(),
            ContextError::NoOutlineSections => "story draft has no outline sections".to_string(),
            ContextError::NoRemainingSection => "story draft has no remaining outline section".to_string(),
        }
    }
}

/// A context entry when its value is given.
pub open spec fn optional_entry(key: Seq<char>, value: Option<Seq<char>>) -> Seq<PairView> {
    match value {
        Some(v) => seq![(key, v)],
        None => seq![],
    }
}

/// The world state as the keeper sees it: all of it.
pub open spec fn observable_world_text(w: WorldView) -> Seq<char> {
    sections_text(world_sections(w.current_node, w.active_characters, w.custom, Some(w.player_state), Some(w.character_state)))
}

/// The keeper's context, once its nodes and casts are known.
pub open spec fn keeper_entries(
    rs: RuntimeView,
    player_name: Option<Seq<char>>,
    phase: PromptPreviewKeeperPhase,
    previous: Option<NodeView>,
    current: NodeView,
    previous_cast: Seq<char>,
    current_cast: Seq<char>,
    player_input: Seq<char>,
    lore: (Option<Seq<char>>, Option<Seq<char>>),
) -> Seq<PairView> {
    seq![
        ("player"@, player_text(player_name, rs.player_description)),
        ("keeper_phase"@, keeper_phase_text(phase)),
        ("previous_node"@, match previous { Some(n) => keeper_node_text(n), None => "null"@ }),
        ("node_change"@, node_change_text(previous, current)),
        ("previous_cast"@, previous_cast),
        ("current_node"@, keeper_node_text(current)),
        ("progression_hints"@, hints_text(current)),
        ("current_cast"@, current_cast),
        ("player_state_schema"@, schema_fields_text(rs.player_state_schema, true)),
        ("player_input"@, player_input),
        ("world_state"@, observable_world_text(rs.world)),
        ("completed_beats"@, "- none"@),
    ] + optional_entry("lorebook_base"@, lore.0) + optional_entry("lorebook_matched"@, lore.1)
}

/// The keeper's preview context. Refused when the session's node is not in
/// the graph, when a previous node is named that the graph lacks, or when a
/// character of the previous node's cast, then of the scene, has no rendered
/// card. Otherwise: the player, the keeper phase (after the player's input
/// unless given), the previous and current nodes and the change between
/// them, both casts (`null` without a previous node), the progression hints,
/// the player's state schema, the player's input, the world state, no
/// completed beats, and the lorebook blocks chosen for the turn.
pub open spec fn keeper_context_spec(
    rs: RuntimeView,
    cards: Seq<CardView>,
    player_name: Option<Seq<char>>,
    phase: Option<PromptPreviewKeeperPhase>,
    previous_node_id: Option<Seq<char>>,
    player_input: Option<Seq<char>>,
    entries: Seq<crate::lorebook::LoreView>,
    history: Seq<MemoryView>,
    limit: nat,
) -> Result<Seq<PairView>, ContextErrorView> {
    match node_index(rs.graph, rs.world.current_node) {
        None => Err(ContextErrorView::Runtime(RuntimeErrorView::MissingCurrentNode(rs.world.current_node))),
        Some(ci) => {
            let current = rs.graph.nodes[ci];
            let previous: Result<Option<NodeView>, Seq<char>> = match previous_node_id {
                None => Ok(None),
                Some(id) => match node_index(rs.graph, id) {
                    Some(pi) => Ok(Some(rs.graph.nodes[pi])),
                    None => Err(missing_previous_text(id)),
                },
            };
            match previous {
                Err(m) => Err(ContextErrorView::PreviousNode(m)),
                Ok(prev) => {
                    let input = match player_input {
                        Some(t) => t,
                        None => seq![],
                    };
                    let c = chosen(entries, haystack(runtime_match_inputs(rs.graph, current.id, history, limit, input)));
                    let prev_cast: Result<Seq<char>, Seq<char>> = match prev {
                        Some(n) => cast_text(cards, n.characters),
                        None => Ok("null"@),
                    };
                    match prev_cast {
                        Err(id) => Err(ContextErrorView::Runtime(RuntimeErrorView::MissingCharacterCard(id))),
                        Ok(pc) => match cast_text(cards, rs.world.active_characters) {
                            Err(id) => Err(ContextErrorView::Runtime(RuntimeErrorView::MissingCharacterCard(id))),
                            Ok(cc) => Ok(
                                keeper_entries(
                                    rs,
                                    player_name,
                                    match phase {
                                        Some(p) => p,
                                        None => PromptPreviewKeeperPhase::AfterPlayerInput,
                                    },
                                    prev,
                                    current,
                                    pc,
                                    cc,
                                    input,
                                    (entries_text(c.0), entries_text(c.1)),
                                ),
                            ),
                        },
                    }
                },
            }
        },
    }
}

fn push_entry(context: &mut Vec<StateValue>, key: &str, value: String)
    ensures
        pair_views(final(context)@) == pair_views(old(context)@).push((key@, value@)),
{
    let ghost before = pair_views(context@);
    context.push(StateValue { key: key.to_string(), value_json: value });
    assert(pair_views(context@) =~= before.push((key@, value@)));
}

fn push_optional(context: &mut Vec<StateValue>, key: &str, value: Option<String>)
    ensures
        pair_views(final(context)@) == pair_views(old(context)@) + optional_entry(
            key@,
            match value {
                Some(v) => Some(v@),
                None => None,
            },
        ),
{
    let ghost before = pair_views(context@);
    match value {
        Some(v) => push_entry(context, key, v),
        None => {},
    }
    assert(pair_views(context@) =~= before + optional_entry(
        key@,
        match value {
            Some(v) => Some(v@),
            None => None,
        },
    ));
}

/// Assembles the keeper's context from its parts (see `keeper_entries`).
fn assemble_keeper_context(
    runtime_state: &RuntimeState,
    player_name: Option<&str>,
    phase: PromptPreviewKeeperPhase,
    previous: Option<&NarrativeNode>,
    current: &NarrativeNode,
    previous_cast: String,
    current_cast: String,
    input: &str,
    lore_base: Option<String>,
    lore_matched: Option<String>,
) -> (context: Vec<StateValue>)
    ensures
        pair_views(context@) == keeper_entries(
            runtime_state@,
            match player_name {
                Some(n) => Some(n@),
                None => None,
            },
            phase,
            match previous {
                Some(n) => Some(n@),
                None => None,
            },
            current@,
            previous_cast@,
            current_cast@,
            input@,
            (
                match lore_base {
                    Some(v) => Some(v@),
                    None => None,
                },
                match lore_matched {
                    Some(v) => Some(v@),
                    None => None,
                },
            ),
        ),
{
    let mut context: Vec<StateValue> = Vec::new();
    push_entry(&mut context, "player", render_player(player_name, runtime_state.player_description()));
    push_entry(&mut context, "keeper_phase", render_keeper_phase(phase));
    let previous_text = match previous {
        Some(n) => render_keeper_node(n),
        None => "null".to_string(),
    };
    push_entry(&mut context, "previous_node", previous_text);
    push_entry(&mut context, "node_change", render_keeper_node_change(previous, current));
    push_entry(&mut context, "previous_cast", previous_cast);
    push_entry(&mut context, "current_node", render_keeper_node(current));
    push_entry(&mut context, "progression_hints", render_keeper_progression_hints(current));
    push_entry(&mut context, "current_cast", current_cast);
    push_entry(
        &mut context,
        "player_state_schema",
        render_state_schema_fields(&runtime_state.player_state_schema().fields),
    );
    push_entry(&mut context, "player_input", input.to_string());
    push_entry(&mut context, "world_state", render_observable_world_state(runtime_state.world_state()));
    push_entry(&mut context, "completed_beats", "- none".to_string());
    push_optional(&mut context, "lorebook_base", lore_base);
    push_optional(&mut context, "lorebook_matched", lore_matched);
    context
}

/// Assembles the keeper's preview context (see `keeper_context_spec`), from
/// the runtime state (its shared history included), the cards as rendered
/// for the preview, the player's name, the preview options and the lorebook.
pub fn keeper_context(
    runtime_state: &RuntimeState,
    summaries: &Vec<CharacterCard>,
    player_name: Option<&str>,
    options: &RuntimePromptPreviewOptions,
    lorebook_entries: &Vec<LorebookEntryRecord>,
    shared_memory_limit: usize,
) -> (r: Result<Vec<StateValue>, ContextError>)
    ensures
        match keeper_context_spec(
            runtime_state@,
            card_views(summaries@),
            match player_name {
                Some(n) => Some(n@),
                None => None,
            },
            options.keeper_phase,
            match options.previous_node_id {
                Some(id) => Some(id@),
                None => None,
            },
            match options.player_input {
                Some(t) => Some(t@),
                None => None,
            },
            lore_views(lorebook_entries@),
            runtime_state@.world.shared_history,
            shared_memory_limit as nat,
        ) {
            Ok(c) => r is Ok && pair_views((r->Ok_0)@) == c,
            Err(e) => r is Err && (r->Err_0)@ == e,
        },
{
    let shared_history = &runtime_state.world_state().shared_history;
    let current = match runtime_state.current_node() {
        Ok(n) => n,
        Err(e) => return Err(ContextError::Runtime(e)),
    };
    let previous_id = match &options.previous_node_id {
        Some(id) => Some(id.as_str()),
        None => None,
    };
    let previous = match previous_node(runtime_state, previous_id) {
        Ok(p) => p,
        Err(m) => return Err(ContextError::PreviousNode(m)),
    };
    let input: &str = match &options.player_input {
        Some(t) => t.as_str(),
        None => "",
    };
    proof {
        reveal_strlit("");
        assert(input@ == match options.player_input {
            Some(t) => t@,
            None => Seq::<char>::empty(),
        });
    }
    let lore = runtime_lorebook_sections(
        lorebook_entries,
        runtime_state.runtime_graph(),
        current.id.as_str(),
        shared_history,
        shared_memory_limit,
        input,
    );
    let previous_cast = match previous {
        Some(n) => match render_cast(summaries, &n.characters) {
            Ok(t) => t,
            Err(e) => return Err(ContextError::Runtime(e)),
        },
        None => "null".to_string(),
    };
    let current_cast = match render_cast(summaries, &runtime_state.world_state().active_characters) {
        Ok(t) => t,
        Err(e) => return Err(ContextError::Runtime(e)),
    };
    proof {
        assert(previous_cast@ == match previous {
            Some(n) => cast_text(card_views(summaries@), n@.characters)->Ok_0,
            None => "null"@,
        });
    }
    let phase = match options.keeper_phase {
        Some(p) => p,
        None => PromptPreviewKeeperPhase::AfterPlayerInput,
    };
    let context = assemble_keeper_context(
        runtime_state,
        player_name,
        phase,
        previous,
        current,
        previous_cast,
        current_cast,
        input,
        lore.base,
        lore.matched,
    );
    Ok(context)
}

/// The lorebook blocks of a turn at node `current`: those chosen for the
/// node's texts, the latest `limit` lines of the shared history and the
/// player's input.
pub open spec fn turn_lore(
    rs: RuntimeView,
    current: NodeView,
    entries: Seq<crate::lorebook::LoreView>,
    history: Seq<MemoryView>,
    limit: nat,
    input: Seq<char>,
) -> (Option<Seq<char>>, Option<Seq<char>>) {
    let c = chosen(entries, haystack(runtime_match_inputs(rs.graph, current.id, history, limit, input)));
    (entries_text(c.0), entries_text(c.1))
}

/// The player's input of the preview options, empty when none is given.
pub open spec fn input_of(player_input: Option<Seq<char>>) -> Seq<char> {
    match player_input {
        Some(t) => t,
        None => seq![],
    }
}

/// The director's context, once its node and cast are known.
pub open spec fn director_entries(
    rs: RuntimeView,
    player_name: Option<Seq<char>>,
    current: NodeView,
    current_cast: Seq<char>,
    history: Seq<MemoryView>,
    history_limit: nat,
    lore: (Option<Seq<char>>, Option<Seq<char>>),
) -> Seq<PairView> {
    seq![
        ("player"@, player_text(player_name, rs.player_description)),
        ("current_cast"@, current_cast),
        ("current_node"@, node_text(current)),
        ("player_state_schema"@, schema_fields_text(rs.player_state_schema, true)),
        ("transitioned_this_turn"@, "false"@),
        ("world_state"@, observable_world_text(rs.world)),
        ("shared_history"@, history_text(recent_entries(history, history_limit))),
    ] + optional_entry("lorebook_base"@, lore.0) + optional_entry("lorebook_matched"@, lore.1)
}

/// The director's preview context. Refused when the session's node is not in
/// the graph, or when a character of the scene has no rendered card.
/// Otherwise: the player, the scene's cast, the current node, the player's
/// state schema, no transition yet this turn, the world state, the
/// director's window of the shared history, and the turn's lorebook blocks.
pub open spec fn director_context_spec(
    rs: RuntimeView,
    cards: Seq<CardView>,
    player_name: Option<Seq<char>>,
    history_limit: nat,
    player_input: Option<Seq<char>>,
    entries: Seq<crate::lorebook::LoreView>,
    history: Seq<MemoryView>,
    limit: nat,
) -> Result<Seq<PairView>, ContextErrorView> {
    match node_index(rs.graph, rs.world.current_node) {
        None => Err(ContextErrorView::Runtime(RuntimeErrorView::MissingCurrentNode(rs.world.current_node))),
        Some(ci) => {
            let current = rs.graph.nodes[ci];
            match cast_text(cards, rs.world.active_characters) {
                Err(id) => Err(ContextErrorView::Runtime(RuntimeErrorView::MissingCharacterCard(id))),
                Ok(cc) => Ok(
                    director_entries(
                        rs,
                        player_name,
                        current,
                        cc,
                        history,
                        history_limit,
                        turn_lore(rs, current, entries, history, limit, input_of(player_input)),
                    ),
                ),
            }
        },
    }
}

/// The view of an optional string.
pub open spec fn opt_view(s: Option<String>) -> Option<Seq<char>> {
    match s {
        Some(v) => Some(v@),
        None => None,
    }
}

/// Assembles the director's context from its parts (see `director_entries`).
fn assemble_director_context(
    runtime_state: &RuntimeState,
    player_name: Option<&str>,
    current: &NarrativeNode,
    current_cast: String,
    shared_history: &Vec<ActorMemoryEntry>,
    history_limit: usize,
    lore_base: Option<String>,
    lore_matched: Option<String>,
) -> (context: Vec<StateValue>)
    ensures
        pair_views(context@) == director_entries(
            runtime_state@,
            match player_name {
                Some(n) => Some(n@),
                None => None,
            },
            current@,
            current_cast@,
            memory_views(shared_history@),
            history_limit as nat,
            (opt_view(lore_base), opt_view(lore_matched)),
        ),
{
    let mut context: Vec<StateValue> = Vec::new();
    push_entry(&mut context, "player", render_player(player_name, runtime_state.player_description()));
    push_entry(&mut context, "current_cast", current_cast);
    push_entry(&mut context, "current_node", render_node(current));
    push_entry(
        &mut context,
        "player_state_schema",
        render_state_schema_fields(&runtime_state.player_state_schema().fields),
    );
    push_entry(&mut context, "transitioned_this_turn", "false".to_string());
    push_entry(&mut context, "world_state", render_director_world_state(runtime_state.world_state()));
    push_entry(&mut context, "shared_history", render_recent_history(shared_history, history_limit));
    push_optional(&mut context, "lorebook_base", lore_base);
    push_optional(&mut context, "lorebook_matched", lore_matched);
    context
}

/// Assembles the narrator's context from its parts (see `narrator_entries`).
fn assemble_narrator_context(
    runtime_state: &RuntimeState,
    player_name: Option<&str>,
    purpose: PromptPreviewNarratorPurpose,
    previous: Option<&NarrativeNode>,
    previous_cast: String,
    current: &NarrativeNode,
    current_cast: String,
    shared_history: &Vec<ActorMemoryEntry>,
    history_limit: usize,
    lore_base: Option<String>,
    lore_matched: Option<String>,
) -> (context: Vec<StateValue>)
    ensures
        pair_views(context@) == narrator_entries(
            runtime_state@,
            match player_name {
                Some(n) => Some(n@),
                None => None,
            },
            purpose,
            match previous {
                Some(n) => Some(n@),
                None => None,
            },
            previous_cast@,
            current@,
            current_cast@,
            memory_views(shared_history@),
            history_limit as nat,
            (opt_view(lore_base), opt_view(lore_matched)),
        ),
{
    let mut context: Vec<StateValue> = Vec::new();
    push_entry(&mut context, "player", render_player(player_name, runtime_state.player_description()));
    push_entry(&mut context, "narrator_purpose", render_narrator_purpose(purpose));
    let previous_text = match previous {
        Some(n) => render_node(n),
        None => "null".to_string(),
    };
    push_entry(&mut context, "previous_node", previous_text);
    push_entry(&mut context, "previous_cast", previous_cast);
    push_entry(&mut context, "current_node", render_node(current));
    push_entry(&mut context, "current_cast", current_cast);
    push_entry(
        &mut context,
        "player_state_schema",
        render_state_schema_fields(&runtime_state.player_state_schema().fields),
    );
    push_entry(&mut context, "world_state", render_observable_world_state(runtime_state.world_state()));
    push_entry(&mut context, "shared_history", render_recent_history(shared_history, history_limit));
    push_optional(&mut context, "lorebook_base", lore_base);
    push_optional(&mut context, "lorebook_matched", lore_matched);
    context
}

/// Assembles the director's preview context (see `director_context_spec`).
pub fn director_context(
    runtime_state: &RuntimeState,
    summaries: &Vec<CharacterCard>,
    player_name: Option<&str>,
    config: &AgentPresetConfig,
    options: &RuntimePromptPreviewOptions,
    lorebook_entries: &Vec<LorebookEntryRecord>,
    shared_memory_limit: usize,
) -> (r: Result<Vec<StateValue>, ContextError>)
    ensures
        match director_context_spec(
            runtime_state@,
            card_views(summaries@),
            match player_name {
                Some(n) => Some(n@),
                None => None,
            },
            limit_or_default(config@.director_shared_history_limit) as nat,
            match options.player_input {
                Some(t) => Some(t@),
                None => None,
            },
            lore_views(lorebook_entries@),
            runtime_state@.world.shared_history,
            shared_memory_limit as nat,
        ) {
            Ok(c) => r is Ok && pair_views((r->Ok_0)@) == c,
            Err(e) => r is Err && (r->Err_0)@ == e,
        },
{
    let shared_history = &runtime_state.world_state().shared_history;
    let current = match runtime_state.current_node() {
        Ok(n) => n,
        Err(e) => return Err(ContextError::Runtime(e)),
    };
    let input: &str = match &options.player_input {
        Some(t) => t.as_str(),
        None => "",
    };
    proof {
        reveal_strlit("");
        assert(input@ == match options.player_input {
            Some(t) => t@,
            None => Seq::<char>::empty(),
        });
    }
    let lore = runtime_lorebook_sections(
        lorebook_entries,
        runtime_state.runtime_graph(),
        current.id.as_str(),
        shared_history,
        shared_memory_limit,
        input,
    );
    let current_cast = match render_cast(summaries, &runtime_state.world_state().active_characters) {
        Ok(t) => t,
        Err(e) => return Err(ContextError::Runtime(e)),
    };
    let history_limit = resolve_director_shared_history_limit(config);
    let context = assemble_director_context(
        runtime_state,
        player_name,
        current,
        current_cast,
        shared_history,
        history_limit,
        lore.base,
        lore.matched,
    );
    Ok(context)
}

/// The narrator's context, once its nodes and casts are known.
pub open spec fn narrator_entries(
    rs: RuntimeView,
    player_name: Option<Seq<char>>,
    purpose: PromptPreviewNarratorPurpose,
    previous: Option<NodeView>,
    previous_cast: Seq<char>,
    current: NodeView,
    current_cast: Seq<char>,
    history: Seq<MemoryView>,
    history_limit: nat,
    lore: (Option<Seq<char>>, Option<Seq<char>>),
) -> Seq<PairView> {
    seq![
        ("player"@, player_text(player_name, rs.player_description)),
        ("narrator_purpose"@, narrator_purpose_text(purpose)),
        ("previous_node"@, match previous { Some(n) => node_text(n), None => "null"@ }),
        ("previous_cast"@, previous_cast),
        ("current_node"@, node_text(current)),
        ("current_cast"@, current_cast),
        ("player_state_schema"@, schema_fields_text(rs.player_state_schema, true)),
        ("world_state"@, observable_world_text(rs.world)),
        ("shared_history"@, history_text(recent_entries(history, history_limit))),
    ] + optional_entry("lorebook_base"@, lore.0) + optional_entry("lorebook_matched"@, lore.1)
}

/// The narrator's preview context. Refused when the session's node is not in
/// the graph, when a previous node is named that the graph lacks, or when a
/// character of the previous node's cast, then of the scene, has no rendered
/// card. Otherwise: the player, the narrator's purpose (describing the scene
/// unless given), the previous node and its cast (`null` without one), the
/// current node and the scene's cast, the player's state schema, the world
/// state, the narrator's window of the shared history, and the turn's
/// lorebook blocks.
pub open spec fn narrator_context_spec(
    rs: RuntimeView,
    cards: Seq<CardView>,
    player_name: Option<Seq<char>>,
    history_limit: nat,
    purpose: Option<PromptPreviewNarratorPurpose>,
    previous_node_id: Option<Seq<char>>,
    player_input: Option<Seq<char>>,
    entries: Seq<crate::lorebook::LoreView>,
    history: Seq<MemoryView>,
    limit: nat,
) -> Result<Seq<PairView>, ContextErrorView> {
    match node_index(rs.graph, rs.world.current_node) {
        None => Err(ContextErrorView::Runtime(RuntimeErrorView::MissingCurrentNode(rs.world.current_node))),
        Some(ci) => {
            let current = rs.graph.nodes[ci];
            let previous: Result<Option<NodeView>, Seq<char>> = match previous_node_id {
                None => Ok(None),
                Some(id) => match node_index(rs.graph, id) {
                    Some(pi) => Ok(Some(rs.graph.nodes[pi])),
                    None => Err(missing_previous_text(id)),
                },
            };
            match previous {
                Err(m) => Err(ContextErrorView::PreviousNode(m)),
                Ok(prev) => {
                    let prev_cast: Result<Seq<char>, Seq<char>> = match prev {
                        Some(n) => cast_text(cards, n.characters),
                        None => Ok("null"@),
                    };
                    match prev_cast {
                        Err(id) => Err(ContextErrorView::Runtime(RuntimeErrorView::MissingCharacterCard(id))),
                        Ok(pc) => match cast_text(cards, rs.world.active_characters) {
                            Err(id) => Err(ContextErrorView::Runtime(RuntimeErrorView::MissingCharacterCard(id))),
                            Ok(cc) => Ok(
                                narrator_entries(
                                    rs,
                                    player_name,
                                    match purpose {
                                        Some(p) => p,
                                        None => PromptPreviewNarratorPurpose::DescribeScene,
                                    },
                                    prev,
                                    pc,
                                    current,
                                    cc,
                                    history,
                                    history_limit,
                                    turn_lore(rs, current, entries, history, limit, input_of(player_input)),
                                ),
                            ),
                        },
                    }
                },
            }
        },
    }
}

/// Assembles the narrator's preview context (see `narrator_context_spec`).
pub fn narrator_context(
    runtime_state: &RuntimeState,
    summaries: &Vec<CharacterCard>,
    player_name: Option<&str>,
    config: &AgentPresetConfig,
    options: &RuntimePromptPreviewOptions,
    lorebook_entries: &Vec<LorebookEntryRecord>,
    shared_memory_limit: usize,
) -> (r: Result<Vec<StateValue>, ContextError>)
    ensures
        match narrator_context_spec(
            runtime_state@,
            card_views(summaries@),
            match player_name {
                Some(n) => Some(n@),
                None => None,
            },
            limit_or_default(config@.narrator_shared_history_limit) as nat,
            options.narrator_purpose,
            match options.previous_node_id {
                Some(id) => Some(id@),
                None => None,
            },
            match options.player_input {
                Some(t) => Some(t@),
                None => None,
            },
            lore_views(lorebook_entries@),
            runtime_state@.world.shared_history,
            shared_memory_limit as nat,
        ) {
            Ok(c) => r is Ok && pair_views((r->Ok_0)@) == c,
            Err(e) => r is Err && (r->Err_0)@ == e,
        },
{
    let shared_history = &runtime_state.world_state().shared_history;
    let current = match runtime_state.current_node() {
        Ok(n) => n,
        Err(e) => return Err(ContextError::Runtime(e)),
    };
    let previous_id = match &options.previous_node_id {
        Some(id) => Some(id.as_str()),
        None => None,
    };
    let previous = match previous_node(runtime_state, previous_id) {
        Ok(p) => p,
        Err(m) => return Err(ContextError::PreviousNode(m)),
    };
    let input: &str = match &options.player_input {
        Some(t) => t.as_str(),
        None => "",
    };
    proof {
        reveal_strlit("");
        assert(input@ == match options.player_input {
            Some(t) => t@,
            None => Seq::<char>::empty(),
        });
    }
    let lore = runtime_lorebook_sections(
        lorebook_entries,
        runtime_state.runtime_graph(),
        current.id.as_str(),
        shared_history,
        shared_memory_limit,
        input,
    );
    let previous_cast = match previous {
        Some(n) => match render_cast(summaries, &n.characters) {
            Ok(t) => t,
            Err(e) => return Err(ContextError::Runtime(e)),
        },
        None => "null".to_string(),
    };
    let current_cast = match render_cast(summaries, &runtime_state.world_state().active_characters) {
        Ok(t) => t,
        Err(e) => return Err(ContextError::Runtime(e)),
    };
    proof {
        assert(previous_cast@ == match previous {
            Some(n) => cast_text(card_views(summaries@), n@.characters)->Ok_0,
            None => "null"@,
        });
    }
    let purpose = match options.narrator_purpose {
        Some(p) => p,
        None => PromptPreviewNarratorPurpose::DescribeScene,
    };
    let history_limit = resolve_narrator_shared_history_limit(config);
    let context = assemble_narrator_context(
        runtime_state,
        player_name,
        purpose,
        previous,
        previous_cast,
        current,
        current_cast,
        shared_history,
        history_limit,
        lore.base,
        lore.matched,
    );
    Ok(context)
}

/// The lorebook blocks chosen for a story's concept and planned story (empty
/// when there is none).
pub open spec fn story_lore(
    entries: Seq<crate::lorebook::LoreView>,
    concept: Seq<char>,
    planned_story: Option<Seq<char>>,
) -> (Option<Seq<char>>, Option<Seq<char>>) {
    let planned: Seq<char> = match planned_story {
        Some(p) => p,
        None => Seq::empty(),
    };
    let c = chosen(entries, haystack(seq![concept, planned]));
    (entries_text(c.0), entries_text(c.1))
}

/// Every rendered card's summary line as a list.
pub open spec fn summaries_text(cards: Seq<CardView>) -> Seq<char> {
    list_text(cards.map_values(|c: CardView| summary_line(c)))
}

/// The planner's preview context: the story concept, the available
/// characters, and the lorebook blocks chosen for the concept and the
/// planned story.
pub open spec fn planner_entries(
    concept: Seq<char>,
    planned_story: Option<Seq<char>>,
    cards: Seq<CardView>,
    entries: Seq<crate::lorebook::LoreView>,
) -> Seq<PairView> {
    let lore = story_lore(entries, concept, planned_story);
    seq![("story_concept"@, concept), ("available_characters"@, summaries_text(cards))]
        + optional_entry("lorebook_base"@, lore.0) + optional_entry("lorebook_matched"@, lore.1)
}

/// The view of an optional text slice.
pub open spec fn opt_str(s: Option<&str>) -> Option<Seq<char>> {
    match s {
        Some(v) => Some(v@),
        None => None,
    }
}

fn story_lore_sections(
    lorebook_entries: &Vec<LorebookEntryRecord>,
    story_concept: &str,
    planned_story: Option<&str>,
) -> (r: crate::lorebook::LorebookPromptSections)
    ensures
        (opt_view(r.base), opt_view(r.matched)) == story_lore(lore_views(lorebook_entries@), story_concept@, opt_str(planned_story)),
{
    let planned: &str = match planned_story {
        Some(p) => p,
        None => "",
    };
    proof {
        reveal_strlit("");
    }
    assert(planned@ == match opt_str(planned_story) {
        Some(p) => p,
        None => Seq::<char>::empty(),
    });
    let mut inputs: Vec<&str> = Vec::new();
    inputs.push(story_concept);
    inputs.push(planned);
    assert(inputs@ =~= seq![story_concept, planned]);
    assert(inputs@.map_values(|t: &str| t@) =~= seq![story_concept@, match opt_str(planned_story) {
        Some(p) => p,
        None => seq![],
    }]);
    let r = build_lorebook_prompt_sections(lorebook_entries, &inputs);
    proof {
        let hv = seq![story_concept@, match opt_str(planned_story) {
            Some(p) => p,
            None => Seq::<char>::empty(),
        }];
        assert(inputs@.map_values(|t: &str| t@) == hv);
        let c = chosen(lore_views(lorebook_entries@), haystack(hv));
        assert(crate::lorebook::opt_text(r.base) == entries_text(c.0));
        assert(opt_view(r.base) == crate::lorebook::opt_text(r.base));
        let pl: Seq<char> = match opt_str(planned_story) {
            Some(p) => p,
            None => Seq::empty(),
        };
        assert(hv == seq![story_concept@, pl]);
        assert(story_lore(lore_views(lorebook_entries@), story_concept@, opt_str(planned_story)).0 == entries_text(
            chosen(lore_views(lorebook_entries@), haystack(seq![story_concept@, pl])).0,
        ));
        assert(story_lore(lore_views(lorebook_entries@), story_concept@, opt_str(planned_story)) == (
            entries_text(c.0),
            entries_text(c.1),
        ));
        assert(opt_view(r.matched) == crate::lorebook::opt_text(r.matched));
    }
    r
}

/// Assembles the planner's preview context (see `planner_entries`).
pub fn planner_context(
    story_concept: &str,
    planned_story: Option<&str>,
    summaries: &Vec<CharacterCard>,
    lorebook_entries: &Vec<LorebookEntryRecord>,
) -> (r: Vec<StateValue>)
    ensures
        pair_views(r@) == planner_entries(
            story_concept@,
            opt_str(planned_story),
            card_views(summaries@),
            lore_views(lorebook_entries@),
        ),
{
    let lore = story_lore_sections(lorebook_entries, story_concept, planned_story);
    let mut context: Vec<StateValue> = Vec::new();
    push_entry(&mut context, "story_concept", story_concept.to_string());
    push_entry(&mut context, "available_characters", render_character_summaries(summaries));
    push_optional(&mut context, "lorebook_base", lore.base);
    push_optional(&mut context, "lorebook_matched", lore.matched);
    context
}

/// A schema seed's fields without descriptions, or `null` without a seed.
pub open spec fn seed_text(seed: Option<Seq<SchemaFieldView>>) -> Seq<char> {
    match seed {
        Some(f) => schema_fields_text(f, false),
        None => "null"@,
    }
}

/// The architect's preview context for a whole graph: the story concept, the
/// planned story (`null` when there is none), the available characters, the
/// world and player schema seeds, and the lorebook blocks chosen for the
/// concept and the planned story.
pub open spec fn architect_graph_entries(
    concept: Seq<char>,
    planned_story: Option<Seq<char>>,
    cards: Seq<CardView>,
    world_seed: Option<Seq<SchemaFieldView>>,
    player_seed: Option<Seq<SchemaFieldView>>,
    entries: Seq<crate::lorebook::LoreView>,
) -> Seq<PairView> {
    let lore = story_lore(entries, concept, planned_story);
    seq![
        ("story_concept"@, concept),
        ("planned_story"@, match planned_story { Some(p) => p, None => "null"@ }),
        ("available_characters"@, summaries_text(cards)),
        ("world_state_schema_seed"@, seed_text(world_seed)),
        ("player_state_schema_seed"@, seed_text(player_seed)),
    ] + optional_entry("lorebook_base"@, lore.0) + optional_entry("lorebook_matched"@, lore.1)
}

/// The view of an optional schema.
pub open spec fn opt_schema(s: Option<&StateSchema>) -> Option<Seq<SchemaFieldView>> {
    match s {
        Some(v) => Some(v@),
        None => None,
    }
}

/// Assembles the architect's preview context for a whole graph (see
/// `architect_graph_entries`).
pub fn architect_graph_context(
    story_concept: &str,
    planned_story: Option<&str>,
    summaries: &Vec<CharacterCard>,
    world_state_schema_seed: Option<&StateSchema>,
    player_state_schema_seed: Option<&StateSchema>,
    lorebook_entries: &Vec<LorebookEntryRecord>,
) -> (r: Vec<StateValue>)
    ensures
        pair_views(r@) == architect_graph_entries(
            story_concept@,
            opt_str(planned_story),
            card_views(summaries@),
            opt_schema(world_state_schema_seed),
            opt_schema(player_state_schema_seed),
            lore_views(lorebook_entries@),
        ),
{
    let lore = story_lore_sections(lorebook_entries, story_concept, planned_story);
    let mut context: Vec<StateValue> = Vec::new();
    push_entry(&mut context, "story_concept", story_concept.to_string());
    let planned = match planned_story {
        Some(p) => p.to_string(),
        None => "null".to_string(),
    };
    push_entry(&mut context, "planned_story", planned);
    push_entry(&mut context, "available_characters", render_character_summaries(summaries));
    let world_fields = match world_state_schema_seed {
        Some(s) => Some(&s.fields),
        None => None,
    };
    push_entry(&mut context, "world_state_schema_seed", render_compact_schema_text(world_fields));
    let player_fields = match player_state_schema_seed {
        Some(s) => Some(&s.fields),
        None => None,
    };
    push_entry(&mut context, "player_state_schema_seed", render_compact_schema_text(player_fields));
    push_optional(&mut context, "lorebook_base", lore.base);
    push_optional(&mut context, "lorebook_matched", lore.matched);
    context
}

/// The actor's context, once its node and cast are known.
pub open spec fn actor_entries(
    rs: RuntimeView,
    player_name: Option<Seq<char>>,
    purpose: PromptPreviewActorPurpose,
    current: NodeView,
    current_cast: Seq<char>,
    history: Seq<MemoryView>,
    history_limit: nat,
    private_memory: Seq<MemoryView>,
    private_limit: nat,
    lore: (Option<Seq<char>>, Option<Seq<char>>),
) -> Seq<PairView> {
    seq![
        ("player"@, player_text(player_name, rs.player_description)),
        ("actor_purpose"@, actor_purpose_text(purpose)),
        ("current_cast"@, current_cast),
        ("current_node"@, node_text(current)),
        ("world_state"@, sections_text(world_sections(rs.world.current_node, rs.world.active_characters, rs.world.custom, None, Some(rs.world.character_state)))),
        ("shared_history"@, history_text(recent_entries(history, history_limit))),
        ("private_memory"@, history_text(recent_entries(private_memory, private_limit))),
    ] + optional_entry("lorebook_base"@, lore.0) + optional_entry("lorebook_matched"@, lore.1)
}

/// The actor's preview context. Refused when the session's node is not in
/// the graph, when no character is named, when the named character has no
/// card in the runtime state, or when a character of the scene has no
/// rendered card. Otherwise: the player, the actor's purpose (reacting to
/// the player unless given), the scene's cast, the current node, the world
/// state without the player's values, the actor's windows of the shared
/// history and of its private memory, and the turn's lorebook blocks.
pub open spec fn actor_context_spec(
    rs: RuntimeView,
    cards: Seq<CardView>,
    player_name: Option<Seq<char>>,
    history_limit: nat,
    private_limit: nat,
    character_id: Option<Seq<char>>,
    purpose: Option<PromptPreviewActorPurpose>,
    player_input: Option<Seq<char>>,
    entries: Seq<crate::lorebook::LoreView>,
    history: Seq<MemoryView>,
    private_memory: Seq<MemoryView>,
    limit: nat,
) -> Result<Seq<PairView>, ContextErrorView> {
    match node_index(rs.graph, rs.world.current_node) {
        None => Err(ContextErrorView::Runtime(RuntimeErrorView::MissingCurrentNode(rs.world.current_node))),
        Some(ci) => match character_id {
            None => Err(ContextErrorView::MissingCharacterId),
            Some(id) => match card_index(rs.cards, id) {
                None => Err(ContextErrorView::Runtime(RuntimeErrorView::MissingCharacterCard(id))),
                Some(_) => {
                    let current = rs.graph.nodes[ci];
                    match cast_text(cards, rs.world.active_characters) {
                        Err(missing) => Err(
                            ContextErrorView::Runtime(RuntimeErrorView::MissingCharacterCard(missing)),
                        ),
                        Ok(cc) => Ok(
                            actor_entries(
                                rs,
                                player_name,
                                match purpose {
                                    Some(p) => p,
                                    None => PromptPreviewActorPurpose::ReactToPlayer,
                                },
                                current,
                                cc,
                                history,
                                history_limit,
                                private_memory,
                                private_limit,
                                turn_lore(rs, current, entries, history, limit, input_of(player_input)),
                            ),
                        ),
                    }
                },
            },
        },
    }
}

/// Assembles the actor's context from its parts (see `actor_entries`).
fn assemble_actor_context(
    runtime_state: &RuntimeState,
    player_name: Option<&str>,
    purpose: PromptPreviewActorPurpose,
    current: &NarrativeNode,
    current_cast: String,
    shared_history: &Vec<ActorMemoryEntry>,
    history_limit: usize,
    private_memory: &Vec<ActorMemoryEntry>,
    private_limit: usize,
    lore_base: Option<String>,
    lore_matched: Option<String>,
) -> (context: Vec<StateValue>)
    ensures
        pair_views(context@) == actor_entries(
            runtime_state@,
            match player_name {
                Some(n) => Some(n@),
                None => None,
            },
            purpose,
            current@,
            current_cast@,
            memory_views(shared_history@),
            history_limit as nat,
            memory_views(private_memory@),
            private_limit as nat,
            (opt_view(lore_base), opt_view(lore_matched)),
        ),
{
    let mut context: Vec<StateValue> = Vec::new();
    push_entry(&mut context, "player", render_player(player_name, runtime_state.player_description()));
    push_entry(&mut context, "actor_purpose", render_actor_purpose(purpose));
    push_entry(&mut context, "current_cast", current_cast);
    push_entry(&mut context, "current_node", render_node(current));
    push_entry(&mut context, "world_state", render_actor_world_state(runtime_state.world_state()));
    push_entry(&mut context, "shared_history", render_recent_history(shared_history, history_limit));
    push_entry(&mut context, "private_memory", render_recent_history(private_memory, private_limit));
    push_optional(&mut context, "lorebook_base", lore_base);
    push_optional(&mut context, "lorebook_matched", lore_matched);
    context
}

/// Assembles the actor's preview context (see `actor_context_spec`), with
/// the private memory that the world state holds for the character the
/// options name.
pub fn actor_context(
    runtime_state: &RuntimeState,
    summaries: &Vec<CharacterCard>,
    player_name: Option<&str>,
    config: &AgentPresetConfig,
    options: &RuntimePromptPreviewOptions,
    lorebook_entries: &Vec<LorebookEntryRecord>,
    shared_memory_limit: usize,
) -> (r: Result<Vec<StateValue>, ContextError>)
    ensures
        match actor_context_spec(
            runtime_state@,
            card_views(summaries@),
            match player_name {
                Some(n) => Some(n@),
                None => None,
            },
            limit_or_default(config@.actor_shared_history_limit) as nat,
            limit_or_default(config@.actor_private_memory_limit) as nat,
            match options.character_id {
                Some(id) => Some(id@),
                None => None,
            },
            options.actor_purpose,
            match options.player_input {
                Some(t) => Some(t@),
                None => None,
            },
            lore_views(lorebook_entries@),
            runtime_state@.world.shared_history,
            match options.character_id {
                Some(id) => private_of(runtime_state@.world.private_memory, id@),
                None => Seq::<MemoryView>::empty(),
            },
            shared_memory_limit as nat,
        ) {
            Ok(c) => r is Ok && pair_views((r->Ok_0)@) == c,
            Err(e) => r is Err && (r->Err_0)@ == e,
        },
{
    let shared_history = &runtime_state.world_state().shared_history;
    let current = match runtime_state.current_node() {
        Ok(n) => n,
        Err(e) => return Err(ContextError::Runtime(e)),
    };
    let character_id = match &options.character_id {
        Some(id) => id,
        None => return Err(ContextError::MissingCharacterId),
    };
    match runtime_state.character_card(character_id.as_str()) {
        Some(_) => {},
        None => return Err(ContextError::Runtime(RuntimeError::MissingCharacterCard(character_id.clone()))),
    }
    let empty: Vec<ActorMemoryEntry> = Vec::new();
    let private_memory = match runtime_state.world_state().private_memory_of(character_id.as_str()) {
        Some(v) => v,
        None => &empty,
    };
    assert(memory_views(empty@) =~= Seq::<MemoryView>::empty());
    let input: &str = match &options.player_input {
        Some(t) => t.as_str(),
        None => "",
    };
    proof {
        reveal_strlit("");
        assert(input@ == match options.player_input {
            Some(t) => t@,
            None => Seq::<char>::empty(),
        });
    }
    let lore = runtime_lorebook_sections(
        lorebook_entries,
        runtime_state.runtime_graph(),
        current.id.as_str(),
        shared_history,
        shared_memory_limit,
        input,
    );
    let current_cast = match render_cast(summaries, &runtime_state.world_state().active_characters) {
        Ok(t) => t,
        Err(e) => return Err(ContextError::Runtime(e)),
    };
    let purpose = match options.actor_purpose {
        Some(p) => p,
        None => PromptPreviewActorPurpose::ReactToPlayer,
    };
    let context = assemble_actor_context(
        runtime_state,
        player_name,
        purpose,
        current,
        current_cast,
        shared_history,
        resolve_actor_shared_history_limit(config),
        private_memory,
        resolve_actor_private_memory_limit(config),
        lore.base,
        lore.matched,
    );
    Ok(context)
}

/// How many nodes the architect is asked for per section.
pub const DEFAULT_ARCHITECT_CHUNK_NODE_COUNT: usize = 4;

/// A context with `key` set to `value` when a value is given.
pub open spec fn set_optional(c: Seq<PairView>, key: Seq<char>, value: Option<Seq<char>>) -> Seq<PairView> {
    match value {
        Some(v) => assoc_set(c, key, v),
        None => c,
    }
}

/// The architect's preview context for a draft's first section: refused when
/// the draft has no outline section; otherwise the whole-graph context, then
/// the first section, section index 0, the number of sections, the target
/// node count, an empty graph summary and recent section detail, and the
/// lorebook blocks chosen for the concept, the story's planned story, the
/// draft's planned story and the first section, set over the earlier ones.
pub open spec fn architect_draft_init_spec(
    concept: Seq<char>,
    planned_story: Option<Seq<char>>,
    cards: Seq<CardView>,
    world_seed: Option<Seq<SchemaFieldView>>,
    player_seed: Option<Seq<SchemaFieldView>>,
    entries: Seq<crate::lorebook::LoreView>,
    draft_planned_story: Seq<char>,
    sections: Seq<Seq<char>>,
) -> Result<Seq<PairView>, ContextErrorView> {
    if sections.len() == 0 {
        Err(ContextErrorView::NoOutlineSections)
    } else {
        let first = sections[0];
        let base = architect_graph_entries(concept, planned_story, cards, world_seed, player_seed, entries) + seq![
            ("current_section"@, first),
            ("section_index"@, "0"@),
            ("total_sections"@, decimal(sections.len())),
            ("target_node_count"@, decimal(DEFAULT_ARCHITECT_CHUNK_NODE_COUNT as nat)),
            ("graph_summary"@, "[]"@),
            ("recent_section_detail"@, "[]"@),
        ];
        let c = chosen(
            entries,
            haystack(story_generation_match_inputs(concept, planned_story, seq![concept, draft_planned_story, first])),
        );
        Ok(set_optional(set_optional(base, "lorebook_base"@, entries_text(c.0)), "lorebook_matched"@, entries_text(c.1)))
    }
}

/// Assembles the architect's preview context for a draft's first section
/// (see `architect_draft_init_spec`).
pub fn architect_draft_init_context(
    story_concept: &str,
    planned_story: Option<&str>,
    summaries: &Vec<CharacterCard>,
    world_state_schema_seed: Option<&StateSchema>,
    player_state_schema_seed: Option<&StateSchema>,
    lorebook_entries: &Vec<LorebookEntryRecord>,
    draft: &crate::draft::StoryDraft,
) -> (r: Result<Vec<StateValue>, ContextError>)
    ensures
        match architect_draft_init_spec(
            story_concept@,
            opt_str(planned_story),
            card_views(summaries@),
            opt_schema(world_state_schema_seed),
            opt_schema(player_state_schema_seed),
            lore_views(lorebook_entries@),
            draft@.planned_story,
            draft@.outline_sections,
        ) {
            Ok(c) => r is Ok && pair_views((r->Ok_0)@) == c,
            Err(e) => r is Err && (r->Err_0)@ == e,
        },
{
    if draft.outline_sections.len() == 0 {
        return Err(ContextError::NoOutlineSections);
    }
    let first = &draft.outline_sections[0];
    let mut context = architect_graph_context(
        story_concept,
        planned_story,
        summaries,
        world_state_schema_seed,
        player_state_schema_seed,
        lorebook_entries,
    );
    push_entry(&mut context, "current_section", first.clone());
    push_entry(&mut context, "section_index", "0".to_string());
    push_entry(&mut context, "total_sections", usize_decimal(draft.outline_sections.len()));
    push_entry(&mut context, "target_node_count", usize_decimal(DEFAULT_ARCHITECT_CHUNK_NODE_COUNT));
    push_entry(&mut context, "graph_summary", "[]".to_string());
    push_entry(&mut context, "recent_section_detail", "[]".to_string());
    let ghost base = pair_views(context@);
    assert(base == architect_graph_entries(
        story_concept@,
        opt_str(planned_story),
        card_views(summaries@),
        opt_schema(world_state_schema_seed),
        opt_schema(player_state_schema_seed),
        lore_views(lorebook_entries@),
    ) + seq![
        ("current_section"@, draft@.outline_sections[0]),
        ("section_index"@, "0"@),
        ("total_sections"@, decimal(draft@.outline_sections.len())),
        ("target_node_count"@, decimal(DEFAULT_ARCHITECT_CHUNK_NODE_COUNT as nat)),
        ("graph_summary"@, "[]"@),
        ("recent_section_detail"@, "[]"@),
    ]);
    let mut extra: Vec<&str> = Vec::new();
    extra.push(story_concept);
    extra.push(draft.planned_story.as_str());
    extra.push(first.as_str());
    let lore = story_generation_lorebook_sections(lorebook_entries, story_concept, planned_story, &extra);
    proof {
        assert(text_views(extra@) =~= seq![story_concept@, draft@.planned_story, draft@.outline_sections[0]]);
        assert(opt_view(lore.base) == crate::lorebook::opt_text(lore.base));
        assert(opt_view(lore.matched) == crate::lorebook::opt_text(lore.matched));
    }
    let ghost c = chosen(
        lore_views(lorebook_entries@),
        haystack(story_generation_match_inputs(
            story_concept@,
            opt_str(planned_story),
            seq![story_concept@, draft@.planned_story, draft@.outline_sections[0]],
        )),
    );
    assert(opt_view(lore.base) == entries_text(c.0));
    assert(opt_view(lore.matched) == entries_text(c.1));
    insert_optional(&mut context, "lorebook_base", lore.base);
    insert_optional(&mut context, "lorebook_matched", lore.matched);
    Ok(context)
}

/// A history line's kind as JSON: the variant's name in quotes.
pub open spec fn reply_kind_json(k: ReplyHistoryKind) -> Seq<char> {
    match k {
        ReplyHistoryKind::PlayerInput => "\"PlayerInput\""@,
        ReplyHistoryKind::Narration => "\"Narration\""@,
        ReplyHistoryKind::Dialogue => "\"Dialogue\""@,
        ReplyHistoryKind::Action => "\"Action\""@,
    }
}

/// A reply suggester's history line: `[turn:<turn>|<speaker id>|<speaker
/// name>|<kind>] <text on one line>`.
pub open spec fn reply_line(m: ReplyView) -> Seq<char> {
    "[turn:"@ + decimal(m.turn_index as nat) + "|"@ + m.speaker_id + "|"@ + m.speaker_name + "|"@
        + reply_kind_json(m.kind) + "] "@ + inline_seq(m.text)
}

/// The reply suggester's history, one bulleted line each, or `- none`.
pub open spec fn reply_history_text(h: Seq<ReplyView>) -> Seq<char> {
    list_text(h.map_values(|m: ReplyView| reply_line(m)))
}

fn reply_kind_text(k: ReplyHistoryKind) -> (s: &'static str)
    ensures
        s@ == reply_kind_json(k),
{
    match k {
        ReplyHistoryKind::PlayerInput => "\"PlayerInput\"",
        ReplyHistoryKind::Narration => "\"Narration\"",
        ReplyHistoryKind::Dialogue => "\"Dialogue\"",
        ReplyHistoryKind::Action => "\"Action\"",
    }
}

/// Renders the reply suggester's history (see `reply_history_text`).
pub fn render_reply_history(history: &Vec<ReplyHistoryMessage>) -> (r: String)
    ensures
        r@ == reply_history_text(reply_views(history@)),
{
    let ghost target = reply_views(history@).map_values(|m: ReplyView| reply_line(m));
    let mut lines: Vec<String> = Vec::new();
    let mut i: usize = 0;
    while i < history.len()
        invariant
            target == reply_views(history@).map_values(|m: ReplyView| reply_line(m)),
            i <= history@.len(),
            string_seq_views(lines@) =~= target.take(i as int),
        decreases history.len() - i,
    {
        let m = &history[i];
        let mut v: Vec<char> = Vec::new();
        push_str(&mut v, "[turn:");
        let t = u64_decimal(m.turn_index);
        push_str(&mut v, t.as_str());
        push_str(&mut v, "|");
        push_str(&mut v, m.speaker_id.as_str());
        push_str(&mut v, "|");
        push_str(&mut v, m.speaker_name.as_str());
        push_str(&mut v, "|");
        push_str(&mut v, reply_kind_text(m.kind));
        push_str(&mut v, "] ");
        let text = normalize_inline_text(m.text.as_str());
        push_str(&mut v, text.as_str());
        let line = string_of_chars(v.as_slice());
        proof {
            assert(line@ =~= reply_line(history@[i as int]@));
        }
        let ghost before = lines@;
        lines.push(line);
        proof {
            assert(string_seq_views(lines@) =~= string_seq_views(before).push(target[i as int]));
            assert(target.take(i + 1) =~= target.take(i as int).push(target[i as int]));
        }
        i = i + 1;
    }
    assert(target.take(history@.len() as int) =~= target);
    render_list_lines(&lines)
}

/// The reply suggester's context, once its node and cast are known.
pub open spec fn replyer_entries(
    rs: RuntimeView,
    player_name: Option<Seq<char>>,
    reply_limit: usize,
    current: NodeView,
    current_cast: Seq<char>,
    history: Seq<ReplyView>,
    lore: (Option<Seq<char>>, Option<Seq<char>>),
) -> Seq<PairView> {
    seq![
        ("player"@, player_text(player_name, rs.player_description)),
        ("reply_limit"@, decimal(reply_limit as nat)),
        ("current_cast"@, current_cast),
        ("current_node"@, node_text(current)),
        ("player_state_schema"@, schema_fields_text(rs.player_state_schema, true)),
        ("world_state"@, observable_world_text(rs.world)),
        ("session_history"@, reply_history_text(history)),
    ] + optional_entry("lorebook_base"@, lore.0) + optional_entry("lorebook_matched"@, lore.1)
}

/// The reply suggester's preview context. Refused when the session's node
/// is not in the graph, or when a character of the scene has no rendered
/// card. Otherwise: the player, the number of replies (3 unless given), the
/// scene's cast, the current node, the player's state schema, the world
/// state, its history, and the lorebook blocks chosen for the node and the
/// history.
pub open spec fn replyer_context_spec(
    rs: RuntimeView,
    cards: Seq<CardView>,
    player_name: Option<Seq<char>>,
    reply_limit: Option<usize>,
    entries: Seq<crate::lorebook::LoreView>,
    history: Seq<ReplyView>,
) -> Result<Seq<PairView>, ContextErrorView> {
    match node_index(rs.graph, rs.world.current_node) {
        None => Err(ContextErrorView::Runtime(RuntimeErrorView::MissingCurrentNode(rs.world.current_node))),
        Some(ci) => {
            let current = rs.graph.nodes[ci];
            match cast_text(cards, rs.world.active_characters) {
                Err(id) => Err(ContextErrorView::Runtime(RuntimeErrorView::MissingCharacterCard(id))),
                Ok(cc) => {
                    let c = chosen(entries, haystack(replyer_match_inputs(current, history)));
                    Ok(
                        replyer_entries(
                            rs,
                            player_name,
                            match reply_limit {
                                Some(n) => n,
                                None => 3,
                            },
                            current,
                            cc,
                            history,
                            (entries_text(c.0), entries_text(c.1)),
                        ),
                    )
                },
            }
        },
    }
}

/// Assembles the reply suggester's context from its parts (see
/// `replyer_entries`).
fn assemble_replyer_context(
    runtime_state: &RuntimeState,
    player_name: Option<&str>,
    reply_limit: usize,
    current: &NarrativeNode,
    current_cast: String,
    history: &Vec<ReplyHistoryMessage>,
    lore_base: Option<String>,
    lore_matched: Option<String>,
) -> (context: Vec<StateValue>)
    ensures
        pair_views(context@) == replyer_entries(
            runtime_state@,
            match player_name {
                Some(n) => Some(n@),
                None => None,
            },
            reply_limit,
            current@,
            current_cast@,
            reply_views(history@),
            (opt_view(lore_base), opt_view(lore_matched)),
        ),
{
    let mut context: Vec<StateValue> = Vec::new();
    push_entry(&mut context, "player", render_player(player_name, runtime_state.player_description()));
    push_entry(&mut context, "reply_limit", usize_decimal(reply_limit));
    push_entry(&mut context, "current_cast", current_cast);
    push_entry(&mut context, "current_node", render_node(current));
    push_entry(
        &mut context,
        "player_state_schema",
        render_state_schema_fields(&runtime_state.player_state_schema().fields),
    );
    push_entry(&mut context, "world_state", render_observable_world_state(runtime_state.world_state()));
    push_entry(&mut context, "session_history", render_reply_history(history));
    push_optional(&mut context, "lorebook_base", lore_base);
    push_optional(&mut context, "lorebook_matched", lore_matched);
    context
}

/// Assembles the reply suggester's preview context (see
/// `replyer_context_spec`) from its history.
pub fn replyer_context(
    runtime_state: &RuntimeState,
    summaries: &Vec<CharacterCard>,
    player_name: Option<&str>,
    history: &Vec<ReplyHistoryMessage>,
    options: &RuntimePromptPreviewOptions,
    lorebook_entries: &Vec<LorebookEntryRecord>,
) -> (r: Result<Vec<StateValue>, ContextError>)
    ensures
        match replyer_context_spec(
            runtime_state@,
            card_views(summaries@),
            match player_name {
                Some(n) => Some(n@),
                None => None,
            },
            options.reply_limit,
            lore_views(lorebook_entries@),
            reply_views(history@),
        ) {
            Ok(c) => r is Ok && pair_views((r->Ok_0)@) == c,
            Err(e) => r is Err && (r->Err_0)@ == e,
        },
{
    let current = match runtime_state.current_node() {
        Ok(n) => n,
        Err(e) => return Err(ContextError::Runtime(e)),
    };
    let lore = replyer_lorebook_sections(lorebook_entries, current, history);
    let current_cast = match render_cast(summaries, &runtime_state.world_state().active_characters) {
        Ok(t) => t,
        Err(e) => return Err(ContextError::Runtime(e)),
    };
    let reply_limit = match options.reply_limit {
        Some(n) => n,
        None => 3,
    };
    let context = assemble_replyer_context(
        runtime_state,
        player_name,
        reply_limit,
        current,
        current_cast,
        history,
        lore.base,
        lore.matched,
    );
    Ok(context)
}

/// The title, scene and goal of each node, in node order.
pub open spec fn nodes_texts(ns: Seq<NodeView>) -> Seq<Seq<char>>
    decreases ns.len(),
{
    if ns.len() == 0 {
        seq![]
    } else {
        nodes_texts(ns.drop_last()) + seq![ns.last().title, ns.last().scene, ns.last().goal]
    }
}

/// The nodes of the draft's most recent section.
pub open spec fn recent_nodes_of(d: crate::draft::DraftView) -> Seq<NodeView> {
    if d.section_node_ids.len() == 0 {
        Seq::<NodeView>::empty()
    } else {
        crate::draft_summary::nodes_with_ids(d.partial_graph, d.section_node_ids.last())
    }
}

/// The architect's preview context for a draft's next section: refused when
/// every section is drafted; otherwise the story concept, the available
/// characters, the draft's world and player schemas, the summaries of the
/// drafted sections, the next section, its index, the number of sections,
/// the target node count, the graph summary and the recent section detail
/// (as given, in JSON), and the lorebook blocks chosen for the concept, the
/// story's planned story, the next section, the section summaries and the
/// title, scene and goal of the recent section's nodes.
pub open spec fn architect_draft_continue_spec(
    concept: Seq<char>,
    planned_story: Option<Seq<char>>,
    cards: Seq<CardView>,
    world_schema: Seq<SchemaFieldView>,
    player_schema: Seq<SchemaFieldView>,
    entries: Seq<crate::lorebook::LoreView>,
    d: crate::draft::DraftView,
    graph_summary_json: Seq<char>,
    recent_section_json: Seq<char>,
) -> Result<Seq<PairView>, ContextErrorView> {
    if d.next_section_index >= d.outline_sections.len() {
        Err(ContextErrorView::NoRemainingSection)
    } else {
        let section = d.outline_sections[d.next_section_index as int];
        let extra = seq![section] + d.section_summaries + nodes_texts(recent_nodes_of(d));
        let c = chosen(entries, haystack(story_generation_match_inputs(concept, planned_story, extra)));
        Ok(
            seq![
                ("story_concept"@, concept),
                ("available_characters"@, summaries_text(cards)),
                ("world_state_schema"@, schema_fields_text(world_schema, false)),
                ("player_state_schema"@, schema_fields_text(player_schema, false)),
                ("section_summaries"@, crate::preview::summaries_text(d.section_summaries)),
                ("current_section"@, section),
                ("section_index"@, decimal(d.next_section_index)),
                ("total_sections"@, decimal(d.outline_sections.len())),
                ("target_node_count"@, decimal(DEFAULT_ARCHITECT_CHUNK_NODE_COUNT as nat)),
                ("graph_summary"@, graph_summary_json),
                ("recent_section_detail"@, recent_section_json),
            ] + optional_entry("lorebook_base"@, entries_text(c.0)) + optional_entry(
                "lorebook_matched"@,
                entries_text(c.1),
            ),
        )
    }
}

/// Assembles the architect's preview context for a draft's next section
/// (see `architect_draft_continue_spec`), with the graph summary and the
/// recent section detail already written as JSON.
pub fn architect_draft_continue_context(
    story_concept: &str,
    planned_story: Option<&str>,
    summaries: &Vec<CharacterCard>,
    world_schema: &StateSchema,
    player_schema: &StateSchema,
    lorebook_entries: &Vec<LorebookEntryRecord>,
    draft: &crate::draft::StoryDraft,
    graph_summary_json: String,
    recent_section_json: String,
) -> (r: Result<Vec<StateValue>, ContextError>)
    ensures
        match architect_draft_continue_spec(
            story_concept@,
            opt_str(planned_story),
            card_views(summaries@),
            world_schema@,
            player_schema@,
            lore_views(lorebook_entries@),
            draft@,
            graph_summary_json@,
            recent_section_json@,
        ) {
            Ok(c) => r is Ok && pair_views((r->Ok_0)@) == c,
            Err(e) => r is Err && (r->Err_0)@ == e,
        },
{
    if draft.next_section_index >= draft.outline_sections.len() {
        return Err(ContextError::NoRemainingSection);
    }
    let section = &draft.outline_sections[draft.next_section_index];
    let recent = crate::draft_summary::recent_draft_nodes(&draft.section_node_ids, &draft.partial_graph);
    let mut extra: Vec<&str> = Vec::new();
    extra.push(section.as_str());
    let mut i: usize = 0;
    while i < draft.section_summaries.len()
        invariant
            i <= draft.section_summaries@.len(),
            text_views(extra@) == seq![section@] + string_seq_views(draft.section_summaries@).take(i as int),
        decreases draft.section_summaries.len() - i,
    {
        let ghost before = text_views(extra@);
        extra.push(draft.section_summaries[i].as_str());
        proof {
            assert(text_views(extra@) =~= before.push(draft.section_summaries@[i as int]@));
            assert(string_seq_views(draft.section_summaries@).take(i + 1) =~= string_seq_views(
                draft.section_summaries@,
            ).take(i as int).push(draft.section_summaries@[i as int]@));
        }
        i = i + 1;
    }
    assert(string_seq_views(draft.section_summaries@).take(draft.section_summaries@.len() as int)
        =~= string_seq_views(draft.section_summaries@));
    let ghost head = text_views(extra@);
    let mut j: usize = 0;
    while j < recent.len()
        invariant
            j <= recent@.len(),
            text_views(extra@) == head + nodes_texts(node_views(recent@).take(j as int)),
        decreases recent.len() - j,
    {
        let ghost before = text_views(extra@);
        extra.push(recent[j].title.as_str());
        extra.push(recent[j].scene.as_str());
        extra.push(recent[j].goal.as_str());
        proof {
            let nv = node_views(recent@);
            assert(nv.take(j + 1).drop_last() =~= nv.take(j as int));
            assert(nv.take(j + 1).last() == recent@[j as int]@);
            assert(text_views(extra@) =~= before + seq![
                recent@[j as int].title@,
                recent@[j as int].scene@,
                recent@[j as int].goal@,
            ]);
        }
        j = j + 1;
    }
    proof {
        assert(node_views(recent@).take(recent@.len() as int) =~= node_views(recent@));
        assert(node_views(recent@) == recent_nodes_of(draft@));
    }
    let lore = story_generation_lorebook_sections(lorebook_entries, story_concept, planned_story, &extra);
    let mut context: Vec<StateValue> = Vec::new();
    push_entry(&mut context, "story_concept", story_concept.to_string());
    push_entry(&mut context, "available_characters", render_character_summaries(summaries));
    push_entry(&mut context, "world_state_schema", render_compact_schema_text(Some(&world_schema.fields)));
    push_entry(&mut context, "player_state_schema", render_compact_schema_text(Some(&player_schema.fields)));
    push_entry(
        &mut context,
        "section_summaries",
        crate::preview::render_section_summaries(&draft.section_summaries),
    );
    push_entry(&mut context, "current_section", section.clone());
    push_entry(&mut context, "section_index", usize_decimal(draft.next_section_index));
    push_entry(&mut context, "total_sections", usize_decimal(draft.outline_sections.len()));
    push_entry(&mut context, "target_node_count", usize_decimal(DEFAULT_ARCHITECT_CHUNK_NODE_COUNT));
    push_entry(&mut context, "graph_summary", graph_summary_json);
    push_entry(&mut context, "recent_section_detail", recent_section_json);
    let ghost fixed = pair_views(context@);
    push_optional(&mut context, "lorebook_base", lore.base);
    push_optional(&mut context, "lorebook_matched", lore.matched);
    proof {
        assert(opt_view(lore.base) == crate::lorebook::opt_text(lore.base));
        assert(opt_view(lore.matched) == crate::lorebook::opt_text(lore.matched));
    }
    Ok(context)
}

} // verus!
