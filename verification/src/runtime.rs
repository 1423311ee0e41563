//! Story resources and the runtime state of a session: the story graph, the
//! character cards, the player, the dynamic world state and the turn counter.
//!
//! A runtime state is only built when every character the graph and the scene
//! name has a card, card ids are unique, and the current node exists; a
//! snapshot holds the dynamic part and restores it on the same story.
use vstd::prelude::*;

use crate::graph::{
    DefectView, GraphDefect, RuntimeStoryGraph, first_duplicate, first_where, graph_defect,
    lemma_first_where, node_index, repeats_earlier,
};
use crate::prompt::types::{opt_view, str_eq};
use crate::schema::{
    CardView, CharacterCard, SchemaFieldView, StateSchema, card_ids, card_views, clone_cards,
};
use crate::story::{GraphView, NarrativeNode, NodeView, StoryGraph};
use crate::text::{is_blank, push_str, string_of_chars, string_seq_views, text_is_blank};
use crate::world::{WorldState, WorldView, apply_ops_spec};

verus! {

/// Why a runtime state or story resources could not be built or read.
#[derive(Debug)]
pub enum RuntimeError {
    GraphBuild(GraphDefect),
    EmptyStoryId,
    EmptyStoryConcept,
    EmptyCharacterCards,
    StoryIdMismatch { resource_story_id: String, snapshot_story_id: String },
    MissingCurrentNode(String),
    MissingCharacterCard(String),
    DuplicateCharacterCard(String),
}

/// The value of a runtime error.
pub enum RuntimeErrorView {
    GraphBuild(DefectView),
    EmptyStoryId,
    EmptyStoryConcept,
    EmptyCharacterCards,
    StoryIdMismatch { resource_story_id: Seq<char>, snapshot_story_id: Seq<char> },
    MissingCurrentNode(Seq<char>),
    MissingCharacterCard(Seq<char>),
    DuplicateCharacterCard(Seq<char>),
}

impl View for RuntimeError {
    type V = RuntimeErrorView;

    open spec fn view(&self) -> RuntimeErrorView {
        match self {
            RuntimeError::GraphBuild(d) => RuntimeErrorView::GraphBuild(d@),
            RuntimeError::EmptyStoryId => RuntimeErrorView::EmptyStoryId,
            RuntimeError::EmptyStoryConcept => RuntimeErrorView::EmptyStoryConcept,
            RuntimeError::EmptyCharacterCards => RuntimeErrorView::EmptyCharacterCards,
            RuntimeError::StoryIdMismatch { resource_story_id, snapshot_story_id } =>
                RuntimeErrorView::StoryIdMismatch {
                resource_story_id: resource_story_id@,
                snapshot_story_id: snapshot_story_id@,
            },
            RuntimeError::MissingCurrentNode(id) => RuntimeErrorView::MissingCurrentNode(id@),
            RuntimeError::MissingCharacterCard(id) => RuntimeErrorView::MissingCharacterCard(id@),
            RuntimeError::DuplicateCharacterCard(id) => RuntimeErrorView::DuplicateCharacterCard(id@),
        }
    }
}

/// The readable text of a runtime error.
pub open spec fn runtime_error_text(e: RuntimeErrorView) -> Seq<char> {
    match e {
        RuntimeErrorView::GraphBuild(d) => "failed to build runtime graph: "@
            + crate::graph::defect_text(d),
        RuntimeErrorView::EmptyStoryId => "story_id cannot be empty"@,
        RuntimeErrorView::EmptyStoryConcept => "story_concept cannot be empty"@,
        RuntimeErrorView::EmptyCharacterCards => "story resources requires at least one character card"@,
        RuntimeErrorView::StoryIdMismatch { resource_story_id, snapshot_story_id } =>
            "runtime snapshot story_id '"@ + snapshot_story_id + "' does not match resource story_id '"@
            + resource_story_id + "'"@,
        RuntimeErrorView::MissingCurrentNode(id) => "current node '"@ + id
            + "' not found in runtime graph"@,
        RuntimeErrorView::MissingCharacterCard(id) => "missing character card for id '"@ + id + "'"@,
        RuntimeErrorView::DuplicateCharacterCard(id) => "duplicate character card id '"@ + id + "'"@,
    }
}

impl RuntimeError {
    /// The readable text of the error.
    pub fn message(&self) -> (s: String)
        ensures
            s@ == runtime_error_text(self@),
    {
        let mut out: Vec<char> = Vec::new();
        match self {
            RuntimeError::GraphBuild(d) => {
                push_str(&mut out, "failed to build runtime graph: ");
                let m = d.message();
                push_str(&mut out, m.as_str());
            },
            RuntimeError::EmptyStoryId => push_str(&mut out, "story_id cannot be empty"),
            RuntimeError::EmptyStoryConcept => push_str(&mut out, "story_concept cannot be empty"),
            RuntimeError::EmptyCharacterCards => push_str(
                &mut out,
                "story resources requires at least one character card",
            ),
            RuntimeError::StoryIdMismatch { resource_story_id, snapshot_story_id } => {
                push_str(&mut out, "runtime snapshot story_id '");
                push_str(&mut out, snapshot_story_id.as_str());
                push_str(&mut out, "' does not match resource story_id '");
                push_str(&mut out, resource_story_id.as_str());
                push_str(&mut out, "'");
            },
            RuntimeError::MissingCurrentNode(id) => {
                push_str(&mut out, "current node '");
                push_str(&mut out, id.as_str());
                push_str(&mut out, "' not found in runtime graph");
            },
            RuntimeError::MissingCharacterCard(id) => {
                push_str(&mut out, "missing character card for id '");
                push_str(&mut out, id.as_str());
                push_str(&mut out, "'");
            },
            RuntimeError::DuplicateCharacterCard(id) => {
                push_str(&mut out, "duplicate character card id '");
                push_str(&mut out, id.as_str());
                push_str(&mut out, "'");
            },
        }
        proof {
            assert(out@ =~= runtime_error_text(self@));
        }
        string_of_chars(out.as_slice())
    }
}

/// Rejects a story id that is empty or only whitespace.
pub fn validate_story_id(story_id: &str) -> (r: Result<(), RuntimeError>)
    ensures
        match r {
            Ok(_) => !is_blank(story_id@),
            Err(e) => is_blank(story_id@) && e@ == RuntimeErrorView::EmptyStoryId,
        },
{
    if text_is_blank(story_id) {
        return Err(RuntimeError::EmptyStoryId);
    }
    Ok(())
}

/// Rejects a story concept that is empty or only whitespace.
pub fn validate_story_concept(story_concept: &str) -> (r: Result<(), RuntimeError>)
    ensures
        match r {
            Ok(_) => !is_blank(story_concept@),
            Err(e) => is_blank(story_concept@) && e@ == RuntimeErrorView::EmptyStoryConcept,
        },
{
    if text_is_blank(story_concept) {
        return Err(RuntimeError::EmptyStoryConcept);
    }
    Ok(())
}

/// The error for a list of cards with a repeated id: the first card whose id
/// an earlier card has.
pub open spec fn duplicate_card_error(cards: Seq<CardView>) -> Option<RuntimeErrorView> {
    match first_duplicate(card_ids(cards)) {
        Some(j) => Some(RuntimeErrorView::DuplicateCharacterCard(card_ids(cards)[j])),
        None => None,
    }
}

/// Whether the first `n` cards hold one with id `id`.
fn cards_have_id(cards: &[CharacterCard], n: usize, id: &str) -> (b: bool)
    requires
        n <= cards@.len(),
    ensures
        b == card_ids(card_views(cards@)).take(n as int).contains(id@),
{
    let ghost ids = card_ids(card_views(cards@));
    let mut i: usize = 0;
    while i < n
        invariant
            ids == card_ids(card_views(cards@)),
            n <= cards@.len(),
            i <= n,
            forall|k: int| 0 <= k < i ==> ids[k] != id@,
        decreases n - i,
    {
        if str_eq(cards[i].id.as_str(), id) {
            assert(ids.take(n as int)[i as int] == id@);
            return true;
        }
        i = i + 1;
    }
    assert forall|k: int| 0 <= k < ids.take(n as int).len() implies ids.take(n as int)[k] != id@ by {}
    false
}

/// Rejects a list of cards in which an id repeats (the index of cards by id
/// that the runtime builds).
pub fn build_character_card_index(character_cards: &[CharacterCard]) -> (r: Result<(), RuntimeError>)
    ensures
        match r {
            Ok(_) => duplicate_card_error(card_views(character_cards@)) is None,
            Err(e) => duplicate_card_error(card_views(character_cards@)) == Some(e@),
        },
{
    let ghost ids = card_ids(card_views(character_cards@));
    let ghost p = repeats_earlier(ids);
    let mut j: usize = 0;
    while j < character_cards.len()
        invariant
            ids == card_ids(card_views(character_cards@)),
            p == repeats_earlier(ids),
            j <= ids.len(),
            first_where(ids.len() as int, p, 0) == first_where(ids.len() as int, p, j as int),
        decreases character_cards.len() - j,
    {
        assert(ids[j as int] == character_cards@[j as int].id@);
        if cards_have_id(character_cards, j, character_cards[j].id.as_str()) {
            return Err(RuntimeError::DuplicateCharacterCard(character_cards[j].id.clone()));
        }
        j = j + 1;
    }
    Ok(())
}

/// The error for story resources' cards: none at all, or a repeated id.
pub open spec fn card_list_error(cards: Seq<CardView>) -> Option<RuntimeErrorView> {
    if cards.len() == 0 {
        Some(RuntimeErrorView::EmptyCharacterCards)
    } else {
        duplicate_card_error(cards)
    }
}

/// Rejects an empty list of cards or one in which an id repeats.
pub fn validate_character_cards(character_cards: &[CharacterCard]) -> (r: Result<(), RuntimeError>)
    ensures
        match r {
            Ok(_) => card_list_error(card_views(character_cards@)) is None,
            Err(e) => card_list_error(card_views(character_cards@)) == Some(e@),
        },
{
    if character_cards.len() == 0 {
        return Err(RuntimeError::EmptyCharacterCards);
    }
    build_character_card_index(character_cards)
}

/// Whether the string at position `k` is missing from `ids`.
pub open spec fn missing_from(needed: Seq<Seq<char>>, ids: Seq<Seq<char>>) -> spec_fn(int) -> bool {
    |k: int| !ids.contains(needed[k])
}

/// The first string of `needed` that `ids` lacks.
pub open spec fn first_missing(needed: Seq<Seq<char>>, ids: Seq<Seq<char>>) -> Option<int> {
    first_where(needed.len() as int, missing_from(needed, ids), 0)
}

/// Whether the node at position `i` names a character that `ids` lacks.
pub open spec fn node_lacks_card(nodes: Seq<NodeView>, ids: Seq<Seq<char>>) -> spec_fn(int) -> bool {
    |i: int| first_missing(nodes[i].characters, ids) is Some
}

/// The first character named by a node of the graph (in node order) that has
/// no card.
pub open spec fn graph_missing_card(g: GraphView, ids: Seq<Seq<char>>) -> Option<Seq<char>> {
    match first_where(g.nodes.len() as int, node_lacks_card(g.nodes, ids), 0) {
        Some(i) => Some(g.nodes[i].characters[first_missing(g.nodes[i].characters, ids)->0]),
        None => None,
    }
}

/// What is wrong with a world state on a graph: a current node that is not a
/// node of the graph, or (first) a character in the scene without a card.
pub open spec fn world_error(g: GraphView, ids: Seq<Seq<char>>, w: WorldView) -> Option<
    RuntimeErrorView,
> {
    if node_index(g, w.current_node) is None {
        Some(RuntimeErrorView::MissingCurrentNode(w.current_node))
    } else {
        match first_missing(w.active_characters, ids) {
            Some(k) => Some(RuntimeErrorView::MissingCharacterCard(w.active_characters[k])),
            None => None,
        }
    }
}

/// The cards with `c` in place of the first card with its id, or added at
/// the end when none has it.
pub open spec fn upserted(cards: Seq<CardView>, c: CardView) -> Seq<CardView> {
    match card_index(cards, c.id) {
        Some(i) => cards.update(i, c),
        None => cards.push(c),
    }
}

/// The value of a runtime state.
pub struct RuntimeView {
    pub story_id: Seq<char>,
    pub graph: GraphView,
    pub cards: Seq<CardView>,
    pub player_description: Seq<char>,
    pub player_state_schema: Seq<SchemaFieldView>,
    pub world: WorldView,
    pub turn_index: u64,
}

/// The runtime state assembled from its parts, or the first problem with
/// them: a repeated card id, a character of the graph without a card, then a
/// problem with the world state (see `world_error`).
pub open spec fn from_parts_spec(
    story_id: Seq<char>,
    g: GraphView,
    cards: Seq<CardView>,
    player_description: Seq<char>,
    schema: Seq<SchemaFieldView>,
    world: WorldView,
    turn_index: u64,
) -> Result<RuntimeView, RuntimeErrorView> {
    let ids = card_ids(cards);
    match duplicate_card_error(cards) {
        Some(e) => Err(e),
        None => match graph_missing_card(g, ids) {
            Some(c) => Err(RuntimeErrorView::MissingCharacterCard(c)),
            None => match world_error(g, ids, world) {
                Some(e) => Err(e),
                None => Ok(
                    RuntimeView {
                        story_id,
                        graph: g,
                        cards,
                        player_description,
                        player_state_schema: schema,
                        world,
                        turn_index,
                    },
                ),
            },
        },
    }
}

/// The world state a session starts in: at the start node, with the start
/// node's characters in the scene, after the start node's on-enter updates.
pub open spec fn initial_world(g: GraphView) -> WorldView {
    let start = g.nodes[node_index(g, g.start_node)->0];
    apply_ops_spec(
        WorldView {
            current_node: start.id,
            active_characters: start.characters,
            custom: seq![],
            player_state: seq![],
            character_state: seq![],
            shared_history: seq![],
            private_memory: seq![],
        },
        start.on_enter_updates,
    )
}

/// The dynamic part of a runtime state: the story it belongs to, the player,
/// the world state and the turn counter.
#[derive(Debug)]
pub struct RuntimeSnapshot {
    pub story_id: String,
    pub player_description: String,
    pub world_state: WorldState,
    pub turn_index: u64,
}

/// The value of a snapshot.
pub struct SnapshotView {
    pub story_id: Seq<char>,
    pub player_description: Seq<char>,
    pub world: WorldView,
    pub turn_index: u64,
}

impl View for RuntimeSnapshot {
    type V = SnapshotView;

    open spec fn view(&self) -> SnapshotView {
        SnapshotView {
            story_id: self.story_id@,
            player_description: self.player_description@,
            world: self.world_state@,
            turn_index: self.turn_index,
        }
    }
}

/// The snapshot of a runtime state.
pub open spec fn snapshot_spec(s: RuntimeView) -> SnapshotView {
    SnapshotView {
        story_id: s.story_id,
        player_description: s.player_description,
        world: s.world,
        turn_index: s.turn_index,
    }
}

/// The runtime state restored from a snapshot, or why it cannot be: the
/// snapshot belongs to another story, or its parts are rejected as by
/// `from_parts_spec`.
pub open spec fn from_snapshot_spec(
    story_id: Seq<char>,
    g: GraphView,
    cards: Seq<CardView>,
    schema: Seq<SchemaFieldView>,
    snap: SnapshotView,
) -> Result<RuntimeView, RuntimeErrorView> {
    if snap.story_id != story_id {
        Err(
            RuntimeErrorView::StoryIdMismatch {
                resource_story_id: story_id,
                snapshot_story_id: snap.story_id,
            },
        )
    } else {
        from_parts_spec(
            snap.story_id,
            g,
            cards,
            snap.player_description,
            schema,
            snap.world,
            snap.turn_index,
        )
    }
}

/// The runtime state of a session.
#[derive(Debug)]
pub struct RuntimeState {
    story_id: String,
    runtime_graph: RuntimeStoryGraph,
    character_cards: Vec<CharacterCard>,
    player_description: String,
    player_state_schema: StateSchema,
    world_state: WorldState,
    turn_index: u64,
}

impl View for RuntimeState {
    type V = RuntimeView;

    closed spec fn view(&self) -> RuntimeView {
        RuntimeView {
            story_id: self.story_id@,
            graph: self.runtime_graph@,
            cards: card_views(self.character_cards@),
            player_description: self.player_description@,
            player_state_schema: self.player_state_schema@,
            world: self.world_state@,
            turn_index: self.turn_index,
        }
    }
}

/// The result of building a runtime state, by value.
pub open spec fn state_result(r: Result<RuntimeState, RuntimeError>) -> Result<RuntimeView, RuntimeErrorView> {
    match r {
        Ok(s) => Ok(s@),
        Err(e) => Err(e@),
    }
}

/// The world state of a runtime state is consistent with its graph and cards.
pub open spec fn world_ok(s: RuntimeView) -> bool {
    world_error(s.graph, card_ids(s.cards), s.world) is None
}

/// The position of the first card with id `id`.
pub(crate) fn find_card(cards: &Vec<CharacterCard>, id: &str) -> (r: Option<usize>)
    ensures
        match r {
            Some(i) => i < cards@.len() && first_where(cards@.len() as int, has_card_id(card_views(cards@), id@), 0)
                == Some(i as int),
            None => first_where(cards@.len() as int, has_card_id(card_views(cards@), id@), 0) is None,
        },
{
    let ghost cv = card_views(cards@);
    let ghost p = has_card_id(cv, id@);
    let mut i: usize = 0;
    while i < cards.len()
        invariant
            cv == card_views(cards@),
            p == has_card_id(cv, id@),
            i <= cards@.len(),
            first_where(cards@.len() as int, p, 0) == first_where(cards@.len() as int, p, i as int),
        decreases cards.len() - i,
    {
        assert(cv[i as int] == cards@[i as int]@);
        if str_eq(cards[i].id.as_str(), id) {
            return Some(i);
        }
        i = i + 1;
    }
    None
}

/// Whether the card at position `i` has id `id`.
pub open spec fn has_card_id(cards: Seq<CardView>, id: Seq<char>) -> spec_fn(int) -> bool {
    |i: int| cards[i].id == id
}

/// Whether `c` is the card with id `id`.
pub open spec fn card_of(cards: Seq<CardView>, id: Seq<char>, c: CardView) -> bool {
    card_index(cards, id) matches Some(i) && c == cards[i]
}

/// The position of the card with id `id`.
pub open spec fn card_index(cards: Seq<CardView>, id: Seq<char>) -> Option<int> {
    first_where(cards.len() as int, has_card_id(cards, id), 0)
}

/// A card is found exactly when its id is among the card ids.
pub proof fn lemma_card_index_contains(cards: Seq<CardView>, id: Seq<char>)
    ensures
        (card_index(cards, id) is Some) == card_ids(cards).contains(id),
{
    let ids = card_ids(cards);
    lemma_first_where(cards.len() as int, has_card_id(cards, id), 0);
    if ids.contains(id) {
        let k = choose|k: int| 0 <= k < ids.len() && ids[k] == id;
        assert(has_card_id(cards, id)(k));
    }
    if card_index(cards, id) is Some {
        let k = card_index(cards, id)->0;
        assert(ids[k] == id);
    }
}

/// The first string of `needed[0..]` that the cards lack.
fn find_missing_card(needed: &Vec<String>, cards: &Vec<CharacterCard>) -> (r: Option<usize>)
    ensures
        match r {
            Some(k) => k < needed@.len() && first_missing(
                string_seq_views(needed@),
                card_ids(card_views(cards@)),
            ) == Some(k as int),
            None => first_missing(string_seq_views(needed@), card_ids(card_views(cards@))) is None,
        },
{
    let ghost nv = string_seq_views(needed@);
    let ghost ids = card_ids(card_views(cards@));
    let ghost p = missing_from(nv, ids);
    let mut k: usize = 0;
    while k < needed.len()
        invariant
            nv == string_seq_views(needed@),
            ids == card_ids(card_views(cards@)),
            p == missing_from(nv, ids),
            k <= nv.len(),
            first_where(nv.len() as int, p, 0) == first_where(nv.len() as int, p, k as int),
        decreases needed.len() - k,
    {
        assert(ids.take(cards@.len() as int) =~= ids);
        assert(nv[k as int] == needed@[k as int]@);
        if !cards_have_id(cards.as_slice(), cards.len(), needed[k].as_str()) {
            return Some(k);
        }
        k = k + 1;
    }
    None
}

/// Finds the first character of the graph without a card.
fn find_graph_missing_card(graph: &StoryGraph, cards: &Vec<CharacterCard>) -> (r: Option<String>)
    ensures
        match r {
            Some(c) => graph_missing_card(graph@, card_ids(card_views(cards@))) == Some(c@),
            None => graph_missing_card(graph@, card_ids(card_views(cards@))) is None,
        },
{
    let ghost nv = graph@.nodes;
    let ghost ids = card_ids(card_views(cards@));
    let ghost p = node_lacks_card(nv, ids);
    let mut i: usize = 0;
    while i < graph.nodes.len()
        invariant
            nv == graph@.nodes,
            ids == card_ids(card_views(cards@)),
            p == node_lacks_card(nv, ids),
            i <= nv.len(),
            first_where(nv.len() as int, p, 0) == first_where(nv.len() as int, p, i as int),
        decreases graph.nodes.len() - i,
    {
        let node = &graph.nodes[i];
        assert(nv[i as int] == node@);
        match find_missing_card(&node.characters, cards) {
            Some(k) => {
                assert(p(i as int));
                assert(node@.characters[k as int] == node.characters@[k as int]@);
                return Some(node.characters[k].clone());
            },
            None => {},
        }
        i = i + 1;
    }
    None
}

/// Checks a world state against a graph and cards (see `world_error`).
fn validate_world_state(world: &WorldState, graph: &RuntimeStoryGraph, cards: &Vec<CharacterCard>) -> (r:
    Result<(), RuntimeError>)
    ensures
        match r {
            Ok(_) => world_error(graph@, card_ids(card_views(cards@)), world@) is None,
            Err(e) => world_error(graph@, card_ids(card_views(cards@)), world@) == Some(e@),
        },
{
    if graph.get_node(world.current_node()).is_none() {
        return Err(RuntimeError::MissingCurrentNode(world.current_node.clone()));
    }
    match find_missing_card(world.active_characters(), cards) {
        Some(k) => {
            assert(world@.active_characters[k as int] == world.active_characters@[k as int]@);
            Err(RuntimeError::MissingCharacterCard(world.active_characters[k].clone()))
        },
        None => Ok(()),
    }
}

impl RuntimeState {
    /// Assembles a runtime state, checking its parts (see `from_parts_spec`).
    fn from_parts(
        story_id: String,
        runtime_graph: RuntimeStoryGraph,
        character_cards: Vec<CharacterCard>,
        player_description: String,
        player_state_schema: StateSchema,
        world_state: WorldState,
        turn_index: u64,
    ) -> (r: Result<RuntimeState, RuntimeError>)
        ensures
            state_result(r) == from_parts_spec(
                story_id@,
                runtime_graph@,
                card_views(character_cards@),
                player_description@,
                player_state_schema@,
                world_state@,
                turn_index,
            ),
    {
        match build_character_card_index(character_cards.as_slice()) {
            Err(e) => return Err(e),
            Ok(_) => {},
        }
        match find_graph_missing_card(runtime_graph.graph(), &character_cards) {
            Some(c) => return Err(RuntimeError::MissingCharacterCard(c)),
            None => {},
        }
        match validate_world_state(&world_state, &runtime_graph, &character_cards) {
            Err(e) => return Err(e),
            Ok(_) => {},
        }
        Ok(
            RuntimeState {
                story_id,
                runtime_graph,
                character_cards,
                player_description,
                player_state_schema,
                world_state,
                turn_index,
            },
        )
    }

    /// A session at the start of the story: at the start node, with its
    /// characters in the scene and its on-enter updates applied, at turn 0.
    pub fn new(
        story_id: String,
        runtime_graph: RuntimeStoryGraph,
        character_cards: Vec<CharacterCard>,
        player_description: String,
        player_state_schema: StateSchema,
    ) -> (r: Result<RuntimeState, RuntimeError>)
        ensures
            state_result(r) == from_parts_spec(
                story_id@,
                runtime_graph@,
                card_views(character_cards@),
                player_description@,
                player_state_schema@,
                initial_world(runtime_graph@),
                0,
            ),
    {
        let start: &NarrativeNode = runtime_graph.start_node();
        let mut world_state = WorldState::new(start.id.clone()).with_active_characters(
            crate::world::clone_strings(&start.characters),
        );
        proof {
            assert(world_state@.custom =~= seq![]);
            assert(world_state@.player_state =~= seq![]);
            assert(world_state@.character_state =~= seq![]);
            assert(world_state@.shared_history =~= seq![]);
            assert(world_state@.private_memory =~= seq![]);
        }
        world_state.apply_ops(&start.on_enter_updates);
        Self::from_parts(
            story_id,
            runtime_graph,
            character_cards,
            player_description,
            player_state_schema,
            world_state,
            0,
        )
    }

    /// A session at the start of a story graph, after checking the graph.
    pub fn from_story_graph(
        story_id: String,
        story_graph: StoryGraph,
        character_cards: Vec<CharacterCard>,
        player_description: String,
        player_state_schema: StateSchema,
    ) -> (r: Result<RuntimeState, RuntimeError>)
        ensures
            state_result(r) == match graph_defect(story_graph@) {
                Some(d) => Err(RuntimeErrorView::GraphBuild(d)),
                None => from_parts_spec(
                    story_id@,
                    story_graph@,
                    card_views(character_cards@),
                    player_description@,
                    player_state_schema@,
                    initial_world(story_graph@),
                    0,
                ),
            },
    {
        match RuntimeStoryGraph::from_story_graph(story_graph) {
            Err(d) => Err(RuntimeError::GraphBuild(d)),
            Ok(g) => Self::new(story_id, g, character_cards, player_description, player_state_schema),
        }
    }

    /// A session at the start of a story graph, with the resources' story id
    /// and cards.
    pub fn from_story_resources(
        resources: &StoryResources,
        story_graph: StoryGraph,
        player_description: String,
        player_state_schema: StateSchema,
    ) -> (r: Result<RuntimeState, RuntimeError>)
        ensures
            state_result(r) == match graph_defect(story_graph@) {
                Some(d) => Err(RuntimeErrorView::GraphBuild(d)),
                None => from_parts_spec(
                    resources@.story_id,
                    story_graph@,
                    resources@.cards,
                    player_description@,
                    player_state_schema@,
                    initial_world(story_graph@),
                    0,
                ),
            },
    {
        Self::from_story_graph(
            resources.story_id.clone(),
            story_graph,
            clone_cards(resources.character_cards.as_slice()),
            player_description,
            player_state_schema,
        )
    }

    /// A session restored from a snapshot of the same story.
    pub fn from_snapshot(
        story_id: String,
        runtime_graph: RuntimeStoryGraph,
        character_cards: Vec<CharacterCard>,
        player_state_schema: StateSchema,
        snapshot: RuntimeSnapshot,
    ) -> (r: Result<RuntimeState, RuntimeError>)
        ensures
            state_result(r) == from_snapshot_spec(
                story_id@,
                runtime_graph@,
                card_views(character_cards@),
                player_state_schema@,
                snapshot@,
            ),
    {
        if !str_eq(snapshot.story_id.as_str(), story_id.as_str()) {
            return Err(
                RuntimeError::StoryIdMismatch {
                    resource_story_id: story_id,
                    snapshot_story_id: snapshot.story_id,
                },
            );
        }
        Self::from_parts(
            snapshot.story_id,
            runtime_graph,
            character_cards,
            snapshot.player_description,
            player_state_schema,
            snapshot.world_state,
            snapshot.turn_index,
        )
    }

    /// The dynamic part of the state.
    pub fn snapshot(&self) -> (s: RuntimeSnapshot)
        ensures
            s@ == snapshot_spec(self@),
    {
        RuntimeSnapshot {
            story_id: self.story_id.clone(),
            player_description: self.player_description.clone(),
            world_state: self.world_state.duplicate(),
            turn_index: self.turn_index,
        }
    }

    /// The id of the story.
    pub fn story_id(&self) -> (s: &str)
        ensures
            s@ == self@.story_id,
    {
        self.story_id.as_str()
    }

    /// The story graph.
    pub fn runtime_graph(&self) -> (g: &RuntimeStoryGraph)
        ensures
            g@ == self@.graph,
    {
        &self.runtime_graph
    }

    /// The world state.
    pub fn world_state(&self) -> (w: &WorldState)
        ensures
            w@ == self@.world,
    {
        &self.world_state
    }

    /// The world state, for changing it.
    pub fn world_state_mut(&mut self) -> (w: &mut WorldState)
        ensures
            w@ == old(self)@.world,
            final(self)@ == (RuntimeView { world: final(w)@, ..old(self)@ }),
    {
        &mut self.world_state
    }

    /// The player's state schema.
    pub fn player_state_schema(&self) -> (s: &StateSchema)
        ensures
            s@ == self@.player_state_schema,
    {
        &self.player_state_schema
    }

    /// The description of the player.
    pub fn player_description(&self) -> (s: &str)
        ensures
            s@ == self@.player_description,
    {
        self.player_description.as_str()
    }

    /// Replaces the description of the player.
    pub fn set_player_description(&mut self, description: String)
        ensures
            final(self)@ == (RuntimeView { player_description: description@, ..old(self)@ }),
    {
        self.player_description = description;
    }

    /// The number of turns played.
    pub fn turn_index(&self) -> (t: u64)
        ensures
            t == self@.turn_index,
    {
        self.turn_index
    }

    /// Counts one more turn (saturating at the largest `u64`) and returns the
    /// new count.
    pub fn advance_turn(&mut self) -> (t: u64)
        ensures
            t == (if old(self)@.turn_index == u64::MAX {
                u64::MAX
            } else {
                (old(self)@.turn_index + 1) as u64
            }),
            final(self)@ == (RuntimeView { turn_index: t, ..old(self)@ }),
    {
        self.turn_index = self.turn_index.saturating_add(1);
        self.turn_index
    }

    /// The character cards.
    pub fn character_cards(&self) -> (c: &[CharacterCard])
        ensures
            card_views(c@) == self@.cards,
    {
        self.character_cards.as_slice()
    }

    /// Adds a card, or replaces the first card with the same id; true when a
    /// card was replaced.
    pub fn upsert_card(&mut self, card: CharacterCard) -> (replaced: bool)
        ensures
            replaced == card_index(old(self)@.cards, card@.id) is Some,
            final(self)@ == (RuntimeView { cards: upserted(old(self)@.cards, card@), ..old(self)@ }),
    {
        let ghost before = card_views(self.character_cards@);
        let ghost cv = card@;
        match find_card(&self.character_cards, card.id.as_str()) {
            Some(i) => {
                self.character_cards.set(i, card);
                proof {
                    assert(card_views(self.character_cards@) =~= before.update(i as int, cv));
                }
                true
            },
            None => {
                self.character_cards.push(card);
                proof {
                    assert(card_views(self.character_cards@) =~= before.push(cv));
                }
                false
            },
        }
    }

    /// The card of character `character_id`.
    pub fn character_card(&self, character_id: &str) -> (r: Option<&CharacterCard>)
        ensures
            match r {
                Some(c) => card_index(self@.cards, character_id@) matches Some(i) && c@ == self@.cards[i],
                None => card_index(self@.cards, character_id@) is None,
            },
    {
        match find_card(&self.character_cards, character_id) {
            Some(i) => Some(&self.character_cards[i]),
            None => None,
        }
    }

    /// The node the session is at.
    pub fn current_node(&self) -> (r: Result<&NarrativeNode, RuntimeError>)
        ensures
            match r {
                Ok(n) => node_index(self@.graph, self@.world.current_node) matches Some(i) && n@
                    == self@.graph.nodes[i],
                Err(e) => node_index(self@.graph, self@.world.current_node) is None && e@
                    == RuntimeErrorView::MissingCurrentNode(self@.world.current_node),
            },
    {
        match self.runtime_graph.get_node(self.world_state.current_node()) {
            Some(n) => Ok(n),
            None => Err(RuntimeError::MissingCurrentNode(self.world_state.current_node.clone())),
        }
    }

    /// The cards of the characters in the scene, in scene order; the first
    /// character without a card is an error.
    pub fn active_character_cards(&self) -> (r: Result<Vec<&CharacterCard>, RuntimeError>)
        ensures
            match r {
                Ok(v) => first_missing(self@.world.active_characters, card_ids(self@.cards)) is None
                    && v@.len() == self@.world.active_characters.len() && forall|k: int|
                    0 <= k < v@.len() ==> card_of(self@.cards, self@.world.active_characters[k], #[trigger] v@[k]@),
                Err(e) => first_missing(self@.world.active_characters, card_ids(self@.cards)) matches Some(
                    k,
                ) && e@ == RuntimeErrorView::MissingCharacterCard(self@.world.active_characters[k]),
            },
    {
        let ghost av = self@.world.active_characters;
        let ghost ids = card_ids(self@.cards);
        let ghost p = missing_from(av, ids);
        let mut out: Vec<&CharacterCard> = Vec::new();
        let mut k: usize = 0;
        while k < self.world_state.active_characters.len()
            invariant
                av == self@.world.active_characters,
                av == string_seq_views(self.world_state.active_characters@),
                ids == card_ids(self@.cards),
                p == missing_from(av, ids),
                k <= av.len(),
                out@.len() == k,
                first_where(av.len() as int, p, 0) == first_where(av.len() as int, p, k as int),
                forall|j: int| 0 <= j < k ==> !#[trigger] p(j),
                forall|j: int| 0 <= j < k ==> card_of(self@.cards, av[j], #[trigger] out@[j]@),
            decreases self.world_state.active_characters.len() - k,
        {
            assert(av[k as int] == self.world_state.active_characters@[k as int]@);
            proof {
                lemma_card_index_contains(self@.cards, av[k as int]);
            }
            match self.character_card(self.world_state.active_characters[k].as_str()) {
                Some(c) => {
                    let ghost before = out@;
                    out.push(c);
                    proof {
                        assert(out@ == before.push(c));
                        assert forall|j: int| 0 <= j < k implies out@[j] == before[j] by {}
                        assert(out@[k as int] == c);
                        assert(card_of(self@.cards, av[k as int], out@[k as int]@));
                        assert forall|j: int| 0 <= j < k + 1 implies card_of(
                            self@.cards,
                            av[j],
                            #[trigger] out@[j]@,
                        ) by {
                            if j < k {
                                assert(out@[j] == before[j]);
                            }
                        }
                    }
                },
                None => {
                    return Err(RuntimeError::MissingCharacterCard(self.world_state.active_characters[k].clone()));
                },
            }
            k = k + 1;
        }
        proof {
            lemma_first_where(av.len() as int, p, av.len() as int);
        }
        Ok(out)
    }
}

/// A snapshot taken of a session whose world state is consistent restores the
/// same session: the same story, player, world state and turn counter.
pub proof fn lemma_snapshot_round_trip(s: RuntimeView)
    requires
        duplicate_card_error(s.cards) is None,
        graph_missing_card(s.graph, card_ids(s.cards)) is None,
        world_ok(s),
    ensures
        from_snapshot_spec(s.story_id, s.graph, s.cards, s.player_state_schema, snapshot_spec(s))
            == Ok::<RuntimeView, RuntimeErrorView>(s),
{
}

/// The inputs a story is generated and played from.
#[derive(Debug)]
pub struct StoryResources {
    story_id: String,
    story_concept: String,
    character_cards: Vec<CharacterCard>,
    player_state_schema_seed: Option<StateSchema>,
    world_state_schema_seed: Option<StateSchema>,
    planned_story: Option<String>,
}

/// The value of story resources.
pub struct ResourcesView {
    pub story_id: Seq<char>,
    pub story_concept: Seq<char>,
    pub cards: Seq<CardView>,
    pub player_state_schema_seed: Option<Seq<SchemaFieldView>>,
    pub world_state_schema_seed: Option<Seq<SchemaFieldView>>,
    pub planned_story: Option<Seq<char>>,
}

/// The view of an optional schema.
pub open spec fn opt_schema_view(s: Option<StateSchema>) -> Option<Seq<SchemaFieldView>> {
    match s {
        Some(s) => Some(s@),
        None => None,
    }
}

impl View for StoryResources {
    type V = ResourcesView;

    closed spec fn view(&self) -> ResourcesView {
        ResourcesView {
            story_id: self.story_id@,
            story_concept: self.story_concept@,
            cards: card_views(self.character_cards@),
            player_state_schema_seed: opt_schema_view(self.player_state_schema_seed),
            world_state_schema_seed: opt_schema_view(self.world_state_schema_seed),
            planned_story: opt_view(self.planned_story),
        }
    }
}

/// Story resources from their inputs, or the first problem with them: a blank
/// story id, a blank concept, no cards, a repeated card id.
pub open spec fn resources_spec(
    story_id: Seq<char>,
    story_concept: Seq<char>,
    cards: Seq<CardView>,
    player_state_schema_seed: Option<Seq<SchemaFieldView>>,
) -> Result<ResourcesView, RuntimeErrorView> {
    if is_blank(story_id) {
        Err(RuntimeErrorView::EmptyStoryId)
    } else if is_blank(story_concept) {
        Err(RuntimeErrorView::EmptyStoryConcept)
    } else {
        match card_list_error(cards) {
            Some(e) => Err(e),
            None => Ok(
                ResourcesView {
                    story_id,
                    story_concept,
                    cards,
                    player_state_schema_seed,
                    world_state_schema_seed: None,
                    planned_story: None,
                },
            ),
        }
    }
}

/// The result of building story resources, by value.
pub open spec fn resources_result(r: Result<StoryResources, RuntimeError>) -> Result<ResourcesView, RuntimeErrorView> {
    match r {
        Ok(s) => Ok(s@),
        Err(e) => Err(e@),
    }
}

impl StoryResources {
    /// Checks and holds the inputs of a story.
    pub fn new(
        story_id: String,
        story_concept: String,
        character_cards: Vec<CharacterCard>,
        player_state_schema_seed: Option<StateSchema>,
    ) -> (r: Result<StoryResources, RuntimeError>)
        ensures
            resources_result(r) == resources_spec(
                story_id@,
                story_concept@,
                card_views(character_cards@),
                opt_schema_view(player_state_schema_seed),
            ),
    {
        match validate_story_id(story_id.as_str()) {
            Err(e) => return Err(e),
            Ok(_) => {},
        }
        match validate_story_concept(story_concept.as_str()) {
            Err(e) => return Err(e),
            Ok(_) => {},
        }
        match validate_character_cards(character_cards.as_slice()) {
            Err(e) => return Err(e),
            Ok(_) => {},
        }
        Ok(
            StoryResources {
                story_id,
                story_concept,
                character_cards,
                player_state_schema_seed,
                world_state_schema_seed: None,
                planned_story: None,
            },
        )
    }

    /// The resources with a seed for the world state schema.
    pub fn with_world_state_schema_seed(self, world_state_schema: StateSchema) -> (r: StoryResources)
        ensures
            r@ == (ResourcesView { world_state_schema_seed: Some(world_state_schema@), ..self@ }),
    {
        StoryResources { world_state_schema_seed: Some(world_state_schema), ..self }
    }

    /// The resources with a planned story outline.
    pub fn with_planned_story(self, planned_story: String) -> (r: StoryResources)
        ensures
            r@ == (ResourcesView { planned_story: Some(planned_story@), ..self@ }),
    {
        StoryResources { planned_story: Some(planned_story), ..self }
    }

    /// The id of the story.
    pub fn story_id(&self) -> (s: &str)
        ensures
            s@ == self@.story_id,
    {
        self.story_id.as_str()
    }

    /// The concept of the story.
    pub fn story_concept(&self) -> (s: &str)
        ensures
            s@ == self@.story_concept,
    {
        self.story_concept.as_str()
    }

    /// The character cards.
    pub fn character_cards(&self) -> (c: &[CharacterCard])
        ensures
            card_views(c@) == self@.cards,
    {
        self.character_cards.as_slice()
    }

    /// The seed for the player state schema.
    pub fn player_state_schema_seed(&self) -> (s: Option<&StateSchema>)
        ensures
            match s {
                Some(s) => self@.player_state_schema_seed == Some(s@),
                None => self@.player_state_schema_seed is None,
            },
    {
        match &self.player_state_schema_seed {
            Some(s) => Some(s),
            None => None,
        }
    }

    /// The seed for the world state schema.
    pub fn world_state_schema_seed(&self) -> (s: Option<&StateSchema>)
        ensures
            match s {
                Some(s) => self@.world_state_schema_seed == Some(s@),
                None => self@.world_state_schema_seed is None,
            },
    {
        match &self.world_state_schema_seed {
            Some(s) => Some(s),
            None => None,
        }
    }

    /// The planned story outline.
    pub fn planned_story(&self) -> (s: Option<&str>)
        ensures
            match s {
                Some(s) => self@.planned_story == Some(s@),
                None => self@.planned_story is None,
            },
    {
        match &self.planned_story {
            Some(s) => Some(s.as_str()),
            None => None,
        }
    }
}

} // verus!
