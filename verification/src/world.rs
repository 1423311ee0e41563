//! The dynamic state of a story session: the current node, the characters in
//! the scene, state values, the shared history of the scene and each
//! character's private memory.
//!
//! State values are held as their compact JSON text.
use vstd::prelude::*;

use crate::prompt::types::str_eq;
use crate::story::{OpView, StateOp, op_views};

verus! {

/// A keyed state value (its JSON text).
#[derive(Debug)]
pub struct StateValue {
    pub key: String,
    pub value_json: String,
}

/// The value of a keyed state value.
pub type PairView = (Seq<char>, Seq<char>);

impl View for StateValue {
    type V = PairView;

    open spec fn view(&self) -> PairView {
        (self.key@, self.value_json@)
    }
}

/// The views of keyed values.
pub open spec fn pair_views(v: Seq<StateValue>) -> Seq<PairView> {
    v.map_values(|p: StateValue| p@)
}

/// The index of the first pair with key `k`, searching from `i`.
pub open spec fn assoc_index_from(s: Seq<PairView>, k: Seq<char>, i: int) -> Option<int>
    decreases s.len() - i,
{
    if i < 0 || i >= s.len() {
        None
    } else if s[i].0 == k {
        Some(i)
    } else {
        assoc_index_from(s, k, i + 1)
    }
}

/// The value stored under key `k`.
pub open spec fn assoc_get(s: Seq<PairView>, k: Seq<char>) -> Option<Seq<char>> {
    match assoc_index_from(s, k, 0) {
        Some(i) => Some(s[i].1),
        None => None,
    }
}

/// The pairs with `k` set to `v`: replaced in place when present, added at the
/// end otherwise.
pub open spec fn assoc_set(s: Seq<PairView>, k: Seq<char>, v: Seq<char>) -> Seq<PairView> {
    match assoc_index_from(s, k, 0) {
        Some(i) => s.update(i, (k, v)),
        None => s.push((k, v)),
    }
}

/// Whether a pair has a key other than `k`.
pub open spec fn key_is_not(k: Seq<char>) -> spec_fn(PairView) -> bool {
    |p: PairView| p.0 != k
}

/// Whether a string differs from `x`.
pub open spec fn differs_from(x: Seq<char>) -> spec_fn(Seq<char>) -> bool {
    |c: Seq<char>| c != x
}

/// The pairs without key `k`.
pub open spec fn assoc_remove(s: Seq<PairView>, k: Seq<char>) -> Seq<PairView> {
    s.filter(key_is_not(k))
}

/// The index of the first pair with key `k`.
pub fn find_key(v: &Vec<StateValue>, k: &str) -> (r: Option<usize>)
    ensures
        match r {
            Some(i) => i < v@.len() && assoc_index_from(pair_views(v@), k@, 0) == Some(i as int),
            None => assoc_index_from(pair_views(v@), k@, 0) is None,
        },
{
    let ghost pv = pair_views(v@);
    let mut i: usize = 0;
    while i < v.len()
        invariant
            pv == pair_views(v@),
            i <= v@.len(),
            assoc_index_from(pv, k@, 0) == assoc_index_from(pv, k@, i as int),
        decreases v.len() - i,
    {
        proof {
            assert(pv[i as int] == v@[i as int]@);
        }
        if str_eq(v[i].key.as_str(), k) {
            return Some(i);
        }
        i = i + 1;
    }
    None
}

/// Sets `key` to `value_json` in a list of keyed values.
pub fn set_value(v: &mut Vec<StateValue>, key: String, value_json: String)
    ensures
        pair_views(final(v)@) == assoc_set(pair_views(old(v)@), key@, value_json@),
{
    let ghost before = v@;
    let ghost (kv, vv) = (key@, value_json@);
    match find_key(v, key.as_str()) {
        Some(i) => {
            v.set(i, StateValue { key, value_json });
            proof {
                assert(pair_views(v@) =~= pair_views(before).update(i as int, (kv, vv)));
            }
        },
        None => {
            v.push(StateValue { key, value_json });
            proof {
                assert(pair_views(v@) =~= pair_views(before).push((kv, vv)));
            }
        },
    }
}

/// Removes `key` from a list of keyed values; true when it was present.
pub fn remove_value(v: &mut Vec<StateValue>, key: &str) -> (removed: bool)
    ensures
        pair_views(final(v)@) == assoc_remove(pair_views(old(v)@), key@),
        removed == (assoc_index_from(pair_views(old(v)@), key@, 0) is Some),
{
    let ghost pv = pair_views(v@);
    let ghost pred = key_is_not(key@);
    let found = find_key(v, key).is_some();
    let mut out: Vec<StateValue> = Vec::new();
    let mut i: usize = 0;
    while i < v.len()
        invariant
            pv == pair_views(v@),
            pred == key_is_not(key@),
            i <= v@.len(),
            pair_views(out@) == pv.take(i as int).filter(pred),
        decreases v.len() - i,
    {
        proof {
            assert(pv.take(i + 1) =~= pv.take(i as int).push(pv[i as int]));
            pv.take(i as int).lemma_filter_push(pv[i as int], pred);
            assert(pv[i as int] == v@[i as int]@);
        }
        if !str_eq(v[i].key.as_str(), key) {
            let ghost before = out@;
            out.push(StateValue { key: v[i].key.clone(), value_json: v[i].value_json.clone() });
            proof {
                assert(out@ =~= before.push(out@.last()));
                assert(pair_views(out@) =~= pair_views(before).push(out@.last()@));
            }
        }
        i = i + 1;
    }
    proof {
        assert(pv.take(v@.len() as int) =~= pv);
    }
    *v = out;
    found
}

/// Copies a list of keyed values.
pub fn clone_values(v: &Vec<StateValue>) -> (r: Vec<StateValue>)
    ensures
        pair_views(r@) == pair_views(v@),
{
    let mut out: Vec<StateValue> = Vec::new();
    let mut i: usize = 0;
    while i < v.len()
        invariant
            i <= v@.len(),
            pair_views(out@) =~= pair_views(v@.take(i as int)),
        decreases v.len() - i,
    {
        let ghost before = out@;
        out.push(StateValue { key: v[i].key.clone(), value_json: v[i].value_json.clone() });
        proof {
            assert(out@ =~= before.push(out@.last()));
            assert(v@.take(i + 1) =~= v@.take(i as int).push(v@[i as int]));
            assert(pair_views(v@.take(i + 1)) =~= pair_views(v@.take(i as int)).push(v@[i as int]@));
        }
        i = i + 1;
    }
    assert(v@.take(v@.len() as int) =~= v@);
    out
}

/// Copies a list of strings.
pub fn clone_strings(v: &Vec<String>) -> (r: Vec<String>)
    ensures
        crate::text::string_seq_views(r@) == crate::text::string_seq_views(v@),
{
    let mut out: Vec<String> = Vec::new();
    let mut i: usize = 0;
    while i < v.len()
        invariant
            i <= v@.len(),
            crate::text::string_seq_views(out@) =~= crate::text::string_seq_views(v@.take(i as int)),
        decreases v.len() - i,
    {
        let ghost before = out@;
        out.push(v[i].clone());
        proof {
            assert(out@ =~= before.push(out@.last()));
            assert(v@.take(i + 1) =~= v@.take(i as int).push(v@[i as int]));
            assert(crate::text::string_seq_views(v@.take(i + 1)) =~= crate::text::string_seq_views(
                v@.take(i as int),
            ).push(v@[i as int]@));
        }
        i = i + 1;
    }
    assert(v@.take(v@.len() as int) =~= v@);
    out
}

/// Whether a list of strings holds `s`.
pub fn strings_contain(v: &Vec<String>, s: &str) -> (b: bool)
    ensures
        b == crate::text::string_seq_views(v@).contains(s@),
{
    let mut i: usize = 0;
    while i < v.len()
        invariant
            i <= v@.len(),
            forall|j: int| 0 <= j < i ==> crate::text::string_seq_views(v@)[j] != s@,
        decreases v.len() - i,
    {
        if str_eq(v[i].as_str(), s) {
            assert(crate::text::string_seq_views(v@)[i as int] == s@);
            return true;
        }
        i = i + 1;
    }
    false
}

/// What kind of line an entry of the shared history is.
#[derive(Debug, Clone, Copy, PartialEq, Eq, Structural)]
pub enum ActorMemoryKind {
    PlayerInput,
    Narration,
    Dialogue,
    Thought,
    Action,
}

/// One line of the shared history of a scene.
#[derive(Debug)]
pub struct ActorMemoryEntry {
    pub speaker_id: String,
    pub speaker_name: String,
    pub kind: ActorMemoryKind,
    pub text: String,
}

/// The value of a shared-history line: speaker id, speaker name, kind, text.
pub type MemoryView = (Seq<char>, Seq<char>, ActorMemoryKind, Seq<char>);

impl View for ActorMemoryEntry {
    type V = MemoryView;

    open spec fn view(&self) -> MemoryView {
        (self.speaker_id@, self.speaker_name@, self.kind, self.text@)
    }
}

/// The values of shared-history lines.
pub open spec fn memory_views(v: Seq<ActorMemoryEntry>) -> Seq<MemoryView> {
    v.map_values(|e: ActorMemoryEntry| e@)
}

/// A history with one more line, keeping only the latest `limit` lines.
pub open spec fn bounded_push(h: Seq<MemoryView>, e: MemoryView, limit: nat) -> Seq<MemoryView> {
    let h2 = h.push(e);
    if h2.len() > limit {
        h2.skip(h2.len() - limit)
    } else {
        h2
    }
}

/// Copies shared-history lines.
pub fn clone_entries(v: &Vec<ActorMemoryEntry>) -> (r: Vec<ActorMemoryEntry>)
    ensures
        memory_views(r@) == memory_views(v@),
{
    let mut out: Vec<ActorMemoryEntry> = Vec::new();
    let mut i: usize = 0;
    while i < v.len()
        invariant
            i <= v@.len(),
            memory_views(out@) =~= memory_views(v@.take(i as int)),
        decreases v.len() - i,
    {
        let ghost before = out@;
        out.push(
            ActorMemoryEntry {
                speaker_id: v[i].speaker_id.clone(),
                speaker_name: v[i].speaker_name.clone(),
                kind: v[i].kind,
                text: v[i].text.clone(),
            },
        );
        proof {
            assert(out@ =~= before.push(out@.last()));
            assert(v@.take(i + 1) =~= v@.take(i as int).push(v@[i as int]));
            assert(memory_views(v@.take(i + 1)) =~= memory_views(v@.take(i as int)).push(v@[i as int]@));
        }
        i = i + 1;
    }
    assert(v@.take(v@.len() as int) =~= v@);
    out
}

/// Adds a line to a shared history, keeping only the latest `limit` lines.
fn push_bounded(history: &mut Vec<ActorMemoryEntry>, entry: ActorMemoryEntry, limit: usize)
    ensures
        memory_views(final(history)@) == bounded_push(memory_views(old(history)@), entry@, limit as nat),
{
    let ghost e = entry@;
    let ghost h2 = memory_views(history@).push(e);
    history.push(entry);
    assert(memory_views(history@) =~= h2);
    if history.len() > limit {
        let drop = history.len() - limit;
        let mut kept: Vec<ActorMemoryEntry> = Vec::new();
        let mut src: Vec<ActorMemoryEntry> = Vec::new();
        std::mem::swap(&mut src, history);
        let ghost all = memory_views(src@);
        assert(all.len() == src@.len());
        let mut k: usize = 0;
        while src.len() > 0
            invariant
                all == h2,
                all.len() > limit,
                all.len() <= usize::MAX,
                drop == all.len() - limit,
                src@.len() <= all.len(),
                k == all.len() - src@.len(),
                memory_views(src@) == all.skip(k as int),
                memory_views(kept@) == if k <= drop {
                    Seq::<MemoryView>::empty()
                } else {
                    all.subrange(drop as int, k as int)
                },
            decreases src.len(),
        {
            let ghost before = src@;
            let e2 = src.remove(0);
            proof {
                assert(memory_views(before)[0] == e2@);
                assert(memory_views(src@) =~= memory_views(before).skip(1));
                assert(all.skip(k as int).skip(1) =~= all.skip(k + 1));
            }
            if k >= drop {
                let ghost kb = kept@;
                kept.push(e2);
                proof {
                    assert(memory_views(kept@) =~= memory_views(kb).push(e2@));
                    assert(e2@ == all[k as int]);
                    if k == drop {
                        assert(all.subrange(drop as int, k + 1) =~= seq![all[k as int]]);
                    } else {
                        assert(all.subrange(drop as int, k + 1) =~= all.subrange(drop as int, k as int).push(
                            all[k as int],
                        ));
                    }
                }
            }
            k = k + 1;
        }
        proof {
            assert(all.subrange(drop as int, all.len() as int) =~= all.skip(drop as int));
        }
        *history = kept;
    }
}

/// The private memory of one character.
#[derive(Debug)]
pub struct PrivateMemory {
    pub character: String,
    pub entries: Vec<ActorMemoryEntry>,
}

/// The value of a character's private memory.
pub type PrivateMemoryView = (Seq<char>, Seq<MemoryView>);

impl View for PrivateMemory {
    type V = PrivateMemoryView;

    open spec fn view(&self) -> PrivateMemoryView {
        (self.character@, memory_views(self.entries@))
    }
}

/// The values of private memories.
pub open spec fn private_memory_views(v: Seq<PrivateMemory>) -> Seq<PrivateMemoryView> {
    v.map_values(|m: PrivateMemory| m@)
}

/// Private memories of characters other than `c`.
pub open spec fn other_memory(c: Seq<char>) -> spec_fn(PrivateMemoryView) -> bool {
    |m: PrivateMemoryView| m.0 != c
}

/// The private memory of character `c`: the first one held for it, empty
/// when there is none.
pub open spec fn private_of(ms: Seq<PrivateMemoryView>, c: Seq<char>) -> Seq<MemoryView>
    decreases ms.len(),
{
    if ms.len() == 0 {
        seq![]
    } else if ms[0].0 == c {
        ms[0].1
    } else {
        private_of(ms.skip(1), c)
    }
}

/// Copies private memories.
pub fn clone_private_memory(v: &Vec<PrivateMemory>) -> (r: Vec<PrivateMemory>)
    ensures
        private_memory_views(r@) == private_memory_views(v@),
{
    let mut out: Vec<PrivateMemory> = Vec::new();
    let mut i: usize = 0;
    while i < v.len()
        invariant
            i <= v@.len(),
            private_memory_views(out@) =~= private_memory_views(v@.take(i as int)),
        decreases v.len() - i,
    {
        let ghost before = out@;
        out.push(PrivateMemory { character: v[i].character.clone(), entries: clone_entries(&v[i].entries) });
        proof {
            assert(out@ =~= before.push(out@.last()));
            assert(v@.take(i + 1) =~= v@.take(i as int).push(v@[i as int]));
            assert(private_memory_views(v@.take(i + 1)) =~= private_memory_views(v@.take(i as int)).push(
                v@[i as int]@,
            ));
        }
        i = i + 1;
    }
    assert(v@.take(v@.len() as int) =~= v@);
    out
}

/// The dynamic state of a session.
#[derive(Debug)]
pub struct WorldState {
    pub current_node: String,
    pub active_characters: Vec<String>,
    pub custom: Vec<StateValue>,
    pub player_state: Vec<StateValue>,
    pub character_state: Vec<CharacterState>,
    pub shared_history: Vec<ActorMemoryEntry>,
    pub private_memory: Vec<PrivateMemory>,
}

/// The state values of one character.
#[derive(Debug)]
pub struct CharacterState {
    pub character: String,
    pub values: Vec<StateValue>,
}

/// The value of a character's state values.
pub type CharacterStateView = (Seq<char>, Seq<PairView>);

impl View for CharacterState {
    type V = CharacterStateView;

    open spec fn view(&self) -> CharacterStateView {
        (self.character@, pair_views(self.values@))
    }
}

/// The views of character states.
pub open spec fn character_state_views(v: Seq<CharacterState>) -> Seq<CharacterStateView> {
    v.map_values(|c: CharacterState| c@)
}

/// The value of a world state.
pub struct WorldView {
    pub current_node: Seq<char>,
    pub active_characters: Seq<Seq<char>>,
    pub custom: Seq<PairView>,
    pub player_state: Seq<PairView>,
    pub character_state: Seq<CharacterStateView>,
    pub shared_history: Seq<MemoryView>,
    pub private_memory: Seq<PrivateMemoryView>,
}

impl View for WorldState {
    type V = WorldView;

    open spec fn view(&self) -> WorldView {
        WorldView {
            current_node: self.current_node@,
            active_characters: crate::text::string_seq_views(self.active_characters@),
            custom: pair_views(self.custom@),
            player_state: pair_views(self.player_state@),
            character_state: character_state_views(self.character_state@),
            shared_history: memory_views(self.shared_history@),
            private_memory: private_memory_views(self.private_memory@),
        }
    }
}

/// Character states of characters other than `c`.
pub open spec fn other_character(c: Seq<char>) -> spec_fn(CharacterStateView) -> bool {
    |s: CharacterStateView| s.0 != c
}

/// Copies character states.
pub fn clone_character_states(v: &Vec<CharacterState>) -> (r: Vec<CharacterState>)
    ensures
        character_state_views(r@) == character_state_views(v@),
{
    let mut out: Vec<CharacterState> = Vec::new();
    let mut i: usize = 0;
    while i < v.len()
        invariant
            i <= v@.len(),
            character_state_views(out@) =~= character_state_views(v@.take(i as int)),
        decreases v.len() - i,
    {
        let ghost before = out@;
        out.push(CharacterState { character: v[i].character.clone(), values: clone_values(&v[i].values) });
        proof {
            assert(out@ =~= before.push(out@.last()));
            assert(v@.take(i + 1) =~= v@.take(i as int).push(v@[i as int]));
            assert(character_state_views(v@.take(i + 1)) =~= character_state_views(v@.take(i as int)).push(
                v@[i as int]@,
            ));
        }
        i = i + 1;
    }
    assert(v@.take(v@.len() as int) =~= v@);
    out
}

/// The index of the first character state of `c`, searching from `i`.
pub open spec fn char_index_from(s: Seq<CharacterStateView>, c: Seq<char>, i: int) -> Option<int>
    decreases s.len() - i,
{
    if i < 0 || i >= s.len() {
        None
    } else if s[i].0 == c {
        Some(i)
    } else {
        char_index_from(s, c, i + 1)
    }
}

/// A found character state is one of `c`.
pub proof fn lemma_char_index_found(s: Seq<CharacterStateView>, c: Seq<char>, i: int)
    ensures
        char_index_from(s, c, i) matches Some(j) ==> i <= j < s.len() && s[j].0 == c,
    decreases s.len() - i,
{
    if 0 <= i < s.len() && s[i].0 != c {
        lemma_char_index_found(s, c, i + 1);
    }
}

/// The state values of character `c`.
pub open spec fn char_values(s: Seq<CharacterStateView>, c: Seq<char>) -> Option<Seq<PairView>> {
    match char_index_from(s, c, 0) {
        Some(i) => Some(s[i].1),
        None => None,
    }
}

/// The character states with `k` set to `v` for character `c` (a new entry for
/// `c` at the end when it had none).
pub open spec fn char_set(s: Seq<CharacterStateView>, c: Seq<char>, k: Seq<char>, v: Seq<char>) -> Seq<
    CharacterStateView,
> {
    match char_index_from(s, c, 0) {
        Some(i) => s.update(i, (c, assoc_set(s[i].1, k, v))),
        None => s.push((c, seq![(k, v)])),
    }
}

/// The character states with `k` removed for character `c`.
pub open spec fn char_remove(s: Seq<CharacterStateView>, c: Seq<char>, k: Seq<char>) -> Seq<
    CharacterStateView,
> {
    match char_index_from(s, c, 0) {
        Some(i) => s.update(i, (c, assoc_remove(s[i].1, k))),
        None => s,
    }
}

/// The index of the first character state of `c`.
fn find_character(v: &Vec<CharacterState>, c: &str) -> (r: Option<usize>)
    ensures
        match r {
            Some(i) => i < v@.len() && char_index_from(character_state_views(v@), c@, 0) == Some(
                i as int,
            ),
            None => char_index_from(character_state_views(v@), c@, 0) is None,
        },
{
    let ghost cv = character_state_views(v@);
    let mut i: usize = 0;
    while i < v.len()
        invariant
            cv == character_state_views(v@),
            i <= v@.len(),
            char_index_from(cv, c@, 0) == char_index_from(cv, c@, i as int),
        decreases v.len() - i,
    {
        assert(cv[i as int] == v@[i as int]@);
        if str_eq(v[i].character.as_str(), c) {
            return Some(i);
        }
        i = i + 1;
    }
    None
}

/// The state after one operation.
pub open spec fn apply_op_spec(w: WorldView, o: OpView) -> WorldView {
    match o {
        OpView::SetCurrentNode { node_id } => WorldView { current_node: node_id, ..w },
        OpView::SetActiveCharacters { characters } => WorldView { active_characters: characters, ..w },
        OpView::AddActiveCharacter { character } => WorldView {
            active_characters: if w.active_characters.contains(character) {
                w.active_characters
            } else {
                w.active_characters.push(character)
            },
            ..w
        },
        OpView::RemoveActiveCharacter { character } => WorldView {
            active_characters: w.active_characters.filter(differs_from(character)),
            ..w
        },
        OpView::SetState { key, value } => WorldView { custom: assoc_set(w.custom, key, value), ..w },
        OpView::RemoveState { key } => WorldView { custom: assoc_remove(w.custom, key), ..w },
        OpView::SetPlayerState { key, value } => WorldView {
            player_state: assoc_set(w.player_state, key, value),
            ..w
        },
        OpView::RemovePlayerState { key } => WorldView {
            player_state: assoc_remove(w.player_state, key),
            ..w
        },
        OpView::SetCharacterState { character, key, value } => WorldView {
            character_state: char_set(w.character_state, character, key, value),
            ..w
        },
        OpView::RemoveCharacterState { character, key } => WorldView {
            character_state: char_remove(w.character_state, character, key),
            ..w
        },
    }
}

/// The state after a batch of operations, applied in order.
pub open spec fn apply_ops_spec(w: WorldView, ops: Seq<OpView>) -> WorldView
    decreases ops.len(),
{
    if ops.len() == 0 {
        w
    } else {
        apply_op_spec(apply_ops_spec(w, ops.drop_last()), ops.last())
    }
}

impl WorldState {
    /// A state at node `current_node` with nobody in the scene and no values.
    pub fn new(current_node: String) -> (w: WorldState)
        ensures
            w@.current_node == current_node@,
            w@.active_characters.len() == 0,
            w@.custom.len() == 0,
            w@.player_state.len() == 0,
            w@.character_state.len() == 0,
            w@.shared_history.len() == 0,
            w@.private_memory.len() == 0,
    {
        WorldState {
            current_node,
            active_characters: Vec::new(),
            custom: Vec::new(),
            player_state: Vec::new(),
            character_state: Vec::new(),
            shared_history: Vec::new(),
            private_memory: Vec::new(),
        }
    }

    /// The state with the given characters in the scene.
    pub fn with_active_characters(self, characters: Vec<String>) -> (w: WorldState)
        ensures
            w@ == (WorldView { active_characters: crate::text::string_seq_views(characters@), ..self@ }),
    {
        WorldState { active_characters: characters, ..self }
    }

    /// A copy of the state.
    pub fn duplicate(&self) -> (w: WorldState)
        ensures
            w@ == self@,
    {
        WorldState {
            current_node: self.current_node.clone(),
            active_characters: clone_strings(&self.active_characters),
            custom: clone_values(&self.custom),
            player_state: clone_values(&self.player_state),
            character_state: clone_character_states(&self.character_state),
            shared_history: clone_entries(&self.shared_history),
            private_memory: clone_private_memory(&self.private_memory),
        }
    }

    /// The id of the current node.
    pub fn current_node(&self) -> (s: &str)
        ensures
            s@ == self@.current_node,
    {
        self.current_node.as_str()
    }

    /// The ids of the characters in the scene.
    pub fn active_characters(&self) -> (v: &Vec<String>)
        ensures
            crate::text::string_seq_views(v@) == self@.active_characters,
    {
        &self.active_characters
    }

    /// Moves the session to node `node_id`.
    pub fn set_current_node(&mut self, node_id: String)
        ensures
            final(self)@ == (WorldView { current_node: node_id@, ..old(self)@ }),
    {
        self.current_node = node_id;
    }

    /// Replaces the characters in the scene.
    pub fn set_active_characters(&mut self, characters: Vec<String>)
        ensures
            final(self)@ == (WorldView { active_characters: crate::text::string_seq_views(characters@), ..old(self)@ }),
    {
        self.active_characters = characters;
    }

    /// Adds a character to the scene unless it is already there.
    pub fn add_active_character(&mut self, character: String)
        ensures
            final(self)@ == (WorldView {
                active_characters: if old(self)@.active_characters.contains(character@) {
                    old(self)@.active_characters
                } else {
                    old(self)@.active_characters.push(character@)
                },
                ..old(self)@
            }),
    {
        if !strings_contain(&self.active_characters, character.as_str()) {
            let ghost before = self.active_characters@;
            let ghost c = character@;
            self.active_characters.push(character);
            proof {
                assert(crate::text::string_seq_views(self.active_characters@) =~= crate::text::string_seq_views(
                    before,
                ).push(c));
            }
        }
    }

    /// Removes a character from the scene; true when it was there.
    pub fn remove_active_character(&mut self, character: &str) -> (removed: bool)
        ensures
            removed == old(self)@.active_characters.contains(character@),
            final(self)@ == (WorldView {
                active_characters: old(self)@.active_characters.filter(differs_from(character@)),
                ..old(self)@
            }),
    {
        let ghost av = crate::text::string_seq_views(self.active_characters@);
        let ghost pred = differs_from(character@);
        let found = strings_contain(&self.active_characters, character);
        let mut out: Vec<String> = Vec::new();
        let mut i: usize = 0;
        while i < self.active_characters.len()
            invariant
                av == crate::text::string_seq_views(self.active_characters@),
                pred == differs_from(character@),
                i <= self.active_characters@.len(),
                crate::text::string_seq_views(out@) == av.take(i as int).filter(pred),
            decreases self.active_characters.len() - i,
        {
            proof {
                assert(av.take(i + 1) =~= av.take(i as int).push(av[i as int]));
                av.take(i as int).lemma_filter_push(av[i as int], pred);
            }
            if !str_eq(self.active_characters[i].as_str(), character) {
                let ghost before = out@;
                out.push(self.active_characters[i].clone());
                proof {
                    assert(out@ =~= before.push(out@.last()));
                    assert(crate::text::string_seq_views(out@) =~= crate::text::string_seq_views(before).push(
                        av[i as int],
                    ));
                }
            }
            i = i + 1;
        }
        proof {
            assert(av.take(av.len() as int) =~= av);
        }
        self.active_characters = out;
        found
    }

    /// Forgets a character: takes it out of the scene and drops its state
    /// values and its private memory.
    pub fn forget_character(&mut self, character: &str)
        ensures
            final(self)@ == (WorldView {
                active_characters: old(self)@.active_characters.filter(differs_from(character@)),
                character_state: old(self)@.character_state.filter(other_character(character@)),
                private_memory: old(self)@.private_memory.filter(other_memory(character@)),
                ..old(self)@
            }),
    {
        self.drop_private_memory(character);
        self.remove_active_character(character);
        let ghost pred = other_character(character@);
        let mut src: Vec<CharacterState> = Vec::new();
        std::mem::swap(&mut src, &mut self.character_state);
        let ghost all = character_state_views(src@);
        let mut kept: Vec<CharacterState> = Vec::new();
        while src.len() > 0
            invariant
                pred == other_character(character@),
                src@.len() <= all.len(),
                character_state_views(src@) == all.skip(all.len() - src@.len()),
                character_state_views(kept@) == all.take(all.len() - src@.len()).filter(pred),
            decreases src.len(),
        {
            let ghost n = all.len() - src@.len();
            let ghost before = src@;
            let entry = src.remove(0);
            proof {
                assert(character_state_views(before)[0] == entry@);
                assert(character_state_views(src@) =~= character_state_views(before).skip(1));
                assert(all.skip(n).skip(1) =~= all.skip(n + 1));
                assert(all.take(n + 1) =~= all.take(n).push(entry@));
                all.take(n).lemma_filter_push(entry@, pred);
            }
            if !str_eq(entry.character.as_str(), character) {
                let ghost kb = kept@;
                kept.push(entry);
                proof {
                    assert(character_state_views(kept@) =~= character_state_views(kb).push(kept@.last()@));
                }
            }
        }
        proof {
            assert(all.take(all.len() as int) =~= all);
        }
        self.character_state = kept;
    }

    /// Drops the private memory of a character.
    fn drop_private_memory(&mut self, character: &str)
        ensures
            final(self)@ == (WorldView {
                private_memory: old(self)@.private_memory.filter(other_memory(character@)),
                ..old(self)@
            }),
    {
        let ghost pred = other_memory(character@);
        let mut src: Vec<PrivateMemory> = Vec::new();
        std::mem::swap(&mut src, &mut self.private_memory);
        let ghost all = private_memory_views(src@);
        let mut kept: Vec<PrivateMemory> = Vec::new();
        while src.len() > 0
            invariant
                pred == other_memory(character@),
                src@.len() <= all.len(),
                private_memory_views(src@) == all.skip(all.len() - src@.len()),
                private_memory_views(kept@) == all.take(all.len() - src@.len()).filter(pred),
            decreases src.len(),
        {
            let ghost n = all.len() - src@.len();
            let ghost before = src@;
            let entry = src.remove(0);
            proof {
                assert(private_memory_views(before)[0] == entry@);
                assert(private_memory_views(src@) =~= private_memory_views(before).skip(1));
                assert(all.skip(n).skip(1) =~= all.skip(n + 1));
                assert(all.take(n + 1) =~= all.take(n).push(entry@));
                all.take(n).lemma_filter_push(entry@, pred);
            }
            if !str_eq(entry.character.as_str(), character) {
                let ghost kb = kept@;
                kept.push(entry);
                proof {
                    assert(private_memory_views(kept@) =~= private_memory_views(kb).push(kept@.last()@));
                }
            }
        }
        proof {
            assert(all.take(all.len() as int) =~= all);
        }
        self.private_memory = kept;
    }

    /// The private memory of a character, when one is held for it.
    pub fn private_memory_of(&self, character: &str) -> (r: Option<&Vec<ActorMemoryEntry>>)
        ensures
            match r {
                Some(v) => memory_views(v@) == private_of(self@.private_memory, character@),
                None => private_of(self@.private_memory, character@) == Seq::<MemoryView>::empty(),
            },
    {
        let ghost ms = private_memory_views(self.private_memory@);
        let mut i: usize = 0;
        assert(ms.skip(0) =~= ms);
        while i < self.private_memory.len()
            invariant
                ms == private_memory_views(self.private_memory@),
                i <= ms.len(),
                private_of(ms, character@) == private_of(ms.skip(i as int), character@),
            decreases self.private_memory.len() - i,
        {
            proof {
                assert(ms.skip(i as int)[0] == ms[i as int]);
                assert(ms.skip(i as int).skip(1) =~= ms.skip(i + 1));
                assert(ms[i as int] == self.private_memory@[i as int]@);
            }
            if str_eq(self.private_memory[i].character.as_str(), character) {
                return Some(&self.private_memory[i].entries);
            }
            i = i + 1;
        }
        proof {
            assert(ms.skip(ms.len() as int) =~= Seq::<PrivateMemoryView>::empty());
        }
        None
    }

    /// Adds a line to the shared history, keeping only the latest `limit`
    /// lines.
    pub fn push_shared_history(&mut self, entry: ActorMemoryEntry, limit: usize)
        ensures
            final(self)@ == (WorldView {
                shared_history: bounded_push(old(self)@.shared_history, entry@, limit as nat),
                ..old(self)@
            }),
    {
        push_bounded(&mut self.shared_history, entry, limit);
    }

    /// Sets a world state value.
    pub fn set_state(&mut self, key: String, value_json: String)
        ensures
            final(self)@ == (WorldView { custom: assoc_set(old(self)@.custom, key@, value_json@), ..old(self)@ }),
    {
        set_value(&mut self.custom, key, value_json);
    }

    /// Sets a player state value.
    pub fn set_player_state(&mut self, key: String, value_json: String)
        ensures
            final(self)@ == (WorldView {
                player_state: assoc_set(old(self)@.player_state, key@, value_json@),
                ..old(self)@
            }),
    {
        set_value(&mut self.player_state, key, value_json);
    }

    /// The world state value stored under `key`.
    pub fn state(&self, key: &str) -> (r: Option<&String>)
        ensures
            match r {
                Some(v) => assoc_get(self@.custom, key@) == Some(v@),
                None => assoc_get(self@.custom, key@) is None,
            },
    {
        match find_key(&self.custom, key) {
            Some(i) => {
                assert(pair_views(self.custom@)[i as int] == self.custom@[i as int]@);
                Some(&self.custom[i].value_json)
            },
            None => None,
        }
    }

    /// The player state value stored under `key`.
    pub fn player_state(&self, key: &str) -> (r: Option<&String>)
        ensures
            match r {
                Some(v) => assoc_get(self@.player_state, key@) == Some(v@),
                None => assoc_get(self@.player_state, key@) is None,
            },
    {
        match find_key(&self.player_state, key) {
            Some(i) => {
                assert(pair_views(self.player_state@)[i as int] == self.player_state@[i as int]@);
                Some(&self.player_state[i].value_json)
            },
            None => None,
        }
    }
    /// Removes a world state value.
    pub fn remove_state(&mut self, key: &str)
        ensures
            final(self)@ == (WorldView { custom: assoc_remove(old(self)@.custom, key@), ..old(self)@ }),
    {
        remove_value(&mut self.custom, key);
    }

    /// Removes a player state value.
    pub fn remove_player_state(&mut self, key: &str)
        ensures
            final(self)@ == (WorldView {
                player_state: assoc_remove(old(self)@.player_state, key@),
                ..old(self)@
            }),
    {
        remove_value(&mut self.player_state, key);
    }

    /// Sets a state value of a character.
    pub fn set_character_state(&mut self, character: String, key: String, value_json: String)
        ensures
            final(self)@ == (WorldView {
                character_state: char_set(old(self)@.character_state, character@, key@, value_json@),
                ..old(self)@
            }),
    {
        let ghost before = character_state_views(self.character_state@);
        let ghost (cv, kv, vv) = (character@, key@, value_json@);
        match find_character(&self.character_state, character.as_str()) {
            Some(i) => {
                assert(before[i as int] == self.character_state@[i as int]@);
                let mut values = clone_values(&self.character_state[i].values);
                set_value(&mut values, key, value_json);
                self.character_state.set(i, CharacterState { character, values });
                proof {
                    assert(character_state_views(self.character_state@) =~= before.update(
                        i as int,
                        (cv, assoc_set(before[i as int].1, kv, vv)),
                    ));
                }
            },
            None => {
                let mut values: Vec<StateValue> = Vec::new();
                values.push(StateValue { key, value_json });
                assert(pair_views(values@) =~= seq![(kv, vv)]);
                self.character_state.push(CharacterState { character, values });
                proof {
                    assert(character_state_views(self.character_state@) =~= before.push(
                        (cv, seq![(kv, vv)]),
                    ));
                }
            },
        }
    }

    /// Removes a state value of a character.
    pub fn remove_character_state(&mut self, character: &str, key: &str)
        ensures
            final(self)@ == (WorldView {
                character_state: char_remove(old(self)@.character_state, character@, key@),
                ..old(self)@
            }),
    {
        let ghost before = character_state_views(self.character_state@);
        match find_character(&self.character_state, character) {
            Some(i) => {
                assert(before[i as int] == self.character_state@[i as int]@);
                let mut values = clone_values(&self.character_state[i].values);
                remove_value(&mut values, key);
                let name = self.character_state[i].character.clone();
                proof {
                    lemma_char_index_found(before, character@, 0);
                }
                self.character_state.set(i, CharacterState { character: name, values });
                proof {
                    assert(character_state_views(self.character_state@) =~= before.update(
                        i as int,
                        (character@, assoc_remove(before[i as int].1, key@)),
                    ));
                }
            },
            None => {},
        }
    }

    /// The state values of a character, when it has any entry.
    pub fn character_states(&self, character: &str) -> (r: Option<&Vec<StateValue>>)
        ensures
            match r {
                Some(v) => char_values(self@.character_state, character@) == Some(pair_views(v@)),
                None => char_values(self@.character_state, character@) is None,
            },
    {
        match find_character(&self.character_state, character) {
            Some(i) => {
                assert(character_state_views(self.character_state@)[i as int]
                    == self.character_state@[i as int]@);
                Some(&self.character_state[i].values)
            },
            None => None,
        }
    }
    /// Applies one state operation.
    pub fn apply_op(&mut self, op: &StateOp)
        ensures
            final(self)@ == apply_op_spec(old(self)@, op@),
    {
        match op {
            StateOp::SetCurrentNode { node_id } => self.set_current_node(node_id.clone()),
            StateOp::SetActiveCharacters { characters } => self.set_active_characters(
                clone_strings(characters),
            ),
            StateOp::AddActiveCharacter { character } => self.add_active_character(character.clone()),
            StateOp::RemoveActiveCharacter { character } => {
                self.remove_active_character(character.as_str());
            },
            StateOp::SetState { key, value_json } => self.set_state(key.clone(), value_json.clone()),
            StateOp::RemoveState { key } => self.remove_state(key.as_str()),
            StateOp::SetPlayerState { key, value_json } => self.set_player_state(
                key.clone(),
                value_json.clone(),
            ),
            StateOp::RemovePlayerState { key } => self.remove_player_state(key.as_str()),
            StateOp::SetCharacterState { character, key, value_json } => self.set_character_state(
                character.clone(),
                key.clone(),
                value_json.clone(),
            ),
            StateOp::RemoveCharacterState { character, key } => self.remove_character_state(
                character.as_str(),
                key.as_str(),
            ),
        }
    }

    /// Applies a batch of state operations in order.
    pub fn apply_ops(&mut self, ops: &Vec<StateOp>)
        ensures
            final(self)@ == apply_ops_spec(old(self)@, op_views(ops@)),
    {
        let ghost start = self@;
        let ghost ov = op_views(ops@);
        let mut i: usize = 0;
        while i < ops.len()
            invariant
                ov == op_views(ops@),
                i <= ops@.len(),
                self@ == apply_ops_spec(start, ov.take(i as int)),
            decreases ops.len() - i,
        {
            proof {
                assert(ov.take(i + 1).drop_last() =~= ov.take(i as int));
                assert(ov.take(i + 1).last() == ops@[i as int]@);
            }
            self.apply_op(&ops[i]);
            i = i + 1;
        }
        proof {
            assert(ov.take(ops@.len() as int) =~= ov);
        }
    }
}



/// The shared-history entry that records a player's input.
pub fn player_input_entry(player_input: &str) -> (e: ActorMemoryEntry)
    ensures
        e.speaker_id@ == "player"@,
        e.speaker_name@ == "Player"@,
        e.kind == ActorMemoryKind::PlayerInput,
        e.text@ == player_input@,
{
    ActorMemoryEntry {
        speaker_id: "player".to_string(),
        speaker_name: "Player".to_string(),
        kind: ActorMemoryKind::PlayerInput,
        text: player_input.to_string(),
    }
}

/// The shared-history entry that records a narration: its trimmed text, or
/// none when the narration is blank.
pub fn narration_entry(text: &str) -> (r: Option<ActorMemoryEntry>)
    ensures
        match r {
            None => crate::text::trim_seq(text@).len() == 0,
            Some(e) => {
                &&& crate::text::trim_seq(text@).len() > 0
                &&& e.speaker_id@ == "narrator"@
                &&& e.speaker_name@ == "Narrator"@
                &&& e.kind == ActorMemoryKind::Narration
                &&& e.text@ == crate::text::trim_seq(text@)
            },
        },
{
    let trimmed = crate::text::trim_text(text);
    let v = crate::text::str_chars(trimmed.as_str());
    if v.len() == 0 {
        return None;
    }
    Some(
        ActorMemoryEntry {
            speaker_id: "narrator".to_string(),
            speaker_name: "Narrator".to_string(),
            kind: ActorMemoryKind::Narration,
            text: trimmed,
        },
    )
}

} // verus!
