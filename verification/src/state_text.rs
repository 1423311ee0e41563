//! Text renderings of world state and state schemas for prompt previews:
//! keyed values sorted by key, character states, schema fields, and the
//! sections a preview shows of a world state.
use vstd::prelude::*;
use vstd::relations::{sorted_by, total_ordering};

use crate::preview::{render_sections, section_views, sections_text};
use crate::prompt::normal_form::lemma_sorted_unique_by;
use crate::prompt::types::str_eq;
use crate::schema::{schema_field_views, FieldView, SchemaField, SchemaFieldView};
use crate::text::{
    inline_seq, joined, join_strings, lemma_seq_lt_asym, lemma_seq_lt_total, lemma_seq_lt_trans,
    normalize_inline_text, push_str, seq_lt, str_chars, str_lt, string_of_chars, string_seq_views,
};
use crate::world::{
    character_state_views, pair_views, CharacterState, CharacterStateView, PairView, StateValue,
    WorldState, WorldView,
};

verus! {

/// A key with a text.
#[derive(Debug)]
pub struct KeyedText {
    pub key: String,
    pub text: String,
}

impl View for KeyedText {
    type V = PairView;

    open spec fn view(&self) -> PairView {
        (self.key@, self.text@)
    }
}

/// The views of keyed texts.
pub open spec fn keyed_views(v: Seq<KeyedText>) -> Seq<PairView> {
    v.map_values(|x: KeyedText| x@)
}

/// Keyed texts ordered by key, then by text.
pub open spec fn pair_lt(x: PairView, y: PairView) -> bool {
    seq_lt(x.0, y.0) || (x.0 == y.0 && seq_lt(x.1, y.1))
}

/// `pair_lt` or equal.
pub open spec fn pair_le() -> spec_fn(PairView, PairView) -> bool {
    |x: PairView, y: PairView| x == y || pair_lt(x, y)
}

/// `pair_lt` as a relation.
pub open spec fn pair_order() -> spec_fn(PairView, PairView) -> bool {
    |x: PairView, y: PairView| pair_lt(x, y)
}

/// Keyed texts in order of key, then text.
pub open spec fn sorted_pairs(s: Seq<PairView>) -> Seq<PairView> {
    s.sort_by(pair_le())
}

proof fn lemma_pair_lt_props(x: PairView, y: PairView, z: PairView)
    ensures
        !pair_lt(x, x),
        pair_lt(x, y) ==> !pair_lt(y, x),
        pair_lt(x, y) && pair_lt(y, z) ==> pair_lt(x, z),
        x == y || pair_lt(x, y) || pair_lt(y, x),
{
    lemma_seq_lt_asym(x.0, x.0);
    lemma_seq_lt_asym(x.1, x.1);
    lemma_seq_lt_asym(x.0, y.0);
    lemma_seq_lt_asym(x.1, y.1);
    lemma_seq_lt_total(x.0, y.0);
    lemma_seq_lt_total(x.1, y.1);
    if pair_lt(x, y) && pair_lt(y, z) {
        if seq_lt(x.0, y.0) && seq_lt(y.0, z.0) {
            lemma_seq_lt_trans(x.0, y.0, z.0);
        }
        if x.0 == y.0 && y.0 == z.0 && seq_lt(x.1, y.1) && seq_lt(y.1, z.1) {
            lemma_seq_lt_trans(x.1, y.1, z.1);
        }
    }
}

proof fn lemma_pair_le_total()
    ensures
        total_ordering(pair_le()),
{
    assert forall|x: PairView, y: PairView|
        #[trigger] pair_le()(x, y) && #[trigger] pair_le()(y, x) implies x == y by {
        lemma_pair_lt_props(x, y, x);
    }
    assert forall|x: PairView, y: PairView, z: PairView|
        #[trigger] pair_le()(x, y) && #[trigger] pair_le()(y, z) implies pair_le()(x, z) by {
        lemma_pair_lt_props(x, y, z);
    }
    assert forall|x: PairView, y: PairView| #[trigger] pair_le()(x, y) || #[trigger] pair_le()(y, x) by {
        lemma_pair_lt_props(x, y, x);
    }
}

/// The ordered form of keyed texts is ordered and holds the same texts.
proof fn lemma_sorted_pairs(s: Seq<PairView>)
    ensures
        sorted_pairs(s).to_multiset() == s.to_multiset(),
        forall|i: int, j: int|
            0 <= i < j < sorted_pairs(s).len() ==> !pair_lt(#[trigger] sorted_pairs(s)[j], #[trigger] sorted_pairs(s)[i]),
{
    lemma_pair_le_total();
    s.lemma_sort_by_ensures(pair_le());
    let t = sorted_pairs(s);
    assert forall|i: int, j: int| 0 <= i < j < t.len() implies !pair_lt(#[trigger] t[j], #[trigger] t[i]) by {
        assert(pair_le()(t[i], t[j]));
        lemma_pair_lt_props(t[i], t[j], t[i]);
    }
}

fn keyed_lt(a: &KeyedText, b: &KeyedText) -> (r: bool)
    ensures
        r == pair_lt(a@, b@),
{
    if str_lt(a.key.as_str(), b.key.as_str()) {
        true
    } else if str_eq(a.key.as_str(), b.key.as_str()) {
        str_lt(a.text.as_str(), b.text.as_str())
    } else {
        false
    }
}

proof fn lemma_insert_multiset<A>(s: Seq<A>, pos: int, x: A)
    requires
        0 <= pos <= s.len(),
    ensures
        s.insert(pos, x).to_multiset() == s.to_multiset().insert(x),
{
    broadcast use vstd::seq_lib::group_to_multiset_ensures;

    let t = s.insert(pos, x);
    assert(t.remove(pos) =~= s);
    assert(t[pos] == x);
    assert(t.remove(pos).to_multiset() =~= t.to_multiset().remove(x));
    assert(t.to_multiset().count(x) > 0) by {
        assert(t.contains(x));
    }
    assert(t.to_multiset() =~= s.to_multiset().insert(x));
}

/// Sorts keyed texts by key, then by text.
pub fn sort_keyed(v: Vec<KeyedText>) -> (r: Vec<KeyedText>)
    ensures
        keyed_views(r@) == sorted_pairs(keyed_views(v@)),
{
    broadcast use vstd::seq_lib::group_to_multiset_ensures;

    let mut src = v;
    let mut out: Vec<KeyedText> = Vec::new();
    let ghost total = keyed_views(v@).to_multiset();
    while src.len() > 0
        invariant
            keyed_views(out@).to_multiset().add(keyed_views(src@).to_multiset()) == total,
            forall|i: int, j: int|
                0 <= i < j < keyed_views(out@).len() ==> !pair_lt(
                    #[trigger] keyed_views(out@)[j],
                    #[trigger] keyed_views(out@)[i],
                ),
        decreases src.len(),
    {
        let ghost src_before = src@;
        let x = src.remove(0);
        proof {
            assert(keyed_views(src_before).remove(0) =~= keyed_views(src@));
            keyed_views(src_before).to_multiset_ensures();
            assert(keyed_views(src_before).remove(0).to_multiset() =~= keyed_views(src_before).to_multiset().remove(
                keyed_views(src_before)[0],
            ));
            assert(keyed_views(src_before)[0] == x@);
            assert(keyed_views(src_before).to_multiset().count(x@) > 0) by {
                assert(keyed_views(src_before).contains(x@));
            }
        }
        let mut pos: usize = 0;
        while pos < out.len() && !keyed_lt(&x, &out[pos])
            invariant
                pos <= out@.len(),
                forall|k: int| 0 <= k < pos ==> !pair_lt(x@, #[trigger] keyed_views(out@)[k]),
            decreases out.len() - pos,
        {
            pos = pos + 1;
        }
        let ghost out_before = keyed_views(out@);
        out.insert(pos, x);
        proof {
            let ov = keyed_views(out@);
            assert(ov =~= out_before.insert(pos as int, x@));
            lemma_insert_multiset(out_before, pos as int, x@);
            assert forall|i: int, j: int| 0 <= i < j < ov.len() implies !pair_lt(
                #[trigger] ov[j],
                #[trigger] ov[i],
            ) by {
                if j < pos {
                    assert(ov[i] == out_before[i] && ov[j] == out_before[j]);
                } else if j == pos {
                    assert(ov[i] == out_before[i]);
                    lemma_pair_lt_props(x@, out_before[i], x@);
                } else if i == pos {
                    assert(ov[j] == out_before[j - 1]);
                    assert(pair_lt(x@, out_before[pos as int]));
                    if j - 1 > pos {
                        assert(!pair_lt(out_before[j - 1], out_before[pos as int]));
                    }
                    lemma_pair_lt_props(out_before[j - 1], x@, out_before[pos as int]);
                } else if i < pos {
                    assert(ov[i] == out_before[i] && ov[j] == out_before[j - 1]);
                } else {
                    assert(ov[i] == out_before[i - 1] && ov[j] == out_before[j - 1]);
                }
            }
            assert(keyed_views(out@).to_multiset().add(keyed_views(src@).to_multiset()) =~= total);
        }
    }
    proof {
        assert(keyed_views(src@).to_multiset() =~= vstd::multiset::Multiset::empty());
        assert(keyed_views(out@).to_multiset().add(vstd::multiset::Multiset::empty()) =~= keyed_views(
            out@,
        ).to_multiset());
        let s = keyed_views(v@);
        let t = sorted_pairs(s);
        let o = keyed_views(out@);
        lemma_sorted_pairs(s);
        assert forall|i: int, j: int| 0 <= i < j < o.len() implies !pair_order()(#[trigger] o[j], #[trigger] o[i]) by {}
        assert forall|i: int, j: int| 0 <= i < j < t.len() implies !pair_order()(#[trigger] t[j], #[trigger] t[i]) by {}
        assert forall|u: PairView, w: PairView| o.contains(u) && o.contains(w) && u != w implies #[trigger] pair_order()(u, w)
            || #[trigger] pair_order()(w, u) by {
            lemma_pair_lt_props(u, w, u);
        }
        lemma_sorted_unique_by(o, t, pair_order());
    }
    out
}

/// Each keyed text as its key, `sep` and its text.
pub open spec fn keyed_lines(s: Seq<PairView>, sep: Seq<char>) -> Seq<Seq<char>> {
    s.map_values(|p: PairView| p.0 + sep + p.1)
}

/// Keyed texts in order of key, one line each, joined by `joiner`; `empty`
/// when there are none.
pub open spec fn sorted_keyed_text(s: Seq<PairView>, sep: Seq<char>, joiner: Seq<char>, empty: Seq<char>) -> Seq<char> {
    if s.len() == 0 {
        empty
    } else {
        joined(keyed_lines(sorted_pairs(s), sep), joiner)
    }
}

/// Renders keyed texts in order of key, one line each.
fn render_sorted_keyed(v: Vec<KeyedText>, sep: &str, joiner: &str, empty: &str) -> (r: String)
    ensures
        r@ == sorted_keyed_text(keyed_views(v@), sep@, joiner@, empty@),
{
    if v.len() == 0 {
        return empty.to_string();
    }
    let ghost s = keyed_views(v@);
    let sorted = sort_keyed(v);
    let ghost t = keyed_views(sorted@);
    let ghost f = |p: PairView| p.0 + sep@ + p.1;
    let mut lines: Vec<String> = Vec::new();
    let mut i: usize = 0;
    while i < sorted.len()
        invariant
            t == keyed_views(sorted@),
            f == (|p: PairView| p.0 + sep@ + p.1),
            i <= sorted@.len(),
            string_seq_views(lines@) =~= t.take(i as int).map_values(f),
        decreases sorted.len() - i,
    {
        let mut out = str_chars(sorted[i].key.as_str());
        push_str(&mut out, sep);
        push_str(&mut out, sorted[i].text.as_str());
        let line = string_of_chars(out.as_slice());
        let ghost before = lines@;
        lines.push(line);
        proof {
            assert(t.take(i + 1) =~= t.take(i as int).push(t[i as int]));
            assert(string_seq_views(lines@) =~= string_seq_views(before).push(line@));
        }
        i = i + 1;
    }
    proof {
        assert(t.take(t.len() as int) =~= t);
    }
    join_strings(&lines, joiner)
}

/// Keyed values sorted by key, `key=value` one per line, or `none`.
pub open spec fn sorted_map_text(s: Seq<PairView>) -> Seq<char> {
    sorted_keyed_text(s, "="@, "\n"@, "none"@)
}

/// Copies keyed values as keyed texts.
fn keyed_values(map: &Vec<StateValue>) -> (r: Vec<KeyedText>)
    ensures
        keyed_views(r@) == pair_views(map@),
{
    let mut out: Vec<KeyedText> = Vec::new();
    let mut i: usize = 0;
    while i < map.len()
        invariant
            i <= map@.len(),
            keyed_views(out@) =~= pair_views(map@).take(i as int),
        decreases map.len() - i,
    {
        out.push(KeyedText { key: map[i].key.clone(), text: map[i].value_json.clone() });
        proof {
            assert(pair_views(map@).take(i + 1) =~= pair_views(map@).take(i as int).push(map@[i as int]@));
        }
        i = i + 1;
    }
    proof {
        assert(pair_views(map@).take(map@.len() as int) =~= pair_views(map@));
    }
    out
}

/// Renders keyed values sorted by key, `key=value` one per line, or `none`.
pub fn render_sorted_map(map: &Vec<StateValue>) -> (r: String)
    ensures
        r@ == sorted_map_text(pair_views(map@)),
{
    render_sorted_keyed(keyed_values(map), "=", "\n", "none")
}

/// The state of each character, sorted by character: `character: ` and its
/// sorted values, one per line, or `none`.
pub open spec fn character_state_text(s: Seq<CharacterStateView>) -> Seq<char> {
    sorted_keyed_text(
        s.map_values(|c: CharacterStateView| (c.0, sorted_map_text(c.1))),
        ": "@,
        "\n"@,
        "none"@,
    )
}

/// Renders the state of each character, sorted by character.
pub fn render_character_state(states: &Vec<CharacterState>) -> (r: String)
    ensures
        r@ == character_state_text(character_state_views(states@)),
{
    let ghost g = |c: CharacterStateView| (c.0, sorted_map_text(c.1));
    let mut out: Vec<KeyedText> = Vec::new();
    let mut i: usize = 0;
    while i < states.len()
        invariant
            g == (|c: CharacterStateView| (c.0, sorted_map_text(c.1))),
            i <= states@.len(),
            keyed_views(out@) =~= character_state_views(states@).take(i as int).map_values(g),
        decreases states.len() - i,
    {
        let text = render_sorted_map(&states[i].values);
        let ghost before = out@;
        let item = KeyedText { key: states[i].character.clone(), text };
        assert(item@ == g(states@[i as int]@));
        out.push(item);
        proof {
            assert(keyed_views(out@) =~= keyed_views(before).push(item@));
            assert(character_state_views(states@).take(i + 1) =~= character_state_views(states@).take(i as int).push(
                states@[i as int]@,
            ));
        }
        i = i + 1;
    }
    proof {
        assert(character_state_views(states@).take(states@.len() as int) =~= character_state_views(states@));
    }
    render_sorted_keyed(out, ": ", "\n", "none")
}

/// The active characters joined by commas, or `none`.
pub open spec fn active_text(active: Seq<Seq<char>>) -> Seq<char> {
    if active.len() == 0 {
        "none"@
    } else {
        joined(active, ", "@)
    }
}

/// The sections a preview shows of a world state: the current node, the
/// active characters, the world values, and, when given, the player's values
/// and the characters' values.
pub open spec fn world_sections(
    current: Seq<char>,
    active: Seq<Seq<char>>,
    custom: Seq<PairView>,
    player: Option<Seq<PairView>>,
    characters: Option<Seq<CharacterStateView>>,
) -> Seq<(Seq<char>, Seq<char>)> {
    seq![
        ("current_node"@, current),
        ("active_characters"@, active_text(active)),
        ("world_state"@, sorted_map_text(custom)),
    ] + match player {
        Some(p) => seq![("player_state"@, sorted_map_text(p))],
        None => seq![],
    } + match characters {
        Some(c) => seq![("character_state"@, character_state_text(c))],
        None => seq![],
    }
}

/// Renders the sections a preview shows of a world state.
pub fn render_world_state_sections(
    current_node: &str,
    active_characters: &Vec<String>,
    custom: &Vec<StateValue>,
    player_state: Option<&Vec<StateValue>>,
    character_state: Option<&Vec<CharacterState>>,
) -> (r: String)
    ensures
        r@ == sections_text(
            world_sections(
                current_node@,
                string_seq_views(active_characters@),
                pair_views(custom@),
                match player_state {
                    Some(p) => Some(pair_views(p@)),
                    None => None,
                },
                match character_state {
                    Some(c) => Some(character_state_views(c@)),
                    None => None,
                },
            ),
        ),
{
    let active = if active_characters.len() == 0 {
        "none".to_string()
    } else {
        join_strings(active_characters, ", ")
    };
    let mut sections: Vec<(&str, String)> = Vec::new();
    sections.push(("current_node", current_node.to_string()));
    sections.push(("active_characters", active));
    sections.push(("world_state", render_sorted_map(custom)));
    match player_state {
        Some(p) => {
            sections.push(("player_state", render_sorted_map(p)));
        },
        None => {},
    }
    match character_state {
        Some(c) => {
            sections.push(("character_state", render_character_state(c)));
        },
        None => {},
    }
    proof {
        assert(section_views(sections@) =~= world_sections(
            current_node@,
            string_seq_views(active_characters@),
            pair_views(custom@),
            match player_state {
                Some(p) => Some(pair_views(p@)),
                None => None,
            },
            match character_state {
                Some(c) => Some(character_state_views(c@)),
                None => None,
            },
        ));
    }
    render_sections(sections.as_slice())
}

/// What an actor sees of the world state: everything but the player's values.
pub fn render_actor_world_state(world_state: &WorldState) -> (r: String)
    ensures
        r@ == sections_text(
            world_sections(
                world_state@.current_node,
                world_state@.active_characters,
                world_state@.custom,
                None,
                Some(world_state@.character_state),
            ),
        ),
{
    render_world_state_sections(
        world_state.current_node.as_str(),
        &world_state.active_characters,
        &world_state.custom,
        None,
        Some(&world_state.character_state),
    )
}

/// What the director sees of the world state: all of it.
pub fn render_director_world_state(world_state: &WorldState) -> (r: String)
    ensures
        r@ == sections_text(
            world_sections(
                world_state@.current_node,
                world_state@.active_characters,
                world_state@.custom,
                Some(world_state@.player_state),
                Some(world_state@.character_state),
            ),
        ),
{
    render_world_state_sections(
        world_state.current_node.as_str(),
        &world_state.active_characters,
        &world_state.custom,
        Some(&world_state.player_state),
        Some(&world_state.character_state),
    )
}

/// The world state as the narrator, keeper and reply suggester see it: all
/// of it.
pub fn render_observable_world_state(world_state: &WorldState) -> (r: String)
    ensures
        r@ == sections_text(
            world_sections(
                world_state@.current_node,
                world_state@.active_characters,
                world_state@.custom,
                Some(world_state@.player_state),
                Some(world_state@.character_state),
            ),
        ),
{
    let active = if world_state.active_characters.len() == 0 {
        "none".to_string()
    } else {
        join_strings(&world_state.active_characters, ", ")
    };
    let mut sections: Vec<(&str, String)> = Vec::new();
    sections.push(("current_node", world_state.current_node.clone()));
    sections.push(("active_characters", active));
    sections.push(("world_state", render_sorted_map(&world_state.custom)));
    sections.push(("player_state", render_sorted_map(&world_state.player_state)));
    sections.push(("character_state", render_character_state(&world_state.character_state)));
    proof {
        assert(section_views(sections@) =~= world_sections(
            world_state@.current_node,
            world_state@.active_characters,
            world_state@.custom,
            Some(world_state@.player_state),
            Some(world_state@.character_state),
        ));
    }
    render_sections(sections.as_slice())
}

/// What follows `key:` for a schema field: its type, then its default, its
/// allowed values and, when asked for, its description on one line.
pub open spec fn field_tail(f: FieldView, with_description: bool) -> Seq<char> {
    f.value_type + match f.default {
        Some(d) => " default="@ + d,
        None => seq![],
    } + match f.enum_values {
        Some(e) => " enum="@ + e,
        None => seq![],
    } + if with_description {
        match f.description {
            Some(d) => " desc="@ + inline_seq(d),
            None => seq![],
        }
    } else {
        seq![]
    }
}

/// Schema fields sorted by key, `key:tail` joined by `, `, or `none`.
pub open spec fn schema_fields_text(s: Seq<SchemaFieldView>, with_description: bool) -> Seq<char> {
    sorted_keyed_text(
        s.map_values(|f: SchemaFieldView| (f.0, field_tail(f.1, with_description))),
        ":"@,
        ", "@,
        "none"@,
    )
}

fn render_field_tail(field: &crate::schema::StateFieldSchema, with_description: bool) -> (r: String)
    ensures
        r@ == field_tail(field@, with_description),
{
    let mut out = str_chars(field.value_type_json.as_str());
    match &field.default_json {
        Some(d) => {
            push_str(&mut out, " default=");
            push_str(&mut out, d.as_str());
        },
        None => {},
    }
    match &field.enum_values_json {
        Some(e) => {
            push_str(&mut out, " enum=");
            push_str(&mut out, e.as_str());
        },
        None => {},
    }
    if with_description {
        match &field.description {
            Some(d) => {
                push_str(&mut out, " desc=");
                let inline = normalize_inline_text(d.as_str());
                push_str(&mut out, inline.as_str());
            },
            None => {},
        }
    }
    proof {
        assert(out@ =~= field_tail(field@, with_description));
    }
    string_of_chars(out.as_slice())
}

fn render_schema_fields(fields: &Vec<SchemaField>, with_description: bool) -> (r: String)
    ensures
        r@ == schema_fields_text(schema_field_views(fields@), with_description),
{
    let ghost g = |f: SchemaFieldView| (f.0, field_tail(f.1, with_description));
    let mut out: Vec<KeyedText> = Vec::new();
    let mut i: usize = 0;
    while i < fields.len()
        invariant
            g == (|f: SchemaFieldView| (f.0, field_tail(f.1, with_description))),
            i <= fields@.len(),
            keyed_views(out@) =~= schema_field_views(fields@).take(i as int).map_values(g),
        decreases fields.len() - i,
    {
        let text = render_field_tail(&fields[i].field, with_description);
        let ghost before = out@;
        let item = KeyedText { key: fields[i].key.clone(), text };
        assert(item@ == g(fields@[i as int]@));
        out.push(item);
        proof {
            assert(keyed_views(out@) =~= keyed_views(before).push(item@));
            assert(schema_field_views(fields@).take(i + 1) =~= schema_field_views(fields@).take(i as int).push(
                fields@[i as int]@,
            ));
        }
        i = i + 1;
    }
    proof {
        assert(schema_field_views(fields@).take(fields@.len() as int) =~= schema_field_views(fields@));
    }
    render_sorted_keyed(out, ":", ", ", "none")
}

/// Renders schema fields sorted by key, with their descriptions.
pub fn render_state_schema_fields(fields: &Vec<SchemaField>) -> (r: String)
    ensures
        r@ == schema_fields_text(schema_field_views(fields@), true),
{
    render_schema_fields(fields, true)
}

/// Renders schema fields sorted by key, without their descriptions.
pub fn render_state_schema_fields_without_description(fields: &Vec<SchemaField>) -> (r: String)
    ensures
        r@ == schema_fields_text(schema_field_views(fields@), false),
{
    render_schema_fields(fields, false)
}

/// A schema's fields without descriptions, or `null` when there is no
/// schema.
pub fn render_compact_schema_text(fields: Option<&Vec<SchemaField>>) -> (r: String)
    ensures
        r@ == match fields {
            Some(f) => schema_fields_text(schema_field_views(f@), false),
            None => "null"@,
        },
{
    match fields {
        Some(f) => render_state_schema_fields_without_description(f),
        None => "null".to_string(),
    }
}

} // verus!
