//! State schemas and character cards.
//!
//! A schema maps state keys to field descriptions; the type, default and
//! allowed values of a field are held as their compact JSON text.
use vstd::prelude::*;

use crate::prompt::types::{clone_opt_string, opt_view, str_eq};

verus! {

/// The description of one state field.
#[derive(Debug)]
pub struct StateFieldSchema {
    pub value_type_json: String,
    pub default_json: Option<String>,
    pub enum_values_json: Option<String>,
    pub description: Option<String>,
}

/// The value of a field description.
pub struct FieldView {
    pub value_type: Seq<char>,
    pub default: Option<Seq<char>>,
    pub enum_values: Option<Seq<char>>,
    pub description: Option<Seq<char>>,
}

impl View for StateFieldSchema {
    type V = FieldView;

    open spec fn view(&self) -> FieldView {
        FieldView {
            value_type: self.value_type_json@,
            default: opt_view(self.default_json),
            enum_values: opt_view(self.enum_values_json),
            description: opt_view(self.description),
        }
    }
}

impl StateFieldSchema {
    /// A field of the given type, with no default, allowed values or
    /// description.
    pub fn new(value_type_json: String) -> (f: StateFieldSchema)
        ensures
            f@ == (FieldView { value_type: value_type_json@, default: None, enum_values: None, description: None }),
    {
        StateFieldSchema { value_type_json, default_json: None, enum_values_json: None, description: None }
    }

    /// The field with a default value.
    pub fn with_default(self, default_json: String) -> (f: StateFieldSchema)
        ensures
            f@ == (FieldView { default: Some(default_json@), ..self@ }),
    {
        StateFieldSchema { default_json: Some(default_json), ..self }
    }

    /// The field with a description.
    pub fn with_description(self, description: String) -> (f: StateFieldSchema)
        ensures
            f@ == (FieldView { description: Some(description@), ..self@ }),
    {
        StateFieldSchema { description: Some(description), ..self }
    }

    /// A copy of the field.
    pub fn duplicate(&self) -> (f: StateFieldSchema)
        ensures
            f@ == self@,
    {
        StateFieldSchema {
            value_type_json: self.value_type_json.clone(),
            default_json: clone_opt_string(&self.default_json),
            enum_values_json: clone_opt_string(&self.enum_values_json),
            description: clone_opt_string(&self.description),
        }
    }
}

/// A keyed field description.
#[derive(Debug)]
pub struct SchemaField {
    pub key: String,
    pub field: StateFieldSchema,
}

/// The value of a keyed field description.
pub type SchemaFieldView = (Seq<char>, FieldView);

impl View for SchemaField {
    type V = SchemaFieldView;

    open spec fn view(&self) -> SchemaFieldView {
        (self.key@, self.field@)
    }
}

/// The views of keyed field descriptions.
pub open spec fn schema_field_views(v: Seq<SchemaField>) -> Seq<SchemaFieldView> {
    v.map_values(|f: SchemaField| f@)
}

/// The index of the first field with key `k`, searching from `i`.
pub open spec fn field_index_from(s: Seq<SchemaFieldView>, k: Seq<char>, i: int) -> Option<int>
    decreases s.len() - i,
{
    if i < 0 || i >= s.len() {
        None
    } else if s[i].0 == k {
        Some(i)
    } else {
        field_index_from(s, k, i + 1)
    }
}

/// A state schema: field descriptions by key, each key at most once.
#[derive(Debug)]
pub struct StateSchema {
    pub fields: Vec<SchemaField>,
}

impl View for StateSchema {
    type V = Seq<SchemaFieldView>;

    open spec fn view(&self) -> Seq<SchemaFieldView> {
        schema_field_views(self.fields@)
    }
}

/// The index of the first field with key `k`.
fn find_field(v: &Vec<SchemaField>, k: &str) -> (r: Option<usize>)
    ensures
        match r {
            Some(i) => i < v@.len() && field_index_from(schema_field_views(v@), k@, 0) == Some(
                i as int,
            ),
            None => field_index_from(schema_field_views(v@), k@, 0) is None,
        },
{
    let ghost fv = schema_field_views(v@);
    let mut i: usize = 0;
    while i < v.len()
        invariant
            fv == schema_field_views(v@),
            i <= v@.len(),
            field_index_from(fv, k@, 0) == field_index_from(fv, k@, i as int),
        decreases v.len() - i,
    {
        assert(fv[i as int] == v@[i as int]@);
        if str_eq(v[i].key.as_str(), k) {
            return Some(i);
        }
        i = i + 1;
    }
    None
}

impl StateSchema {
    /// A schema without fields.
    pub fn new() -> (s: StateSchema)
        ensures
            s@.len() == 0,
    {
        StateSchema { fields: Vec::new() }
    }

    /// Whether the schema describes `key`.
    pub fn has_field(&self, key: &str) -> (b: bool)
        ensures
            b == (field_index_from(self@, key@, 0) is Some),
    {
        find_field(&self.fields, key).is_some()
    }

    /// Describes `key` by `field`, replacing an earlier description of it.
    pub fn insert_field(&mut self, key: String, field: StateFieldSchema)
        ensures
            final(self)@ == match field_index_from(old(self)@, key@, 0) {
                Some(i) => old(self)@.update(i, (key@, field@)),
                None => old(self)@.push((key@, field@)),
            },
    {
        let ghost before = self@;
        let ghost fv = (key@, field@);
        match find_field(&self.fields, key.as_str()) {
            Some(i) => {
                self.fields.set(i, SchemaField { key, field });
                assert(self@ =~= before.update(i as int, fv));
            },
            None => {
                self.fields.push(SchemaField { key, field });
                assert(self@ =~= before.push(fv));
            },
        }
    }

    /// A copy of the schema.
    pub fn duplicate(&self) -> (s: StateSchema)
        ensures
            s@ == self@,
    {
        let mut out: Vec<SchemaField> = Vec::new();
        let mut i: usize = 0;
        while i < self.fields.len()
            invariant
                i <= self.fields@.len(),
                schema_field_views(out@) =~= schema_field_views(self.fields@.take(i as int)),
            decreases self.fields.len() - i,
        {
            let ghost before = out@;
            out.push(SchemaField { key: self.fields[i].key.clone(), field: self.fields[i].field.duplicate() });
            proof {
                assert(out@ =~= before.push(out@.last()));
                assert(self.fields@.take(i + 1) =~= self.fields@.take(i as int).push(self.fields@[i as int]));
                assert(schema_field_views(self.fields@.take(i + 1)) =~= schema_field_views(
                    self.fields@.take(i as int),
                ).push(self.fields@[i as int]@));
            }
            i = i + 1;
        }
        assert(self.fields@.take(self.fields@.len() as int) =~= self.fields@);
        StateSchema { fields: out }
    }
}

/// A character of the story: who it is, how it speaks, and the state it keeps.
#[derive(Debug)]
pub struct CharacterCard {
    pub id: String,
    pub name: String,
    pub personality: String,
    pub style: String,
    pub state_schema: StateSchema,
    pub system_prompt: String,
}

/// The value of a character card.
pub struct CardView {
    pub id: Seq<char>,
    pub name: Seq<char>,
    pub personality: Seq<char>,
    pub style: Seq<char>,
    pub state_schema: Seq<SchemaFieldView>,
    pub system_prompt: Seq<char>,
}

impl View for CharacterCard {
    type V = CardView;

    open spec fn view(&self) -> CardView {
        CardView {
            id: self.id@,
            name: self.name@,
            personality: self.personality@,
            style: self.style@,
            state_schema: self.state_schema@,
            system_prompt: self.system_prompt@,
        }
    }
}

/// The views of character cards.
pub open spec fn card_views(v: Seq<CharacterCard>) -> Seq<CardView> {
    v.map_values(|c: CharacterCard| c@)
}

/// The ids of character cards, in order.
pub open spec fn card_ids(v: Seq<CardView>) -> Seq<Seq<char>> {
    v.map_values(|c: CardView| c.id)
}

impl CharacterCard {
    /// A copy of the card.
    pub fn duplicate(&self) -> (c: CharacterCard)
        ensures
            c@ == self@,
    {
        CharacterCard {
            id: self.id.clone(),
            name: self.name.clone(),
            personality: self.personality.clone(),
            style: self.style.clone(),
            state_schema: self.state_schema.duplicate(),
            system_prompt: self.system_prompt.clone(),
        }
    }
}

/// Copies a list of character cards.
pub fn clone_cards(v: &[CharacterCard]) -> (r: Vec<CharacterCard>)
    ensures
        card_views(r@) == card_views(v@),
{
    let mut out: Vec<CharacterCard> = Vec::new();
    let mut i: usize = 0;
    while i < v.len()
        invariant
            i <= v@.len(),
            card_views(out@) =~= card_views(v@.take(i as int)),
        decreases v.len() - i,
    {
        let ghost before = out@;
        out.push(v[i].duplicate());
        proof {
            assert(out@ =~= before.push(out@.last()));
            assert(v@.take(i + 1) =~= v@.take(i as int).push(v@[i as int]));
            assert(card_views(v@.take(i + 1)) =~= card_views(v@.take(i as int)).push(v@[i as int]@));
        }
        i = i + 1;
    }
    assert(v@.take(v@.len() as int) =~= v@);
    out
}

} // verus!
