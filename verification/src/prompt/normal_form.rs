//! What normalization builds: the state it keeps while reading a preset, and
//! the normal form of the result.
use vstd::prelude::*;

use crate::prompt::defaults::{
    builtin_module_name, builtin_module_order, builtin_module_role, builtin_modules, fallback_name,
};
use crate::prompt::normalize::{
    drop_pending, empty_builtin_module, find_pending, fold_entries, fold_flush, fold_modules,
    initial_pending, initial_state, is_removed_builtin, merged, module_fallback_name,
    module_index, new_module, normalize_entry_spec, normalize_key, opened_index, opened_mods,
    opened_state, step_entry, step_flush, step_module, with_entry, with_metadata, NormState,
};
use crate::prompt::roundtrip::{
    builtin_entry, builtin_of, ids_distinct, keys_distinct, lemma_builtin_entry,
    lemma_drop_pending, lemma_find_pending_contains, lemma_find_pending_found,
    lemma_fold_flush_places, lemma_initial_pending, lemma_module_index, lemma_placed_in,
    nm_builtins_present, nm_covers, nm_entries_normal, nm_ids_unique, nm_modules_ok, normal_entry,
    normal_key, normal_modules, placed_in, tidy,
};
use crate::prompt::normalize::{normalized_result, resorted_module};
use crate::prompt::sort::{entries_sorted, entry_before, module_before, modules_sorted};
use crate::prompt::types::PresetView;
use crate::text::{lemma_seq_lt_total, seq_lt};
use crate::prompt::templates::{builtin_key, BuiltinModule};
use crate::prompt::types::{
    is_builtin_key, module_key_from_raw, module_key_str, EntryView, ModuleKey, ModuleView,
    PromptAgentKind, PromptEntryKind,
};
use crate::text::{is_blank, is_ws, lemma_trim_empty_iff_blank, lemma_trim_idempotent, trim_seq};

verus! {

/// An entry as normalization places it while reading: trimmed id and name;
/// a custom entry with text and no flags of its own; a built-in entry with
/// the kind, requirement, text and context key of its definition, and
/// switched on when required.
pub open spec fn placed_entry_ok(agent: PromptAgentKind, e: EntryView) -> bool {
    &&& tidy(e.entry_id)
    &&& tidy(e.display_name)
    &&& if e.kind == PromptEntryKind::CustomText {
        &&& e.text is Some
        &&& !is_blank(e.text->0)
        &&& !e.required
        &&& e.context_key is None
    } else {
        &&& builtin_entry(agent, e.entry_id) is Some
        &&& (builtin_entry(agent, e.entry_id)->0).1.kind == e.kind
        &&& e.required == (builtin_entry(agent, e.entry_id)->0).1.required
        &&& (e.required ==> e.enabled)
        &&& e.text == (builtin_entry(agent, e.entry_id)->0).1.text
        &&& e.context_key == (builtin_entry(agent, e.entry_id)->0).1.context_key
    }
}

/// Whether an entry with id `id` has been placed.
pub open spec fn id_placed(mods: Seq<ModuleView>, id: Seq<char>) -> bool {
    exists|i: int, t: int|
        0 <= i < mods.len() && 0 <= t < mods[i].entries.len() && (#[trigger] mods[i].entries[t]).entry_id
            == id
}

/// Whether a built-in entry with id `id` has been placed.
pub open spec fn builtin_placed(mods: Seq<ModuleView>, id: Seq<char>) -> bool {
    exists|i: int, t: int|
        0 <= i < mods.len() && 0 <= t < mods[i].entries.len() && (#[trigger] mods[i].entries[t]).entry_id
            == id && mods[i].entries[t].kind != PromptEntryKind::CustomText
}

/// Entry ids are unique across the modules.
pub open spec fn ids_unique(mods: Seq<ModuleView>) -> bool {
    forall|a: int, i: int, b: int, j: int|
        0 <= a < mods.len() && 0 <= i < mods[a].entries.len() && 0 <= b < mods.len() && 0 <= j
            < mods[b].entries.len() && (#[trigger] mods[a].entries[i]).entry_id == (
        #[trigger] mods[b].entries[j]).entry_id ==> a == b && i == j
}

/// Every built-in identifier has a module.
pub open spec fn builtins_present(mods: Seq<ModuleView>) -> bool {
    forall|k: ModuleKey|
        #[trigger] is_builtin_key(k) ==> exists|i: int| 0 <= i < mods.len() && (#[trigger] mods[i]).module_id == k
}

/// What holds of normalization's state while it reads a preset.
pub open spec fn reading_ok(agent: PromptAgentKind, s: NormState) -> bool {
    &&& keys_distinct(s.mods)
    &&& forall|i: int|
        0 <= i < s.mods.len() ==> normal_key((#[trigger] s.mods[i]).module_id) && tidy(
            s.mods[i].display_name,
        )
    &&& builtins_present(s.mods)
    &&& forall|i: int, t: int|
        0 <= i < s.mods.len() && 0 <= t < s.mods[i].entries.len() ==> placed_entry_ok(
            agent,
            #[trigger] s.mods[i].entries[t],
        )
    &&& ids_unique(s.mods)
    &&& forall|id: Seq<char>| #[trigger] s.seen_ents.contains(id) <==> id_placed(s.mods, id)
    &&& ids_distinct(s.pending)
    &&& forall|y: (ModuleKey, EntryView)|
        #[trigger] s.pending.contains(y) <==> (initial_pending(agent).contains(y) && !builtin_placed(
            s.mods,
            y.1.entry_id,
        ))
}

/// Falling back to a tidy name gives a tidy name.
proof fn lemma_fallback_tidy(x: Seq<char>, f: Seq<char>)
    requires
        tidy(f),
    ensures
        tidy(fallback_name(x, f)),
{
    lemma_trim_idempotent(x);
    lemma_trim_empty_iff_blank(x);
}

/// The names of the built-in modules are tidy, and are their own fallback.
pub(crate) proof fn lemma_builtin_names(b: BuiltinModule)
    ensures
        tidy(builtin_module_name(b)),
        module_fallback_name(builtin_key(b)) == builtin_module_name(b),
{
    reveal_strlit("Role");
    reveal_strlit("Task");
    reveal_strlit("Static Context");
    reveal_strlit("Dynamic Context");
    reveal_strlit("Output");
    let s = builtin_module_name(b);
    assert(s.len() > 0);
    assert(!is_ws(s[0]));
    assert(!is_ws(s.last()));
    assert(trim_seq(s) == s);
}

/// Module identifiers after normalization are normal, and custom ones are
/// tidy.
proof fn lemma_normalized_key(k: ModuleKey)
    requires
        normalize_key(k) is Ok,
    ensures
        normal_key(normalize_key(k)->Ok_0),
        (normalize_key(k)->Ok_0) is Custom ==> tidy(module_key_str(normalize_key(k)->Ok_0)),
{
    if let ModuleKey::Custom(raw) = k {
        let t = trim_seq(raw);
        lemma_trim_idempotent(raw);
    }
}

/// The fallback name of a normal identifier is tidy.
proof fn lemma_module_fallback_tidy(k: ModuleKey)
    requires
        normal_key(k),
    ensures
        tidy(module_fallback_name(k)),
{
    match k {
        ModuleKey::Custom(s) => {
            lemma_trim_idempotent(s);
        },
        _ => {
            lemma_builtin_names(builtin_of(k));
        },
    }
}

/// The state before reading satisfies `reading_ok`.
proof fn lemma_reading_start(agent: PromptAgentKind)
    ensures
        reading_ok(agent, initial_state(agent)),
{
    let s = initial_state(agent);
    lemma_initial_pending(agent);
    let bm = builtin_modules();
    assert(s.mods.len() == 5);
    assert forall|i: int| 0 <= i < 5 implies (#[trigger] s.mods[i]) == empty_builtin_module(bm[i]) by {}
    assert(s.mods[0].module_id == ModuleKey::Role);
    assert(s.mods[1].module_id == ModuleKey::Task);
    assert(s.mods[2].module_id == ModuleKey::StaticContext);
    assert(s.mods[3].module_id == ModuleKey::DynamicContext);
    assert(s.mods[4].module_id == ModuleKey::Output);
    assert forall|i: int| 0 <= i < s.mods.len() implies normal_key((#[trigger] s.mods[i]).module_id)
        && tidy(s.mods[i].display_name) by {
        lemma_builtin_names(bm[i]);
    }
    assert forall|key: ModuleKey| #[trigger] is_builtin_key(key) implies exists|i: int|
        0 <= i < s.mods.len() && (#[trigger] s.mods[i]).module_id == key by {
        match key {
            ModuleKey::Role => assert(s.mods[0].module_id == key),
            ModuleKey::Task => assert(s.mods[1].module_id == key),
            ModuleKey::StaticContext => assert(s.mods[2].module_id == key),
            ModuleKey::DynamicContext => assert(s.mods[3].module_id == key),
            ModuleKey::Output => assert(s.mods[4].module_id == key),
            ModuleKey::Custom(_) => {},
        }
    }
    assert forall|id: Seq<char>| #[trigger] s.seen_ents.contains(id) <==> id_placed(s.mods, id) by {}
    assert forall|y: (ModuleKey, EntryView)| #[trigger] s.pending.contains(y) <==> (
    initial_pending(agent).contains(y) && !builtin_placed(s.mods, y.1.entry_id)) by {}
}

/// The state's modules with one more entry at the end of module `idx`.
proof fn lemma_push_entry_facts(mods: Seq<ModuleView>, idx: int, ne: EntryView)
    requires
        0 <= idx < mods.len(),
    ensures
        ({
            let m2 = mods.update(idx, with_entry(mods[idx], ne));
            &&& m2.len() == mods.len()
            &&& forall|i: int| 0 <= i < mods.len() ==> (#[trigger] m2[i]) == ModuleView { entries: m2[i].entries, ..mods[i] }
            &&& forall|i: int, t: int|
                0 <= i < mods.len() && 0 <= t < mods[i].entries.len() ==> (#[trigger] m2[i].entries[t])
                    == mods[i].entries[t]
            &&& m2[idx].entries.len() == mods[idx].entries.len() + 1
            &&& m2[idx].entries[mods[idx].entries.len() as int] == ne
            &&& forall|i: int| 0 <= i < mods.len() && i != idx ==> (#[trigger] m2[i]).entries.len() == mods[i].entries.len()
            &&& forall|id: Seq<char>| id_placed(m2, id) <==> (id_placed(mods, id) || ne.entry_id == id)
            &&& forall|id: Seq<char>| builtin_placed(m2, id) <==> (builtin_placed(mods, id) || (ne.entry_id == id && ne.kind != PromptEntryKind::CustomText))
        }),
{
    let m2 = mods.update(idx, with_entry(mods[idx], ne));
    let l = mods[idx].entries.len() as int;
    assert forall|i: int, t: int|
        0 <= i < mods.len() && 0 <= t < mods[i].entries.len() implies (#[trigger] m2[i].entries[t]) == mods[i].entries[t] by {
        if i == idx {
            assert(m2[i].entries == mods[idx].entries.push(ne));
        }
    }
    assert forall|id: Seq<char>| id_placed(m2, id) <==> (id_placed(mods, id) || ne.entry_id == id) by {
        if id_placed(m2, id) {
            let (i, t) = choose|i: int, t: int|
                0 <= i < m2.len() && 0 <= t < m2[i].entries.len() && (#[trigger] m2[i].entries[t]).entry_id == id;
            if !(i == idx && t == l) {
                assert(m2[i].entries[t] == mods[i].entries[t]);
            }
        }
        if id_placed(mods, id) {
            let (i, t) = choose|i: int, t: int|
                0 <= i < mods.len() && 0 <= t < mods[i].entries.len() && (#[trigger] mods[i].entries[t]).entry_id == id;
            assert(m2[i].entries[t] == mods[i].entries[t]);
        }
        if ne.entry_id == id {
            assert(m2[idx].entries[l] == ne);
        }
    }
    assert forall|id: Seq<char>| builtin_placed(m2, id) <==> (builtin_placed(mods, id) || (ne.entry_id == id
        && ne.kind != PromptEntryKind::CustomText)) by {
        if builtin_placed(m2, id) {
            let (i, t) = choose|i: int, t: int|
                0 <= i < m2.len() && 0 <= t < m2[i].entries.len() && (#[trigger] m2[i].entries[t]).entry_id == id
                    && m2[i].entries[t].kind != PromptEntryKind::CustomText;
            if !(i == idx && t == l) {
                assert(m2[i].entries[t] == mods[i].entries[t]);
            }
        }
        if builtin_placed(mods, id) {
            let (i, t) = choose|i: int, t: int|
                0 <= i < mods.len() && 0 <= t < mods[i].entries.len() && (#[trigger] mods[i].entries[t]).entry_id == id
                    && mods[i].entries[t].kind != PromptEntryKind::CustomText;
            assert(m2[i].entries[t] == mods[i].entries[t]);
        }
        if ne.entry_id == id && ne.kind != PromptEntryKind::CustomText {
            assert(m2[idx].entries[l] == ne);
        }
    }
}

/// A pending entry is one of the agent's built-in entries, and its id finds
/// it among them.
proof fn lemma_pending_is_builtin(agent: PromptAgentKind, s: NormState, y: (ModuleKey, EntryView))
    requires
        reading_ok(agent, s),
        s.pending.contains(y),
    ensures
        builtin_entry(agent, y.1.entry_id) == Some(y),
        tidy(y.1.display_name),
        tidy(y.1.entry_id),
        y.1.kind != PromptEntryKind::CustomText,
        y.1.enabled,
        is_builtin_key(y.0),
{
    lemma_initial_pending(agent);
    let p0 = initial_pending(agent);
    assert(p0.contains(y));
    let q = choose|q: int| 0 <= q < p0.len() && p0[q] == y;
    lemma_find_pending_contains(p0, y);
}

/// Reading one entry keeps `reading_ok`, and changes only the entries of
/// module `idx`.
proof fn lemma_step_entry_reading(
    agent: PromptAgentKind,
    key: ModuleKey,
    idx: int,
    s: NormState,
    e: EntryView,
)
    requires
        reading_ok(agent, s),
        0 <= idx < s.mods.len(),
        step_entry(agent, key, idx, s, e) is Ok,
    ensures
        ({
            let s2 = step_entry(agent, key, idx, s, e)->Ok_0;
            &&& reading_ok(agent, s2)
            &&& s2.mods.len() == s.mods.len()
            &&& forall|i: int| 0 <= i < s.mods.len() ==> (#[trigger] s2.mods[i]) == ModuleView { entries: s2.mods[i].entries, ..s.mods[i] }
            &&& s2.seen_mods == s.seen_mods
        }),
{
    if !is_removed_builtin(agent, e) {
        let ne = normalize_entry_spec(agent, key, e, s.pending)->Ok_0;
        let id = trim_seq(e.entry_id);
        lemma_trim_idempotent(e.entry_id);
        assert(ne.entry_id == id);
        if e.kind == PromptEntryKind::CustomText {
            lemma_fallback_tidy(e.display_name, id);
        } else {
            lemma_find_pending_found(s.pending, id);
            let y = find_pending(s.pending, id)->0;
            let q = choose|q: int| 0 <= q < s.pending.len() && #[trigger] s.pending[q] == y && s.pending[q].1.entry_id == id;
            assert(s.pending.contains(y));
            lemma_pending_is_builtin(agent, s, y);
            lemma_fallback_tidy(e.display_name, y.1.display_name);
        }
        assert(placed_entry_ok(agent, ne));
        let s2 = step_entry(agent, key, idx, s, e)->Ok_0;
        assert(!s.seen_ents.contains(ne.entry_id));
        assert(!id_placed(s.mods, ne.entry_id));
        lemma_push_entry_facts(s.mods, idx, ne);
        let l = s.mods[idx].entries.len() as int;
        assert(s2.mods == s.mods.update(idx, with_entry(s.mods[idx], ne)));
        assert forall|i: int| 0 <= i < s2.mods.len() implies (#[trigger] s2.mods[i]).module_id == s.mods[i].module_id
            && s2.mods[i].display_name == s.mods[i].display_name by {
            assert(s2.mods[i] == ModuleView { entries: s2.mods[i].entries, ..s.mods[i] });
        }
        assert(keys_distinct(s2.mods)) by {
            assert forall|a: int, b: int|
                0 <= a < s2.mods.len() && 0 <= b < s2.mods.len() && (#[trigger] s2.mods[a]).module_id
                    == (#[trigger] s2.mods[b]).module_id implies a == b by {
                assert(s.mods[a].module_id == s.mods[b].module_id);
            }
        }
        assert forall|i: int| 0 <= i < s2.mods.len() implies normal_key((#[trigger] s2.mods[i]).module_id) && tidy(
            s2.mods[i].display_name,
        ) by {
            assert(normal_key(s.mods[i].module_id));
        }
        assert(builtins_present(s2.mods)) by {
            assert forall|k: ModuleKey| #[trigger] is_builtin_key(k) implies exists|i: int|
                0 <= i < s2.mods.len() && (#[trigger] s2.mods[i]).module_id == k by {
                let i = choose|i: int| 0 <= i < s.mods.len() && (#[trigger] s.mods[i]).module_id == k;
                assert(s2.mods[i].module_id == k);
            }
        }
        assert forall|i: int, t: int|
            0 <= i < s2.mods.len() && 0 <= t < s2.mods[i].entries.len() implies placed_entry_ok(
            agent,
            #[trigger] s2.mods[i].entries[t],
        ) by {
            if !(i == idx && t == l) {
                assert(s2.mods[i].entries[t] == s.mods[i].entries[t]);
            }
        }
        assert(ids_unique(s2.mods)) by {
            assert forall|a: int, i: int, b: int, j: int|
                0 <= a < s2.mods.len() && 0 <= i < s2.mods[a].entries.len() && 0 <= b < s2.mods.len() && 0 <= j
                    < s2.mods[b].entries.len() && (#[trigger] s2.mods[a].entries[i]).entry_id == (
                #[trigger] s2.mods[b].entries[j]).entry_id implies a == b && i == j by {
                let na = a == idx && i == l;
                let nb = b == idx && j == l;
                if !na {
                    assert(s2.mods[a].entries[i] == s.mods[a].entries[i]);
                }
                if !nb {
                    assert(s2.mods[b].entries[j] == s.mods[b].entries[j]);
                }
                if na && !nb {
                    assert(id_placed(s.mods, ne.entry_id));
                }
                if nb && !na {
                    assert(id_placed(s.mods, ne.entry_id));
                }
            }
        }
        assert forall|x: Seq<char>| #[trigger] s2.seen_ents.contains(x) <==> id_placed(s2.mods, x) by {
            assert(s2.seen_ents == s.seen_ents.push(ne.entry_id));
            if s2.seen_ents.contains(x) {
                let t = choose|t: int| 0 <= t < s2.seen_ents.len() && s2.seen_ents[t] == x;
                if t < s.seen_ents.len() {
                    assert(s.seen_ents[t] == x);
                    assert(s.seen_ents.contains(x));
                }
            }
            if id_placed(s.mods, x) {
                assert(s.seen_ents.contains(x));
                let t = choose|t: int| 0 <= t < s.seen_ents.len() && s.seen_ents[t] == x;
                assert(s2.seen_ents[t] == x);
            }
            if x == ne.entry_id {
                assert(s2.seen_ents[s.seen_ents.len() as int] == x);
            }
        }
        if ne.kind != PromptEntryKind::CustomText {
            lemma_drop_pending(s.pending, ne.entry_id);
        }
        assert forall|y: (ModuleKey, EntryView)| #[trigger] s2.pending.contains(y) <==> (
        initial_pending(agent).contains(y) && !builtin_placed(s2.mods, y.1.entry_id)) by {
            if ne.kind != PromptEntryKind::CustomText {
                assert(s2.pending == drop_pending(s.pending, ne.entry_id));
            }
        }
    }
}

proof fn lemma_fold_entries_reading(
    agent: PromptAgentKind,
    key: ModuleKey,
    idx: int,
    s: NormState,
    es: Seq<EntryView>,
)
    requires
        reading_ok(agent, s),
        0 <= idx < s.mods.len(),
        fold_entries(agent, key, idx, s, es) is Ok,
    ensures
        ({
            let s2 = fold_entries(agent, key, idx, s, es)->Ok_0;
            &&& reading_ok(agent, s2)
            &&& s2.mods.len() == s.mods.len()
            &&& forall|i: int| 0 <= i < s.mods.len() ==> (#[trigger] s2.mods[i]) == ModuleView { entries: s2.mods[i].entries, ..s.mods[i] }
            &&& s2.seen_mods == s.seen_mods
        }),
    decreases es.len(),
{
    if es.len() > 0 {
        let t = es.drop_last();
        lemma_fold_entries_reading(agent, key, idx, s, t);
        let s1 = fold_entries(agent, key, idx, s, t)->Ok_0;
        lemma_step_entry_reading(agent, key, idx, s1, es.last());
        let s2 = fold_entries(agent, key, idx, s, es)->Ok_0;
        assert forall|i: int| 0 <= i < s.mods.len() implies (#[trigger] s2.mods[i]) == ModuleView { entries: s2.mods[i].entries, ..s.mods[i] } by {
            assert(s1.mods[i] == ModuleView { entries: s1.mods[i].entries, ..s.mods[i] });
            assert(s2.mods[i] == ModuleView { entries: s2.mods[i].entries, ..s1.mods[i] });
        }
    }
}

/// Modules that keep the entries of the first modules and add only empty
/// ones have the same entries placed.
proof fn lemma_same_entries(m1: Seq<ModuleView>, m2: Seq<ModuleView>)
    requires
        m1.len() <= m2.len(),
        forall|i: int| 0 <= i < m1.len() ==> (#[trigger] m2[i]).entries == m1[i].entries,
        forall|i: int| m1.len() <= i < m2.len() ==> (#[trigger] m2[i]).entries.len() == 0,
    ensures
        forall|id: Seq<char>| id_placed(m2, id) <==> id_placed(m1, id),
        forall|id: Seq<char>| builtin_placed(m2, id) <==> builtin_placed(m1, id),
        ids_unique(m1) ==> ids_unique(m2),
{
    assert forall|id: Seq<char>| id_placed(m2, id) <==> id_placed(m1, id) by {
        if id_placed(m2, id) {
            let (i, t) = choose|i: int, t: int|
                0 <= i < m2.len() && 0 <= t < m2[i].entries.len() && (#[trigger] m2[i].entries[t]).entry_id == id;
            assert(i < m1.len());
            assert(m1[i].entries[t] == m2[i].entries[t]);
        }
        if id_placed(m1, id) {
            let (i, t) = choose|i: int, t: int|
                0 <= i < m1.len() && 0 <= t < m1[i].entries.len() && (#[trigger] m1[i].entries[t]).entry_id == id;
            assert(m2[i].entries[t] == m1[i].entries[t]);
        }
    }
    assert forall|id: Seq<char>| builtin_placed(m2, id) <==> builtin_placed(m1, id) by {
        if builtin_placed(m2, id) {
            let (i, t) = choose|i: int, t: int|
                0 <= i < m2.len() && 0 <= t < m2[i].entries.len() && (#[trigger] m2[i].entries[t]).entry_id == id
                    && m2[i].entries[t].kind != PromptEntryKind::CustomText;
            assert(i < m1.len());
            assert(m1[i].entries[t] == m2[i].entries[t]);
        }
        if builtin_placed(m1, id) {
            let (i, t) = choose|i: int, t: int|
                0 <= i < m1.len() && 0 <= t < m1[i].entries.len() && (#[trigger] m1[i].entries[t]).entry_id == id
                    && m1[i].entries[t].kind != PromptEntryKind::CustomText;
            assert(m2[i].entries[t] == m1[i].entries[t]);
        }
    }
    if ids_unique(m1) {
        assert forall|a: int, i: int, b: int, j: int|
            0 <= a < m2.len() && 0 <= i < m2[a].entries.len() && 0 <= b < m2.len() && 0 <= j
                < m2[b].entries.len() && (#[trigger] m2[a].entries[i]).entry_id == (
            #[trigger] m2[b].entries[j]).entry_id implies a == b && i == j by {
            assert(a < m1.len() && b < m1.len());
            assert(m1[a].entries[i] == m2[a].entries[i]);
            assert(m1[b].entries[j] == m2[b].entries[j]);
        }
    }
}

/// Reading one module keeps `reading_ok`.
proof fn lemma_step_module_reading(agent: PromptAgentKind, s: NormState, m: ModuleView)
    requires
        reading_ok(agent, s),
        step_module(agent, s, m) is Ok,
    ensures
        reading_ok(agent, step_module(agent, s, m)->Ok_0),
{
    let key = normalize_key(m.module_id)->Ok_0;
    lemma_normalized_key(m.module_id);
    lemma_module_fallback_tidy(key);
    lemma_module_index(s.mods, key);
    let mods1 = opened_mods(s.mods, key);
    let idx = opened_index(s.mods, key);
    let s0 = opened_state(s, key, m);
    lemma_fallback_tidy(m.display_name, module_fallback_name(key));
    assert(0 <= idx < mods1.len());
    assert(mods1[idx].module_id == key);
    assert(s0.mods.len() == mods1.len());
    assert forall|i: int| 0 <= i < s.mods.len() implies (#[trigger] s0.mods[i]).entries == s.mods[i].entries
        && s0.mods[i].module_id == s.mods[i].module_id by {}
    assert forall|i: int| s.mods.len() <= i < s0.mods.len() implies (#[trigger] s0.mods[i]).entries.len() == 0 by {}
    lemma_same_entries(s.mods, s0.mods);
    assert forall|i: int| 0 <= i < s0.mods.len() implies normal_key((#[trigger] s0.mods[i]).module_id) && tidy(
        s0.mods[i].display_name,
    ) by {
        if i != idx {
            assert(s0.mods[i] == s.mods[i]);
        }
    }
    assert(keys_distinct(s0.mods)) by {
        assert forall|a: int, b: int|
            0 <= a < s0.mods.len() && 0 <= b < s0.mods.len() && (#[trigger] s0.mods[a]).module_id
                == (#[trigger] s0.mods[b]).module_id implies a == b by {
            if a < s.mods.len() && b < s.mods.len() {
                assert(s.mods[a].module_id == s.mods[b].module_id);
            }
        }
    }
    assert(builtins_present(s0.mods)) by {
        assert forall|k: ModuleKey| #[trigger] is_builtin_key(k) implies exists|i: int|
            0 <= i < s0.mods.len() && (#[trigger] s0.mods[i]).module_id == k by {
            let i = choose|i: int| 0 <= i < s.mods.len() && (#[trigger] s.mods[i]).module_id == k;
            assert(s0.mods[i].module_id == k);
        }
    }
    assert forall|i: int, t: int|
        0 <= i < s0.mods.len() && 0 <= t < s0.mods[i].entries.len() implies placed_entry_ok(
        agent,
        #[trigger] s0.mods[i].entries[t],
    ) by {
        assert(i < s.mods.len());
        assert(s0.mods[i].entries[t] == s.mods[i].entries[t]);
    }
    assert(reading_ok(agent, s0));
    lemma_fold_entries_reading(agent, key, idx, s0, m.entries);
}

/// Reading modules keeps `reading_ok` from the start.
pub(crate) proof fn lemma_fold_modules_reading(agent: PromptAgentKind, ms: Seq<ModuleView>)
    requires
        fold_modules(agent, ms) is Ok,
    ensures
        reading_ok(agent, fold_modules(agent, ms)->Ok_0),
    decreases ms.len(),
{
    if ms.len() == 0 {
        lemma_reading_start(agent);
    } else {
        lemma_fold_modules_reading(agent, ms.drop_last());
        lemma_step_module_reading(agent, fold_modules(agent, ms.drop_last())->Ok_0, ms.last());
    }
}

/// When placing pending entries succeeds, none of them had an id already
/// read.
proof fn lemma_flush_fresh(agent: PromptAgentKind, s: NormState, p: Seq<(ModuleKey, EntryView)>)
    requires
        fold_flush(agent, s, p) is Ok,
    ensures
        forall|q: int| 0 <= q < p.len() ==> !s.seen_ents.contains((#[trigger] p[q]).1.entry_id),
        forall|x: Seq<char>| s.seen_ents.contains(x) ==> (fold_flush(agent, s, p)->Ok_0).seen_ents.contains(x),
    decreases p.len(),
{
    if p.len() > 0 {
        let t = p.drop_last();
        lemma_flush_fresh(agent, s, t);
        let s2 = fold_flush(agent, s, t)->Ok_0;
        assert forall|q: int| 0 <= q < p.len() implies !s.seen_ents.contains((#[trigger] p[q]).1.entry_id) by {
            if q < t.len() {
                assert(t[q] == p[q]);
            }
        }
        assert forall|x: Seq<char>| s.seen_ents.contains(x) implies (fold_flush(agent, s, p)->Ok_0).seen_ents.contains(x) by {
            assert(s2.seen_ents.contains(x));
            if !s2.seen_ents.contains(p.last().1.entry_id) && module_index(s2.mods, p.last().0) is Some {
                let k = choose|k: int| 0 <= k < s2.seen_ents.len() && s2.seen_ents[k] == x;
                assert(s2.seen_ents.push(p.last().1.entry_id)[k] == x);
            }
        }
    }
}

/// What holds of the merged modules of a preset that normalization accepts.
pub open spec fn merged_ok(agent: PromptAgentKind, mods: Seq<ModuleView>) -> bool {
    &&& keys_distinct(mods)
    &&& forall|i: int|
        0 <= i < mods.len() ==> normal_key((#[trigger] mods[i]).module_id) && tidy(mods[i].display_name)
    &&& builtins_present(mods)
    &&& forall|i: int, t: int|
        0 <= i < mods.len() && 0 <= t < mods[i].entries.len() ==> normal_entry(agent, #[trigger] mods[i].entries[t])
    &&& ids_unique(mods)
    &&& forall|q: int|
        0 <= q < initial_pending(agent).len() ==> id_placed(mods, (#[trigger] initial_pending(agent)[q]).1.entry_id)
}

/// The merged modules of an accepted preset satisfy `merged_ok`.
#[verifier::rlimit(40)]
pub(crate) proof fn lemma_merged_ok(agent: PromptAgentKind, c: crate::prompt::types::PresetView)
    requires
        merged(agent, c) is Ok,
    ensures
        merged_ok(agent, (merged(agent, c)->Ok_0).mods),
{
    lemma_fold_modules_reading(agent, c.modules);
    let s = fold_modules(agent, c.modules)->Ok_0;
    let p = s.pending;
    lemma_flush_fresh(agent, s, p);
    assert forall|q: int| 0 <= q < p.len() implies module_index(s.mods, (#[trigger] p[q]).0) is Some by {
        assert(p.contains(p[q]));
        lemma_pending_is_builtin(agent, s, p[q]);
        let i = choose|i: int| 0 <= i < s.mods.len() && (#[trigger] s.mods[i]).module_id == p[q].0;
        lemma_module_index(s.mods, p[q].0);
    }
    lemma_fold_flush_places(agent, s, p);
    let sf = fold_flush(agent, s, p)->Ok_0;
    assert(merged(agent, c)->Ok_0 == sf);
    lemma_initial_pending(agent);
    let p0 = initial_pending(agent);
    // shape of the final modules
    assert forall|i: int| 0 <= i < sf.mods.len() implies (#[trigger] sf.mods[i]).module_id == s.mods[i].module_id
        && sf.mods[i].display_name == s.mods[i].display_name
        && sf.mods[i].entries == s.mods[i].entries + placed_in(p, s.mods[i].module_id) by {}
    assert forall|i: int| 0 <= i < sf.mods.len() implies #[trigger] placed_in(p, s.mods[i].module_id)
        == placed_in(p, s.mods[i].module_id) by {
        lemma_placed_in(p, s.mods[i].module_id);
    }
    // where a final entry comes from
    assert forall|i: int, t: int| 0 <= i < sf.mods.len() && 0 <= t < sf.mods[i].entries.len() implies
        (t < s.mods[i].entries.len() && #[trigger] sf.mods[i].entries[t] == s.mods[i].entries[t]) || (
        t >= s.mods[i].entries.len() && exists|q: int|
            0 <= q < p.len() && (#[trigger] p[q]).0 == s.mods[i].module_id && p[q].1 == sf.mods[i].entries[t]) by {
        let l = s.mods[i].entries.len() as int;
        if t >= l {
            lemma_placed_in(p, s.mods[i].module_id);
            let pp = placed_in(p, s.mods[i].module_id);
            assert(sf.mods[i].entries[t] == pp[t - l]);
            assert(pp.contains(pp[t - l]));
        }
    }
    assert(keys_distinct(sf.mods)) by {
        assert forall|a: int, b: int|
            0 <= a < sf.mods.len() && 0 <= b < sf.mods.len() && (#[trigger] sf.mods[a]).module_id
                == (#[trigger] sf.mods[b]).module_id implies a == b by {
            assert(s.mods[a].module_id == s.mods[b].module_id);
        }
    }
    assert forall|i: int| 0 <= i < sf.mods.len() implies normal_key((#[trigger] sf.mods[i]).module_id) && tidy(
        sf.mods[i].display_name,
    ) by {
        assert(normal_key(s.mods[i].module_id));
    }
    assert(builtins_present(sf.mods)) by {
        assert forall|k: ModuleKey| #[trigger] is_builtin_key(k) implies exists|i: int|
            0 <= i < sf.mods.len() && (#[trigger] sf.mods[i]).module_id == k by {
            let i = choose|i: int| 0 <= i < s.mods.len() && (#[trigger] s.mods[i]).module_id == k;
            assert(sf.mods[i].module_id == k);
        }
    }
    assert forall|i: int, t: int|
        0 <= i < sf.mods.len() && 0 <= t < sf.mods[i].entries.len() implies normal_entry(agent, #[trigger] sf.mods[i].entries[t]) by {
        let e = sf.mods[i].entries[t];
        if t < s.mods[i].entries.len() {
            assert(placed_entry_ok(agent, s.mods[i].entries[t]));
            if e.kind == PromptEntryKind::CustomText && builtin_entry(agent, e.entry_id) is Some {
                let y = builtin_entry(agent, e.entry_id)->0;
                lemma_builtin_entry(agent, e.entry_id);
                let q0 = choose|q0: int|
                    0 <= q0 < p0.len() && #[trigger] p0[q0] == builtin_entry(agent, e.entry_id)->0 && p0[q0].1.entry_id == e.entry_id;
                assert(p0.contains(y));
                assert(id_placed(s.mods, e.entry_id));
                assert(s.seen_ents.contains(e.entry_id));
                if p.contains(y) {
                    let q = choose|q: int| 0 <= q < p.len() && p[q] == y;
                    assert(!s.seen_ents.contains(p[q].1.entry_id));
                } else {
                    assert(builtin_placed(s.mods, y.1.entry_id));
                    let (i2, t2) = choose|i2: int, t2: int|
                        0 <= i2 < s.mods.len() && 0 <= t2 < s.mods[i2].entries.len() && (#[trigger] s.mods[i2].entries[t2]).entry_id
                            == y.1.entry_id && s.mods[i2].entries[t2].kind != PromptEntryKind::CustomText;
                    assert(s.mods[i2].entries[t2].entry_id == s.mods[i].entries[t].entry_id);
                }
            }
        } else {
            let q = choose|q: int| 0 <= q < p.len() && (#[trigger] p[q]).0 == s.mods[i].module_id && p[q].1 == sf.mods[i].entries[t];
            assert(p.contains(p[q]));
            lemma_pending_is_builtin(agent, s, p[q]);
        }
    }
    assert(ids_unique(sf.mods)) by {
        assert forall|a: int, i: int, b: int, j: int|
            0 <= a < sf.mods.len() && 0 <= i < sf.mods[a].entries.len() && 0 <= b < sf.mods.len() && 0 <= j
                < sf.mods[b].entries.len() && (#[trigger] sf.mods[a].entries[i]).entry_id == (
            #[trigger] sf.mods[b].entries[j]).entry_id implies a == b && i == j by {
            let la = s.mods[a].entries.len() as int;
            let lb = s.mods[b].entries.len() as int;
            let id = sf.mods[a].entries[i].entry_id;
            if i < la && j < lb {
            } else if i < la && j >= lb {
                let q = choose|q: int| 0 <= q < p.len() && (#[trigger] p[q]).0 == s.mods[b].module_id && p[q].1 == sf.mods[b].entries[j];
                assert(id_placed(s.mods, id));
                assert(s.seen_ents.contains(p[q].1.entry_id));
            } else if i >= la && j < lb {
                let q = choose|q: int| 0 <= q < p.len() && (#[trigger] p[q]).0 == s.mods[a].module_id && p[q].1 == sf.mods[a].entries[i];
                assert(id_placed(s.mods, id));
                assert(s.seen_ents.contains(p[q].1.entry_id));
            } else {
                let q1 = choose|q: int| 0 <= q < p.len() && (#[trigger] p[q]).0 == s.mods[a].module_id && p[q].1 == sf.mods[a].entries[i];
                let q2 = choose|q: int| 0 <= q < p.len() && (#[trigger] p[q]).0 == s.mods[b].module_id && p[q].1 == sf.mods[b].entries[j];
                if q1 != q2 {
                    if q1 < q2 {
                        assert(p[q1].1.entry_id != p[q2].1.entry_id);
                    } else {
                        assert(p[q2].1.entry_id != p[q1].1.entry_id);
                    }
                }
                assert(s.mods[a].module_id == s.mods[b].module_id);
                assert(a == b);
                lemma_placed_in(p, s.mods[a].module_id);
                let pp = placed_in(p, s.mods[a].module_id);
                assert(sf.mods[a].entries[i] == pp[i - la]);
                assert(sf.mods[a].entries[j] == pp[j - la]);
                if i != j {
                    if i < j {
                        assert(pp[i - la].entry_id != pp[j - la].entry_id);
                    } else {
                        assert(pp[j - la].entry_id != pp[i - la].entry_id);
                    }
                }
            }
        }
    }
    assert forall|q: int| 0 <= q < p0.len() implies id_placed(sf.mods, (#[trigger] p0[q]).1.entry_id) by {
        let y = p0[q];
        assert(p0.contains(y));
        if p.contains(y) {
            let qq = choose|qq: int| 0 <= qq < p.len() && p[qq] == y;
            lemma_pending_is_builtin(agent, s, y);
            let i = choose|i: int| 0 <= i < s.mods.len() && (#[trigger] s.mods[i]).module_id == y.0;
            lemma_placed_in(p, y.0);
            let pp = placed_in(p, y.0);
            assert(pp.contains(y.1));
            let k = choose|k: int| 0 <= k < pp.len() && pp[k] == y.1;
            let l = s.mods[i].entries.len() as int;
            assert(sf.mods[i].entries[l + k] == y.1);
        } else {
            assert(builtin_placed(s.mods, y.1.entry_id));
            let (i2, t2) = choose|i2: int, t2: int|
                0 <= i2 < s.mods.len() && 0 <= t2 < s.mods[i2].entries.len() && (#[trigger] s.mods[i2].entries[t2]).entry_id
                    == y.1.entry_id && s.mods[i2].entries[t2].kind != PromptEntryKind::CustomText;
            assert(sf.mods[i2].entries[t2] == s.mods[i2].entries[t2]);
        }
    }
}

/// Sequences with the same multiset have the same elements, and repeat none
/// when one repeats none.
pub(crate) proof fn lemma_multiset_transfer<A>(x: Seq<A>, y: Seq<A>)
    requires
        x.to_multiset() == y.to_multiset(),
    ensures
        forall|v: A| x.contains(v) <==> y.contains(v),
        x.no_duplicates() ==> y.no_duplicates(),
{
    broadcast use vstd::seq_lib::group_to_multiset_ensures;

    assert forall|v: A| x.contains(v) <==> y.contains(v) by {
        assert(x.contains(v) <==> x.to_multiset().count(v) > 0);
        assert(y.contains(v) <==> y.to_multiset().count(v) > 0);
    }
    if x.no_duplicates() {
        x.lemma_multiset_has_no_duplicates();
        y.lemma_multiset_has_no_duplicates_conv();
    }
}

/// Two sequences with the same multiset, each sorted by a relation that
/// orders any two of their different elements, are equal.
pub(crate) proof fn lemma_sorted_unique_by<A>(x: Seq<A>, y: Seq<A>, lt: spec_fn(A, A) -> bool)
    requires
        x.to_multiset() == y.to_multiset(),
        forall|i: int, j: int| 0 <= i < j < x.len() ==> !lt(#[trigger] x[j], #[trigger] x[i]),
        forall|i: int, j: int| 0 <= i < j < y.len() ==> !lt(#[trigger] y[j], #[trigger] y[i]),
        forall|u: A, v: A| x.contains(u) && x.contains(v) && u != v ==> #[trigger] lt(u, v) || #[trigger] lt(v, u),
    ensures
        x == y,
    decreases x.len(),
{
    broadcast use vstd::seq_lib::group_to_multiset_ensures;

    lemma_multiset_transfer(x, y);
    assert(x.len() == y.len()) by {
        assert(x.to_multiset().len() == x.len());
        assert(y.to_multiset().len() == y.len());
    }
    if x.len() > 0 {
        let a = x[0];
        let b = y[0];
        assert(y.contains(b));
        assert(x.contains(b));
        assert(x.contains(a));
        assert(y.contains(a));
        if a != b {
            let i = choose|i: int| 0 <= i < x.len() && x[i] == b;
            let k = choose|k: int| 0 <= k < y.len() && y[k] == a;
            assert(i > 0 && k > 0);
            assert(!lt(x[i], x[0]));
            assert(!lt(y[k], y[0]));
            assert(lt(a, b) || lt(b, a));
        }
        let x1 = x.drop_first();
        let y1 = y.drop_first();
        assert(x1 =~= x.remove(0));
        assert(y1 =~= y.remove(0));
        assert(x1.to_multiset() == y1.to_multiset());
        assert forall|i: int, j: int| 0 <= i < j < x1.len() implies !lt(#[trigger] x1[j], #[trigger] x1[i]) by {
            assert(x1[i] == x[i + 1] && x1[j] == x[j + 1]);
        }
        assert forall|i: int, j: int| 0 <= i < j < y1.len() implies !lt(#[trigger] y1[j], #[trigger] y1[i]) by {
            assert(y1[i] == y[i + 1] && y1[j] == y[j + 1]);
        }
        assert forall|u: A, v: A| x1.contains(u) && x1.contains(v) && u != v implies #[trigger] lt(u, v) || #[trigger] lt(v, u) by {
            let i = choose|i: int| 0 <= i < x1.len() && x1[i] == u;
            let j = choose|j: int| 0 <= j < x1.len() && x1[j] == v;
            assert(x[i + 1] == u && x[j + 1] == v);
            assert(x.contains(u) && x.contains(v));
        }
        lemma_sorted_unique_by(x1, y1, lt);
        assert(x =~= y) by {
            assert forall|i: int| 0 <= i < x.len() implies x[i] == y[i] by {
                if i > 0 {
                    assert(x[i] == x1[i - 1] && y[i] == y1[i - 1]);
                }
            }
        }
    }
}

/// Different normal module identifiers have different names.
pub(crate) proof fn lemma_key_str_injective(k1: ModuleKey, k2: ModuleKey)
    requires
        normal_key(k1),
        normal_key(k2),
        k1 != k2,
    ensures
        module_key_str(k1) != module_key_str(k2),
{
    reveal_strlit("role");
    reveal_strlit("task");
    reveal_strlit("static_context");
    reveal_strlit("dynamic_context");
    reveal_strlit("output");
    if let ModuleKey::Custom(s1) = k1 {
        lemma_trim_idempotent(s1);
        assert(module_key_from_raw(trim_seq(s1)) == k1);
    }
    if let ModuleKey::Custom(s2) = k2 {
        lemma_trim_idempotent(s2);
        assert(module_key_from_raw(trim_seq(s2)) == k2);
    }
    if module_key_str(k1) == module_key_str(k2) {
        if k1 is Custom && k2 is Custom {
        } else if k1 is Custom {
            assert(module_key_from_raw(module_key_str(k2)) == k2);
        } else if k2 is Custom {
            assert(module_key_from_raw(module_key_str(k1)) == k1);
        } else {
            assert("role"@.len() == 4 && "task"@.len() == 4 && "static_context"@.len() == 14);
            assert("dynamic_context"@.len() == 15 && "output"@.len() == 6);
            assert("role"@[0] != "task"@[0]);
        }
    }
}

/// The facts that a result's modules inherit from the merged modules.
proof fn lemma_parts_facts(agent: PromptAgentKind, sm: Seq<ModuleView>, out: Seq<ModuleView>, mid: Seq<ModuleView>)
    requires
        merged_ok(agent, sm),
        mid.len() == sm.len(),
        forall|i: int| 0 <= i < mid.len() ==> resorted_module(#[trigger] sm[i], mid[i]),
        mid.to_multiset() == out.to_multiset(),
    ensures
        mid.no_duplicates(),
        out.no_duplicates(),
        forall|v: ModuleView| mid.contains(v) <==> out.contains(v),
        forall|i: int| 0 <= i < mid.len() ==> (#[trigger] mid[i]).entries.no_duplicates(),
        forall|i: int, v: EntryView| 0 <= i < mid.len() ==> (#[trigger] mid[i].entries.contains(v) <==> sm[i].entries.contains(v)),
{
    assert forall|i: int, j: int| 0 <= i < mid.len() && 0 <= j < mid.len() && i != j implies mid[i] != mid[j] by {
        assert(resorted_module(sm[i], mid[i]) && resorted_module(sm[j], mid[j]));
    }
    lemma_multiset_transfer(mid, out);
    assert forall|i: int| 0 <= i < mid.len() implies (#[trigger] mid[i]).entries.no_duplicates() && forall|v: EntryView|
        mid[i].entries.contains(v) <==> sm[i].entries.contains(v) by {
        assert(resorted_module(sm[i], mid[i]));
        assert(sm[i].entries.no_duplicates()) by {
            assert forall|x: int, y: int| 0 <= x < sm[i].entries.len() && 0 <= y < sm[i].entries.len() && x != y implies
                sm[i].entries[x] != sm[i].entries[y] by {
                if sm[i].entries[x] == sm[i].entries[y] {
                    assert(sm[i].entries[x].entry_id == sm[i].entries[y].entry_id);
                }
            }
        }
        lemma_multiset_transfer(sm[i].entries, mid[i].entries);
    }
}

/// The result of normalizing an accepted preset is in normal form.
#[verifier::rlimit(40)]
pub proof fn lemma_normalized_is_normal(agent: PromptAgentKind, c: PresetView, out: PresetView)
    requires
        normalized_result(agent, c, out),
    ensures
        normal_modules(agent, out.modules),
{
    let sf = merged(agent, c)->Ok_0;
    lemma_merged_ok(agent, c);
    let sm = sf.mods;
    let o = out.modules;
    let mid = choose|mid: Seq<ModuleView>|
        #![trigger mid.to_multiset()]
        {
            &&& mid.len() == sf.mods.len()
            &&& forall|i: int| 0 <= i < mid.len() ==> resorted_module(#[trigger] sf.mods[i], mid[i])
            &&& mid.to_multiset() == out.modules.to_multiset()
        };
    lemma_parts_facts(agent, sm, o, mid);
    // each module of the result is one of the sorted parts
    assert forall|a: int| #![trigger o[a]] 0 <= a < o.len() implies exists|i: int| 0 <= i < mid.len() && #[trigger] mid[i] == o[a] by {
        assert(o.contains(o[a]));
        assert(mid.contains(o[a]));
    }
    assert(keys_distinct(o)) by {
        assert forall|a: int, b: int|
            0 <= a < o.len() && 0 <= b < o.len() && (#[trigger] o[a]).module_id == (#[trigger] o[b]).module_id implies a == b by {
            let i = choose|i: int| 0 <= i < mid.len() && #[trigger] mid[i] == o[a];
            let j = choose|j: int| 0 <= j < mid.len() && #[trigger] mid[j] == o[b];
            assert(resorted_module(sm[i], mid[i]) && resorted_module(sm[j], mid[j]));
            assert(i == j);
        }
    }
    assert(nm_modules_ok(o)) by {
        reveal(nm_modules_ok);
        assert forall|a: int| 0 <= a < o.len() implies {
            &&& normal_key((#[trigger] o[a]).module_id)
            &&& tidy(o[a].display_name)
            &&& entries_sorted(o[a].entries)
        } by {
            let i = choose|i: int| 0 <= i < mid.len() && #[trigger] mid[i] == o[a];
            assert(resorted_module(sm[i], mid[i]));
        }
    }
    assert(nm_builtins_present(o)) by {
        reveal(nm_builtins_present);
        assert forall|k: ModuleKey| #[trigger] is_builtin_key(k) implies exists|a: int| 0 <= a < o.len() && (#[trigger] o[a]).module_id == k by {
            let i = choose|i: int| 0 <= i < sm.len() && (#[trigger] sm[i]).module_id == k;
            assert(resorted_module(sm[i], mid[i]));
            assert(mid.contains(mid[i]));
            let a = choose|a: int| 0 <= a < o.len() && o[a] == mid[i];
        }
    }
    assert(nm_entries_normal(agent, o)) by {
        reveal(nm_entries_normal);
        assert forall|a: int, t: int| 0 <= a < o.len() && 0 <= t < o[a].entries.len() implies normal_entry(agent, #[trigger] o[a].entries[t]) by {
            let i = choose|i: int| 0 <= i < mid.len() && #[trigger] mid[i] == o[a];
            let v = o[a].entries[t];
            assert(mid[i].entries.contains(v));
            assert(sm[i].entries.contains(v));
            let t2 = choose|t2: int| 0 <= t2 < sm[i].entries.len() && sm[i].entries[t2] == v;
        }
    }
    assert(nm_ids_unique(o)) by {
        reveal(nm_ids_unique);
        assert forall|a: int, x: int, b: int, y: int|
            0 <= a < o.len() && 0 <= x < o[a].entries.len() && 0 <= b < o.len() && 0 <= y
                < o[b].entries.len() && (#[trigger] o[a].entries[x]).entry_id == (
            #[trigger] o[b].entries[y]).entry_id implies a == b && x == y by {
            let i = choose|i: int| 0 <= i < mid.len() && #[trigger] mid[i] == o[a];
            let j = choose|j: int| 0 <= j < mid.len() && #[trigger] mid[j] == o[b];
            let u = o[a].entries[x];
            let v = o[b].entries[y];
            assert(mid[i].entries.contains(u));
            assert(mid[j].entries.contains(v));
            assert(sm[i].entries.contains(u));
            assert(sm[j].entries.contains(v));
            let x2 = choose|x2: int| 0 <= x2 < sm[i].entries.len() && sm[i].entries[x2] == u;
            let y2 = choose|y2: int| 0 <= y2 < sm[j].entries.len() && sm[j].entries[y2] == v;
            assert(sm[i].entries[x2].entry_id == sm[j].entries[y2].entry_id);
            assert(i == j && x2 == y2);
            assert(o[a] == o[b]);
            if a != b {
                assert(o[a] != o[b]);
            }
            assert(mid[i].entries.no_duplicates());
        }
    }
    assert(nm_covers(agent, o)) by {
        reveal(nm_covers);
        lemma_initial_pending(agent);
        let p0 = initial_pending(agent);
        assert forall|q: int| 0 <= q < p0.len() implies exists|a: int, t: int|
            0 <= a < o.len() && 0 <= t < o[a].entries.len() && (#[trigger] o[a].entries[t]).entry_id
                == (#[trigger] p0[q]).1.entry_id by {
            assert(id_placed(sm, p0[q].1.entry_id));
            let (i, t) = choose|i: int, t: int|
                0 <= i < sm.len() && 0 <= t < sm[i].entries.len() && (#[trigger] sm[i].entries[t]).entry_id == p0[q].1.entry_id;
            let v = sm[i].entries[t];
            assert(sm[i].entries.contains(v));
            assert(mid[i].entries.contains(v));
            let t2 = choose|t2: int| 0 <= t2 < mid[i].entries.len() && mid[i].entries[t2] == v;
            assert(mid.contains(mid[i]));
            let a = choose|a: int| 0 <= a < o.len() && o[a] == mid[i];
            assert(o[a].entries[t2] == v);
        }
    }
}

/// Ordering entries.
pub open spec fn entry_order() -> spec_fn(EntryView, EntryView) -> bool {
    |u: EntryView, v: EntryView| entry_before(u, v)
}

/// Ordering modules.
pub open spec fn module_order() -> spec_fn(ModuleView, ModuleView) -> bool {
    |u: ModuleView, v: ModuleView| module_before(u, v)
}

/// A merged module has one sorted form.
proof fn lemma_resorted_unique(agent: PromptAgentKind, sm: Seq<ModuleView>, i: int, x: ModuleView, y: ModuleView)
    requires
        merged_ok(agent, sm),
        0 <= i < sm.len(),
        resorted_module(sm[i], x),
        resorted_module(sm[i], y),
    ensures
        x == y,
{
    let es = sm[i].entries;
    lemma_multiset_transfer(es, x.entries);
    assert forall|u: EntryView, v: EntryView|
        x.entries.contains(u) && x.entries.contains(v) && u != v implies #[trigger] entry_order()(u, v)
        || #[trigger] entry_order()(v, u) by {
        assert(es.contains(u) && es.contains(v));
        let a = choose|a: int| 0 <= a < es.len() && es[a] == u;
        let b = choose|b: int| 0 <= b < es.len() && es[b] == v;
        assert(sm[i].entries[a].entry_id != sm[i].entries[b].entry_id);
        lemma_seq_lt_total(u.entry_id, v.entry_id);
    }
    assert forall|p: int, q: int| 0 <= p < q < x.entries.len() implies !entry_order()(#[trigger] x.entries[q], #[trigger] x.entries[p]) by {
        assert(!entry_before(x.entries[q], x.entries[p]));
    }
    assert forall|p: int, q: int| 0 <= p < q < y.entries.len() implies !entry_order()(#[trigger] y.entries[q], #[trigger] y.entries[p]) by {
        assert(!entry_before(y.entries[q], y.entries[p]));
    }
    lemma_sorted_unique_by(x.entries, y.entries, entry_order());
}

/// Normalization has at most one result.
#[verifier::rlimit(40)]
pub proof fn lemma_normalized_unique(agent: PromptAgentKind, c: PresetView, o1: PresetView, o2: PresetView)
    requires
        normalized_result(agent, c, o1),
        normalized_result(agent, c, o2),
    ensures
        o1 == o2,
{
    let sf = merged(agent, c)->Ok_0;
    lemma_merged_ok(agent, c);
    let sm = sf.mods;
    let mid1 = choose|mid: Seq<ModuleView>|
        #![trigger mid.to_multiset()]
        {
            &&& mid.len() == sf.mods.len()
            &&& forall|i: int| 0 <= i < mid.len() ==> resorted_module(#[trigger] sf.mods[i], mid[i])
            &&& mid.to_multiset() == o1.modules.to_multiset()
        };
    let mid2 = choose|mid: Seq<ModuleView>|
        #![trigger mid.to_multiset()]
        {
            &&& mid.len() == sf.mods.len()
            &&& forall|i: int| 0 <= i < mid.len() ==> resorted_module(#[trigger] sf.mods[i], mid[i])
            &&& mid.to_multiset() == o2.modules.to_multiset()
        };
    assert forall|i: int| 0 <= i < mid1.len() implies mid1[i] == mid2[i] by {
        lemma_resorted_unique(agent, sm, i, mid1[i], mid2[i]);
    }
    assert(mid1 =~= mid2);
    lemma_parts_facts(agent, sm, o1.modules, mid1);
    let x = o1.modules;
    let y = o2.modules;
    assert forall|u: ModuleView, v: ModuleView|
        x.contains(u) && x.contains(v) && u != v implies #[trigger] module_order()(u, v)
        || #[trigger] module_order()(v, u) by {
        assert(mid1.contains(u) && mid1.contains(v));
        let i = choose|i: int| 0 <= i < mid1.len() && mid1[i] == u;
        let j = choose|j: int| 0 <= j < mid1.len() && mid1[j] == v;
        assert(resorted_module(sm[i], mid1[i]) && resorted_module(sm[j], mid1[j]));
        assert(sm[i].module_id != sm[j].module_id);
        lemma_key_str_injective(sm[i].module_id, sm[j].module_id);
        lemma_seq_lt_total(module_key_str(u.module_id), module_key_str(v.module_id));
    }
    assert forall|p: int, q: int| 0 <= p < q < x.len() implies !module_order()(#[trigger] x[q], #[trigger] x[p]) by {
        assert(!module_before(x[q], x[p]));
    }
    assert forall|p: int, q: int| 0 <= p < q < y.len() implies !module_order()(#[trigger] y[q], #[trigger] y[p]) by {
        assert(!module_before(y[q], y[p]));
    }
    lemma_sorted_unique_by(x, y, module_order());
}

} // verus!
