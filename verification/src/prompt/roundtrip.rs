//! The normal form of a preset, and what normalization does with a preset
//! that holds enough of a normal form: it rebuilds that normal form exactly.
//! The laws of normalization and compaction rest on this.
use vstd::prelude::*;

use crate::prompt::compact::{
    compact_entries, compact_entry, compact_module, compact_modules, compact_spec,
    default_module_of, matches_default, stripped,
};
use crate::prompt::defaults::{
    builtin_module_name, builtin_module_order, builtin_module_role, builtin_modules,
    default_module, default_preset, entry_from_template, fallback_name,
};
use crate::prompt::normalize::{
    drop_pending, empty_builtin_module, find_pending, fold_entries, fold_flush, fold_modules,
    initial_pending, initial_state, is_removed_builtin, merged, module_fallback_name,
    module_index, module_index_from, new_module, normalize_entry_spec, normalize_key,
    normalized_result, opened_index, opened_mods, opened_state, other_id, resorted_module,
    step_entry, step_flush, step_module, with_entry, with_metadata, NormState,
};
use crate::prompt::sort::{entries_sorted, modules_sorted};
use crate::prompt::template_facts::{
    lemma_actor_templates_ok, lemma_architect_templates_ok, lemma_director_templates_ok,
    lemma_keeper_templates_ok, lemma_narrator_templates_ok, lemma_planner_templates_ok,
    lemma_replyer_templates_ok, templates_ok,
};
use crate::prompt::templates::{agent_templates, builtin_key, BuiltinModule, TemplateView};
use crate::prompt::types::{
    is_builtin_key, module_key_from_raw, module_key_str, ConfigErrorView, EntryView, ModuleKey,
    ModuleView, PresetView, PromptAgentKind, PromptEntryKind,
};
use crate::text::{is_blank, lemma_trim_empty_iff_blank, lemma_trim_idempotent, trim_seq};

verus! {

/// Text with no surrounding whitespace and at least one character.
pub open spec fn tidy(x: Seq<char>) -> bool {
    trim_seq(x) == x && x.len() > 0
}

/// The built-in entry id that normalization drops for an agent.
pub open spec fn dropped_id(agent: PromptAgentKind) -> Seq<char> {
    if agent == PromptAgentKind::Keeper {
        "keeper_shared_history"@
    } else {
        "director_player_input"@
    }
}

/// The built-in entry an agent defines under an id, with its module.
pub open spec fn builtin_entry(agent: PromptAgentKind, id: Seq<char>) -> Option<(ModuleKey, EntryView)> {
    find_pending(initial_pending(agent), id)
}

/// No two of the pending entries share an id.
pub open spec fn ids_distinct(p: Seq<(ModuleKey, EntryView)>) -> bool {
    forall|i: int, j: int|
        0 <= i < j < p.len() ==> (#[trigger] p[i]).1.entry_id != (#[trigger] p[j]).1.entry_id
}

/// An entry as normalization leaves it: trimmed id and name; a custom entry
/// with text, no flags of its own, and an id no built-in entry uses; a
/// built-in entry with the kind, requirement, text and context key of its
/// definition, and switched on when required.
pub open spec fn normal_entry(agent: PromptAgentKind, e: EntryView) -> bool {
    &&& tidy(e.entry_id)
    &&& tidy(e.display_name)
    &&& if e.kind == PromptEntryKind::CustomText {
        &&& e.text is Some
        &&& !is_blank(e.text->0)
        &&& !e.required
        &&& e.context_key is None
        &&& builtin_entry(agent, e.entry_id) is None
    } else {
        &&& builtin_entry(agent, e.entry_id) is Some
        &&& (builtin_entry(agent, e.entry_id)->0).1.kind == e.kind
        &&& e.required == (builtin_entry(agent, e.entry_id)->0).1.required
        &&& (e.required ==> e.enabled)
        &&& e.text == (builtin_entry(agent, e.entry_id)->0).1.text
        &&& e.context_key == (builtin_entry(agent, e.entry_id)->0).1.context_key
    }
}

/// A built-in entry with the requirement, text and context key of its
/// definition put back; a custom entry as it is.
pub open spec fn restored(agent: PromptAgentKind, e: EntryView) -> EntryView {
    if e.kind == PromptEntryKind::CustomText {
        e
    } else {
        match builtin_entry(agent, e.entry_id) {
            Some(p) => EntryView {
                required: p.1.required,
                text: p.1.text,
                context_key: p.1.context_key,
                ..e
            },
            None => e,
        }
    }
}

pub(crate) proof fn lemma_agent_templates_ok(agent: PromptAgentKind)
    ensures
        templates_ok(agent_templates(agent), dropped_id(agent)),
{
    match agent {
        PromptAgentKind::Planner => lemma_planner_templates_ok(),
        PromptAgentKind::Architect => lemma_architect_templates_ok(),
        PromptAgentKind::Director => lemma_director_templates_ok(),
        PromptAgentKind::Actor => lemma_actor_templates_ok(),
        PromptAgentKind::Narrator => lemma_narrator_templates_ok(),
        PromptAgentKind::Keeper => lemma_keeper_templates_ok(),
        PromptAgentKind::Replyer => lemma_replyer_templates_ok(),
    }
}

/// What the built-in entries of an agent are like.
pub(crate) proof fn lemma_initial_pending(agent: PromptAgentKind)
    ensures
        ids_distinct(initial_pending(agent)),
        forall|q: int|
            0 <= q < initial_pending(agent).len() ==> {
                &&& tidy((#[trigger] initial_pending(agent)[q]).1.entry_id)
                &&& tidy(initial_pending(agent)[q].1.display_name)
                &&& initial_pending(agent)[q].1.kind != PromptEntryKind::CustomText
                &&& initial_pending(agent)[q].1.enabled
                &&& is_builtin_key(initial_pending(agent)[q].0)
                &&& !is_removed_builtin(agent, initial_pending(agent)[q].1)
            },
{
    lemma_agent_templates_ok(agent);
    let ts = agent_templates(agent);
    let p = initial_pending(agent);
    assert forall|i: int, j: int| 0 <= i < j < p.len() implies (#[trigger] p[i]).1.entry_id
        != (#[trigger] p[j]).1.entry_id by {
        assert(p[i].1.entry_id == ts[i].entry_id);
        assert(p[j].1.entry_id == ts[j].entry_id);
    }
    assert forall|q: int| 0 <= q < p.len() implies {
        &&& tidy((#[trigger] p[q]).1.entry_id)
        &&& tidy(p[q].1.display_name)
        &&& p[q].1.kind != PromptEntryKind::CustomText
        &&& p[q].1.enabled
        &&& is_builtin_key(p[q].0)
        &&& !is_removed_builtin(agent, p[q].1)
    } by {
        assert(p[q] == (builtin_key(ts[q].module), entry_from_template(ts[q])));
        assert(ts[q].entry_id != dropped_id(agent));
    }
}

pub(crate) proof fn lemma_find_pending_at(p: Seq<(ModuleKey, EntryView)>, id: Seq<char>, q: int)
    requires
        0 <= q < p.len(),
        p[q].1.entry_id == id,
        ids_distinct(p),
    ensures
        find_pending(p, id) == Some(p[q]),
    decreases p.len(),
{
    if q > 0 {
        assert(p[0].1.entry_id != p[q].1.entry_id);
        let t = p.drop_first();
        assert(t[q - 1] == p[q]);
        assert forall|i: int, j: int| 0 <= i < j < t.len() implies (#[trigger] t[i]).1.entry_id
            != (#[trigger] t[j]).1.entry_id by {
            assert(t[i] == p[i + 1]);
            assert(t[j] == p[j + 1]);
        }
        lemma_find_pending_at(t, id, q - 1);
    }
}

pub(crate) proof fn lemma_find_pending_none(p: Seq<(ModuleKey, EntryView)>, id: Seq<char>)
    requires
        forall|q: int| 0 <= q < p.len() ==> (#[trigger] p[q]).1.entry_id != id,
    ensures
        find_pending(p, id) is None,
    decreases p.len(),
{
    if p.len() > 0 {
        let t = p.drop_first();
        assert forall|q: int| 0 <= q < t.len() implies (#[trigger] t[q]).1.entry_id != id by {
            assert(t[q] == p[q + 1]);
        }
        lemma_find_pending_none(t, id);
    }
}

pub(crate) proof fn lemma_find_pending_found(p: Seq<(ModuleKey, EntryView)>, id: Seq<char>)
    ensures
        find_pending(p, id) is Some ==> exists|q: int|
            0 <= q < p.len() && #[trigger] p[q] == find_pending(p, id)->0 && p[q].1.entry_id == id,
    decreases p.len(),
{
    if p.len() > 0 && p[0].1.entry_id != id {
        let t = p.drop_first();
        lemma_find_pending_found(t, id);
        if find_pending(t, id) is Some {
            let q = choose|q: int|
                0 <= q < t.len() && #[trigger] t[q] == find_pending(t, id)->0 && t[q].1.entry_id
                    == id;
            assert(p[q + 1] == t[q]);
        }
    } else if p.len() > 0 {
        assert(p[0] == find_pending(p, id)->0);
    }
}

/// The built-in entry of an id, when there is one, is one of the agent's
/// built-in entries and carries that id.
pub(crate) proof fn lemma_builtin_entry(agent: PromptAgentKind, id: Seq<char>)
    ensures
        builtin_entry(agent, id) is Some ==> exists|q: int|
            0 <= q < initial_pending(agent).len() && #[trigger] initial_pending(agent)[q]
                == builtin_entry(agent, id)->0 && initial_pending(agent)[q].1.entry_id == id,
        builtin_entry(agent, id) is None ==> forall|q: int|
            0 <= q < initial_pending(agent).len() ==> (#[trigger] initial_pending(agent)[q]).1.entry_id
                != id,
{
    let p = initial_pending(agent);
    lemma_initial_pending(agent);
    lemma_find_pending_found(p, id);
    if builtin_entry(agent, id) is None {
        assert forall|q: int| 0 <= q < p.len() implies (#[trigger] p[q]).1.entry_id != id by {
            if p[q].1.entry_id == id {
                lemma_find_pending_at(p, id, q);
            }
        }
    }
}

/// A normal entry, and the stripped form of a normal built-in entry, both
/// normalize back to that entry, whatever the pending entries are, as long as
/// they hold its definition under its id.
pub(crate) proof fn lemma_renormalize_entry(
    agent: PromptAgentKind,
    key: ModuleKey,
    e: EntryView,
    x: EntryView,
    pending: Seq<(ModuleKey, EntryView)>,
)
    requires
        normal_entry(agent, e),
        x == e || (e.kind != PromptEntryKind::CustomText && x == stripped(e)),
        e.kind != PromptEntryKind::CustomText ==> find_pending(pending, e.entry_id) == builtin_entry(
            agent,
            e.entry_id,
        ),
    ensures
        !is_removed_builtin(agent, x),
        normalize_entry_spec(agent, key, x, pending) == Ok::<EntryView, ConfigErrorView>(e),
        restored(agent, x) == e,
        x.entry_id == e.entry_id,
        x.kind == e.kind,
{
    lemma_initial_pending(agent);
    lemma_builtin_entry(agent, e.entry_id);
    assert(trim_seq(x.entry_id) == e.entry_id);
    assert(fallback_name(x.display_name, e.entry_id) == e.display_name);
    if e.kind != PromptEntryKind::CustomText {
        let d = (builtin_entry(agent, e.entry_id)->0).1;
        assert(fallback_name(x.display_name, d.display_name) == e.display_name);
    }
}

/// Whether some built-in entry among `es` has the given id.
pub open spec fn builtin_id_in(es: Seq<EntryView>, id: Seq<char>) -> bool {
    exists|i: int|
        0 <= i < es.len() && (#[trigger] es[i]).kind != PromptEntryKind::CustomText && es[i].entry_id
            == id
}

/// Restores each entry.
pub open spec fn restorer(agent: PromptAgentKind) -> spec_fn(EntryView) -> EntryView {
    |x: EntryView| restored(agent, x)
}

/// The ids of entries.
pub open spec fn entry_ids(es: Seq<EntryView>) -> Seq<Seq<char>> {
    es.map_values(|x: EntryView| x.entry_id)
}

/// An entry that stands for a normal entry: the entry itself or, for a
/// built-in entry, its stripped form.
pub open spec fn stands_for(agent: PromptAgentKind, x: EntryView) -> bool {
    &&& normal_entry(agent, restored(agent, x))
    &&& (x == restored(agent, x) || (x.kind != PromptEntryKind::CustomText && x == stripped(
        restored(agent, x),
    )))
}

pub(crate) proof fn lemma_concat_contains<A>(a: Seq<A>, b: Seq<A>, v: A)
    ensures
        (a + b).contains(v) <==> (a.contains(v) || b.contains(v)),
{
    if (a + b).contains(v) {
        let i = choose|i: int| 0 <= i < (a + b).len() && (a + b)[i] == v;
        if i >= a.len() {
            assert(b[i - a.len()] == v);
        }
    }
    if a.contains(v) {
        let i = choose|i: int| 0 <= i < a.len() && a[i] == v;
        assert((a + b)[i] == v);
    }
    if b.contains(v) {
        let i = choose|i: int| 0 <= i < b.len() && b[i] == v;
        assert((a + b)[a.len() + i] == v);
    }
}

pub(crate) proof fn lemma_filter_ids(p: Seq<(ModuleKey, EntryView)>, f: spec_fn((ModuleKey, EntryView)) -> bool)
    requires
        ids_distinct(p),
    ensures
        ids_distinct(p.filter(f)),
        forall|y: (ModuleKey, EntryView)| #[trigger] p.filter(f).contains(y) <==> (p.contains(y) && f(y)),
    decreases p.len(),
{
    reveal(Seq::filter);
    if p.len() > 0 {
        let t = p.drop_last();
        assert forall|i: int, j: int| 0 <= i < j < t.len() implies (#[trigger] t[i]).1.entry_id
            != (#[trigger] t[j]).1.entry_id by {
            assert(t[i] == p[i] && t[j] == p[j]);
        }
        lemma_filter_ids(t, f);
        let r = t.filter(f);
        let last = p.last();
        assert forall|y: (ModuleKey, EntryView)| p.contains(y) <==> (t.contains(y) || y == last) by {
            if p.contains(y) {
                let i = choose|i: int| 0 <= i < p.len() && p[i] == y;
                if i < p.len() - 1 {
                    assert(t[i] == y);
                }
            }
            if t.contains(y) {
                let i = choose|i: int| 0 <= i < t.len() && t[i] == y;
                assert(p[i] == y);
            }
            if y == last {
                assert(p[p.len() - 1] == y);
            }
        }
        if f(last) {
            let r2 = r.push(last);
            assert(p.filter(f) == r2);
            assert forall|i: int, j: int| 0 <= i < j < r2.len() implies (#[trigger] r2[i]).1.entry_id
                != (#[trigger] r2[j]).1.entry_id by {
                if j == r2.len() - 1 {
                    assert(r2[i] == r[i]);
                    assert(r.contains(r[i]));
                    let k = choose|k: int| 0 <= k < t.len() && t[k] == r[i];
                    assert(p[k] == t[k]);
                } else {
                    assert(r2[i] == r[i] && r2[j] == r[j]);
                }
            }
            assert forall|y: (ModuleKey, EntryView)| #[trigger] r2.contains(y) <==> (r.contains(y) || y
                == last) by {
                if r2.contains(y) {
                    let i = choose|i: int| 0 <= i < r2.len() && r2[i] == y;
                    if i < r.len() {
                        assert(r[i] == y);
                    }
                }
                if r.contains(y) {
                    let i = choose|i: int| 0 <= i < r.len() && r[i] == y;
                    assert(r2[i] == y);
                }
                if y == last {
                    assert(r2[r.len() as int] == y);
                }
            }
        } else {
            assert(p.filter(f) == r);
        }
    }
}

/// Dropping the pending entries with one id keeps ids distinct and drops
/// exactly those entries.
pub(crate) proof fn lemma_drop_pending(p: Seq<(ModuleKey, EntryView)>, id: Seq<char>)
    requires
        ids_distinct(p),
    ensures
        ids_distinct(drop_pending(p, id)),
        forall|y: (ModuleKey, EntryView)| #[trigger] drop_pending(p, id).contains(y) <==> (p.contains(y)
            && y.1.entry_id != id),
{
    lemma_filter_ids(p, other_id(id));
}

/// When a pending list with distinct ids holds an entry, looking up its id
/// finds it.
pub(crate) proof fn lemma_find_pending_contains(p: Seq<(ModuleKey, EntryView)>, y: (ModuleKey, EntryView))
    requires
        ids_distinct(p),
        p.contains(y),
    ensures
        find_pending(p, y.1.entry_id) == Some(y),
{
    let q = choose|q: int| 0 <= q < p.len() && p[q] == y;
    lemma_find_pending_at(p, y.1.entry_id, q);
}

/// Reading entries that stand for normal entries appends their restored
/// forms, records their ids, and drops the built-in ones from the pending
/// entries.
proof fn lemma_fold_entries_rebuild(
    agent: PromptAgentKind,
    key: ModuleKey,
    idx: int,
    s0: NormState,
    es: Seq<EntryView>,
)
    requires
        0 <= idx < s0.mods.len(),
        ids_distinct(s0.pending),
        forall|i: int| 0 <= i < es.len() ==> stands_for(agent, #[trigger] es[i]),
        forall|i: int, j: int|
            0 <= i < j < es.len() ==> (#[trigger] es[i]).entry_id != (#[trigger] es[j]).entry_id,
        forall|i: int| 0 <= i < es.len() ==> !s0.seen_ents.contains((#[trigger] es[i]).entry_id),
        forall|i: int|
            0 <= i < es.len() && (#[trigger] es[i]).kind != PromptEntryKind::CustomText
                ==> s0.pending.contains(builtin_entry(agent, es[i].entry_id)->0),
    ensures
        fold_entries(agent, key, idx, s0, es) is Ok,
        ({
            let s = fold_entries(agent, key, idx, s0, es)->Ok_0;
            &&& s.mods == s0.mods.update(
                idx,
                ModuleView {
                    entries: s0.mods[idx].entries + es.map_values(restorer(agent)),
                    ..s0.mods[idx]
                },
            )
            &&& s.seen_mods == s0.seen_mods
            &&& s.seen_ents == s0.seen_ents + entry_ids(es)
            &&& ids_distinct(s.pending)
            &&& forall|y: (ModuleKey, EntryView)|
                #[trigger] s.pending.contains(y) <==> (s0.pending.contains(y) && !builtin_id_in(
                    es,
                    y.1.entry_id,
                ))
        }),
    decreases es.len(),
{
    if es.len() == 0 {
        assert(s0.mods[idx].entries + es.map_values(restorer(agent)) =~= s0.mods[idx].entries);
        assert(s0.mods.update(idx, ModuleView { entries: s0.mods[idx].entries, ..s0.mods[idx] })
            =~= s0.mods);
        assert(s0.seen_ents + entry_ids(es) =~= s0.seen_ents);
    } else {
        let t = es.drop_last();
        let x = es.last();
        assert forall|i: int| 0 <= i < t.len() implies stands_for(agent, #[trigger] t[i]) by {
            assert(t[i] == es[i]);
        }
        assert forall|i: int, j: int| 0 <= i < j < t.len() implies (#[trigger] t[i]).entry_id
            != (#[trigger] t[j]).entry_id by {
            assert(t[i] == es[i] && t[j] == es[j]);
        }
        assert forall|i: int| 0 <= i < t.len() implies !s0.seen_ents.contains(
            (#[trigger] t[i]).entry_id,
        ) by {
            assert(t[i] == es[i]);
        }
        assert forall|i: int|
            0 <= i < t.len() && (#[trigger] t[i]).kind
                != PromptEntryKind::CustomText implies s0.pending.contains(
            builtin_entry(agent, t[i].entry_id)->0,
        ) by {
            assert(t[i] == es[i]);
        }
        lemma_fold_entries_rebuild(agent, key, idx, s0, t);
        let s1 = fold_entries(agent, key, idx, s0, t)->Ok_0;
        let e = restored(agent, x);
        assert(stands_for(agent, es[es.len() - 1]));
        assert forall|i: int| 0 <= i < t.len() implies (#[trigger] t[i]).entry_id != x.entry_id by {
            assert(t[i] == es[i]);
        }
        assert(!builtin_id_in(t, x.entry_id));
        if x.kind != PromptEntryKind::CustomText {
            let y = builtin_entry(agent, x.entry_id)->0;
            lemma_builtin_entry(agent, x.entry_id);
            assert(s0.pending.contains(y));
            assert(s1.pending.contains(y));
            lemma_find_pending_contains(s1.pending, y);
        }
        lemma_renormalize_entry(agent, key, e, x, s1.pending);
        assert(!entry_ids(t).contains(x.entry_id)) by {
            if entry_ids(t).contains(x.entry_id) {
                let k = choose|k: int| 0 <= k < entry_ids(t).len() && entry_ids(t)[k] == x.entry_id;
                assert(t[k].entry_id == x.entry_id);
            }
        }
        lemma_concat_contains(s0.seen_ents, entry_ids(t), x.entry_id);
        assert(!s1.seen_ents.contains(e.entry_id));
        let s = fold_entries(agent, key, idx, s0, es)->Ok_0;
        assert(fold_entries(agent, key, idx, s0, es) == step_entry(agent, key, idx, s1, x));
        assert(es.map_values(restorer(agent)) =~= t.map_values(restorer(agent)).push(e));
        assert(entry_ids(es) =~= entry_ids(t).push(x.entry_id));
        assert(s.seen_ents =~= s0.seen_ents + entry_ids(es));
        assert(s.mods =~= s0.mods.update(
            idx,
            ModuleView {
                entries: s0.mods[idx].entries + es.map_values(restorer(agent)),
                ..s0.mods[idx]
            },
        ));
        assert forall|id: Seq<char>| builtin_id_in(es, id) <==> (builtin_id_in(t, id) || (x.kind
            != PromptEntryKind::CustomText && x.entry_id == id)) by {
            if builtin_id_in(es, id) {
                let i = choose|i: int|
                    0 <= i < es.len() && (#[trigger] es[i]).kind != PromptEntryKind::CustomText
                        && es[i].entry_id == id;
                if i < t.len() {
                    assert(t[i] == es[i]);
                }
            }
            if builtin_id_in(t, id) {
                let i = choose|i: int|
                    0 <= i < t.len() && (#[trigger] t[i]).kind != PromptEntryKind::CustomText
                        && t[i].entry_id == id;
                assert(es[i] == t[i]);
            }
            if x.kind != PromptEntryKind::CustomText && x.entry_id == id {
                assert(es[es.len() - 1] == x);
            }
        }
        if x.kind != PromptEntryKind::CustomText {
            lemma_drop_pending(s1.pending, x.entry_id);
        }
    }
}

/// No two modules share an identifier.
pub open spec fn keys_distinct(ms: Seq<ModuleView>) -> bool {
    forall|a: int, b: int|
        0 <= a < ms.len() && 0 <= b < ms.len() && (#[trigger] ms[a]).module_id == (#[trigger] ms[
            b]).module_id ==> a == b
}

pub(crate) proof fn lemma_module_index_from_facts(mods: Seq<ModuleView>, k: ModuleKey, start: int)
    requires
        0 <= start,
    ensures
        match module_index_from(mods, k, start) {
            Some(i) => start <= i < mods.len() && mods[i].module_id == k,
            None => forall|j: int| start <= j < mods.len() ==> (#[trigger] mods[j]).module_id != k,
        },
    decreases mods.len() - start,
{
    if start < mods.len() && mods[start].module_id != k {
        lemma_module_index_from_facts(mods, k, start + 1);
    }
}

/// With distinct identifiers, the module of an identifier is found where it
/// stands, and not found when no module has it.
pub(crate) proof fn lemma_module_index(mods: Seq<ModuleView>, k: ModuleKey)
    requires
        keys_distinct(mods),
    ensures
        match module_index(mods, k) {
            Some(i) => 0 <= i < mods.len() && mods[i].module_id == k,
            None => forall|j: int| 0 <= j < mods.len() ==> (#[trigger] mods[j]).module_id != k,
        },
        forall|i: int|
            0 <= i < mods.len() && (#[trigger] mods[i]).module_id == k ==> module_index(mods, k)
                == Some(i),
{
    lemma_module_index_from_facts(mods, k, 0);
}

/// The entries that pending entries place into the module `k`, in order.
pub open spec fn placed_in(p: Seq<(ModuleKey, EntryView)>, k: ModuleKey) -> Seq<EntryView>
    decreases p.len(),
{
    if p.len() == 0 {
        seq![]
    } else if p.last().0 == k {
        placed_in(p.drop_last(), k).push(p.last().1)
    } else {
        placed_in(p.drop_last(), k)
    }
}

pub(crate) proof fn lemma_placed_in(p: Seq<(ModuleKey, EntryView)>, k: ModuleKey)
    requires
        ids_distinct(p),
    ensures
        forall|e: EntryView|
            #[trigger] placed_in(p, k).contains(e) <==> exists|q: int|
                0 <= q < p.len() && (#[trigger] p[q]).0 == k && p[q].1 == e,
        forall|i: int, j: int|
            0 <= i < j < placed_in(p, k).len() ==> (#[trigger] placed_in(p, k)[i]).entry_id != (
            #[trigger] placed_in(p, k)[j]).entry_id,
    decreases p.len(),
{
    if p.len() > 0 {
        let t = p.drop_last();
        assert forall|i: int, j: int| 0 <= i < j < t.len() implies (#[trigger] t[i]).1.entry_id
            != (#[trigger] t[j]).1.entry_id by {
            assert(t[i] == p[i] && t[j] == p[j]);
        }
        lemma_placed_in(t, k);
        let r = placed_in(t, k);
        let last = p.last();
        assert forall|e: EntryView| #[trigger] placed_in(p, k).contains(e) <==> exists|q: int|
            0 <= q < p.len() && (#[trigger] p[q]).0 == k && p[q].1 == e by {
            if placed_in(p, k).contains(e) {
                let i = choose|i: int|
                    0 <= i < placed_in(p, k).len() && placed_in(p, k)[i] == e;
                if i < r.len() {
                    assert(r[i] == e);
                    assert(r.contains(e));
                    let q = choose|q: int| 0 <= q < t.len() && (#[trigger] t[q]).0 == k && t[q].1 == e;
                    assert(p[q] == t[q]);
                } else {
                    assert(p[p.len() - 1] == last);
                }
            }
            if exists|q: int| 0 <= q < p.len() && (#[trigger] p[q]).0 == k && p[q].1 == e {
                let q = choose|q: int| 0 <= q < p.len() && (#[trigger] p[q]).0 == k && p[q].1 == e;
                if q < t.len() {
                    assert(t[q] == p[q]);
                    assert(r.contains(e));
                    let i = choose|i: int| 0 <= i < r.len() && r[i] == e;
                    assert(placed_in(p, k)[i] == e);
                } else {
                    assert(placed_in(p, k)[r.len() as int] == e);
                }
            }
        }
        if last.0 == k {
            let r2 = placed_in(p, k);
            assert forall|i: int, j: int| 0 <= i < j < r2.len() implies (#[trigger] r2[i]).entry_id
                != (#[trigger] r2[j]).entry_id by {
                if j == r.len() {
                    assert(r2[i] == r[i]);
                    assert(r.contains(r[i]));
                    let q = choose|q: int| 0 <= q < t.len() && (#[trigger] t[q]).0 == k && t[q].1 == r[i];
                    assert(p[q] == t[q]);
                } else {
                    assert(r2[i] == r[i] && r2[j] == r[j]);
                }
            }
        }
    }
}

/// The pending ids as a sequence.
pub open spec fn pending_ids(p: Seq<(ModuleKey, EntryView)>) -> Seq<Seq<char>> {
    p.map_values(|y: (ModuleKey, EntryView)| y.1.entry_id)
}

/// Placing pending entries with fresh ids, into modules that exist, appends
/// each to its module.
pub(crate) proof fn lemma_fold_flush_places(agent: PromptAgentKind, s: NormState, p: Seq<(ModuleKey, EntryView)>)
    requires
        ids_distinct(p),
        keys_distinct(s.mods),
        forall|q: int| 0 <= q < p.len() ==> !s.seen_ents.contains((#[trigger] p[q]).1.entry_id),
        forall|q: int| 0 <= q < p.len() ==> module_index(s.mods, (#[trigger] p[q]).0) is Some,
    ensures
        fold_flush(agent, s, p) is Ok,
        ({
            let s2 = fold_flush(agent, s, p)->Ok_0;
            &&& s2.mods.len() == s.mods.len()
            &&& forall|i: int|
                0 <= i < s.mods.len() ==> (#[trigger] s2.mods[i]) == ModuleView {
                    entries: s.mods[i].entries + placed_in(p, s.mods[i].module_id),
                    ..s.mods[i]
                }
            &&& s2.seen_ents == s.seen_ents + pending_ids(p)
            &&& s2.seen_mods == s.seen_mods
            &&& s2.pending == s.pending
        }),
    decreases p.len(),
{
    if p.len() == 0 {
        assert forall|i: int| 0 <= i < s.mods.len() implies (#[trigger] s.mods[i]) == ModuleView {
            entries: s.mods[i].entries + placed_in(p, s.mods[i].module_id),
            ..s.mods[i]
        } by {
            assert(s.mods[i].entries + placed_in(p, s.mods[i].module_id) =~= s.mods[i].entries);
        }
        assert(s.seen_ents + pending_ids(p) =~= s.seen_ents);
    } else {
        let t = p.drop_last();
        let y = p.last();
        assert forall|i: int, j: int| 0 <= i < j < t.len() implies (#[trigger] t[i]).1.entry_id
            != (#[trigger] t[j]).1.entry_id by {
            assert(t[i] == p[i] && t[j] == p[j]);
        }
        assert forall|q: int| 0 <= q < t.len() implies !s.seen_ents.contains(
            (#[trigger] t[q]).1.entry_id,
        ) && module_index(s.mods, t[q].0) is Some by {
            assert(t[q] == p[q]);
        }
        lemma_fold_flush_places(agent, s, t);
        let s1 = fold_flush(agent, s, t)->Ok_0;
        assert(p[p.len() - 1] == y);
        assert(!pending_ids(t).contains(y.1.entry_id)) by {
            if pending_ids(t).contains(y.1.entry_id) {
                let k = choose|k: int| 0 <= k < pending_ids(t).len() && pending_ids(t)[k] == y.1.entry_id;
                assert(t[k] == p[k]);
            }
        }
        lemma_concat_contains(s.seen_ents, pending_ids(t), y.1.entry_id);
        assert(!s1.seen_ents.contains(y.1.entry_id));
        assert(keys_distinct(s1.mods)) by {
            assert forall|a: int, b: int|
                0 <= a < s1.mods.len() && 0 <= b < s1.mods.len() && (#[trigger] s1.mods[a]).module_id
                    == (#[trigger] s1.mods[b]).module_id implies a == b by {
                assert(s1.mods[a].module_id == s.mods[a].module_id);
                assert(s1.mods[b].module_id == s.mods[b].module_id);
            }
        }
        lemma_module_index(s.mods, y.0);
        lemma_module_index(s1.mods, y.0);
        let i0 = module_index(s.mods, y.0)->0;
        assert(s1.mods[i0].module_id == y.0);
        assert(module_index(s1.mods, y.0) == Some(i0));
        let s2 = fold_flush(agent, s, p)->Ok_0;
        assert(fold_flush(agent, s, p) == step_flush(agent, s1, y));
        assert(pending_ids(p) =~= pending_ids(t).push(y.1.entry_id));
        assert(s2.seen_ents =~= s.seen_ents + pending_ids(p));
        assert forall|i: int| 0 <= i < s.mods.len() implies (#[trigger] s2.mods[i]) == ModuleView {
            entries: s.mods[i].entries + placed_in(p, s.mods[i].module_id),
            ..s.mods[i]
        } by {
            assert(s1.mods[i] == ModuleView {
                entries: s.mods[i].entries + placed_in(t, s.mods[i].module_id),
                ..s.mods[i]
            });
            if i == i0 {
                assert(placed_in(p, s.mods[i].module_id) == placed_in(t, s.mods[i].module_id).push(y.1));
                assert(s.mods[i].entries + placed_in(p, s.mods[i].module_id) =~= (s.mods[i].entries
                    + placed_in(t, s.mods[i].module_id)).push(y.1));
            } else {
                assert(s.mods[i].module_id != y.0);
                assert(placed_in(p, s.mods[i].module_id) == placed_in(t, s.mods[i].module_id));
            }
        }
    }
}

/// A module identifier that normalization leaves as it is.
pub open spec fn normal_key(k: ModuleKey) -> bool {
    normalize_key(k) == Ok::<ModuleKey, ConfigErrorView>(k)
}

/// The built-in module of a built-in identifier.
pub open spec fn builtin_of(k: ModuleKey) -> BuiltinModule {
    match k {
        ModuleKey::Task => BuiltinModule::Task,
        ModuleKey::StaticContext => BuiltinModule::StaticContext,
        ModuleKey::DynamicContext => BuiltinModule::DynamicContext,
        ModuleKey::Output => BuiltinModule::Output,
        _ => BuiltinModule::Role,
    }
}

/// Each module has a normal identifier, a trimmed name and sorted entries.
#[verifier::opaque]
pub open spec fn nm_modules_ok(ms: Seq<ModuleView>) -> bool {
    forall|a: int|
        0 <= a < ms.len() ==> {
            &&& normal_key((#[trigger] ms[a]).module_id)
            &&& tidy(ms[a].display_name)
            &&& entries_sorted(ms[a].entries)
        }
}

/// Every built-in module is present.
#[verifier::opaque]
pub open spec fn nm_builtins_present(ms: Seq<ModuleView>) -> bool {
    forall|k: ModuleKey|
        #[trigger] is_builtin_key(k) ==> exists|a: int| 0 <= a < ms.len() && (#[trigger] ms[a]).module_id == k
}

/// Every entry is normal.
#[verifier::opaque]
pub open spec fn nm_entries_normal(agent: PromptAgentKind, ms: Seq<ModuleView>) -> bool {
    forall|a: int, i: int|
        0 <= a < ms.len() && 0 <= i < ms[a].entries.len() ==> normal_entry(
            agent,
            #[trigger] ms[a].entries[i],
        )
}

/// Entry ids are unique across the modules.
#[verifier::opaque]
pub open spec fn nm_ids_unique(ms: Seq<ModuleView>) -> bool {
    forall|a: int, i: int, b: int, j: int|
        0 <= a < ms.len() && 0 <= i < ms[a].entries.len() && 0 <= b < ms.len() && 0 <= j
            < ms[b].entries.len() && (#[trigger] ms[a].entries[i]).entry_id == (
        #[trigger] ms[b].entries[j]).entry_id ==> a == b && i == j
}

/// Every built-in entry of the agent has its id somewhere.
#[verifier::opaque]
pub open spec fn nm_covers(agent: PromptAgentKind, ms: Seq<ModuleView>) -> bool {
    forall|q: int|
        0 <= q < initial_pending(agent).len() ==> exists|a: int, i: int|
            0 <= a < ms.len() && 0 <= i < ms[a].entries.len() && (#[trigger] ms[a].entries[i]).entry_id
                == (#[trigger] initial_pending(agent)[q]).1.entry_id
}

/// The modules of a preset as normalization leaves them: sorted, with
/// distinct normal identifiers and trimmed names, every built-in module
/// present, entries sorted and normal, entry ids unique across the preset,
/// and every built-in entry of the agent present.
pub open spec fn normal_modules(agent: PromptAgentKind, ms: Seq<ModuleView>) -> bool {
    &&& modules_sorted(ms)
    &&& keys_distinct(ms)
    &&& nm_modules_ok(ms)
    &&& nm_builtins_present(ms)
    &&& nm_entries_normal(agent, ms)
    &&& nm_ids_unique(ms)
    &&& nm_covers(agent, ms)
}

/// The module of `n` with identifier `k`.
pub open spec fn counterpart(n: Seq<ModuleView>, k: ModuleKey) -> ModuleView {
    n[module_index(n, k)->0]
}

/// A module with its entries restored.
pub open spec fn rebuilt(agent: PromptAgentKind, m: ModuleView) -> ModuleView {
    ModuleView { entries: m.entries.map_values(restorer(agent)), ..m }
}

/// A built-in entry that stands in its own module exactly as defined, so that
/// leaving it out lets normalization put it back.
pub open spec fn droppable(agent: PromptAgentKind, key: ModuleKey, e: EntryView) -> bool {
    e.kind != PromptEntryKind::CustomText && builtin_entry(agent, e.entry_id) == Some((key, e))
}

/// A built-in module with the default name, role and order.
pub open spec fn default_meta(m: ModuleView) -> bool {
    &&& is_builtin_key(m.module_id)
    &&& m.display_name == builtin_module_name(builtin_of(m.module_id))
    &&& m.message_role == builtin_module_role(builtin_of(m.module_id))
    &&& m.order == builtin_module_order(builtin_of(m.module_id))
}

/// Each module of `k` has a module of `n` with its identifier and metadata.
#[verifier::opaque]
pub open spec fn rb_meta(n: Seq<ModuleView>, k: Seq<ModuleView>) -> bool {
    forall|j: int|
        0 <= j < k.len() ==> {
            &&& module_index(n, (#[trigger] k[j]).module_id) is Some
            &&& counterpart(n, k[j].module_id).display_name == k[j].display_name
            &&& counterpart(n, k[j].module_id).message_role == k[j].message_role
            &&& counterpart(n, k[j].module_id).order == k[j].order
        }
}

/// Each entry of `k` stands for an entry of the module of `n` with its
/// module's identifier.
#[verifier::opaque]
pub open spec fn rb_entries(agent: PromptAgentKind, n: Seq<ModuleView>, k: Seq<ModuleView>) -> bool {
    forall|j: int, i: int|
        0 <= j < k.len() && 0 <= i < k[j].entries.len() ==> {
            &&& stands_for(agent, #[trigger] k[j].entries[i])
            &&& counterpart(n, k[j].module_id).entries.contains(restored(agent, k[j].entries[i]))
        }
}

/// The entries of each module of `k` have distinct ids.
#[verifier::opaque]
pub open spec fn rb_within(k: Seq<ModuleView>) -> bool {
    forall|j: int, i1: int, i2: int|
        0 <= j < k.len() && 0 <= i1 < i2 < k[j].entries.len() ==> (#[trigger] k[j].entries[i1]).entry_id
            != (#[trigger] k[j].entries[i2]).entry_id
}

/// Every entry of `n` is droppable or stood for by an entry of `k` in a
/// module with the same identifier.
#[verifier::opaque]
pub open spec fn rb_cover(agent: PromptAgentKind, n: Seq<ModuleView>, k: Seq<ModuleView>) -> bool {
    forall|a: int, i: int|
        0 <= a < n.len() && 0 <= i < n[a].entries.len() ==> (droppable(
            agent,
            n[a].module_id,
            #[trigger] n[a].entries[i],
        ) || exists|j: int, i2: int|
            0 <= j < k.len() && 0 <= i2 < k[j].entries.len() && k[j].module_id == n[a].module_id
                && restored(agent, #[trigger] k[j].entries[i2]) == n[a].entries[i])
}

/// Every module of `n` has the default metadata or a module of `k` with its
/// identifier.
#[verifier::opaque]
pub open spec fn rb_modules(n: Seq<ModuleView>, k: Seq<ModuleView>) -> bool {
    forall|a: int|
        0 <= a < n.len() ==> (default_meta(#[trigger] n[a]) || exists|j: int|
            0 <= j < k.len() && (#[trigger] k[j]).module_id == n[a].module_id)
}

/// `k` holds enough of the modules `n` for normalization to rebuild them:
/// each module of `k` has a module of `n` with its identifier and metadata;
/// each entry of `k` stands for an entry of that module, with ids distinct;
/// every entry of `n` left out is a droppable built-in entry, and every module
/// of `n` left out has the default metadata.
pub open spec fn rebuilds(agent: PromptAgentKind, n: Seq<ModuleView>, k: Seq<ModuleView>) -> bool {
    &&& keys_distinct(k)
    &&& rb_meta(n, k)
    &&& rb_entries(agent, n, k)
    &&& rb_within(k)
    &&& rb_cover(agent, n, k)
    &&& rb_modules(n, k)
}

/// Whether one of the first `j` modules of `k` has identifier `key`.
pub open spec fn processed(k: Seq<ModuleView>, j: int, key: ModuleKey) -> bool {
    exists|j2: int| 0 <= j2 < j && (#[trigger] k[j2]).module_id == key
}

/// Whether an entry of the first `j` modules of `k` has id `id`.
pub open spec fn kid_in(k: Seq<ModuleView>, j: int, id: Seq<char>) -> bool {
    exists|j2: int, i: int|
        0 <= j2 < j && 0 <= i < k[j2].entries.len() && (#[trigger] k[j2].entries[i]).entry_id == id
}

/// Whether a built-in entry of the first `j` modules of `k` has id `id`.
pub open spec fn kbuiltin_in(k: Seq<ModuleView>, j: int, id: Seq<char>) -> bool {
    exists|j2: int| 0 <= j2 < j && builtin_id_in((#[trigger] k[j2]).entries, id)
}

/// The state after normalization has read the first `j` modules of `k`.
#[verifier::opaque]
pub open spec fn built_upto(agent: PromptAgentKind, k: Seq<ModuleView>, j: int, s: NormState) -> bool {
    &&& forall|key: ModuleKey| #[trigger] s.seen_mods.contains(key) <==> processed(k, j, key)
    &&& keys_distinct(s.mods)
    &&& forall|key: ModuleKey|
        #[trigger] is_builtin_key(key) ==> exists|i: int| 0 <= i < s.mods.len() && (#[trigger] s.mods[i]).module_id == key
    &&& forall|i: int|
        0 <= i < s.mods.len() ==> is_builtin_key((#[trigger] s.mods[i]).module_id) || processed(
            k,
            j,
            s.mods[i].module_id,
        )
    &&& forall|j2: int|
        0 <= j2 < j ==> exists|i: int| 0 <= i < s.mods.len() && (#[trigger] s.mods[i]).module_id == (
        #[trigger] k[j2]).module_id
    &&& forall|i: int, j2: int|
        0 <= i < s.mods.len() && 0 <= j2 < j && (#[trigger] s.mods[i]).module_id == (
        #[trigger] k[j2]).module_id ==> s.mods[i] == rebuilt(agent, k[j2])
    &&& forall|i: int|
        0 <= i < s.mods.len() && !processed(k, j, (#[trigger] s.mods[i]).module_id) ==> s.mods[i]
            == empty_builtin_module(builtin_of(s.mods[i].module_id))
    &&& forall|id: Seq<char>| #[trigger] s.seen_ents.contains(id) <==> kid_in(k, j, id)
    &&& ids_distinct(s.pending)
    &&& forall|y: (ModuleKey, EntryView)|
        #[trigger] s.pending.contains(y) <==> (initial_pending(agent).contains(y) && !kbuiltin_in(
            k,
            j,
            y.1.entry_id,
        ))
}

/// Entries of different places in `k` have different ids.
proof fn lemma_k_ids_distinct(agent: PromptAgentKind, n: Seq<ModuleView>, k: Seq<ModuleView>)
    requires
        normal_modules(agent, n),
        rebuilds(agent, n, k),
    ensures
        forall|j1: int, i1: int, j2: int, i2: int|
            0 <= j1 < k.len() && 0 <= i1 < k[j1].entries.len() && 0 <= j2 < k.len() && 0 <= i2
                < k[j2].entries.len() && (#[trigger] k[j1].entries[i1]).entry_id == (
            #[trigger] k[j2].entries[i2]).entry_id ==> j1 == j2 && i1 == i2,
{
    assert forall|j1: int, i1: int, j2: int, i2: int|
        0 <= j1 < k.len() && 0 <= i1 < k[j1].entries.len() && 0 <= j2 < k.len() && 0 <= i2
            < k[j2].entries.len() && (#[trigger] k[j1].entries[i1]).entry_id == (
        #[trigger] k[j2].entries[i2]).entry_id implies j1 == j2 && i1 == i2 by {
        reveal(nm_ids_unique);
        reveal(rb_meta);
        reveal(rb_entries);
        reveal(rb_within);
        let x1 = k[j1].entries[i1];
        let x2 = k[j2].entries[i2];
        lemma_module_index(n, k[j1].module_id);
        lemma_module_index(n, k[j2].module_id);
        let a1 = module_index(n, k[j1].module_id)->0;
        let a2 = module_index(n, k[j2].module_id)->0;
        assert(n[a1].entries.contains(restored(agent, x1)));
        assert(n[a2].entries.contains(restored(agent, x2)));
        let p1 = choose|p: int| 0 <= p < n[a1].entries.len() && n[a1].entries[p] == restored(agent, x1);
        let p2 = choose|p: int| 0 <= p < n[a2].entries.len() && n[a2].entries[p] == restored(agent, x2);
        assert(n[a1].entries[p1].entry_id == n[a2].entries[p2].entry_id);
        assert(a1 == a2);
        assert(k[j1].module_id == k[j2].module_id);
        assert(j1 == j2);
        if i1 != i2 {
            if i1 < i2 {
                assert(k[j1].entries[i1].entry_id != k[j1].entries[i2].entry_id);
            } else {
                assert(k[j1].entries[i2].entry_id != k[j1].entries[i1].entry_id);
            }
        }
    }
}

/// Nothing read: the built-in modules, empty, and every built-in entry
/// pending.
proof fn lemma_built_upto_start(agent: PromptAgentKind, k: Seq<ModuleView>)
    ensures
        built_upto(agent, k, 0, initial_state(agent)),
{
    reveal(built_upto);
    let s = initial_state(agent);
    lemma_initial_pending(agent);
    let bm = builtin_modules();
    assert(s.mods.len() == 5);
    assert forall|i: int| 0 <= i < 5 implies (#[trigger] s.mods[i]) == empty_builtin_module(
        bm[i],
    ) && builtin_of(s.mods[i].module_id) == bm[i] && is_builtin_key(s.mods[i].module_id) by {
        assert(s.mods[i] == empty_builtin_module(bm[i]));
    }
    assert(s.mods[0].module_id == ModuleKey::Role);
    assert(s.mods[1].module_id == ModuleKey::Task);
    assert(s.mods[2].module_id == ModuleKey::StaticContext);
    assert(s.mods[3].module_id == ModuleKey::DynamicContext);
    assert(s.mods[4].module_id == ModuleKey::Output);
    assert forall|key: ModuleKey| #[trigger] is_builtin_key(key) implies exists|i: int|
        0 <= i < s.mods.len() && (#[trigger] s.mods[i]).module_id == key by {
        match key {
            ModuleKey::Role => assert(s.mods[0].module_id == key),
            ModuleKey::Task => assert(s.mods[1].module_id == key),
            ModuleKey::StaticContext => assert(s.mods[2].module_id == key),
            ModuleKey::DynamicContext => assert(s.mods[3].module_id == key),
            ModuleKey::Output => assert(s.mods[4].module_id == key),
            ModuleKey::Custom(_) => {},
        }
    }
    assert forall|id: Seq<char>| #[trigger] s.seen_ents.contains(id) <==> kid_in(k, 0, id) by {}
    assert forall|y: (ModuleKey, EntryView)| #[trigger] s.pending.contains(y) <==> (
    initial_pending(agent).contains(y) && !kbuiltin_in(k, 0, y.1.entry_id)) by {}
}

/// Reading module `j` of `k` succeeds and keeps `built_upto` one module
/// further.
#[verifier::rlimit(60)]
proof fn lemma_step_module_rebuild(
    agent: PromptAgentKind,
    n: Seq<ModuleView>,
    k: Seq<ModuleView>,
    j: int,
    s: NormState,
)
    requires
        normal_modules(agent, n),
        rebuilds(agent, n, k),
        0 <= j < k.len(),
        built_upto(agent, k, j, s),
    ensures
        step_module(agent, s, k[j]) is Ok,
        built_upto(agent, k, j + 1, step_module(agent, s, k[j])->Ok_0),
{
    reveal(built_upto);
    reveal(nm_modules_ok);
    reveal(rb_meta);
    reveal(rb_entries);
    reveal(rb_within);
    lemma_k_ids_distinct(agent, n, k);
    lemma_initial_pending(agent);
    let m = k[j];
    let key = m.module_id;
    let es = m.entries;
    lemma_module_index(n, key);
    let a = module_index(n, key)->0;
    assert(normal_key(n[a].module_id));
    assert(!s.seen_mods.contains(key)) by {
        if s.seen_mods.contains(key) {
            let j2 = choose|j2: int| 0 <= j2 < j && (#[trigger] k[j2]).module_id == key;
            assert(k[j2].module_id == k[j].module_id);
        }
    }
    assert(!processed(k, j, key));
    assert(tidy(m.display_name));
    assert(fallback_name(m.display_name, module_fallback_name(key)) == m.display_name);
    lemma_module_index(s.mods, key);
    let idx = opened_index(s.mods, key);
    let s0 = opened_state(s, key, m);
    if is_builtin_key(key) {
        let i = choose|i: int| 0 <= i < s.mods.len() && (#[trigger] s.mods[i]).module_id == key;
        assert(module_index(s.mods, key) == Some(i));
        assert(s.mods[i] == empty_builtin_module(builtin_of(key)));
        assert(s0.mods =~= s.mods.update(idx, ModuleView { entries: seq![], ..m }));
    } else {
        assert forall|i: int| 0 <= i < s.mods.len() implies (#[trigger] s.mods[i]).module_id != key by {
            if s.mods[i].module_id == key {
                assert(processed(k, j, key));
            }
        }
        assert(module_index(s.mods, key) is None);
        assert(s0.mods =~= s.mods.push(ModuleView { entries: seq![], ..m }));
    }
    assert(s0.mods[idx] == ModuleView { entries: seq![], ..m });
    assert(s0.seen_ents == s.seen_ents);
    assert(s0.pending == s.pending);
    assert forall|i: int| 0 <= i < es.len() implies stands_for(agent, #[trigger] es[i]) by {
        assert(stands_for(agent, k[j].entries[i]));
    }
    assert forall|i1: int, i2: int| 0 <= i1 < i2 < es.len() implies (#[trigger] es[i1]).entry_id
        != (#[trigger] es[i2]).entry_id by {
        assert(k[j].entries[i1].entry_id != k[j].entries[i2].entry_id);
    }
    assert forall|i: int| 0 <= i < es.len() implies !s0.seen_ents.contains((#[trigger] es[i]).entry_id) by {
        if s0.seen_ents.contains(es[i].entry_id) {
            assert(kid_in(k, j, es[i].entry_id));
            let (j2, i2) = choose|j2: int, i2: int|
                0 <= j2 < j && 0 <= i2 < k[j2].entries.len() && (#[trigger] k[j2].entries[i2]).entry_id
                    == es[i].entry_id;
            assert(k[j2].entries[i2].entry_id == k[j].entries[i].entry_id);
        }
    }
    assert forall|i: int|
        0 <= i < es.len() && (#[trigger] es[i]).kind
            != PromptEntryKind::CustomText implies s0.pending.contains(
        builtin_entry(agent, es[i].entry_id)->0,
    ) by {
        let x = es[i];
        assert(stands_for(agent, k[j].entries[i]));
        assert(restored(agent, x).kind == x.kind);
        assert(restored(agent, x).entry_id == x.entry_id);
        assert(builtin_entry(agent, x.entry_id) is Some);
        let y = builtin_entry(agent, x.entry_id)->0;
        lemma_builtin_entry(agent, x.entry_id);
        let q = choose|q: int|
            0 <= q < initial_pending(agent).len() && #[trigger] initial_pending(agent)[q]
                == builtin_entry(agent, x.entry_id)->0 && initial_pending(agent)[q].1.entry_id
                == x.entry_id;
        assert(initial_pending(agent).contains(y));
        if kbuiltin_in(k, j, y.1.entry_id) {
            let j2 = choose|j2: int| 0 <= j2 < j && builtin_id_in((#[trigger] k[j2]).entries, y.1.entry_id);
            let i2 = choose|i2: int|
                0 <= i2 < k[j2].entries.len() && (#[trigger] k[j2].entries[i2]).kind
                    != PromptEntryKind::CustomText && k[j2].entries[i2].entry_id == y.1.entry_id;
            assert(k[j2].entries[i2].entry_id == k[j].entries[i].entry_id);
        }
        assert(s.pending.contains(y));
    }
    lemma_fold_entries_rebuild(agent, key, idx, s0, es);
    assert(step_module(agent, s, m) == fold_entries(agent, key, idx, s0, es));
    let s1 = fold_entries(agent, key, idx, s0, es)->Ok_0;
    assert(seq![] + es.map_values(restorer(agent)) =~= es.map_values(restorer(agent)));
    assert(s1.mods[idx] == rebuilt(agent, m));
    assert(s1.mods.len() == s0.mods.len());
    assert forall|i: int| 0 <= i < s1.mods.len() && i != idx implies (#[trigger] s1.mods[i]) == s.mods[i] by {}
    assert forall|i: int| 0 <= i < s1.mods.len() implies (#[trigger] s1.mods[i]).module_id == (if i
        == idx {
        key
    } else {
        s.mods[i].module_id
    }) by {}
    // identifiers read
    assert forall|kk: ModuleKey| #[trigger] s1.seen_mods.contains(kk) <==> processed(k, j + 1, kk) by {
        assert(s1.seen_mods == s.seen_mods.push(key));
        if s1.seen_mods.contains(kk) {
            let t = choose|t: int| 0 <= t < s1.seen_mods.len() && s1.seen_mods[t] == kk;
            if t < s.seen_mods.len() {
                assert(s.seen_mods[t] == kk);
                assert(s.seen_mods.contains(kk));
                let j2 = choose|j2: int| 0 <= j2 < j && (#[trigger] k[j2]).module_id == kk;
                assert(0 <= j2 < j + 1 && k[j2].module_id == kk);
            } else {
                assert(k[j].module_id == kk);
            }
        }
        if processed(k, j + 1, kk) {
            let j2 = choose|j2: int| 0 <= j2 < j + 1 && (#[trigger] k[j2]).module_id == kk;
            if j2 < j {
                assert(processed(k, j, kk));
                assert(s.seen_mods.contains(kk));
                let t = choose|t: int| 0 <= t < s.seen_mods.len() && s.seen_mods[t] == kk;
                assert(s1.seen_mods[t] == kk);
            } else {
                assert(s1.seen_mods[s.seen_mods.len() as int] == kk);
            }
        }
    }
    assert(keys_distinct(s1.mods)) by {
        assert forall|x: int, y: int|
            0 <= x < s1.mods.len() && 0 <= y < s1.mods.len() && (#[trigger] s1.mods[x]).module_id
                == (#[trigger] s1.mods[y]).module_id implies x == y by {
            if x != idx && y != idx {
                assert(s.mods[x].module_id == s.mods[y].module_id);
            } else if x == idx && y != idx {
                assert(s.mods[y].module_id == key);
            } else if x != idx && y == idx {
                assert(s.mods[x].module_id == key);
            }
        }
    }
    assert forall|kk: ModuleKey| #[trigger] is_builtin_key(kk) implies exists|i: int|
        0 <= i < s1.mods.len() && (#[trigger] s1.mods[i]).module_id == kk by {
        let i = choose|i: int| 0 <= i < s.mods.len() && (#[trigger] s.mods[i]).module_id == kk;
        if i == idx {
            assert(s1.mods[i].module_id == kk);
        } else {
            assert(s1.mods[i].module_id == kk);
        }
    }
    assert forall|i: int| 0 <= i < s1.mods.len() implies is_builtin_key(
        (#[trigger] s1.mods[i]).module_id,
    ) || processed(k, j + 1, s1.mods[i].module_id) by {
        if i == idx {
            assert(k[j].module_id == s1.mods[i].module_id);
        } else {
            if !is_builtin_key(s.mods[i].module_id) {
                assert(processed(k, j, s.mods[i].module_id));
                let j2 = choose|j2: int| 0 <= j2 < j && (#[trigger] k[j2]).module_id == s.mods[i].module_id;
                assert(0 <= j2 < j + 1);
            }
        }
    }
    assert forall|j2: int| 0 <= j2 < j + 1 implies exists|i: int|
        0 <= i < s1.mods.len() && (#[trigger] s1.mods[i]).module_id == (#[trigger] k[j2]).module_id by {
        if j2 == j {
            assert(s1.mods[idx].module_id == k[j2].module_id);
        } else {
            let i = choose|i: int| 0 <= i < s.mods.len() && (#[trigger] s.mods[i]).module_id == (
            #[trigger] k[j2]).module_id;
            assert(i != idx);
            assert(s1.mods[i].module_id == k[j2].module_id);
        }
    }
    assert forall|i: int, j2: int|
        0 <= i < s1.mods.len() && 0 <= j2 < j + 1 && (#[trigger] s1.mods[i]).module_id == (
        #[trigger] k[j2]).module_id implies s1.mods[i] == rebuilt(agent, k[j2]) by {
        if i == idx {
            assert(k[j2].module_id == k[j].module_id);
        } else {
            if j2 == j {
                assert(s.mods[i].module_id == key);
            }
            assert(s.mods[i] == rebuilt(agent, k[j2]));
        }
    }
    assert forall|i: int|
        0 <= i < s1.mods.len() && !processed(k, j + 1, (#[trigger] s1.mods[i]).module_id) implies s1.mods[i]
        == empty_builtin_module(builtin_of(s1.mods[i].module_id)) by {
        if i == idx {
            assert(processed(k, j + 1, s1.mods[i].module_id)) by {
                assert(k[j].module_id == s1.mods[i].module_id);
            }
        } else {
            if processed(k, j, s.mods[i].module_id) {
                let j2 = choose|j2: int| 0 <= j2 < j && (#[trigger] k[j2]).module_id == s.mods[i].module_id;
                assert(processed(k, j + 1, s1.mods[i].module_id));
            }
        }
    }
    assert forall|id: Seq<char>| #[trigger] s1.seen_ents.contains(id) <==> kid_in(k, j + 1, id) by {
        lemma_concat_contains(s.seen_ents, entry_ids(es), id);
        if entry_ids(es).contains(id) {
            let t = choose|t: int| 0 <= t < entry_ids(es).len() && entry_ids(es)[t] == id;
            assert(k[j].entries[t].entry_id == id);
        }
        if kid_in(k, j + 1, id) {
            let (j2, i2) = choose|j2: int, i2: int|
                0 <= j2 < j + 1 && 0 <= i2 < k[j2].entries.len() && (#[trigger] k[j2].entries[i2]).entry_id
                    == id;
            if j2 < j {
                assert(kid_in(k, j, id));
            } else {
                assert(entry_ids(es)[i2] == id);
            }
        }
        if kid_in(k, j, id) {
            let (j2, i2) = choose|j2: int, i2: int|
                0 <= j2 < j && 0 <= i2 < k[j2].entries.len() && (#[trigger] k[j2].entries[i2]).entry_id
                    == id;
            assert(0 <= j2 < j + 1);
        }
    }
    assert forall|y: (ModuleKey, EntryView)| #[trigger] s1.pending.contains(y) <==> (
    initial_pending(agent).contains(y) && !kbuiltin_in(k, j + 1, y.1.entry_id)) by {
        if kbuiltin_in(k, j + 1, y.1.entry_id) {
            let j2 = choose|j2: int| 0 <= j2 < j + 1 && builtin_id_in((#[trigger] k[j2]).entries, y.1.entry_id);
            if j2 < j {
                assert(kbuiltin_in(k, j, y.1.entry_id));
            }
        }
        if kbuiltin_in(k, j, y.1.entry_id) {
            let j2 = choose|j2: int| 0 <= j2 < j && builtin_id_in((#[trigger] k[j2]).entries, y.1.entry_id);
            assert(0 <= j2 < j + 1);
        }
        if builtin_id_in(es, y.1.entry_id) {
            assert(builtin_id_in(k[j].entries, y.1.entry_id));
        }
    }
}

proof fn lemma_fold_modules_rebuild(agent: PromptAgentKind, n: Seq<ModuleView>, k: Seq<ModuleView>, j: int)
    requires
        normal_modules(agent, n),
        rebuilds(agent, n, k),
        0 <= j <= k.len(),
    ensures
        fold_modules(agent, k.take(j)) is Ok,
        built_upto(agent, k, j, fold_modules(agent, k.take(j))->Ok_0),
    decreases j,
{
    if j == 0 {
        assert(k.take(0) =~= Seq::<ModuleView>::empty());
        lemma_built_upto_start(agent, k);
    } else {
        lemma_fold_modules_rebuild(agent, n, k, j - 1);
        assert(k.take(j).drop_last() =~= k.take(j - 1));
        assert(k.take(j).last() == k[j - 1]);
        lemma_step_module_rebuild(agent, n, k, j - 1, fold_modules(agent, k.take(j - 1))->Ok_0);
    }
}

/// Two sequences without repeats and with the same elements have the same
/// multiset.
pub(crate) proof fn lemma_same_multiset<A>(x: Seq<A>, y: Seq<A>)
    requires
        x.no_duplicates(),
        y.no_duplicates(),
        forall|v: A| x.contains(v) <==> y.contains(v),
    ensures
        x.to_multiset() == y.to_multiset(),
{
    broadcast use vstd::seq_lib::group_to_multiset_ensures;

    x.lemma_multiset_has_no_duplicates();
    y.lemma_multiset_has_no_duplicates();
    assert forall|v: A| x.to_multiset().count(v) == y.to_multiset().count(v) by {
        if x.contains(v) {
            assert(x.to_multiset().contains(v));
            assert(y.to_multiset().contains(v));
        } else {
            assert(!x.to_multiset().contains(v));
            assert(!y.to_multiset().contains(v));
        }
    }
    assert(x.to_multiset() =~= y.to_multiset());
}

/// Entries with distinct ids do not repeat.
pub(crate) proof fn lemma_ids_no_dup(es: Seq<EntryView>)
    requires
        forall|i: int, j: int| 0 <= i < j < es.len() ==> (#[trigger] es[i]).entry_id != (#[trigger] es[j]).entry_id,
    ensures
        es.no_duplicates(),
{
    assert forall|i: int, j: int| 0 <= i < es.len() && 0 <= j < es.len() && i != j implies es[i]
        != es[j] by {
        if i < j {
            assert(es[i].entry_id != es[j].entry_id);
        } else {
            assert(es[j].entry_id != es[i].entry_id);
        }
    }
}

/// After every module of `k` is read, no pending entry has an id that was
/// read, and each belongs to a module that is there.
proof fn lemma_pending_fresh(agent: PromptAgentKind, n: Seq<ModuleView>, k: Seq<ModuleView>, s: NormState)
    requires
        normal_modules(agent, n),
        rebuilds(agent, n, k),
        built_upto(agent, k, k.len() as int, s),
    ensures
        forall|q: int| 0 <= q < s.pending.len() ==> !s.seen_ents.contains((#[trigger] s.pending[q]).1.entry_id),
        forall|q: int| 0 <= q < s.pending.len() ==> module_index(s.mods, (#[trigger] s.pending[q]).0) is Some,
{
    reveal(built_upto);
    reveal(rb_entries);
    lemma_initial_pending(agent);
    let p0 = initial_pending(agent);
    assert forall|q: int| 0 <= q < s.pending.len() implies !s.seen_ents.contains(
        (#[trigger] s.pending[q]).1.entry_id,
    ) && module_index(s.mods, s.pending[q].0) is Some by {
        let y = s.pending[q];
        assert(s.pending.contains(y));
        assert(p0.contains(y));
        let q0 = choose|q0: int| 0 <= q0 < p0.len() && p0[q0] == y;
        lemma_find_pending_contains(p0, y);
        if s.seen_ents.contains(y.1.entry_id) {
            let (j2, i2) = choose|j2: int, i2: int|
                0 <= j2 < k.len() && 0 <= i2 < k[j2].entries.len() && (#[trigger] k[j2].entries[i2]).entry_id
                    == y.1.entry_id;
            let x = k[j2].entries[i2];
            assert(stands_for(agent, x));
            if x.kind != PromptEntryKind::CustomText {
                assert(builtin_id_in(k[j2].entries, y.1.entry_id));
                assert(kbuiltin_in(k, k.len() as int, y.1.entry_id));
            } else {
                assert(restored(agent, x) == x);
            }
        }
        assert(is_builtin_key(p0[q0].0));
        let i = choose|i: int| 0 <= i < s.mods.len() && (#[trigger] s.mods[i]).module_id == y.0;
        lemma_module_index(s.mods, y.0);
    }
}

/// A read module of `k`, with the pending entries of its identifier placed,
/// holds the same entries as the module of `n` with that identifier.
#[verifier::rlimit(60)]
proof fn lemma_rebuilt_entries(
    agent: PromptAgentKind,
    n: Seq<ModuleView>,
    k: Seq<ModuleView>,
    s: NormState,
    i: int,
)
    requires
        normal_modules(agent, n),
        rebuilds(agent, n, k),
        built_upto(agent, k, k.len() as int, s),
        0 <= i < s.mods.len(),
        module_index(n, s.mods[i].module_id) is Some,
    ensures
        (s.mods[i].entries + placed_in(s.pending, s.mods[i].module_id)).to_multiset()
            == counterpart(n, s.mods[i].module_id).entries.to_multiset(),
{
    reveal(built_upto);
    reveal(nm_entries_normal);
    reveal(nm_ids_unique);
    reveal(nm_covers);
    reveal(rb_meta);
    reveal(rb_entries);
    reveal(rb_within);
    reveal(rb_cover);
    lemma_initial_pending(agent);
    lemma_pending_fresh(agent, n, k, s);
    let p0 = initial_pending(agent);
    let p = s.pending;
    let key = s.mods[i].module_id;
    lemma_module_index(n, key);
    let a = module_index(n, key)->0;
    let nn = n[a].entries;
    let e_part = s.mods[i].entries;
    let p_part = placed_in(p, key);
    let f = e_part + p_part;
    lemma_placed_in(p, key);
    let kl = k.len() as int;
    // what the read part holds
    assert(processed(k, kl, key) ==> exists|j: int|
        0 <= j < k.len() && (#[trigger] k[j]).module_id == key && e_part == k[j].entries.map_values(
            restorer(agent),
        )) by {
        if processed(k, kl, key) {
            let j = choose|j: int| 0 <= j < kl && (#[trigger] k[j]).module_id == key;
            assert(s.mods[i] == rebuilt(agent, k[j]));
        }
    }
    assert(!processed(k, kl, key) ==> e_part.len() == 0) by {
        if !processed(k, kl, key) {
            assert(s.mods[i] == empty_builtin_module(builtin_of(key)));
        }
    }
    // the read part: ids distinct, each read
    assert forall|t: int| 0 <= t < e_part.len() implies s.seen_ents.contains(
        (#[trigger] e_part[t]).entry_id,
    ) && nn.contains(e_part[t]) by {
        let j = choose|j: int|
            0 <= j < k.len() && (#[trigger] k[j]).module_id == key && e_part == k[j].entries.map_values(
                restorer(agent),
            );
        assert(e_part[t] == restored(agent, k[j].entries[t]));
        assert(kid_in(k, kl, k[j].entries[t].entry_id));
        assert(counterpart(n, k[j].module_id) == n[a]);
    }
    assert forall|t1: int, t2: int| 0 <= t1 < t2 < e_part.len() implies (#[trigger] e_part[t1]).entry_id
        != (#[trigger] e_part[t2]).entry_id by {
        let j = choose|j: int|
            0 <= j < k.len() && (#[trigger] k[j]).module_id == key && e_part == k[j].entries.map_values(
                restorer(agent),
            );
        assert(e_part[t1] == restored(agent, k[j].entries[t1]));
        assert(e_part[t2] == restored(agent, k[j].entries[t2]));
        assert(k[j].entries[t1].entry_id != k[j].entries[t2].entry_id);
    }
    // the placed part: each is in the module of n
    assert forall|t: int| 0 <= t < p_part.len() implies nn.contains(#[trigger] p_part[t]) && !s.seen_ents.contains(
        p_part[t].entry_id,
    ) by {
        let e = p_part[t];
        assert(p_part.contains(e));
        let q = choose|q: int| 0 <= q < p.len() && (#[trigger] p[q]).0 == key && p[q].1 == e;
        let y = p[q];
        assert(p.contains(y));
        assert(p0.contains(y));
        assert(!kbuiltin_in(k, kl, y.1.entry_id));
        let q0 = choose|q0: int| 0 <= q0 < p0.len() && p0[q0] == y;
        lemma_find_pending_contains(p0, y);
        let (a2, i2) = choose|a2: int, i2: int|
            0 <= a2 < n.len() && 0 <= i2 < n[a2].entries.len() && (#[trigger] n[a2].entries[i2]).entry_id
                == (#[trigger] p0[q0]).1.entry_id;
        let g = n[a2].entries[i2];
        assert(normal_entry(agent, g));
        assert(g.kind != PromptEntryKind::CustomText);
        if exists|j: int, i3: int|
            0 <= j < k.len() && 0 <= i3 < k[j].entries.len() && k[j].module_id == n[a2].module_id
                && restored(agent, #[trigger] k[j].entries[i3]) == g {
            let (j, i3) = choose|j: int, i3: int|
                0 <= j < k.len() && 0 <= i3 < k[j].entries.len() && k[j].module_id == n[a2].module_id
                    && restored(agent, #[trigger] k[j].entries[i3]) == g;
            let x = k[j].entries[i3];
            assert(restored(agent, x).kind == x.kind);
            assert(builtin_id_in(k[j].entries, y.1.entry_id));
            assert(kbuiltin_in(k, kl, y.1.entry_id));
        }
        assert(droppable(agent, n[a2].module_id, g));
        assert(y == (n[a2].module_id, g));
        assert(a2 == a);
        assert(nn[i2] == e);
        assert(!s.seen_ents.contains(y.1.entry_id));
    }
    // no repeats
    assert forall|t1: int, t2: int| 0 <= t1 < t2 < f.len() implies (#[trigger] f[t1]).entry_id
        != (#[trigger] f[t2]).entry_id by {
        if t2 < e_part.len() {
            assert(f[t1] == e_part[t1] && f[t2] == e_part[t2]);
        } else if t1 >= e_part.len() {
            assert(f[t1] == p_part[t1 - e_part.len()] && f[t2] == p_part[t2 - e_part.len()]);
        } else {
            assert(f[t1] == e_part[t1]);
            assert(f[t2] == p_part[t2 - e_part.len()]);
            assert(s.seen_ents.contains(e_part[t1].entry_id));
        }
    }
    lemma_ids_no_dup(f);
    assert forall|t1: int, t2: int| 0 <= t1 < t2 < nn.len() implies (#[trigger] nn[t1]).entry_id
        != (#[trigger] nn[t2]).entry_id by {
        if nn[t1].entry_id == nn[t2].entry_id {
            assert(n[a].entries[t1].entry_id == n[a].entries[t2].entry_id);
        }
    }
    lemma_ids_no_dup(nn);
    assert forall|v: EntryView| f.contains(v) <==> nn.contains(v) by {
        lemma_concat_contains(e_part, p_part, v);
        if e_part.contains(v) {
            let t = choose|t: int| 0 <= t < e_part.len() && e_part[t] == v;
            assert(nn.contains(e_part[t]));
        }
        if p_part.contains(v) {
            let t = choose|t: int| 0 <= t < p_part.len() && p_part[t] == v;
            assert(nn.contains(p_part[t]));
        }
        if nn.contains(v) {
            let i2 = choose|i2: int| 0 <= i2 < nn.len() && nn[i2] == v;
            assert(n[a].entries[i2] == v);
            let covered = exists|j: int, i3: int|
                0 <= j < k.len() && 0 <= i3 < k[j].entries.len() && k[j].module_id == n[a].module_id
                    && restored(agent, #[trigger] k[j].entries[i3]) == v;
            if !covered {
                assert(droppable(agent, key, v));
                let y = (key, v);
                lemma_builtin_entry(agent, v.entry_id);
                let q0 = choose|q0: int|
                    0 <= q0 < p0.len() && #[trigger] p0[q0] == builtin_entry(agent, v.entry_id)->0
                        && p0[q0].1.entry_id == v.entry_id;
                assert(p0.contains(y));
                if kbuiltin_in(k, kl, v.entry_id) {
                    let j = choose|j: int| 0 <= j < kl && builtin_id_in((#[trigger] k[j]).entries, v.entry_id);
                    let i3 = choose|i3: int|
                        0 <= i3 < k[j].entries.len() && (#[trigger] k[j].entries[i3]).kind
                            != PromptEntryKind::CustomText && k[j].entries[i3].entry_id == v.entry_id;
                    let x = k[j].entries[i3];
                    lemma_module_index(n, k[j].module_id);
                    let a3 = module_index(n, k[j].module_id)->0;
                    assert(n[a3].entries.contains(restored(agent, x)));
                    let i4 = choose|i4: int| 0 <= i4 < n[a3].entries.len() && n[a3].entries[i4] == restored(agent, x);
                    assert(n[a3].entries[i4].entry_id == n[a].entries[i2].entry_id);
                    assert(a3 == a && i4 == i2);
                    assert(k[j].module_id == n[a].module_id);
                    assert(false);
                }
                assert(p.contains(y));
                let q = choose|q: int| 0 <= q < p.len() && p[q] == y;
                assert(p[q].0 == key && p[q].1 == v);
                assert(p_part.contains(v));
            } else {
                let (j, i3) = choose|j: int, i3: int|
                    0 <= j < k.len() && 0 <= i3 < k[j].entries.len() && k[j].module_id == n[a].module_id
                        && restored(agent, #[trigger] k[j].entries[i3]) == v;
                assert(processed(k, kl, key));
                assert(s.mods[i] == rebuilt(agent, k[j]));
                assert(e_part[i3] == v);
                assert(e_part.contains(v));
            }
        }
    }
    lemma_same_multiset(f, nn);
}

/// The same preset apart from the modules.
pub open spec fn same_options(x: PresetView, y: PresetView) -> bool {
    &&& x.temperature_bits == y.temperature_bits
    &&& x.max_tokens == y.max_tokens
    &&& x.director_shared_history_limit == y.director_shared_history_limit
    &&& x.actor_shared_history_limit == y.actor_shared_history_limit
    &&& x.actor_private_memory_limit == y.actor_private_memory_limit
    &&& x.narrator_shared_history_limit == y.narrator_shared_history_limit
    &&& x.replyer_session_history_limit == y.replyer_session_history_limit
    &&& x.extra_json == y.extra_json
}

/// The identifier of a read module is one of `n`'s.
proof fn lemma_read_key_found(agent: PromptAgentKind, n: Seq<ModuleView>, k: Seq<ModuleView>, s: NormState, i: int)
    requires
        normal_modules(agent, n),
        rebuilds(agent, n, k),
        built_upto(agent, k, k.len() as int, s),
        0 <= i < s.mods.len(),
    ensures
        module_index(n, s.mods[i].module_id) is Some,
        counterpart(n, s.mods[i].module_id).module_id == s.mods[i].module_id,
{
    reveal(built_upto);
    reveal(nm_builtins_present);
    reveal(rb_meta);
    let kl = k.len() as int;
    let key = s.mods[i].module_id;
    if is_builtin_key(key) {
        let a = choose|a: int| 0 <= a < n.len() && (#[trigger] n[a]).module_id == key;
        lemma_module_index(n, key);
    } else {
        assert(processed(k, kl, key));
        let j = choose|j: int| 0 <= j < kl && (#[trigger] k[j]).module_id == key;
    }
    lemma_module_index(n, key);
}

/// Basic facts of a state being built: distinct module identifiers and
/// distinct pending ids.
proof fn lemma_bu_basics(agent: PromptAgentKind, k: Seq<ModuleView>, j: int, s: NormState)
    requires
        built_upto(agent, k, j, s),
    ensures
        keys_distinct(s.mods),
        ids_distinct(s.pending),
{
    reveal(built_upto);
}

/// A module of the state whose identifier was read is the rebuilt module.
proof fn lemma_bu_rebuilt(agent: PromptAgentKind, k: Seq<ModuleView>, j: int, s: NormState, i: int, j2: int)
    requires
        built_upto(agent, k, j, s),
        0 <= i < s.mods.len(),
        0 <= j2 < j,
        s.mods[i].module_id == k[j2].module_id,
    ensures
        s.mods[i] == rebuilt(agent, k[j2]),
{
    reveal(built_upto);
}

/// A module of the state whose identifier was not read is an empty built-in
/// module.
proof fn lemma_bu_empty(agent: PromptAgentKind, k: Seq<ModuleView>, j: int, s: NormState, i: int)
    requires
        built_upto(agent, k, j, s),
        0 <= i < s.mods.len(),
        !processed(k, j, s.mods[i].module_id),
    ensures
        s.mods[i] == empty_builtin_module(builtin_of(s.mods[i].module_id)),
        is_builtin_key(s.mods[i].module_id),
{
    reveal(built_upto);
}

/// A read module has the name, role and order of the module of `n` with its
/// identifier.
proof fn lemma_read_meta(agent: PromptAgentKind, n: Seq<ModuleView>, k: Seq<ModuleView>, s: NormState, i: int)
    requires
        normal_modules(agent, n),
        rebuilds(agent, n, k),
        built_upto(agent, k, k.len() as int, s),
        0 <= i < s.mods.len(),
        module_index(n, s.mods[i].module_id) is Some,
        counterpart(n, s.mods[i].module_id).module_id == s.mods[i].module_id,
    ensures
        counterpart(n, s.mods[i].module_id).display_name == s.mods[i].display_name,
        counterpart(n, s.mods[i].module_id).message_role == s.mods[i].message_role,
        counterpart(n, s.mods[i].module_id).order == s.mods[i].order,
{
    let kl = k.len() as int;
    let key = s.mods[i].module_id;
    lemma_module_index(n, key);
    let a = module_index(n, key)->0;
    if processed(k, kl, key) {
        let j = choose|j: int| 0 <= j < kl && (#[trigger] k[j]).module_id == key;
        lemma_bu_rebuilt(agent, k, kl, s, i, j);
        reveal(rb_meta);
        assert(module_index(n, k[j].module_id) is Some);
    } else {
        lemma_bu_empty(agent, k, kl, s, i);
        reveal(rb_modules);
        assert(default_meta(n[a]) || exists|j: int| 0 <= j < k.len() && (#[trigger] k[j]).module_id == n[a].module_id);
        if !default_meta(n[a]) {
            let j = choose|j: int| 0 <= j < k.len() && (#[trigger] k[j]).module_id == n[a].module_id;
            assert(processed(k, kl, key));
        }
    }
}

/// The modules of a normal form have sorted entries.
proof fn lemma_normal_sorted(agent: PromptAgentKind, n: Seq<ModuleView>, a: int)
    requires
        normal_modules(agent, n),
        0 <= a < n.len(),
    ensures
        entries_sorted(n[a].entries),
{
    reveal(nm_modules_ok);
}

/// A read module, with its pending entries placed, is the module of `n` with
/// its identifier, up to the order of entries.
proof fn lemma_placed_module_resorted(
    agent: PromptAgentKind,
    n: Seq<ModuleView>,
    k: Seq<ModuleView>,
    s: NormState,
    i: int,
)
    requires
        normal_modules(agent, n),
        rebuilds(agent, n, k),
        built_upto(agent, k, k.len() as int, s),
        0 <= i < s.mods.len(),
    ensures
        module_index(n, s.mods[i].module_id) is Some,
        resorted_module(
            ModuleView {
                entries: s.mods[i].entries + placed_in(s.pending, s.mods[i].module_id),
                ..s.mods[i]
            },
            counterpart(n, s.mods[i].module_id),
        ),
{
    lemma_read_key_found(agent, n, k, s, i);
    lemma_read_meta(agent, n, k, s, i);
    lemma_rebuilt_entries(agent, n, k, s, i);
    lemma_module_index(n, s.mods[i].module_id);
    lemma_normal_sorted(agent, n, module_index(n, s.mods[i].module_id)->0);
}

/// Every module of `n` has its identifier among the read modules.
proof fn lemma_read_covers(agent: PromptAgentKind, n: Seq<ModuleView>, k: Seq<ModuleView>, s: NormState, a: int)
    requires
        normal_modules(agent, n),
        rebuilds(agent, n, k),
        built_upto(agent, k, k.len() as int, s),
        0 <= a < n.len(),
    ensures
        exists|i: int| 0 <= i < s.mods.len() && (#[trigger] s.mods[i]).module_id == n[a].module_id,
{
    reveal(built_upto);
    reveal(rb_modules);
    let key = n[a].module_id;
    if !is_builtin_key(key) {
        assert(!default_meta(n[a]));
        let j = choose|j: int| 0 <= j < k.len() && (#[trigger] k[j]).module_id == n[a].module_id;
        let i = choose|i: int| 0 <= i < s.mods.len() && (#[trigger] s.mods[i]).module_id == (#[trigger] k[j]).module_id;
    }
}

/// Normalizing a preset whose modules rebuild a normal form gives that normal
/// form.
pub(crate) proof fn lemma_rebuild_normalizes(agent: PromptAgentKind, np: PresetView, kp: PresetView)
    requires
        normal_modules(agent, np.modules),
        rebuilds(agent, np.modules, kp.modules),
        same_options(np, kp),
    ensures
        normalized_result(agent, kp, np),
{
    let n = np.modules;
    let k = kp.modules;
    lemma_fold_modules_rebuild(agent, n, k, k.len() as int);
    assert(k.take(k.len() as int) =~= k);
    let s = fold_modules(agent, k)->Ok_0;
    lemma_bu_basics(agent, k, k.len() as int, s);
    lemma_pending_fresh(agent, n, k, s);
    lemma_fold_flush_places(agent, s, s.pending);
    let sf = fold_flush(agent, s, s.pending)->Ok_0;
    assert(merged(agent, kp) == Ok::<NormState, ConfigErrorView>(sf));
    let mid = Seq::new(sf.mods.len(), |i: int| counterpart(n, sf.mods[i].module_id));
    assert forall|i: int| 0 <= i < mid.len() implies resorted_module(#[trigger] sf.mods[i], mid[i]) by {
        lemma_placed_module_resorted(agent, n, k, s, i);
    }
    assert forall|i: int, j: int| 0 <= i < mid.len() && 0 <= j < mid.len() && i != j implies mid[i]
        != mid[j] by {
        lemma_placed_module_resorted(agent, n, k, s, i);
        lemma_placed_module_resorted(agent, n, k, s, j);
        lemma_module_index(n, s.mods[i].module_id);
        lemma_module_index(n, s.mods[j].module_id);
    }
    assert forall|i: int, j: int| 0 <= i < n.len() && 0 <= j < n.len() && i != j implies n[i]
        != n[j] by {}
    assert forall|v: ModuleView| mid.contains(v) <==> n.contains(v) by {
        if mid.contains(v) {
            let i = choose|i: int| 0 <= i < mid.len() && mid[i] == v;
            lemma_placed_module_resorted(agent, n, k, s, i);
            lemma_module_index(n, s.mods[i].module_id);
        }
        if n.contains(v) {
            let a = choose|a: int| 0 <= a < n.len() && n[a] == v;
            lemma_read_covers(agent, n, k, s, a);
            let i = choose|i: int| 0 <= i < s.mods.len() && (#[trigger] s.mods[i]).module_id == n[a].module_id;
            lemma_module_index(n, n[a].module_id);
            assert(mid[i] == v);
        }
    }
    lemma_same_multiset(mid, n);
}

} // verus!
