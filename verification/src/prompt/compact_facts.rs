//! What compaction keeps of a preset in normal form: enough for
//! normalization to rebuild it; and a normal form keeps all of itself.
use vstd::prelude::*;

use crate::prompt::compact::{
    compact_entries, compact_entry, compact_module, compact_modules, compact_spec,
    default_module_of, matches_default, stripped,
};
use crate::prompt::defaults::{
    builtin_module_name, builtin_module_order, builtin_module_role, builtin_modules,
    default_module, default_preset,
};
use crate::prompt::normalize::{find_pending, initial_pending, module_index};

use crate::prompt::roundtrip::{
    builtin_entry, builtin_of, counterpart, default_meta, droppable, keys_distinct,
    lemma_builtin_entry, lemma_initial_pending, lemma_module_index, lemma_renormalize_entry,
    nm_entries_normal, nm_ids_unique, normal_entry, normal_modules, rb_cover, rb_entries, rb_meta,
    rb_modules, rb_within, rebuilds, restored, same_options, stands_for,
};
use crate::prompt::templates::BuiltinModule;
use crate::prompt::types::{
    is_builtin_key, ConfigErrorView, EntryView, ModuleKey, ModuleView, PresetView,
    PromptAgentKind, PromptEntryKind,
};

verus! {

/// The default module of an identifier: the built-in module's default for a
/// built-in identifier, none for a custom one.
pub(crate) proof fn lemma_default_module_of(agent: PromptAgentKind, key: ModuleKey)
    ensures
        is_builtin_key(key) ==> default_module_of(agent, key) == Some(
            default_module(agent, builtin_of(key)),
        ),
        !is_builtin_key(key) ==> default_module_of(agent, key) is None,
{
    let ms = default_preset(agent).modules;
    let bm = builtin_modules();
    assert(ms.len() == 5);
    assert forall|i: int| 0 <= i < 5 implies (#[trigger] ms[i]) == default_module(agent, bm[i]) by {}
    assert(ms[0].module_id == ModuleKey::Role);
    assert(ms[1].module_id == ModuleKey::Task);
    assert(ms[2].module_id == ModuleKey::StaticContext);
    assert(ms[3].module_id == ModuleKey::DynamicContext);
    assert(ms[4].module_id == ModuleKey::Output);
    assert(keys_distinct(ms));
    lemma_module_index(ms, key);
    match key {
        ModuleKey::Role => assert(ms[0].module_id == key),
        ModuleKey::Task => assert(ms[1].module_id == key),
        ModuleKey::StaticContext => assert(ms[2].module_id == key),
        ModuleKey::DynamicContext => assert(ms[3].module_id == key),
        ModuleKey::Output => assert(ms[4].module_id == key),
        ModuleKey::Custom(_) => {},
    }
}

/// What compaction does to one normal entry: keeps a custom entry, keeps the
/// stripped form of a built-in entry that moved or differs from its
/// definition, and drops the others, which are droppable.
proof fn lemma_compact_normal_entry(agent: PromptAgentKind, key: ModuleKey, e: EntryView)
    requires
        normal_entry(agent, e),
    ensures
        compact_entry(agent, key, e) is Ok,
        match compact_entry(agent, key, e)->Ok_0 {
            Some(x) => stands_for(agent, x) && restored(agent, x) == e && x.entry_id == e.entry_id,
            None => droppable(agent, key, e),
        },
{
    if e.kind == PromptEntryKind::CustomText {
        lemma_renormalize_entry(agent, key, e, e, initial_pending(agent));
    } else {
        let p = builtin_entry(agent, e.entry_id)->0;
        lemma_builtin_entry(agent, e.entry_id);
        if key != p.0 || !matches_default(e, p.1) {
            lemma_renormalize_entry(agent, key, e, stripped(e), initial_pending(agent));
            lemma_renormalize_entry(agent, key, e, e, initial_pending(agent));
        } else {
            lemma_initial_pending(agent);
            assert(p.1 == e);
        }
    }
}

/// Compacting the normal entries of a module, with distinct ids.
pub(crate) proof fn lemma_compact_entries(agent: PromptAgentKind, key: ModuleKey, es: Seq<EntryView>)
    requires
        forall|i: int| 0 <= i < es.len() ==> normal_entry(agent, #[trigger] es[i]),
        forall|i: int, j: int| 0 <= i < j < es.len() ==> (#[trigger] es[i]).entry_id != (#[trigger] es[j]).entry_id,
    ensures
        compact_entries(agent, key, es) is Ok,
        forall|t: int|
            0 <= t < compact_entries(agent, key, es)->Ok_0.len() ==> exists|i: int|
                0 <= i < es.len() && compact_entry(agent, key, #[trigger] es[i]) == Ok::<
                    Option<EntryView>,
                    ConfigErrorView,
                >(Some(#[trigger] compact_entries(agent, key, es)->Ok_0[t])),
        forall|t1: int, t2: int|
            0 <= t1 < t2 < compact_entries(agent, key, es)->Ok_0.len() ==> (#[trigger] compact_entries(
                agent,
                key,
                es,
            )->Ok_0[t1]).entry_id != (#[trigger] compact_entries(agent, key, es)->Ok_0[t2]).entry_id,
        forall|i: int|
            0 <= i < es.len() && (#[trigger] compact_entry(agent, key, es[i])) is Ok
                && compact_entry(agent, key, es[i])->Ok_0 is Some ==> compact_entries(
                agent,
                key,
                es,
            )->Ok_0.contains(compact_entry(agent, key, es[i])->Ok_0->0),
    decreases es.len(),
{
    if es.len() > 0 {
        let t = es.drop_last();
        let x = es.last();
        assert forall|i: int| 0 <= i < t.len() implies normal_entry(agent, #[trigger] t[i]) by {
            assert(t[i] == es[i]);
        }
        assert forall|i: int, j: int| 0 <= i < j < t.len() implies (#[trigger] t[i]).entry_id
            != (#[trigger] t[j]).entry_id by {
            assert(t[i] == es[i] && t[j] == es[j]);
        }
        lemma_compact_entries(agent, key, t);
        let r0 = compact_entries(agent, key, t)->Ok_0;
        assert(normal_entry(agent, es[es.len() - 1]));
        lemma_compact_normal_entry(agent, key, x);
        let r = compact_entries(agent, key, es)->Ok_0;
        assert forall|k: int| #![trigger r0[k]] 0 <= k < r0.len() implies exists|i: int|
            0 <= i < t.len() && (#[trigger] t[i]).entry_id == r0[k].entry_id by {
            let i = choose|i: int|
                0 <= i < t.len() && compact_entry(agent, key, #[trigger] t[i]) == Ok::<
                    Option<EntryView>,
                    ConfigErrorView,
                >(Some(r0[k]));
            lemma_compact_normal_entry(agent, key, t[i]);
        }
        assert forall|k: int| 0 <= k < r.len() implies exists|i: int|
            0 <= i < es.len() && compact_entry(agent, key, #[trigger] es[i]) == Ok::<
                Option<EntryView>,
                ConfigErrorView,
            >(Some(#[trigger] r[k])) by {
            if k < r0.len() {
                assert(r[k] == r0[k]);
                let i = choose|i: int|
                    0 <= i < t.len() && compact_entry(agent, key, #[trigger] t[i]) == Ok::<
                        Option<EntryView>,
                        ConfigErrorView,
                    >(Some(r0[k]));
                assert(es[i] == t[i]);
            } else {
                assert(es[es.len() - 1] == x);
            }
        }
        assert forall|t1: int, t2: int| 0 <= t1 < t2 < r.len() implies (#[trigger] r[t1]).entry_id
            != (#[trigger] r[t2]).entry_id by {
            if t2 < r0.len() {
                assert(r[t1] == r0[t1] && r[t2] == r0[t2]);
            } else {
                assert(r[t1] == r0[t1]);
                let i = choose|i: int| 0 <= i < t.len() && (#[trigger] t[i]).entry_id == r0[t1].entry_id;
                assert(es[i] == t[i]);
                assert(es[i].entry_id != es[es.len() - 1].entry_id);
            }
        }
        assert forall|i: int|
            0 <= i < es.len() && (#[trigger] compact_entry(agent, key, es[i])) is Ok && compact_entry(
                agent,
                key,
                es[i],
            )->Ok_0 is Some implies r.contains(compact_entry(agent, key, es[i])->Ok_0->0) by {
            if i < t.len() {
                assert(t[i] == es[i]);
                let v = compact_entry(agent, key, es[i])->Ok_0->0;
                assert(r0.contains(v));
                let k = choose|k: int| 0 <= k < r0.len() && r0[k] == v;
                assert(r[k] == v);
            } else {
                assert(es[i] == x);
                assert(r[r.len() - 1] == compact_entry(agent, key, x)->Ok_0->0);
            }
        }
    }
}

/// Compacting modules with distinct identifiers and normal entries with
/// distinct ids.
pub(crate) proof fn lemma_compact_modules(agent: PromptAgentKind, ms: Seq<ModuleView>)
    requires
        keys_distinct(ms),
        forall|a: int, i: int|
            0 <= a < ms.len() && 0 <= i < ms[a].entries.len() ==> normal_entry(agent, #[trigger] ms[a].entries[i]),
        forall|a: int, i: int, j: int|
            0 <= a < ms.len() && 0 <= i < j < ms[a].entries.len() ==> (#[trigger] ms[a].entries[i]).entry_id
                != (#[trigger] ms[a].entries[j]).entry_id,
    ensures
        compact_modules(agent, ms) is Ok,
        keys_distinct(compact_modules(agent, ms)->Ok_0),
        forall|t: int|
            0 <= t < compact_modules(agent, ms)->Ok_0.len() ==> exists|a: int|
                0 <= a < ms.len() && compact_module(agent, #[trigger] ms[a]) == Ok::<
                    Option<ModuleView>,
                    ConfigErrorView,
                >(Some(#[trigger] compact_modules(agent, ms)->Ok_0[t])),
        forall|a: int|
            0 <= a < ms.len() ==> (#[trigger] compact_module(agent, ms[a])) is Ok && (compact_module(agent, ms[a])->Ok_0 is Some
                ==> compact_modules(agent, ms)->Ok_0.contains(compact_module(agent, ms[a])->Ok_0->0)),
    decreases ms.len(),
{
    assert forall|a: int| 0 <= a < ms.len() implies (#[trigger] compact_module(agent, ms[a])) is Ok && (
    compact_module(agent, ms[a])->Ok_0 is Some ==> compact_module(agent, ms[a])->Ok_0->0.module_id
        == ms[a].module_id) by {
        let m = ms[a];
        assert forall|i: int| 0 <= i < m.entries.len() implies normal_entry(agent, #[trigger] m.entries[i]) by {
            assert(normal_entry(agent, ms[a].entries[i]));
        }
        assert forall|i: int, j: int| 0 <= i < j < m.entries.len() implies (#[trigger] m.entries[i]).entry_id
            != (#[trigger] m.entries[j]).entry_id by {
            assert(ms[a].entries[i].entry_id != ms[a].entries[j].entry_id);
        }
        lemma_compact_entries(agent, m.module_id, m.entries);
    }
    if ms.len() > 0 {
        let t = ms.drop_last();
        let x = ms.last();
        assert forall|a: int, b: int|
            0 <= a < t.len() && 0 <= b < t.len() && (#[trigger] t[a]).module_id == (#[trigger] t[b]).module_id implies a
            == b by {
            assert(t[a] == ms[a] && t[b] == ms[b]);
        }
        assert forall|a: int, i: int|
            0 <= a < t.len() && 0 <= i < t[a].entries.len() implies normal_entry(agent, #[trigger] t[a].entries[i]) by {
            assert(t[a] == ms[a]);
        }
        assert forall|a: int, i: int, j: int|
            0 <= a < t.len() && 0 <= i < j < t[a].entries.len() implies (#[trigger] t[a].entries[i]).entry_id
            != (#[trigger] t[a].entries[j]).entry_id by {
            assert(t[a] == ms[a]);
        }
        lemma_compact_modules(agent, t);
        let r0 = compact_modules(agent, t)->Ok_0;
        let r = compact_modules(agent, ms)->Ok_0;
        assert(compact_module(agent, ms[ms.len() - 1]) is Ok);
        assert forall|k: int| 0 <= k < r.len() implies exists|a: int|
            0 <= a < ms.len() && compact_module(agent, #[trigger] ms[a]) == Ok::<
                Option<ModuleView>,
                ConfigErrorView,
            >(Some(#[trigger] r[k])) by {
            if k < r0.len() {
                assert(r[k] == r0[k]);
                let a = choose|a: int|
                    0 <= a < t.len() && compact_module(agent, #[trigger] t[a]) == Ok::<
                        Option<ModuleView>,
                        ConfigErrorView,
                    >(Some(r0[k]));
                assert(ms[a] == t[a]);
            } else {
                assert(ms[ms.len() - 1] == x);
            }
        }
        assert forall|k1: int, k2: int|
            0 <= k1 < r.len() && 0 <= k2 < r.len() && (#[trigger] r[k1]).module_id == (#[trigger] r[k2]).module_id implies k1
            == k2 by {
            if k1 < r0.len() && k2 < r0.len() {
                assert(r[k1] == r0[k1] && r[k2] == r0[k2]);
            } else if k1 != k2 {
                let kk = if k1 < r0.len() {
                    k1
                } else {
                    k2
                };
                assert(kk < r0.len());
                assert(r[kk] == r0[kk]);
                let a = choose|a: int|
                    0 <= a < t.len() && compact_module(agent, #[trigger] t[a]) == Ok::<
                        Option<ModuleView>,
                        ConfigErrorView,
                    >(Some(r0[kk]));
                assert(ms[a] == t[a]);
                assert(compact_module(agent, ms[a]) is Ok);
                assert(ms[a].module_id == r0[kk].module_id);
                assert(ms[ms.len() - 1].module_id == r[r.len() - 1].module_id);
                assert(a != ms.len() - 1);
            }
        }
        assert forall|a: int|
            0 <= a < ms.len() implies (#[trigger] compact_module(agent, ms[a])) is Ok && (compact_module(agent, ms[a])->Ok_0 is Some
                ==> r.contains(compact_module(agent, ms[a])->Ok_0->0)) by {
            if a < t.len() {
                assert(t[a] == ms[a]);
                if compact_module(agent, ms[a])->Ok_0 is Some {
                    let v = compact_module(agent, ms[a])->Ok_0->0;
                    assert(compact_module(agent, t[a]) is Ok);
                    assert(r0.contains(v));
                    let k = choose|k: int| 0 <= k < r0.len() && r0[k] == v;
                    assert(r[k] == v);
                }
            } else {
                assert(ms[a] == x);
                if compact_module(agent, x)->Ok_0 is Some {
                    assert(r[r.len() - 1] == compact_module(agent, x)->Ok_0->0);
                }
            }
        }
    }
}

/// The entries of a normal form's modules are normal, with distinct ids in
/// each module.
proof fn lemma_normal_entries(agent: PromptAgentKind, n: Seq<ModuleView>)
    requires
        normal_modules(agent, n),
    ensures
        forall|a: int, i: int|
            0 <= a < n.len() && 0 <= i < n[a].entries.len() ==> normal_entry(agent, #[trigger] n[a].entries[i]),
        forall|a: int, i: int, j: int|
            0 <= a < n.len() && 0 <= i < j < n[a].entries.len() ==> (#[trigger] n[a].entries[i]).entry_id
                != (#[trigger] n[a].entries[j]).entry_id,
{
    reveal(nm_entries_normal);
    reveal(nm_ids_unique);
    assert forall|a: int, i: int, j: int|
        0 <= a < n.len() && 0 <= i < j < n[a].entries.len() implies (#[trigger] n[a].entries[i]).entry_id
        != (#[trigger] n[a].entries[j]).entry_id by {
        if n[a].entries[i].entry_id == n[a].entries[j].entry_id {
            assert(i == j);
        }
    }
}

/// A normal form holds all that normalization needs to rebuild it.
pub(crate) proof fn lemma_normal_rebuilds_itself(agent: PromptAgentKind, n: Seq<ModuleView>)
    requires
        normal_modules(agent, n),
    ensures
        rebuilds(agent, n, n),
{
    lemma_normal_entries(agent, n);
    assert(rb_meta(n, n)) by {
        reveal(rb_meta);
        assert forall|j: int| 0 <= j < n.len() implies module_index(n, (#[trigger] n[j]).module_id) is Some
            && counterpart(n, n[j].module_id) == n[j] by {
            lemma_module_index(n, n[j].module_id);
        }
    }
    assert(rb_entries(agent, n, n)) by {
        reveal(rb_entries);
        assert forall|j: int, i: int| 0 <= j < n.len() && 0 <= i < n[j].entries.len() implies {
            &&& stands_for(agent, #[trigger] n[j].entries[i])
            &&& counterpart(n, n[j].module_id).entries.contains(restored(agent, n[j].entries[i]))
        } by {
            let e = n[j].entries[i];
            lemma_renormalize_entry(agent, n[j].module_id, e, e, find_pending_all(agent));
            lemma_module_index(n, n[j].module_id);
            assert(counterpart(n, n[j].module_id) == n[j]);
            assert(n[j].entries[i] == e);
        }
    }
    assert(rb_within(n)) by {
        reveal(rb_within);
    }
    assert(rb_cover(agent, n, n)) by {
        reveal(rb_cover);
        assert forall|a: int, i: int| 0 <= a < n.len() && 0 <= i < n[a].entries.len() implies (droppable(
            agent,
            n[a].module_id,
            #[trigger] n[a].entries[i],
        ) || exists|j: int, i2: int|
            0 <= j < n.len() && 0 <= i2 < n[j].entries.len() && n[j].module_id == n[a].module_id
                && restored(agent, #[trigger] n[j].entries[i2]) == n[a].entries[i]) by {
            let e = n[a].entries[i];
            lemma_renormalize_entry(agent, n[a].module_id, e, e, find_pending_all(agent));
        }
    }
    assert(rb_modules(n, n)) by {
        reveal(rb_modules);
    }
}

/// The pending entries before anything is read.
pub open spec fn find_pending_all(agent: PromptAgentKind) -> Seq<(ModuleKey, crate::prompt::types::EntryView)> {
    initial_pending(agent)
}

/// A kept module is the compact form of the module of `n` with its
/// identifier.
proof fn lemma_kept_module(agent: PromptAgentKind, n: Seq<ModuleView>, j: int)
    requires
        normal_modules(agent, n),
        0 <= j < compact_modules(agent, n)->Ok_0.len(),
    ensures
        compact_modules(agent, n) is Ok,
        ({
            let ks = compact_modules(agent, n)->Ok_0;
            let a = module_index(n, ks[j].module_id)->0;
            &&& module_index(n, ks[j].module_id) is Some
            &&& 0 <= a < n.len()
            &&& n[a].module_id == ks[j].module_id
            &&& n[a].display_name == ks[j].display_name
            &&& n[a].message_role == ks[j].message_role
            &&& n[a].order == ks[j].order
            &&& compact_entries(agent, ks[j].module_id, n[a].entries) is Ok
            &&& ks[j].entries == compact_entries(agent, ks[j].module_id, n[a].entries)->Ok_0
        }),
{
    lemma_normal_entries(agent, n);
    lemma_compact_modules(agent, n);
    let ks = compact_modules(agent, n)->Ok_0;
    let a = choose|a: int|
        0 <= a < n.len() && compact_module(agent, #[trigger] n[a]) == Ok::<
            Option<ModuleView>,
            ConfigErrorView,
        >(Some(ks[j]));
    lemma_module_index(n, n[a].module_id);
}

/// The entries of a module of a normal form, with their facts.
proof fn lemma_module_entries(agent: PromptAgentKind, n: Seq<ModuleView>, a: int)
    requires
        normal_modules(agent, n),
        0 <= a < n.len(),
    ensures
        forall|i: int| 0 <= i < n[a].entries.len() ==> normal_entry(agent, #[trigger] n[a].entries[i]),
        forall|x: int, y: int| 0 <= x < y < n[a].entries.len() ==> (#[trigger] n[a].entries[x]).entry_id
            != (#[trigger] n[a].entries[y]).entry_id,
{
    lemma_normal_entries(agent, n);
}

proof fn lemma_compact_rb_entries(agent: PromptAgentKind, n: Seq<ModuleView>)
    requires
        normal_modules(agent, n),
        compact_modules(agent, n) is Ok,
    ensures
        rb_entries(agent, n, compact_modules(agent, n)->Ok_0),
        rb_within(compact_modules(agent, n)->Ok_0),
{
    let ks = compact_modules(agent, n)->Ok_0;
    reveal(rb_entries);
    reveal(rb_within);
    assert forall|j: int, i: int| 0 <= j < ks.len() && 0 <= i < ks[j].entries.len() implies {
        &&& stands_for(agent, #[trigger] ks[j].entries[i])
        &&& counterpart(n, ks[j].module_id).entries.contains(restored(agent, ks[j].entries[i]))
    } by {
        lemma_kept_module(agent, n, j);
        let a = module_index(n, ks[j].module_id)->0;
        lemma_module_entries(agent, n, a);
        lemma_compact_entries(agent, ks[j].module_id, n[a].entries);
        let i2 = choose|i2: int|
            0 <= i2 < n[a].entries.len() && compact_entry(agent, ks[j].module_id, #[trigger] n[a].entries[i2])
                == Ok::<Option<EntryView>, ConfigErrorView>(Some(ks[j].entries[i]));
        lemma_compact_normal_entry(agent, ks[j].module_id, n[a].entries[i2]);
    }
    assert forall|j: int, i1: int, i2: int|
        0 <= j < ks.len() && 0 <= i1 < i2 < ks[j].entries.len() implies (#[trigger] ks[j].entries[i1]).entry_id
        != (#[trigger] ks[j].entries[i2]).entry_id by {
        lemma_kept_module(agent, n, j);
        let a = module_index(n, ks[j].module_id)->0;
        lemma_module_entries(agent, n, a);
        lemma_compact_entries(agent, ks[j].module_id, n[a].entries);
    }
}

proof fn lemma_compact_rb_cover(agent: PromptAgentKind, n: Seq<ModuleView>)
    requires
        normal_modules(agent, n),
        compact_modules(agent, n) is Ok,
    ensures
        rb_cover(agent, n, compact_modules(agent, n)->Ok_0),
        rb_modules(n, compact_modules(agent, n)->Ok_0),
{
    let ks = compact_modules(agent, n)->Ok_0;
    lemma_normal_entries(agent, n);
    lemma_compact_modules(agent, n);
    reveal(rb_cover);
    reveal(rb_modules);
    assert forall|a: int, i: int| 0 <= a < n.len() && 0 <= i < n[a].entries.len() implies (droppable(
        agent,
        n[a].module_id,
        #[trigger] n[a].entries[i],
    ) || exists|j: int, i2: int|
        0 <= j < ks.len() && 0 <= i2 < ks[j].entries.len() && ks[j].module_id == n[a].module_id
            && restored(agent, #[trigger] ks[j].entries[i2]) == n[a].entries[i]) by {
        let e = n[a].entries[i];
        let key = n[a].module_id;
        lemma_compact_normal_entry(agent, key, e);
        if compact_entry(agent, key, e)->Ok_0 is Some {
            let x = compact_entry(agent, key, e)->Ok_0->0;
            lemma_module_entries(agent, n, a);
            lemma_compact_entries(agent, key, n[a].entries);
            let es = compact_entries(agent, key, n[a].entries)->Ok_0;
            assert(es.contains(x));
            assert(compact_module(agent, n[a]) is Ok);
            let m = compact_module(agent, n[a])->Ok_0->0;
            assert(m == ModuleView { entries: es, ..n[a] });
            assert(ks.contains(m));
            let j = choose|j: int| 0 <= j < ks.len() && ks[j] == m;
            let i2 = choose|i2: int| 0 <= i2 < es.len() && es[i2] == x;
            assert(ks[j].entries[i2] == x);
        }
    }
    assert forall|a: int| 0 <= a < n.len() implies (default_meta(#[trigger] n[a]) || exists|j: int|
        0 <= j < ks.len() && (#[trigger] ks[j]).module_id == n[a].module_id) by {
        let key = n[a].module_id;
        assert(compact_module(agent, n[a]) is Ok);
        if compact_module(agent, n[a])->Ok_0 is Some {
            let m = compact_module(agent, n[a])->Ok_0->0;
            assert(ks.contains(m));
            let j = choose|j: int| 0 <= j < ks.len() && ks[j] == m;
            assert(ks[j].module_id == key);
        } else {
            lemma_default_module_of(agent, key);
        }
    }
}

/// The compact form of a normal form exists and holds all that
/// normalization needs to rebuild it.
pub(crate) proof fn lemma_compact_rebuilds(agent: PromptAgentKind, np: PresetView)
    requires
        normal_modules(agent, np.modules),
    ensures
        compact_spec(agent, np) is Ok,
        rebuilds(agent, np.modules, compact_spec(agent, np)->Ok_0.modules),
        same_options(np, compact_spec(agent, np)->Ok_0),
{
    let n = np.modules;
    lemma_normal_entries(agent, n);
    lemma_compact_modules(agent, n);
    let ks = compact_modules(agent, n)->Ok_0;
    assert(compact_spec(agent, np)->Ok_0.modules == ks);
    assert(rb_meta(n, ks)) by {
        reveal(rb_meta);
        assert forall|j: int| 0 <= j < ks.len() implies {
            &&& module_index(n, (#[trigger] ks[j]).module_id) is Some
            &&& counterpart(n, ks[j].module_id).display_name == ks[j].display_name
            &&& counterpart(n, ks[j].module_id).message_role == ks[j].message_role
            &&& counterpart(n, ks[j].module_id).order == ks[j].order
        } by {
            lemma_kept_module(agent, n, j);
        }
    }
    lemma_compact_rb_entries(agent, n);
    lemma_compact_rb_cover(agent, n);
}

} // verus!
