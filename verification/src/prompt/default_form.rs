//! The default preset of an agent is already in normal form, and compacting
//! it keeps nothing.
use vstd::prelude::*;

use crate::prompt::compact::{compact_entries, compact_entry, compact_module, compact_modules, compact_spec};
use crate::prompt::compact_facts::{
    lemma_compact_entries, lemma_compact_modules, lemma_default_module_of,
    lemma_normal_rebuilds_itself,
};
use crate::prompt::defaults::{
    builtin_modules, default_module, default_preset, entry_from_template, in_module, templates_in,
};
use crate::prompt::normal_form::lemma_builtin_names;
use crate::prompt::normalize::{find_pending, initial_pending, normalized_result};
use crate::prompt::roundtrip::{
    builtin_entry, builtin_of, keys_distinct, lemma_agent_templates_ok, lemma_find_pending_at,
    lemma_initial_pending, lemma_rebuild_normalizes, nm_builtins_present, nm_covers,
    nm_entries_normal, nm_ids_unique, nm_modules_ok, normal_entry, normal_key, normal_modules,
    same_options,
};
use crate::prompt::sort::{entries_sorted, entry_before, module_before, modules_sorted};
use crate::prompt::templates::{agent_templates, builtin_key, BuiltinModule, TemplateView};
use crate::prompt::types::{ConfigErrorView, EntryView, ModuleKey, ModuleView, PromptAgentKind};

verus! {

/// A relation that holds of every earlier-later pair of a sequence holds of
/// every earlier-later pair of a filtered copy.
proof fn lemma_filter_pairs<A>(s: Seq<A>, f: spec_fn(A) -> bool, p: spec_fn(A, A) -> bool)
    requires
        forall|i: int, j: int| 0 <= i < j < s.len() ==> #[trigger] p(s[i], s[j]),
    ensures
        forall|i: int, j: int| 0 <= i < j < s.filter(f).len() ==> #[trigger] p(s.filter(f)[i], s.filter(f)[j]),
    decreases s.len(),
{
    reveal(Seq::filter);
    if s.len() > 0 {
        let t = s.drop_last();
        assert forall|i: int, j: int| 0 <= i < j < t.len() implies #[trigger] p(t[i], t[j]) by {
            assert(t[i] == s[i] && t[j] == s[j]);
        }
        lemma_filter_pairs(t, f, p);
        let r = t.filter(f);
        if f(s.last()) {
            let r2 = r.push(s.last());
            assert(s.filter(f) == r2);
            assert forall|i: int, j: int| 0 <= i < j < r2.len() implies #[trigger] p(r2[i], r2[j]) by {
                if j < r.len() {
                    assert(r2[i] == r[i] && r2[j] == r[j]);
                } else {
                    assert(r2[i] == r[i]);
                    assert(r.contains(r[i]));
                    t.lemma_filter_contains_rev(f, r[i]);
                    let k = choose|k: int| 0 <= k < t.len() && t[k] == r[i];
                    assert(s[k] == t[k]);
                    assert(p(s[k], s[s.len() - 1]));
                }
            }
        } else {
            assert(s.filter(f) == r);
        }
    }
}

/// The templates of an agent have distinct ids and, within a module, rising
/// orders.
pub open spec fn template_pair_ok(x: TemplateView, y: TemplateView) -> bool {
    x.entry_id != y.entry_id && (x.module == y.module ==> x.order < y.order)
}

/// `template_pair_ok` as a relation.
pub open spec fn template_pairs() -> spec_fn(TemplateView, TemplateView) -> bool {
    |x: TemplateView, y: TemplateView| template_pair_ok(x, y)
}

/// The entries of a default module: each is made from one of the module's
/// templates, ids are distinct and orders rise, and every template of the
/// module is there.
proof fn lemma_default_entries(agent: PromptAgentKind, b: BuiltinModule)
    ensures
        ({
            let es = default_module(agent, b).entries;
            let ts = agent_templates(agent);
            &&& forall|i: int|
                0 <= i < es.len() ==> exists|q: int|
                    0 <= q < ts.len() && ts[q].module == b && #[trigger] es[i] == entry_from_template(ts[q])
            &&& forall|i: int, j: int|
                0 <= i < j < es.len() ==> (#[trigger] es[i]).entry_id != (#[trigger] es[j]).entry_id && es[i].order
                    < es[j].order
            &&& forall|q: int|
                0 <= q < ts.len() && (#[trigger] ts[q]).module == b ==> es.contains(entry_from_template(ts[q]))
        }),
{
    lemma_agent_templates_ok(agent);
    let ts = agent_templates(agent);
    let fl = templates_in(agent, b);
    let es = default_module(agent, b).entries;
    assert(fl == ts.filter(in_module(b)));
    assert(es == fl.map_values(|t: TemplateView| entry_from_template(t)));
    assert forall|i: int| 0 <= i < es.len() implies exists|q: int|
        0 <= q < ts.len() && ts[q].module == b && #[trigger] es[i] == entry_from_template(ts[q]) by {
        assert(fl.contains(fl[i]));
        ts.lemma_filter_contains_rev(in_module(b), fl[i]);
        ts.lemma_filter_pred(in_module(b), i);
        let q = choose|q: int| 0 <= q < ts.len() && ts[q] == fl[i];
        assert(es[i] == entry_from_template(ts[q]));
    }
    assert forall|i: int, j: int| 0 <= i < j < ts.len() implies #[trigger] template_pairs()(ts[i], ts[j]) by {}
    lemma_filter_pairs(ts, in_module(b), template_pairs());
    assert forall|i: int, j: int| 0 <= i < j < es.len() implies (#[trigger] es[i]).entry_id != (
    #[trigger] es[j]).entry_id && es[i].order < es[j].order by {
        assert(template_pairs()(fl[i], fl[j]));
        ts.lemma_filter_pred(in_module(b), i);
        ts.lemma_filter_pred(in_module(b), j);
    }
    assert forall|q: int| 0 <= q < ts.len() && (#[trigger] ts[q]).module == b implies es.contains(
        entry_from_template(ts[q]),
    ) by {
        ts.lemma_filter_contains(in_module(b), q);
        let i = choose|i: int| 0 <= i < fl.len() && fl[i] == ts[q];
        assert(es[i] == entry_from_template(ts[q]));
    }
}

/// The built-in entry of a template's id is that template's entry in that
/// template's module.
proof fn lemma_template_entry(agent: PromptAgentKind, q: int)
    requires
        0 <= q < agent_templates(agent).len(),
    ensures
        builtin_entry(agent, agent_templates(agent)[q].entry_id) == Some(
            (builtin_key(agent_templates(agent)[q].module), entry_from_template(agent_templates(agent)[q])),
        ),
        normal_entry(agent, entry_from_template(agent_templates(agent)[q])),
{
    lemma_agent_templates_ok(agent);
    lemma_initial_pending(agent);
    let ts = agent_templates(agent);
    let p0 = initial_pending(agent);
    assert(p0[q] == (builtin_key(ts[q].module), entry_from_template(ts[q])));
    lemma_find_pending_at(p0, ts[q].entry_id, q);
}

/// The modules of an agent's default preset are in normal form.
proof fn lemma_default_is_normal(agent: PromptAgentKind)
    ensures
        normal_modules(agent, default_preset(agent).modules),
{
    let ms = default_preset(agent).modules;
    let bm = builtin_modules();
    let ts = agent_templates(agent);
    lemma_agent_templates_ok(agent);
    assert(ms.len() == 5);
    assert forall|a: int| 0 <= a < 5 implies (#[trigger] ms[a]) == default_module(agent, bm[a]) by {}
    assert(ms[0].module_id == ModuleKey::Role && ms[0].order == 10);
    assert(ms[1].module_id == ModuleKey::Task && ms[1].order == 20);
    assert(ms[2].module_id == ModuleKey::StaticContext && ms[2].order == 30);
    assert(ms[3].module_id == ModuleKey::DynamicContext && ms[3].order == 40);
    assert(ms[4].module_id == ModuleKey::Output && ms[4].order == 50);
    assert(modules_sorted(ms));
    assert(keys_distinct(ms));
    assert forall|a: int| 0 <= a < 5 implies builtin_of((#[trigger] ms[a]).module_id) == bm[a] by {}
    assert(nm_modules_ok(ms)) by {
        reveal(nm_modules_ok);
        assert forall|a: int| 0 <= a < ms.len() implies {
            &&& normal_key((#[trigger] ms[a]).module_id)
            &&& crate::prompt::roundtrip::tidy(ms[a].display_name)
            &&& entries_sorted(ms[a].entries)
        } by {
            lemma_builtin_names(bm[a]);
            lemma_default_entries(agent, bm[a]);
            let es = ms[a].entries;
            assert forall|i: int, j: int| 0 <= i < j < es.len() implies !entry_before(#[trigger] es[j], #[trigger] es[i]) by {
                assert(es[i].order < es[j].order);
            }
        }
    }
    assert(nm_builtins_present(ms)) by {
        reveal(nm_builtins_present);
        assert forall|k: ModuleKey| #[trigger] crate::prompt::types::is_builtin_key(k) implies exists|a: int|
            0 <= a < ms.len() && (#[trigger] ms[a]).module_id == k by {
            match k {
                ModuleKey::Role => assert(ms[0].module_id == k),
                ModuleKey::Task => assert(ms[1].module_id == k),
                ModuleKey::StaticContext => assert(ms[2].module_id == k),
                ModuleKey::DynamicContext => assert(ms[3].module_id == k),
                ModuleKey::Output => assert(ms[4].module_id == k),
                ModuleKey::Custom(_) => {},
            }
        }
    }
    assert(nm_entries_normal(agent, ms)) by {
        reveal(nm_entries_normal);
        assert forall|a: int, i: int| 0 <= a < ms.len() && 0 <= i < ms[a].entries.len() implies normal_entry(
            agent,
            #[trigger] ms[a].entries[i],
        ) by {
            lemma_default_entries(agent, bm[a]);
            let q = choose|q: int|
                0 <= q < ts.len() && ts[q].module == bm[a] && #[trigger] ms[a].entries[i] == entry_from_template(ts[q]);
            lemma_template_entry(agent, q);
        }
    }
    assert(nm_ids_unique(ms)) by {
        reveal(nm_ids_unique);
        assert forall|a: int, i: int, b: int, j: int|
            0 <= a < ms.len() && 0 <= i < ms[a].entries.len() && 0 <= b < ms.len() && 0 <= j
                < ms[b].entries.len() && (#[trigger] ms[a].entries[i]).entry_id == (
            #[trigger] ms[b].entries[j]).entry_id implies a == b && i == j by {
            lemma_default_entries(agent, bm[a]);
            lemma_default_entries(agent, bm[b]);
            let q1 = choose|q: int|
                0 <= q < ts.len() && ts[q].module == bm[a] && #[trigger] ms[a].entries[i] == entry_from_template(ts[q]);
            let q2 = choose|q: int|
                0 <= q < ts.len() && ts[q].module == bm[b] && #[trigger] ms[b].entries[j] == entry_from_template(ts[q]);
            if q1 != q2 {
                if q1 < q2 {
                    assert(ts[q1].entry_id != ts[q2].entry_id);
                } else {
                    assert(ts[q2].entry_id != ts[q1].entry_id);
                }
            }
            assert(bm[a] == bm[b]);
            assert(a == b);
            if i != j {
                if i < j {
                    assert(ms[a].entries[i].entry_id != ms[a].entries[j].entry_id);
                } else {
                    assert(ms[a].entries[j].entry_id != ms[a].entries[i].entry_id);
                }
            }
        }
    }
    assert(nm_covers(agent, ms)) by {
        reveal(nm_covers);
        lemma_initial_pending(agent);
        let p0 = initial_pending(agent);
        assert forall|q: int| 0 <= q < p0.len() implies exists|a: int, i: int|
            0 <= a < ms.len() && 0 <= i < ms[a].entries.len() && (#[trigger] ms[a].entries[i]).entry_id
                == (#[trigger] p0[q]).1.entry_id by {
            let b = ts[q].module;
            let a: int = match b {
                BuiltinModule::Role => 0,
                BuiltinModule::Task => 1,
                BuiltinModule::StaticContext => 2,
                BuiltinModule::DynamicContext => 3,
                BuiltinModule::Output => 4,
            };
            assert(bm[a] == b);
            lemma_default_entries(agent, b);
            let es = ms[a].entries;
            assert(es.contains(entry_from_template(ts[q])));
            let i = choose|i: int| 0 <= i < es.len() && es[i] == entry_from_template(ts[q]);
            assert(p0[q].1.entry_id == ts[q].entry_id);
            assert(ms[a].entries[i].entry_id == p0[q].1.entry_id);
        }
    }
}

/// Compacting a default module keeps nothing of it.
proof fn lemma_default_module_compacts_away(agent: PromptAgentKind, b: BuiltinModule)
    ensures
        compact_module(agent, default_module(agent, b)) == Ok::<Option<ModuleView>, ConfigErrorView>(None),
{
    let m = default_module(agent, b);
    let es = m.entries;
    let ts = agent_templates(agent);
    lemma_default_entries(agent, b);
    assert forall|i: int| 0 <= i < es.len() implies normal_entry(agent, #[trigger] es[i])
        && compact_entry(agent, m.module_id, es[i]) == Ok::<Option<EntryView>, ConfigErrorView>(None) by {
        let q = choose|q: int| 0 <= q < ts.len() && ts[q].module == b && #[trigger] es[i] == entry_from_template(ts[q]);
        lemma_template_entry(agent, q);
    }
    lemma_compact_entries(agent, m.module_id, es);
    let r = compact_entries(agent, m.module_id, es)->Ok_0;
    if r.len() > 0 {
        let i = choose|i: int|
            0 <= i < es.len() && compact_entry(agent, m.module_id, #[trigger] es[i]) == Ok::<
                Option<EntryView>,
                ConfigErrorView,
            >(Some(r[0]));
        assert(false);
    }
    lemma_default_module_of(agent, m.module_id);
    assert(builtin_of(builtin_key(b)) == b);
}

/// The default preset of an agent normalizes to itself, and its compact form
/// has no modules: compaction keeps only what differs from the defaults.
pub proof fn lemma_default_preset_compacts_to_nothing(agent: PromptAgentKind)
    ensures
        normalized_result(agent, default_preset(agent), default_preset(agent)),
        compact_spec(agent, default_preset(agent)) is Ok,
        compact_spec(agent, default_preset(agent))->Ok_0.modules.len() == 0,
{
    let d = default_preset(agent);
    let ms = d.modules;
    let bm = builtin_modules();
    lemma_default_is_normal(agent);
    lemma_normal_rebuilds_itself(agent, ms);
    lemma_rebuild_normalizes(agent, d, d);
    assert forall|a: int| 0 <= a < 5 implies (#[trigger] ms[a]) == default_module(agent, bm[a]) by {}
    assert forall|a: int, i: int|
        0 <= a < ms.len() && 0 <= i < ms[a].entries.len() implies normal_entry(agent, #[trigger] ms[a].entries[i]) by {
        reveal(nm_entries_normal);
    }
    assert forall|a: int, i: int, j: int|
        0 <= a < ms.len() && 0 <= i < j < ms[a].entries.len() implies (#[trigger] ms[a].entries[i]).entry_id
        != (#[trigger] ms[a].entries[j]).entry_id by {
        lemma_default_entries(agent, bm[a]);
    }
    lemma_compact_modules(agent, ms);
    let r = compact_modules(agent, ms)->Ok_0;
    if r.len() > 0 {
        let a = choose|a: int|
            0 <= a < ms.len() && compact_module(agent, #[trigger] ms[a]) == Ok::<
                Option<ModuleView>,
                ConfigErrorView,
            >(Some(r[0]));
        lemma_default_module_compacts_away(agent, bm[a]);
        assert(false);
    }
}

} // verus!
