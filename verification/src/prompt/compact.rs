//! Compaction of a preset: the normalized preset is reduced to what differs
//! from the agent's defaults.
use vstd::prelude::*;

use crate::prompt::defaults::{default_agent_preset_config, default_preset};
use crate::prompt::normalize::{
    find_pending, initial_pending, merged, module_index, normalize_agent_preset_config,
    normalized_result, NormState,
};
use crate::prompt::types::{
    entry_views, module_views, str_eq, AgentPresetConfig, AgentPromptModuleConfig,
    AgentPromptModuleEntryConfig, ConfigErrorView, EntryView, ModuleKey, ModuleView, PresetView,
    PromptAgentKind, PromptConfigError, PromptEntryKind, PromptModuleId,
};

verus! {

/// The default module with identifier `k`, if the agent has one.
pub open spec fn default_module_of(agent: PromptAgentKind, k: ModuleKey) -> Option<ModuleView> {
    let ms = default_preset(agent).modules;
    match module_index(ms, k) {
        Some(i) => Some(ms[i]),
        None => None,
    }
}

/// A built-in entry reduced to what a preset stores about it.
pub open spec fn stripped(e: EntryView) -> EntryView {
    EntryView { required: false, text: None, context_key: None, ..e }
}

/// Whether a built-in entry keeps its default name, switch and order.
pub open spec fn matches_default(e: EntryView, d: EntryView) -> bool {
    e.display_name == d.display_name && e.enabled == d.enabled && e.order == d.order
}

/// What the compact form keeps of one entry of module `k`: custom entries, and
/// built-in entries that moved to another module or differ from their default.
pub open spec fn compact_entry(agent: PromptAgentKind, k: ModuleKey, e: EntryView) -> Result<Option<EntryView>, ConfigErrorView> {
    if e.kind == PromptEntryKind::CustomText {
        Ok(Some(e))
    } else {
        match find_pending(initial_pending(agent), e.entry_id) {
            None => Err(ConfigErrorView::UnknownBuiltInEntry { agent, module_id: k, entry_id: e.entry_id }),
            Some(p) => {
                if k != p.0 || !matches_default(e, p.1) {
                    Ok(Some(stripped(e)))
                } else {
                    Ok(None)
                }
            },
        }
    }
}

/// The kept entries of a module, in order.
pub open spec fn compact_entries(agent: PromptAgentKind, k: ModuleKey, es: Seq<EntryView>) -> Result<Seq<EntryView>, ConfigErrorView>
    decreases es.len(),
{
    if es.len() == 0 {
        Ok(seq![])
    } else {
        match compact_entries(agent, k, es.drop_last()) {
            Err(x) => Err(x),
            Ok(kept) => match compact_entry(agent, k, es.last()) {
                Err(x) => Err(x),
                Ok(Some(e)) => Ok(kept.push(e)),
                Ok(None) => Ok(kept),
            },
        }
    }
}

/// The compact form of a module: dropped when it is a built-in module with its
/// default metadata and nothing kept.
pub open spec fn compact_module(agent: PromptAgentKind, m: ModuleView) -> Result<Option<ModuleView>, ConfigErrorView> {
    match compact_entries(agent, m.module_id, m.entries) {
        Err(x) => Err(x),
        Ok(es) => {
            let keep = match default_module_of(agent, m.module_id) {
                None => true,
                Some(d) => d.display_name != m.display_name || d.message_role != m.message_role
                    || d.order != m.order || es.len() > 0,
            };
            if keep {
                Ok(Some(ModuleView { entries: es, ..m }))
            } else {
                Ok(None)
            }
        },
    }
}

/// The compact forms of modules, in order.
pub open spec fn compact_modules(agent: PromptAgentKind, ms: Seq<ModuleView>) -> Result<Seq<ModuleView>, ConfigErrorView>
    decreases ms.len(),
{
    if ms.len() == 0 {
        Ok(seq![])
    } else {
        match compact_modules(agent, ms.drop_last()) {
            Err(x) => Err(x),
            Ok(kept) => match compact_module(agent, ms.last()) {
                Err(x) => Err(x),
                Ok(Some(m)) => Ok(kept.push(m)),
                Ok(None) => Ok(kept),
            },
        }
    }
}

/// The compact form of a normalized preset.
pub open spec fn compact_spec(agent: PromptAgentKind, n: PresetView) -> Result<PresetView, ConfigErrorView> {
    match compact_modules(agent, n.modules) {
        Err(x) => Err(x),
        Ok(ms) => Ok(PresetView { modules: ms, ..n }),
    }
}

proof fn lemma_take_last<A>(s: Seq<A>, j: int)
    requires
        0 <= j < s.len(),
    ensures
        s.take(j + 1).drop_last() == s.take(j),
        s.take(j + 1).last() == s[j],
{
    assert(s.take(j + 1).drop_last() =~= s.take(j));
}

proof fn lemma_compact_entries_err(agent: PromptAgentKind, k: ModuleKey, es: Seq<EntryView>, n: int, x: ConfigErrorView)
    requires
        0 <= n <= es.len(),
        compact_entries(agent, k, es.take(n)) == Err::<Seq<EntryView>, ConfigErrorView>(x),
    ensures
        compact_entries(agent, k, es) == Err::<Seq<EntryView>, ConfigErrorView>(x),
    decreases es.len() - n,
{
    if n < es.len() {
        lemma_take_last(es, n);
        lemma_compact_entries_err(agent, k, es, n + 1, x);
    } else {
        assert(es.take(n) =~= es);
    }
}

proof fn lemma_compact_modules_err(agent: PromptAgentKind, ms: Seq<ModuleView>, n: int, x: ConfigErrorView)
    requires
        0 <= n <= ms.len(),
        compact_modules(agent, ms.take(n)) == Err::<Seq<ModuleView>, ConfigErrorView>(x),
    ensures
        compact_modules(agent, ms) == Err::<Seq<ModuleView>, ConfigErrorView>(x),
    decreases ms.len() - n,
{
    if n < ms.len() {
        lemma_take_last(ms, n);
        lemma_compact_modules_err(agent, ms, n + 1, x);
    } else {
        assert(ms.take(n) =~= ms);
    }
}

/// A built-in entry reduced to what a preset stores about it.
fn strip_built_in_entry(entry: AgentPromptModuleEntryConfig) -> (r: AgentPromptModuleEntryConfig)
    ensures
        r@ == stripped(entry@),
{
    AgentPromptModuleEntryConfig {
        entry_id: entry.entry_id,
        display_name: entry.display_name,
        kind: entry.kind,
        enabled: entry.enabled,
        order: entry.order,
        required: false,
        text: None,
        context_key: None,
    }
}

/// Whether a built-in entry keeps its default name, switch and order.
fn built_in_entry_matches_default(entry: &AgentPromptModuleEntryConfig, default_entry: &AgentPromptModuleEntryConfig) -> (b: bool)
    ensures
        b == matches_default(entry@, default_entry@),
{
    str_eq(entry.display_name.as_str(), default_entry.display_name.as_str())
        && entry.enabled == default_entry.enabled && entry.order == default_entry.order
}

/// The kept entries of module `k`.
fn compact_module_entries(
    agent: PromptAgentKind,
    k: &PromptModuleId,
    entries: &Vec<AgentPromptModuleEntryConfig>,
    pending: &Vec<crate::prompt::normalize::PendingEntry>,
) -> (r: Result<Vec<AgentPromptModuleEntryConfig>, PromptConfigError>)
    requires
        crate::prompt::normalize::pending_views(pending@) == initial_pending(agent),
    ensures
        match r {
            Ok(v) => compact_entries(agent, k@, entry_views(entries@)) == Ok::<Seq<EntryView>, ConfigErrorView>(entry_views(v@)),
            Err(x) => compact_entries(agent, k@, entry_views(entries@)) == Err::<Seq<EntryView>, ConfigErrorView>(x@),
        },
{
    let ghost es = entry_views(entries@);
    let mut out: Vec<AgentPromptModuleEntryConfig> = Vec::new();
    let mut i: usize = 0;
    assert(es.take(0) =~= Seq::<EntryView>::empty());
    assert(entry_views(out@) =~= Seq::<EntryView>::empty());
    while i < entries.len()
        invariant
            es == entry_views(entries@),
            crate::prompt::normalize::pending_views(pending@) == initial_pending(agent),
            i <= entries@.len(),
            compact_entries(agent, k@, es.take(i as int)) == Ok::<Seq<EntryView>, ConfigErrorView>(entry_views(out@)),
        decreases entries.len() - i,
    {
        proof {
            lemma_take_last(es, i as int);
            assert(es[i as int] == entries@[i as int]@);
        }
        let entry = &entries[i];
        let ghost before = out@;
        if entry.kind == PromptEntryKind::CustomText {
            out.push(entry.duplicate());
            proof {
                assert(out@ =~= before.push(out@.last()));
                assert(entry_views(out@) =~= entry_views(before).push(entry@));
            }
        } else {
            match crate::prompt::normalize::find_pending_index(pending, entry.entry_id.as_str()) {
                None => {
                    let x = PromptConfigError::UnknownBuiltInEntry {
                        agent,
                        module_id: k.duplicate(),
                        entry_id: entry.entry_id.clone(),
                    };
                    proof {
                        lemma_compact_entries_err(agent, k@, es, i + 1, x@);
                    }
                    return Err(x);
                },
                Some(j) => {
                    let p = &pending[j];
                    proof {
                        assert(crate::prompt::normalize::pending_views(pending@)[j as int] == pending@[j as int]@);
                    }
                    let moved = !k.same(&p.module_id);
                    let changed = !built_in_entry_matches_default(entry, &p.entry);
                    if moved || changed {
                        out.push(strip_built_in_entry(entry.duplicate()));
                        proof {
                            assert(out@ =~= before.push(out@.last()));
                            assert(entry_views(out@) =~= entry_views(before).push(stripped(entry@)));
                        }
                    }
                },
            }
        }
        i = i + 1;
    }
    proof {
        assert(es.take(es.len() as int) =~= es);
    }
    Ok(out)
}

/// Reduces a preset to what differs from the agent's defaults: the preset is
/// normalized first; then built-in entries that keep their default module,
/// name, switch and order are dropped, the others keep only what a preset
/// stores, and built-in modules with default metadata and no kept entries are
/// dropped.
pub fn compact_agent_preset_config(agent: PromptAgentKind, incoming: AgentPresetConfig) -> (r: Result<AgentPresetConfig, PromptConfigError>)
    ensures
        match r {
            Ok(c) => exists|n: PresetView|
                #[trigger] normalized_result(agent, incoming@, n) && compact_spec(agent, n) == Ok::<PresetView, ConfigErrorView>(c@),
            Err(e) => merged(agent, incoming@) == Err::<NormState, ConfigErrorView>(e@) || exists|n: PresetView|
                #[trigger] normalized_result(agent, incoming@, n) && compact_spec(agent, n) == Err::<PresetView, ConfigErrorView>(e@),
        },
{
    let normalized = match normalize_agent_preset_config(agent, incoming) {
        Ok(n) => n,
        Err(e) => {
            return Err(e);
        },
    };
    let ghost nv = normalized@;
    let defaults = default_agent_preset_config(agent);
    let pending = crate::prompt::normalize::initial_pending_entries(agent);
    let ghost ms = normalized@.modules;
    let mut modules: Vec<AgentPromptModuleConfig> = Vec::new();
    let mut i: usize = 0;
    assert(ms.take(0) =~= Seq::<ModuleView>::empty());
    assert(module_views(modules@) =~= Seq::<ModuleView>::empty());
    while i < normalized.modules.len()
        invariant
            ms == module_views(normalized.modules@),
            nv == normalized@,
            normalized_result(agent, incoming@, nv),
            defaults@ == default_preset(agent),
            crate::prompt::normalize::pending_views(pending@) == initial_pending(agent),
            i <= normalized.modules@.len(),
            compact_modules(agent, ms.take(i as int)) == Ok::<Seq<ModuleView>, ConfigErrorView>(module_views(modules@)),
        decreases normalized.modules.len() - i,
    {
        proof {
            lemma_take_last(ms, i as int);
            assert(ms[i as int] == normalized.modules@[i as int]@);
        }
        let module = &normalized.modules[i];
        let entries = match compact_module_entries(agent, &module.module_id, &module.entries, &pending) {
            Ok(v) => v,
            Err(x) => {
                proof {
                    lemma_compact_modules_err(agent, ms, i + 1, x@);
                    assert(normalized_result(agent, incoming@, nv) && compact_spec(agent, nv) == Err::<PresetView, ConfigErrorView>(x@));
                }
                return Err(x);
            },
        };
        let keep = match crate::prompt::normalize::find_module_index(&defaults.modules, &module.module_id) {
            None => true,
            Some(d) => {
                let dm = &defaults.modules[d];
                proof {
                    assert(module_views(defaults.modules@)[d as int] == defaults.modules@[d as int]@);
                }
                !str_eq(dm.display_name.as_str(), module.display_name.as_str())
                    || dm.message_role != module.message_role || dm.order != module.order
                    || entries.len() > 0
            },
        };
        if keep {
            let ghost before = modules@;
            modules.push(
                AgentPromptModuleConfig {
                    module_id: module.module_id.duplicate(),
                    display_name: module.display_name.clone(),
                    message_role: module.message_role,
                    order: module.order,
                    entries,
                },
            );
            proof {
                assert(modules@ =~= before.push(modules@.last()));
                assert(module_views(modules@) =~= module_views(before).push(modules@.last()@));
            }
        }
        i = i + 1;
    }
    proof {
        assert(ms.take(ms.len() as int) =~= ms);
    }
    let out = AgentPresetConfig {
        temperature_bits: normalized.temperature_bits,
        max_tokens: normalized.max_tokens,
        director_shared_history_limit: normalized.director_shared_history_limit,
        actor_shared_history_limit: normalized.actor_shared_history_limit,
        actor_private_memory_limit: normalized.actor_private_memory_limit,
        narrator_shared_history_limit: normalized.narrator_shared_history_limit,
        replyer_session_history_limit: normalized.replyer_session_history_limit,
        extra_json: normalized.extra_json,
        modules,
    };
    proof {
        assert(compact_spec(agent, nv) == Ok::<PresetView, ConfigErrorView>(out@));
        assert(normalized_result(agent, incoming@, nv));
    }
    Ok(out)
}

} // verus!
