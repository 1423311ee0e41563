//! Prompt previews: a preset compiled with every entry kept apart (id, name,
//! order, source), and the preview rendered against a context, with the
//! context keys that could not be resolved listed once each, in order.
use vstd::prelude::*;

use crate::prompt::compile::{
    CompileSpecView, CompiledEntryView, ProfileCompilationSpec, PromptModuleEntry, SyntheticView, agent_compile_spec,
    architect_compile_spec, compile_entry, compile_entry_spec, extra_entries_for_module, extras_for,
    spec_for_agent, spec_for_architect_mode, str_views, synthetic_views,
};
use crate::prompt::defaults::{fallback_display_name, fallback_name};
use crate::prompt::normalize::{NormState, merged, normalize_agent_preset_config, normalized_result};
use crate::prompt::types::{
    AgentPresetConfig, AgentPromptModuleConfig, ArchitectPromptMode, ConfigErrorView, EntryView,
    ModuleKey, ModuleView, PresetView, PromptAgentKind, PromptConfigError, PromptEntryKind,
    PromptMessageRole, PromptModuleId, PromptPreviewEntrySource, entry_views,
    module_key_str, module_views,
};
use crate::text::{text_is_blank, trim_seq, trim_text};

verus! {

/// One entry of a compiled preview, kept with its metadata.
#[derive(Debug)]
pub struct CompiledPromptPreviewEntry {
    pub entry_id: String,
    pub display_name: String,
    pub kind: PromptEntryKind,
    pub order: i32,
    pub source: PromptPreviewEntrySource,
    pub value: PromptModuleEntry,
}

/// The value of a compiled preview entry.
pub struct PreviewEntryView {
    pub entry_id: Seq<char>,
    pub display_name: Seq<char>,
    pub kind: PromptEntryKind,
    pub order: i32,
    pub source: PromptPreviewEntrySource,
    pub value: CompiledEntryView,
}

impl View for CompiledPromptPreviewEntry {
    type V = PreviewEntryView;

    open spec fn view(&self) -> PreviewEntryView {
        PreviewEntryView {
            entry_id: self.entry_id@,
            display_name: self.display_name@,
            kind: self.kind,
            order: self.order,
            source: self.source,
            value: self.value@,
        }
    }
}

/// The views of compiled preview entries.
pub open spec fn preview_entry_views(v: Seq<CompiledPromptPreviewEntry>) -> Seq<PreviewEntryView> {
    v.map_values(|e: CompiledPromptPreviewEntry| e@)
}

/// A module of a compiled preview.
#[derive(Debug)]
pub struct CompiledPromptPreviewModule {
    pub module_id: PromptModuleId,
    pub display_name: String,
    pub order: i32,
    pub entries: Vec<CompiledPromptPreviewEntry>,
}

/// The value of a compiled preview module.
pub struct PreviewModuleView {
    pub module_id: ModuleKey,
    pub display_name: Seq<char>,
    pub order: i32,
    pub entries: Seq<PreviewEntryView>,
}

impl View for CompiledPromptPreviewModule {
    type V = PreviewModuleView;

    open spec fn view(&self) -> PreviewModuleView {
        PreviewModuleView {
            module_id: self.module_id@,
            display_name: self.display_name@,
            order: self.order,
            entries: preview_entry_views(self.entries@),
        }
    }
}

/// The views of compiled preview modules.
pub open spec fn preview_module_views(v: Seq<CompiledPromptPreviewModule>) -> Seq<PreviewModuleView> {
    v.map_values(|m: CompiledPromptPreviewModule| m@)
}

/// A compiled preview: the system modules and the user modules.
#[derive(Debug)]
pub struct CompiledPromptPreviewProfile {
    pub system_modules: Vec<CompiledPromptPreviewModule>,
    pub user_modules: Vec<CompiledPromptPreviewModule>,
}

/// The value of a compiled preview.
pub struct PreviewProfileView {
    pub system_modules: Seq<PreviewModuleView>,
    pub user_modules: Seq<PreviewModuleView>,
}

impl View for CompiledPromptPreviewProfile {
    type V = PreviewProfileView;

    open spec fn view(&self) -> PreviewProfileView {
        PreviewProfileView {
            system_modules: preview_module_views(self.system_modules@),
            user_modules: preview_module_views(self.user_modules@),
        }
    }
}

/// One module compiled for preview, with the role it is sent as.
#[derive(Debug)]
pub struct CompiledPromptModulePreview {
    pub message_role: PromptMessageRole,
    pub module: Option<CompiledPromptPreviewModule>,
}

/// The value of a module compiled for preview.
pub type ModulePreviewView = (PromptMessageRole, Option<PreviewModuleView>);

impl View for CompiledPromptModulePreview {
    type V = ModulePreviewView;

    open spec fn view(&self) -> ModulePreviewView {
        (
            self.message_role,
            match self.module {
                Some(m) => Some(m@),
                None => None,
            },
        )
    }
}

/// The module of a preset with the given id compiled for preview, with its
/// role; nothing when the preset has no such module.
pub open spec fn module_preview_spec(ms: Seq<ModuleView>, id: ModuleKey, spec: CompileSpecView) -> Option<
    ModulePreviewView,
> {
    match module_with_id(ms, id, 0) {
        Some(i) => Some((ms[i].message_role, preview_module_spec(ms[i], spec))),
        None => None,
    }
}

/// A preset entry compiled for preview: its compiled value with its id, name
/// (the id when blank), kind and order.
pub open spec fn preview_entry_spec(e: EntryView, allowed: Seq<Seq<char>>) -> Option<PreviewEntryView> {
    match compile_entry_spec(e, allowed) {
        Some(v) => Some(
            PreviewEntryView {
                entry_id: e.entry_id,
                display_name: fallback_name(e.display_name, e.entry_id),
                kind: e.kind,
                order: e.order,
                source: PromptPreviewEntrySource::Preset,
                value: v,
            },
        ),
        None => None,
    }
}

/// The enabled preset entries compiled for preview, in order.
pub open spec fn preview_entries(es: Seq<EntryView>, allowed: Seq<Seq<char>>) -> Seq<PreviewEntryView>
    decreases es.len(),
{
    if es.len() == 0 {
        seq![]
    } else {
        let prev = preview_entries(es.drop_last(), allowed);
        if es.last().enabled {
            match preview_entry_spec(es.last(), allowed) {
                Some(p) => prev.push(p),
                None => prev,
            }
        } else {
            prev
        }
    }
}

/// The largest order of a list of entries; 0 for none.
pub open spec fn order_seed(es: Seq<PreviewEntryView>) -> int
    decreases es.len(),
{
    if es.len() == 0 {
        0
    } else if es.len() == 1 {
        es[0].order as int
    } else {
        let m = order_seed(es.drop_last());
        if m >= es.last().order {
            m
        } else {
            es.last().order as int
        }
    }
}

/// The synthetic entries with non-blank text, numbered after `seed` in steps
/// of 10 by their position among all synthetic entries.
pub open spec fn synthetic_preview_entries(xs: Seq<SyntheticView>, seed: int) -> Seq<PreviewEntryView>
    decreases xs.len(),
{
    if xs.len() == 0 {
        seq![]
    } else {
        let prev = synthetic_preview_entries(xs.drop_last(), seed);
        let t = trim_seq(xs.last().text);
        if t.len() == 0 {
            prev
        } else {
            prev.push(
                PreviewEntryView {
                    entry_id: xs.last().entry_id,
                    display_name: xs.last().display_name,
                    kind: PromptEntryKind::BuiltInText,
                    order: (seed + xs.len() * 10) as i32,
                    source: PromptPreviewEntrySource::Synthetic,
                    value: CompiledEntryView::Text(t),
                },
            )
        }
    }
}

/// Whether the orders of a module's synthetic entries fit in `i32`.
pub open spec fn orders_fit(m: ModuleView, spec: CompileSpecView) -> bool {
    &&& order_seed(preview_entries(m.entries, spec.allowed)) + 10 * extras_for(m.module_id, spec).len()
        <= i32::MAX
    &&& 10 * extras_for(m.module_id, spec).len() <= i32::MAX
}

/// A module compiled for preview, or nothing when it has no entry left.
pub open spec fn preview_module_spec(m: ModuleView, spec: CompileSpecView) -> Option<PreviewModuleView> {
    let base = preview_entries(m.entries, spec.allowed);
    let entries = base + synthetic_preview_entries(extras_for(m.module_id, spec), order_seed(base));
    if entries.len() == 0 {
        None
    } else {
        Some(
            PreviewModuleView {
                module_id: m.module_id,
                display_name: fallback_name(m.display_name, module_key_str(m.module_id)),
                order: m.order,
                entries,
            },
        )
    }
}

/// The modules with the given role compiled for preview, in order.
pub open spec fn preview_modules(ms: Seq<ModuleView>, spec: CompileSpecView, role: PromptMessageRole) -> Seq<
    PreviewModuleView,
>
    decreases ms.len(),
{
    if ms.len() == 0 {
        seq![]
    } else {
        let prev = preview_modules(ms.drop_last(), spec, role);
        if ms.last().message_role == role {
            match preview_module_spec(ms.last(), spec) {
                Some(c) => prev.push(c),
                None => prev,
            }
        } else {
            prev
        }
    }
}

/// A preset compiled for preview.
pub open spec fn preview_profile_spec(config: PresetView, spec: CompileSpecView) -> PreviewProfileView {
    PreviewProfileView {
        system_modules: preview_modules(config.modules, spec, PromptMessageRole::System),
        user_modules: preview_modules(config.modules, spec, PromptMessageRole::User),
    }
}

/// Whether the orders of every module's synthetic entries fit in `i32`.
pub open spec fn all_orders_fit(config: PresetView, spec: CompileSpecView) -> bool {
    forall|i: int| 0 <= i < config.modules.len() ==> orders_fit(#[trigger] config.modules[i], spec)
}

/// Compiles one enabled preset entry for preview.
pub fn compile_preview_entry(entry: &crate::prompt::types::AgentPromptModuleEntryConfig, allowed: &Vec<&'static str>) -> (r:
    Option<CompiledPromptPreviewEntry>)
    ensures
        match r {
            Some(p) => preview_entry_spec(entry@, str_views(allowed@)) == Some(p@),
            None => preview_entry_spec(entry@, str_views(allowed@)) is None,
        },
{
    let value = match compile_entry(entry, allowed) {
        Some(v) => v,
        None => return None,
    };
    Some(
        CompiledPromptPreviewEntry {
            entry_id: entry.entry_id.clone(),
            display_name: fallback_display_name(entry.display_name.as_str(), entry.entry_id.as_str()),
            kind: entry.kind,
            order: entry.order,
            source: PromptPreviewEntrySource::Preset,
            value,
        },
    )
}

/// The largest order of a list of entries; 0 for none.
fn max_order(entries: &Vec<CompiledPromptPreviewEntry>) -> (m: i32)
    ensures
        m == order_seed(preview_entry_views(entries@)),
{
    let ghost ev = preview_entry_views(entries@);
    if entries.len() == 0 {
        return 0;
    }
    let mut m: i32 = entries[0].order;
    let mut i: usize = 1;
    assert(ev.take(1).len() == 1);
    while i < entries.len()
        invariant
            ev == preview_entry_views(entries@),
            1 <= i <= ev.len(),
            m == order_seed(ev.take(i as int)),
        decreases entries.len() - i,
    {
        proof {
            assert(ev.take(i + 1).drop_last() =~= ev.take(i as int));
            assert(ev.take(i + 1).last() == entries@[i as int]@);
        }
        if entries[i].order > m {
            m = entries[i].order;
        }
        i = i + 1;
    }
    proof {
        assert(ev.take(ev.len() as int) =~= ev);
    }
    m
}

/// Compiles a module for preview; nothing when no entry is left.
pub fn compile_preview_module(module: &AgentPromptModuleConfig, spec: &ProfileCompilationSpec) -> (r:
    Option<CompiledPromptPreviewModule>)
    requires
        orders_fit(module@, spec@),
    ensures
        match r {
            Some(m) => preview_module_spec(module@, spec@) == Some(m@),
            None => preview_module_spec(module@, spec@) is None,
        },
{
    let ghost es = module@.entries;
    let mut entries: Vec<CompiledPromptPreviewEntry> = Vec::new();
    let mut i: usize = 0;
    while i < module.entries.len()
        invariant
            es == entry_views(module.entries@),
            i <= module.entries@.len(),
            preview_entry_views(entries@) == preview_entries(es.take(i as int), spec@.allowed),
        decreases module.entries.len() - i,
    {
        proof {
            assert(es.take(i + 1).drop_last() =~= es.take(i as int));
            assert(es.take(i + 1).last() == module.entries@[i as int]@);
        }
        let entry = &module.entries[i];
        if entry.enabled {
            match compile_preview_entry(entry, &spec.allowed_context_keys) {
                Some(c) => {
                    let ghost before = entries@;
                    entries.push(c);
                    proof {
                        assert(entries@ =~= before.push(entries@.last()));
                        assert(preview_entry_views(entries@) =~= preview_entry_views(before).push(
                            entries@.last()@,
                        ));
                    }
                },
                None => {},
            }
        }
        i = i + 1;
    }
    proof {
        assert(es.take(es.len() as int) =~= es);
    }
    let ghost base = preview_entry_views(entries@);
    let seed = max_order(&entries);
    let extras = extra_entries_for_module(&module.module_id, spec);
    let ghost xs = synthetic_views(extras@);
    let mut k: usize = 0;
    assert(xs.take(0) =~= Seq::<SyntheticView>::empty());
    assert(base + synthetic_preview_entries(xs.take(0), seed as int) =~= base);
    while k < extras.len()
        invariant
            xs == synthetic_views(extras@),
            k <= extras@.len(),
            seed as int == order_seed(base),
            seed + 10 * xs.len() <= i32::MAX,
            10 * xs.len() <= i32::MAX,
            preview_entry_views(entries@) == base + synthetic_preview_entries(xs.take(k as int), seed as int),
        decreases extras.len() - k,
    {
        proof {
            assert(xs.take(k + 1).drop_last() =~= xs.take(k as int));
            assert(xs.take(k + 1).last() == extras@[k as int]@);
        }
        if !text_is_blank(extras[k].text) {
            let t = trim_text(extras[k].text);
            proof {
                crate::text::lemma_trim_empty_iff_blank(extras@[k as int].text@);
            }
            let step: i32 = ((k + 1) as i32) * 10;
            let ghost before = entries@;
            entries.push(
                CompiledPromptPreviewEntry {
                    entry_id: extras[k].entry_id.to_string(),
                    display_name: extras[k].display_name.to_string(),
                    kind: PromptEntryKind::BuiltInText,
                    order: seed + step,
                    source: PromptPreviewEntrySource::Synthetic,
                    value: PromptModuleEntry::Text(t),
                },
            );
            proof {
                assert(entries@ =~= before.push(entries@.last()));
                assert(preview_entry_views(entries@) =~= preview_entry_views(before).push(entries@.last()@));
            }
        } else {
            proof {
                crate::text::lemma_trim_empty_iff_blank(extras@[k as int].text@);
            }
        }
        k = k + 1;
    }
    proof {
        assert(xs.take(xs.len() as int) =~= xs);
    }
    if entries.len() == 0 {
        return None;
    }
    let display_name = fallback_display_name(module.display_name.as_str(), module.module_id.as_str());
    Some(
        CompiledPromptPreviewModule {
            module_id: module.module_id.duplicate(),
            display_name,
            order: module.order,
            entries,
        },
    )
}

/// Compiles a normalized preset for preview.
pub fn compile_preview_profile(config: &AgentPresetConfig, spec: &ProfileCompilationSpec) -> (p:
    CompiledPromptPreviewProfile)
    requires
        all_orders_fit(config@, spec@),
    ensures
        p@ == preview_profile_spec(config@, spec@),
{
    let ghost ms = config@.modules;
    let mut system_modules: Vec<CompiledPromptPreviewModule> = Vec::new();
    let mut user_modules: Vec<CompiledPromptPreviewModule> = Vec::new();
    let mut i: usize = 0;
    while i < config.modules.len()
        invariant
            ms == module_views(config.modules@),
            all_orders_fit(config@, spec@),
            ms == config@.modules,
            i <= ms.len(),
            preview_module_views(system_modules@) == preview_modules(
                ms.take(i as int),
                spec@,
                PromptMessageRole::System,
            ),
            preview_module_views(user_modules@) == preview_modules(
                ms.take(i as int),
                spec@,
                PromptMessageRole::User,
            ),
        decreases config.modules.len() - i,
    {
        proof {
            assert(ms.take(i + 1).drop_last() =~= ms.take(i as int));
            assert(ms.take(i + 1).last() == config.modules@[i as int]@);
            assert(orders_fit(ms[i as int], spec@));
        }
        let module = &config.modules[i];
        match compile_preview_module(module, spec) {
            Some(c) => {
                match module.message_role {
                    PromptMessageRole::System => {
                        let ghost before = system_modules@;
                        system_modules.push(c);
                        proof {
                            assert(system_modules@ =~= before.push(system_modules@.last()));
                            assert(preview_module_views(system_modules@) =~= preview_module_views(
                                before,
                            ).push(system_modules@.last()@));
                        }
                    },
                    PromptMessageRole::User => {
                        let ghost before = user_modules@;
                        user_modules.push(c);
                        proof {
                            assert(user_modules@ =~= before.push(user_modules@.last()));
                            assert(preview_module_views(user_modules@) =~= preview_module_views(
                                before,
                            ).push(user_modules@.last()@));
                        }
                    },
                }
            },
            None => {},
        }
        i = i + 1;
    }
    proof {
        assert(ms.take(ms.len() as int) =~= ms);
    }
    CompiledPromptPreviewProfile { system_modules, user_modules }
}

/// Whether the orders of every module's synthetic entries fit in `i32`.
pub fn preview_orders_fit(config: &AgentPresetConfig, spec: &ProfileCompilationSpec) -> (b: bool)
    ensures
        b == all_orders_fit(config@, spec@),
{
    let mut i: usize = 0;
    while i < config.modules.len()
        invariant
            i <= config@.modules.len(),
            forall|j: int| 0 <= j < i ==> orders_fit(#[trigger] config@.modules[j], spec@),
        decreases config.modules.len() - i,
    {
        let module = &config.modules[i];
        assert(config@.modules[i as int] == module@);
        let ghost es = module@.entries;
        let mut entries: Vec<CompiledPromptPreviewEntry> = Vec::new();
        let mut k: usize = 0;
        while k < module.entries.len()
            invariant
                es == entry_views(module.entries@),
                k <= module.entries@.len(),
                preview_entry_views(entries@) == preview_entries(es.take(k as int), spec@.allowed),
            decreases module.entries.len() - k,
        {
            proof {
                assert(es.take(k + 1).drop_last() =~= es.take(k as int));
                assert(es.take(k + 1).last() == module.entries@[k as int]@);
            }
            let entry = &module.entries[k];
            if entry.enabled {
                match compile_preview_entry(entry, &spec.allowed_context_keys) {
                    Some(c) => {
                        let ghost before = entries@;
                        entries.push(c);
                        proof {
                            assert(entries@ =~= before.push(entries@.last()));
                            assert(preview_entry_views(entries@) =~= preview_entry_views(before).push(
                                entries@.last()@,
                            ));
                        }
                    },
                    None => {},
                }
            }
            k = k + 1;
        }
        proof {
            assert(es.take(es.len() as int) =~= es);
        }
        let seed = max_order(&entries);
        let extras = extra_entries_for_module(&module.module_id, spec);
        let n = extras.len();
        proof {
            assert(synthetic_views(extras@).len() == extras_for(module@.module_id, spec@).len());
        }
        if n > 214748364 {
            assert(!orders_fit(config@.modules[i as int], spec@));
            return false;
        }
        let room: i64 = (i32::MAX as i64) - (seed as i64);
        if (10 * (n as i64)) > room {
            assert(!orders_fit(config@.modules[i as int], spec@));
            return false;
        }
        assert(orders_fit(config@.modules[i as int], spec@));
        i = i + 1;
    }
    true
}

/// Whether the preview of `agent` can be compiled from a preset: normalizing
/// it fails as `normalize_agent_preset_config` does; otherwise it compiles
/// unless an entry's order is so close to `i32::MAX` that a synthetic entry
/// numbered after it would not fit, in which case the result is `None`.
pub fn compile_prompt_preview_profile(agent: PromptAgentKind, config: &AgentPresetConfig) -> (r: Result<
    Option<CompiledPromptPreviewProfile>,
    PromptConfigError,
>)
    ensures
        match r {
            Ok(Some(p)) => exists|n: PresetView|
                #[trigger] normalized_result(agent, config@, n) && all_orders_fit(n, agent_compile_spec(agent))
                    && p@ == preview_profile_spec(n, agent_compile_spec(agent)),
            Ok(None) => exists|n: PresetView|
                #[trigger] normalized_result(agent, config@, n) && !all_orders_fit(n, agent_compile_spec(agent)),
            Err(e) => merged(agent, config@) == Err::<NormState, ConfigErrorView>(e@),
        },
{
    let normalized = match normalize_agent_preset_config(agent, config.duplicate()) {
        Ok(n) => n,
        Err(e) => return Err(e),
    };
    let spec = spec_for_agent(agent);
    assert(normalized_result(agent, config@, normalized@));
    if !preview_orders_fit(&normalized, &spec) {
        return Ok(None);
    }
    Ok(Some(compile_preview_profile(&normalized, &spec)))
}

/// The first module of a preset with the given id.
pub open spec fn module_with_id(ms: Seq<ModuleView>, id: ModuleKey, i: int) -> Option<int>
    decreases ms.len() - i,
{
    if i < 0 || i >= ms.len() {
        None
    } else if ms[i].module_id == id {
        Some(i)
    } else {
        module_with_id(ms, id, i + 1)
    }
}

/// One module of a normalized preset compiled for preview, with its role;
/// nothing when the preset has no module with that id.
pub fn compile_module_preview(config: &AgentPresetConfig, module_id: &PromptModuleId, spec: &ProfileCompilationSpec) -> (r:
    Option<CompiledPromptModulePreview>)
    requires
        all_orders_fit(config@, spec@),
    ensures
        match r {
            Some(p) => module_preview_spec(config@.modules, module_id@, spec@) == Some(p@),
            None => module_preview_spec(config@.modules, module_id@, spec@) is None,
        },
{
    let ghost ms = config@.modules;
    let mut i: usize = 0;
    while i < config.modules.len()
        invariant
            ms == config@.modules,
            all_orders_fit(config@, spec@),
            i <= ms.len(),
            module_with_id(ms, module_id@, 0) == module_with_id(ms, module_id@, i as int),
        decreases config.modules.len() - i,
    {
        let module = &config.modules[i];
        assert(ms[i as int] == module@);
        if module.module_id.same(module_id) {
            assert(orders_fit(ms[i as int], spec@));
            return Some(
                CompiledPromptModulePreview {
                    message_role: module.message_role,
                    module: compile_preview_module(module, spec),
                },
            );
        }
        i = i + 1;
    }
    None
}

/// Like `compile_prompt_preview_profile`, for the architect in the given
/// mode.
pub fn compile_architect_prompt_preview_profile(config: &AgentPresetConfig, mode: ArchitectPromptMode) -> (r:
    Result<Option<CompiledPromptPreviewProfile>, PromptConfigError>)
    ensures
        match r {
            Ok(Some(p)) => exists|n: PresetView|
                #[trigger] normalized_result(PromptAgentKind::Architect, config@, n) && all_orders_fit(
                    n,
                    architect_compile_spec(mode),
                ) && p@ == preview_profile_spec(n, architect_compile_spec(mode)),
            Ok(None) => exists|n: PresetView|
                #[trigger] normalized_result(PromptAgentKind::Architect, config@, n) && !all_orders_fit(
                    n,
                    architect_compile_spec(mode),
                ),
            Err(e) => merged(PromptAgentKind::Architect, config@) == Err::<NormState, ConfigErrorView>(e@),
        },
{
    let normalized = match normalize_agent_preset_config(PromptAgentKind::Architect, config.duplicate()) {
        Ok(n) => n,
        Err(e) => return Err(e),
    };
    let spec = spec_for_architect_mode(mode);
    assert(normalized_result(PromptAgentKind::Architect, config@, normalized@));
    if !preview_orders_fit(&normalized, &spec) {
        return Ok(None);
    }
    Ok(Some(compile_preview_profile(&normalized, &spec)))
}

/// One module of the preset of `agent` compiled for preview, after
/// normalizing the preset; `Ok(None)` when the preset has no such module or
/// its entry orders leave no room to number synthetic entries.
pub fn compile_prompt_module(agent: PromptAgentKind, config: &AgentPresetConfig, module_id: &PromptModuleId) -> (r:
    Result<Option<CompiledPromptModulePreview>, PromptConfigError>)
    ensures
        match r {
            Ok(Some(p)) => exists|n: PresetView|
                #[trigger] normalized_result(agent, config@, n) && all_orders_fit(n, agent_compile_spec(agent))
                    && module_preview_spec(n.modules, module_id@, agent_compile_spec(agent)) == Some(p@),
            Ok(None) => exists|n: PresetView|
                #[trigger] normalized_result(agent, config@, n) && (!all_orders_fit(
                    n,
                    agent_compile_spec(agent),
                ) || module_preview_spec(n.modules, module_id@, agent_compile_spec(agent)) is None),
            Err(e) => merged(agent, config@) == Err::<NormState, ConfigErrorView>(e@),
        },
{
    let normalized = match normalize_agent_preset_config(agent, config.duplicate()) {
        Ok(n) => n,
        Err(e) => return Err(e),
    };
    let spec = spec_for_agent(agent);
    assert(normalized_result(agent, config@, normalized@));
    if !preview_orders_fit(&normalized, &spec) {
        return Ok(None);
    }
    Ok(compile_module_preview(&normalized, module_id, &spec))
}

/// Like `compile_prompt_module`, for the architect in the given mode.
pub fn compile_architect_prompt_module(
    config: &AgentPresetConfig,
    mode: ArchitectPromptMode,
    module_id: &PromptModuleId,
) -> (r: Result<Option<CompiledPromptModulePreview>, PromptConfigError>)
    ensures
        match r {
            Ok(Some(p)) => exists|n: PresetView|
                #[trigger] normalized_result(PromptAgentKind::Architect, config@, n) && all_orders_fit(
                    n,
                    architect_compile_spec(mode),
                ) && module_preview_spec(n.modules, module_id@, architect_compile_spec(mode)) == Some(p@),
            Ok(None) => exists|n: PresetView|
                #[trigger] normalized_result(PromptAgentKind::Architect, config@, n) && (!all_orders_fit(
                    n,
                    architect_compile_spec(mode),
                ) || module_preview_spec(n.modules, module_id@, architect_compile_spec(mode)) is None),
            Err(e) => merged(PromptAgentKind::Architect, config@) == Err::<NormState, ConfigErrorView>(e@),
        },
{
    let normalized = match normalize_agent_preset_config(PromptAgentKind::Architect, config.duplicate()) {
        Ok(n) => n,
        Err(e) => return Err(e),
    };
    let spec = spec_for_architect_mode(mode);
    assert(normalized_result(PromptAgentKind::Architect, config@, normalized@));
    if !preview_orders_fit(&normalized, &spec) {
        return Ok(None);
    }
    Ok(compile_module_preview(&normalized, module_id, &spec))
}

} // verus!
