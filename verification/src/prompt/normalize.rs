//! Normalization of an agent preset: incoming modules and entries are checked,
//! merged over the agent's built-in modules and entries, and sorted.
use vstd::prelude::*;

use crate::prompt::defaults::{
    builtin_module_id, builtin_module_name, builtin_module_order, builtin_module_role,
    builtin_modules, built_in_module_templates, config_entry_from_template, entry_from_template,
    fallback_display_name, fallback_name,
};
use crate::prompt::sort::{entries_sorted, modules_sorted, sort_entries, sort_modules};
use crate::prompt::templates::{agent_templates, builtin_key, template_views, templates_for_agent, BuiltinModule, TemplateView};
use crate::prompt::types::{
    clone_opt_string, entry_views, module_key_from_raw, module_key_str, module_views, opt_view,
    str_eq, AgentPresetConfig, AgentPromptModuleConfig, AgentPromptModuleEntryConfig,
    ConfigErrorView, EntryView, ModuleKey, ModuleView, PresetView, PromptAgentKind,
    PromptConfigError, PromptEntryKind, PromptMessageRole, PromptModuleId,
};
use crate::text::{is_blank, trim_seq, trim_text, text_is_blank};

verus! {

/// A built-in entry not yet placed, with the module it belongs to.
pub struct PendingEntry {
    pub module_id: PromptModuleId,
    pub entry: AgentPromptModuleEntryConfig,
}

impl View for PendingEntry {
    type V = (ModuleKey, EntryView);

    open spec fn view(&self) -> (ModuleKey, EntryView) {
        (self.module_id@, self.entry@)
    }
}

impl PendingEntry {
    fn duplicate(&self) -> (r: PendingEntry)
        ensures
            r@ == self@,
    {
        PendingEntry { module_id: self.module_id.duplicate(), entry: self.entry.duplicate() }
    }
}

/// The views of pending entries.
pub open spec fn pending_views(p: Seq<PendingEntry>) -> Seq<(ModuleKey, EntryView)> {
    p.map_values(|x: PendingEntry| x@)
}

/// The views of module identifiers.
pub open spec fn key_views(p: Seq<PromptModuleId>) -> Seq<ModuleKey> {
    p.map_values(|x: PromptModuleId| x@)
}

/// The views of strings.
pub open spec fn string_views(p: Seq<String>) -> Seq<Seq<char>> {
    p.map_values(|x: String| x@)
}

/// Every built-in entry of the agent, with its module, in template order.
pub open spec fn initial_pending(agent: PromptAgentKind) -> Seq<(ModuleKey, EntryView)> {
    agent_templates(agent).map_values(
        |t: TemplateView| (builtin_key(t.module), entry_from_template(t)),
    )
}

/// A built-in module with its default metadata and no entries.
pub open spec fn empty_builtin_module(m: BuiltinModule) -> ModuleView {
    ModuleView {
        module_id: builtin_key(m),
        display_name: builtin_module_name(m),
        message_role: builtin_module_role(m),
        order: builtin_module_order(m),
        entries: seq![],
    }
}

/// The state of a normalization in progress: the modules built so far, the
/// module and entry ids seen, and the built-in entries not yet placed.
pub struct NormState {
    pub mods: Seq<ModuleView>,
    pub seen_mods: Seq<ModuleKey>,
    pub seen_ents: Seq<Seq<char>>,
    pub pending: Seq<(ModuleKey, EntryView)>,
}

/// The state before any incoming module is read.
pub open spec fn initial_state(agent: PromptAgentKind) -> NormState {
    NormState {
        mods: builtin_modules().map_values(|m: BuiltinModule| empty_builtin_module(m)),
        seen_mods: seq![],
        seen_ents: seq![],
        pending: initial_pending(agent),
    }
}

/// The first pending built-in entry with the given id.
pub open spec fn find_pending(p: Seq<(ModuleKey, EntryView)>, id: Seq<char>) -> Option<(ModuleKey, EntryView)>
    decreases p.len(),
{
    if p.len() == 0 {
        None
    } else if p[0].1.entry_id == id {
        Some(p[0])
    } else {
        find_pending(p.drop_first(), id)
    }
}

/// Whether a pending entry has an id other than `id`.
pub open spec fn other_id(id: Seq<char>) -> spec_fn((ModuleKey, EntryView)) -> bool {
    |x: (ModuleKey, EntryView)| x.1.entry_id != id
}

/// The pending entries without those with the given id.
pub open spec fn drop_pending(p: Seq<(ModuleKey, EntryView)>, id: Seq<char>) -> Seq<(ModuleKey, EntryView)> {
    p.filter(other_id(id))
}

/// Built-in entries that are dropped from incoming presets: the director's old
/// player-input entry and the keeper's old shared-history entry.
pub open spec fn is_removed_builtin(agent: PromptAgentKind, e: EntryView) -> bool {
    e.kind != PromptEntryKind::CustomText && ((agent == PromptAgentKind::Director && e.entry_id
        == "director_player_input"@) || (agent == PromptAgentKind::Keeper && e.entry_id
        == "keeper_shared_history"@))
}

/// The normalized form of an incoming entry of module `key`, checked against
/// the pending built-in entries.
pub open spec fn normalize_entry_spec(
    agent: PromptAgentKind,
    key: ModuleKey,
    e: EntryView,
    pending: Seq<(ModuleKey, EntryView)>,
) -> Result<EntryView, ConfigErrorView> {
    let id = trim_seq(e.entry_id);
    if id.len() == 0 {
        Err(ConfigErrorView::EmptyEntryId)
    } else if e.kind == PromptEntryKind::CustomText {
        if e.text is None || is_blank(e.text->0) {
            Err(ConfigErrorView::EmptyCustomEntryText(id))
        } else {
            Ok(
                EntryView {
                    entry_id: id,
                    display_name: fallback_name(e.display_name, id),
                    kind: PromptEntryKind::CustomText,
                    enabled: e.enabled,
                    order: e.order,
                    required: false,
                    text: e.text,
                    context_key: None,
                },
            )
        }
    } else {
        match find_pending(pending, id) {
            None => Err(ConfigErrorView::UnknownBuiltInEntry { agent, module_id: key, entry_id: id }),
            Some(p) => {
                let d = p.1;
                if d.kind != e.kind {
                    Err(
                        ConfigErrorView::UnknownBuiltInEntry {
                            agent,
                            module_id: key,
                            entry_id: e.entry_id,
                        },
                    )
                } else {
                    Ok(
                        EntryView {
                            entry_id: id,
                            display_name: fallback_name(e.display_name, d.display_name),
                            kind: d.kind,
                            enabled: if d.required {
                                true
                            } else {
                                e.enabled
                            },
                            order: e.order,
                            required: d.required,
                            text: d.text,
                            context_key: d.context_key,
                        },
                    )
                }
            },
        }
    }
}

/// A custom module identifier is trimmed and must not be blank; the trimmed
/// name may stand for a built-in module.
pub open spec fn normalize_key(k: ModuleKey) -> Result<ModuleKey, ConfigErrorView> {
    match k {
        ModuleKey::Custom(raw) => {
            let t = trim_seq(raw);
            if t.len() == 0 {
                Err(ConfigErrorView::EmptyModuleId)
            } else {
                Ok(module_key_from_raw(t))
            }
        },
        _ => Ok(k),
    }
}

/// The index of the first module with identifier `k`, searching from `i`.
pub open spec fn module_index_from(mods: Seq<ModuleView>, k: ModuleKey, i: int) -> Option<int>
    decreases mods.len() - i,
{
    if i < 0 || i >= mods.len() {
        None
    } else if mods[i].module_id == k {
        Some(i)
    } else {
        module_index_from(mods, k, i + 1)
    }
}

/// The index of the first module with identifier `k`.
pub open spec fn module_index(mods: Seq<ModuleView>, k: ModuleKey) -> Option<int> {
    module_index_from(mods, k, 0)
}

/// A module created for an identifier that no built-in module has.
pub open spec fn new_module(k: ModuleKey) -> ModuleView {
    ModuleView {
        module_id: k,
        display_name: module_key_str(k),
        message_role: PromptMessageRole::User,
        order: 1000,
        entries: seq![],
    }
}

/// The name a module falls back to when its display name is blank.
pub open spec fn module_fallback_name(k: ModuleKey) -> Seq<char> {
    match k {
        ModuleKey::Role => "Role"@,
        ModuleKey::Task => "Task"@,
        ModuleKey::StaticContext => "Static Context"@,
        ModuleKey::DynamicContext => "Dynamic Context"@,
        ModuleKey::Output => "Output"@,
        ModuleKey::Custom(s) => s,
    }
}

/// The modules with one for `k`, added when missing.
pub open spec fn opened_mods(mods: Seq<ModuleView>, k: ModuleKey) -> Seq<ModuleView> {
    match module_index(mods, k) {
        Some(_) => mods,
        None => mods.push(new_module(k)),
    }
}

/// The index of the module for `k` in `opened_mods(mods, k)`.
pub open spec fn opened_index(mods: Seq<ModuleView>, k: ModuleKey) -> int {
    match module_index(mods, k) {
        Some(i) => i,
        None => mods.len() as int,
    }
}

/// A module with the incoming module's name, role and order.
pub open spec fn with_metadata(m: ModuleView, incoming: ModuleView, k: ModuleKey) -> ModuleView {
    ModuleView {
        display_name: fallback_name(incoming.display_name, module_fallback_name(k)),
        message_role: incoming.message_role,
        order: incoming.order,
        ..m
    }
}

/// A module with one more entry at its end.
pub open spec fn with_entry(m: ModuleView, e: EntryView) -> ModuleView {
    ModuleView { entries: m.entries.push(e), ..m }
}

/// Reads one incoming entry of module `key`, stored at index `idx`.
pub open spec fn step_entry(
    agent: PromptAgentKind,
    key: ModuleKey,
    idx: int,
    s: NormState,
    e: EntryView,
) -> Result<NormState, ConfigErrorView> {
    if is_removed_builtin(agent, e) {
        Ok(s)
    } else {
        match normalize_entry_spec(agent, key, e, s.pending) {
            Err(x) => Err(x),
            Ok(ne) => {
                if s.seen_ents.contains(ne.entry_id) {
                    Err(
                        ConfigErrorView::DuplicateEntryId {
                            agent,
                            module_id: key,
                            entry_id: ne.entry_id,
                        },
                    )
                } else {
                    Ok(
                        NormState {
                            mods: s.mods.update(idx, with_entry(s.mods[idx], ne)),
                            seen_mods: s.seen_mods,
                            seen_ents: s.seen_ents.push(ne.entry_id),
                            pending: if ne.kind != PromptEntryKind::CustomText {
                                drop_pending(s.pending, ne.entry_id)
                            } else {
                                s.pending
                            },
                        },
                    )
                }
            },
        }
    }
}

/// Reads the incoming entries of module `key` in order.
pub open spec fn fold_entries(
    agent: PromptAgentKind,
    key: ModuleKey,
    idx: int,
    s: NormState,
    es: Seq<EntryView>,
) -> Result<NormState, ConfigErrorView>
    decreases es.len(),
{
    if es.len() == 0 {
        Ok(s)
    } else {
        match fold_entries(agent, key, idx, s, es.drop_last()) {
            Err(x) => Err(x),
            Ok(s2) => step_entry(agent, key, idx, s2, es.last()),
        }
    }
}

/// The state after the metadata of an incoming module with identifier `key` is
/// applied.
pub open spec fn opened_state(s: NormState, key: ModuleKey, incoming: ModuleView) -> NormState {
    let mods1 = opened_mods(s.mods, key);
    let idx = opened_index(s.mods, key);
    NormState {
        mods: mods1.update(idx, with_metadata(mods1[idx], incoming, key)),
        seen_mods: s.seen_mods.push(key),
        seen_ents: s.seen_ents,
        pending: s.pending,
    }
}

/// Reads one incoming module.
pub open spec fn step_module(agent: PromptAgentKind, s: NormState, m: ModuleView) -> Result<NormState, ConfigErrorView> {
    match normalize_key(m.module_id) {
        Err(x) => Err(x),
        Ok(key) => {
            if s.seen_mods.contains(key) {
                Err(ConfigErrorView::DuplicateModuleId { agent, module_id: key })
            } else {
                fold_entries(
                    agent,
                    key,
                    opened_index(s.mods, key),
                    opened_state(s, key, m),
                    m.entries,
                )
            }
        },
    }
}

/// Reads the incoming modules in order.
pub open spec fn fold_modules(agent: PromptAgentKind, ms: Seq<ModuleView>) -> Result<NormState, ConfigErrorView>
    decreases ms.len(),
{
    if ms.len() == 0 {
        Ok(initial_state(agent))
    } else {
        match fold_modules(agent, ms.drop_last()) {
            Err(x) => Err(x),
            Ok(s) => step_module(agent, s, ms.last()),
        }
    }
}

/// Places one built-in entry that the incoming preset did not mention.
pub open spec fn step_flush(agent: PromptAgentKind, s: NormState, x: (ModuleKey, EntryView)) -> Result<NormState, ConfigErrorView> {
    if s.seen_ents.contains(x.1.entry_id) {
        Err(ConfigErrorView::DuplicateEntryId { agent, module_id: x.0, entry_id: x.1.entry_id })
    } else {
        match module_index(s.mods, x.0) {
            Some(i) => Ok(
                NormState {
                    mods: s.mods.update(i, with_entry(s.mods[i], x.1)),
                    seen_mods: s.seen_mods,
                    seen_ents: s.seen_ents.push(x.1.entry_id),
                    pending: s.pending,
                },
            ),
            None => Ok(s),
        }
    }
}

/// Places the given built-in entries in order.
pub open spec fn fold_flush(agent: PromptAgentKind, s: NormState, p: Seq<(ModuleKey, EntryView)>) -> Result<NormState, ConfigErrorView>
    decreases p.len(),
{
    if p.len() == 0 {
        Ok(s)
    } else {
        match fold_flush(agent, s, p.drop_last()) {
            Err(x) => Err(x),
            Ok(s2) => step_flush(agent, s2, p.last()),
        }
    }
}

/// The merged modules of a preset before sorting, or the error that refuses
/// the preset.
pub open spec fn merged(agent: PromptAgentKind, incoming: PresetView) -> Result<NormState, ConfigErrorView> {
    match fold_modules(agent, incoming.modules) {
        Err(x) => Err(x),
        Ok(s) => fold_flush(agent, s, s.pending),
    }
}

/// `out` is module `src` with its entries sorted.
pub open spec fn resorted_module(src: ModuleView, out: ModuleView) -> bool {
    &&& out.module_id == src.module_id
    &&& out.display_name == src.display_name
    &&& out.message_role == src.message_role
    &&& out.order == src.order
    &&& out.entries.to_multiset() == src.entries.to_multiset()
    &&& entries_sorted(out.entries)
}

/// `out` is the normalized form of `incoming`: its model options, and the
/// merged modules, each with sorted entries, sorted by order and name.
pub open spec fn normalized_result(agent: PromptAgentKind, incoming: PresetView, out: PresetView) -> bool {
    match merged(agent, incoming) {
        Err(_) => false,
        Ok(s) => {
            &&& out.temperature_bits == incoming.temperature_bits
            &&& out.max_tokens == incoming.max_tokens
            &&& out.director_shared_history_limit == incoming.director_shared_history_limit
            &&& out.actor_shared_history_limit == incoming.actor_shared_history_limit
            &&& out.actor_private_memory_limit == incoming.actor_private_memory_limit
            &&& out.narrator_shared_history_limit == incoming.narrator_shared_history_limit
            &&& out.replyer_session_history_limit == incoming.replyer_session_history_limit
            &&& out.extra_json == incoming.extra_json
            &&& modules_sorted(out.modules)
            &&& exists|mid: Seq<ModuleView>|
                #![trigger mid.to_multiset()]
                {
                    &&& mid.len() == s.mods.len()
                    &&& forall|i: int|
                        0 <= i < mid.len() ==> resorted_module(#[trigger] s.mods[i], mid[i])
                    &&& mid.to_multiset() == out.modules.to_multiset()
                }
        },
    }
}

proof fn lemma_take_last<A>(s: Seq<A>, j: int)
    requires
        0 <= j < s.len(),
    ensures
        s.take(j + 1).drop_last() == s.take(j),
        s.take(j + 1).last() == s[j],
{
    assert(s.take(j + 1).drop_last() =~= s.take(j));
}

proof fn lemma_fold_entries_err(
    agent: PromptAgentKind,
    key: ModuleKey,
    idx: int,
    s: NormState,
    es: Seq<EntryView>,
    k: int,
    x: ConfigErrorView,
)
    requires
        0 <= k <= es.len(),
        fold_entries(agent, key, idx, s, es.take(k)) == Err::<NormState, ConfigErrorView>(x),
    ensures
        fold_entries(agent, key, idx, s, es) == Err::<NormState, ConfigErrorView>(x),
    decreases es.len() - k,
{
    if k < es.len() {
        lemma_take_last(es, k);
        lemma_fold_entries_err(agent, key, idx, s, es, k + 1, x);
    } else {
        assert(es.take(k) =~= es);
    }
}

proof fn lemma_fold_modules_err(agent: PromptAgentKind, ms: Seq<ModuleView>, k: int, x: ConfigErrorView)
    requires
        0 <= k <= ms.len(),
        fold_modules(agent, ms.take(k)) == Err::<NormState, ConfigErrorView>(x),
    ensures
        fold_modules(agent, ms) == Err::<NormState, ConfigErrorView>(x),
    decreases ms.len() - k,
{
    if k < ms.len() {
        lemma_take_last(ms, k);
        lemma_fold_modules_err(agent, ms, k + 1, x);
    } else {
        assert(ms.take(k) =~= ms);
    }
}

proof fn lemma_fold_flush_err(
    agent: PromptAgentKind,
    s: NormState,
    p: Seq<(ModuleKey, EntryView)>,
    k: int,
    x: ConfigErrorView,
)
    requires
        0 <= k <= p.len(),
        fold_flush(agent, s, p.take(k)) == Err::<NormState, ConfigErrorView>(x),
    ensures
        fold_flush(agent, s, p) == Err::<NormState, ConfigErrorView>(x),
    decreases p.len() - k,
{
    if k < p.len() {
        lemma_take_last(p, k);
        lemma_fold_flush_err(agent, s, p, k + 1, x);
    } else {
        assert(p.take(k) =~= p);
    }
}

/// A normalization in progress.
struct NormBuild {
    mods: Vec<AgentPromptModuleConfig>,
    seen_mods: Vec<PromptModuleId>,
    seen_ents: Vec<String>,
    pending: Vec<PendingEntry>,
}

impl View for NormBuild {
    type V = NormState;

    closed spec fn view(&self) -> NormState {
        NormState {
            mods: module_views(self.mods@),
            seen_mods: key_views(self.seen_mods@),
            seen_ents: string_views(self.seen_ents@),
            pending: pending_views(self.pending@),
        }
    }
}

/// The built-in entries of an agent, each with its module.
pub(crate) fn initial_pending_entries(agent: PromptAgentKind) -> (v: Vec<PendingEntry>)
    ensures
        pending_views(v@) == initial_pending(agent),
{
    let templates = templates_for_agent(agent);
    let ghost tv = template_views(templates@);
    let ghost f = |t: TemplateView| (builtin_key(t.module), entry_from_template(t));
    let mut out: Vec<PendingEntry> = Vec::new();
    let mut i: usize = 0;
    while i < templates.len()
        invariant
            tv == template_views(templates@),
            tv == agent_templates(agent),
            f == (|t: TemplateView| (builtin_key(t.module), entry_from_template(t))),
            i <= templates@.len(),
            pending_views(out@) =~= tv.take(i as int).map_values(f),
        decreases templates.len() - i,
    {
        let ghost before = out@;
        out.push(
            PendingEntry {
                module_id: builtin_module_id(templates[i].module),
                entry: config_entry_from_template(&templates[i]),
            },
        );
        proof {
            assert(out@ =~= before.push(out@.last()));
            assert(pending_views(out@) =~= pending_views(before).push(out@.last()@));
            assert(tv.take(i + 1) =~= tv.take(i as int).push(tv[i as int]));
            assert(tv[i as int] == templates@[i as int]@);
        }
        i = i + 1;
    }
    proof {
        assert(tv.take(templates@.len() as int) =~= tv);
    }
    out
}

/// The five built-in modules with their default metadata and no entries.
fn initial_modules() -> (v: Vec<AgentPromptModuleConfig>)
    ensures
        module_views(v@) == builtin_modules().map_values(|m: BuiltinModule| empty_builtin_module(m)),
{
    let templates = built_in_module_templates();
    let mut out: Vec<AgentPromptModuleConfig> = Vec::new();
    let mut i: usize = 0;
    while i < templates.len()
        invariant
            templates@.len() == 5,
            forall|k: int|
                0 <= k < 5 ==> {
                    &&& (#[trigger] templates@[k]).module == builtin_modules()[k]
                    &&& templates@[k].display_name@ == builtin_module_name(builtin_modules()[k])
                    &&& templates@[k].message_role == builtin_module_role(builtin_modules()[k])
                    &&& templates@[k].order == builtin_module_order(builtin_modules()[k])
                },
            i <= 5,
            module_views(out@) =~= builtin_modules().take(i as int).map_values(
                |m: BuiltinModule| empty_builtin_module(m),
            ),
        decreases 5 - i,
    {
        let t = &templates[i];
        let ghost before = out@;
        out.push(
            AgentPromptModuleConfig {
                module_id: builtin_module_id(t.module),
                display_name: t.display_name.to_owned(),
                message_role: t.message_role,
                order: t.order,
                entries: Vec::new(),
            },
        );
        proof {
            assert(out@ =~= before.push(out@.last()));
            assert(module_views(out@) =~= module_views(before).push(out@.last()@));
            assert(out@.last()@.entries =~= Seq::<EntryView>::empty());
            assert(builtin_modules().take(i + 1) =~= builtin_modules().take(i as int).push(
                builtin_modules()[i as int],
            ));
        }
        i = i + 1;
    }
    proof {
        assert(builtin_modules().take(5) =~= builtin_modules());
    }
    out
}

/// The index of the first pending entry with the given id.
pub(crate) fn find_pending_index(p: &Vec<PendingEntry>, id: &str) -> (r: Option<usize>)
    ensures
        match r {
            Some(i) => i < p@.len() && find_pending(pending_views(p@), id@) == Some(
                pending_views(p@)[i as int],
            ),
            None => find_pending(pending_views(p@), id@) is None,
        },
{
    let ghost pv = pending_views(p@);
    let mut i: usize = 0;
    assert(pv.skip(0) =~= pv);
    while i < p.len()
        invariant
            pv == pending_views(p@),
            i <= p@.len(),
            find_pending(pv, id@) == find_pending(pv.skip(i as int), id@),
        decreases p.len() - i,
    {
        proof {
            assert(pv.skip(i as int)[0] == p@[i as int]@);
            assert(pv.skip(i as int).drop_first() =~= pv.skip(i + 1));
        }
        if str_eq(p[i].entry.entry_id.as_str(), id) {
            return Some(i);
        }
        i = i + 1;
    }
    None
}

/// The pending entries without those with the given id.
fn drop_pending_entries(p: &Vec<PendingEntry>, id: &str) -> (r: Vec<PendingEntry>)
    ensures
        pending_views(r@) == drop_pending(pending_views(p@), id@),
{
    let ghost pv = pending_views(p@);
    let ghost pred = other_id(id@);
    let mut out: Vec<PendingEntry> = Vec::new();
    let mut i: usize = 0;
    while i < p.len()
        invariant
            pv == pending_views(p@),
            pred == other_id(id@),
            i <= p@.len(),
            pending_views(out@) == pv.take(i as int).filter(pred),
        decreases p.len() - i,
    {
        let ghost before = out@;
        proof {
            assert(pv.take(i + 1) =~= pv.take(i as int).push(pv[i as int]));
            pv.take(i as int).lemma_filter_push(pv[i as int], pred);
            assert(pv[i as int] == p@[i as int]@);
        }
        if !str_eq(p[i].entry.entry_id.as_str(), id) {
            out.push(p[i].duplicate());
            proof {
                assert(out@ =~= before.push(out@.last()));
                assert(pending_views(out@) =~= pending_views(before).push(out@.last()@));
            }
        }
        i = i + 1;
    }
    proof {
        assert(pv.take(p@.len() as int) =~= pv);
    }
    out
}

/// Whether an entry is a built-in entry that presets no longer carry.
pub fn is_removed_built_in_entry(agent: PromptAgentKind, entry: &AgentPromptModuleEntryConfig) -> (b: bool)
    ensures
        b == is_removed_builtin(agent, entry@),
{
    if entry.kind == PromptEntryKind::CustomText {
        return false;
    }
    match agent {
        PromptAgentKind::Director => str_eq(entry.entry_id.as_str(), "director_player_input"),
        PromptAgentKind::Keeper => str_eq(entry.entry_id.as_str(), "keeper_shared_history"),
        _ => false,
    }
}

/// Checks and normalizes a custom module identifier.
pub fn normalize_module_id(module_id: &PromptModuleId) -> (r: Result<PromptModuleId, PromptConfigError>)
    ensures
        match r {
            Ok(k) => normalize_key(module_id@) == Ok::<ModuleKey, ConfigErrorView>(k@),
            Err(e) => normalize_key(module_id@) == Err::<ModuleKey, ConfigErrorView>(e@),
        },
{
    match module_id {
        PromptModuleId::Custom(raw) => {
            let trimmed = trim_text(raw.as_str());
            proof {
                crate::text::lemma_trim_empty_iff_blank(raw@);
            }
            if text_is_blank(raw.as_str()) {
                return Err(PromptConfigError::EmptyModuleId);
            }
            Ok(PromptModuleId::from_raw(trimmed))
        },
        other => Ok(other.duplicate()),
    }
}

/// Normalizes an incoming entry of module `module_id`.
fn normalize_entry(
    agent: PromptAgentKind,
    module_id: &PromptModuleId,
    entry: &AgentPromptModuleEntryConfig,
    pending: &Vec<PendingEntry>,
) -> (r: Result<AgentPromptModuleEntryConfig, PromptConfigError>)
    ensures
        match r {
            Ok(e) => normalize_entry_spec(agent, module_id@, entry@, pending_views(pending@))
                == Ok::<EntryView, ConfigErrorView>(e@),
            Err(x) => normalize_entry_spec(agent, module_id@, entry@, pending_views(pending@))
                == Err::<EntryView, ConfigErrorView>(x@),
        },
{
    let entry_id = trim_text(entry.entry_id.as_str());
    if text_is_blank(entry.entry_id.as_str()) {
        return Err(PromptConfigError::EmptyEntryId);
    }
    proof {
        crate::text::lemma_trim_empty_iff_blank(entry.entry_id@);
    }
    match entry.kind {
        PromptEntryKind::CustomText => {
            let blank = match &entry.text {
                Some(t) => text_is_blank(t.as_str()),
                None => true,
            };
            if blank {
                return Err(PromptConfigError::EmptyCustomEntryText(entry_id));
            }
            let display_name = fallback_display_name(entry.display_name.as_str(), entry_id.as_str());
            Ok(
                AgentPromptModuleEntryConfig {
                    entry_id,
                    display_name,
                    kind: PromptEntryKind::CustomText,
                    enabled: entry.enabled,
                    order: entry.order,
                    required: false,
                    text: clone_opt_string(&entry.text),
                    context_key: None,
                },
            )
        },
        _ => {
            let found = find_pending_index(pending, entry_id.as_str());
            match found {
                None => Err(
                    PromptConfigError::UnknownBuiltInEntry {
                        agent,
                        module_id: module_id.duplicate(),
                        entry_id,
                    },
                ),
                Some(i) => {
                    let default_entry = &pending[i].entry;
                    proof {
                        assert(pending_views(pending@)[i as int] == pending@[i as int]@);
                    }
                    if default_entry.kind != entry.kind {
                        return Err(
                            PromptConfigError::UnknownBuiltInEntry {
                                agent,
                                module_id: module_id.duplicate(),
                                entry_id: entry.entry_id.clone(),
                            },
                        );
                    }
                    let display_name = fallback_display_name(
                        entry.display_name.as_str(),
                        default_entry.display_name.as_str(),
                    );
                    Ok(
                        AgentPromptModuleEntryConfig {
                            entry_id,
                            display_name,
                            kind: default_entry.kind,
                            enabled: if default_entry.required {
                                true
                            } else {
                                entry.enabled
                            },
                            order: entry.order,
                            required: default_entry.required,
                            text: clone_opt_string(&default_entry.text),
                            context_key: clone_opt_string(&default_entry.context_key),
                        },
                    )
                },
            }
        },
    }
}

/// The index of the first module with the given identifier.
pub(crate) fn find_module_index(mods: &Vec<AgentPromptModuleConfig>, k: &PromptModuleId) -> (r: Option<usize>)
    ensures
        match r {
            Some(i) => module_index(module_views(mods@), k@) == Some(i as int) && i < mods@.len(),
            None => module_index(module_views(mods@), k@) is None,
        },
{
    let ghost mv = module_views(mods@);
    let mut i: usize = 0;
    while i < mods.len()
        invariant
            mv == module_views(mods@),
            i <= mods@.len(),
            module_index(mv, k@) == module_index_from(mv, k@, i as int),
        decreases mods.len() - i,
    {
        proof {
            assert(mv[i as int] == mods@[i as int]@);
        }
        if mods[i].module_id.same(k) {
            return Some(i);
        }
        i = i + 1;
    }
    None
}

/// Whether a module identifier was seen.
fn contains_module_id(seen: &Vec<PromptModuleId>, k: &PromptModuleId) -> (b: bool)
    ensures
        b == key_views(seen@).contains(k@),
{
    let mut i: usize = 0;
    while i < seen.len()
        invariant
            i <= seen@.len(),
            forall|j: int| 0 <= j < i ==> key_views(seen@)[j] != k@,
        decreases seen.len() - i,
    {
        if seen[i].same(k) {
            assert(key_views(seen@)[i as int] == k@);
            return true;
        }
        i = i + 1;
    }
    false
}

/// Whether an entry id was seen.
fn contains_entry_id(seen: &Vec<String>, id: &str) -> (b: bool)
    ensures
        b == string_views(seen@).contains(id@),
{
    let mut i: usize = 0;
    while i < seen.len()
        invariant
            i <= seen@.len(),
            forall|j: int| 0 <= j < i ==> string_views(seen@)[j] != id@,
        decreases seen.len() - i,
    {
        if str_eq(seen[i].as_str(), id) {
            assert(string_views(seen@)[i as int] == id@);
            return true;
        }
        i = i + 1;
    }
    false
}

/// The name a module falls back to when its display name is blank.
fn module_fallback_str(k: &PromptModuleId) -> (s: &str)
    ensures
        s@ == module_fallback_name(k@),
{
    match k {
        PromptModuleId::Role => "Role",
        PromptModuleId::Task => "Task",
        PromptModuleId::StaticContext => "Static Context",
        PromptModuleId::DynamicContext => "Dynamic Context",
        PromptModuleId::Output => "Output",
        PromptModuleId::Custom(s) => s.as_str(),
    }
}

/// Adds an entry at the end of module `idx`.
fn push_entry_at(mods: &mut Vec<AgentPromptModuleConfig>, idx: usize, e: AgentPromptModuleEntryConfig)
    requires
        idx < old(mods)@.len(),
    ensures
        final(mods)@.len() == old(mods)@.len(),
        module_views(final(mods)@) == module_views(old(mods)@).update(
            idx as int,
            with_entry(module_views(old(mods)@)[idx as int], e@),
        ),
{
    let ghost before = mods@;
    let mut m = mods.remove(idx);
    let ghost mb = m@;
    m.entries.push(e);
    proof {
        assert(entry_views(m.entries@) =~= mb.entries.push(e@));
    }
    mods.insert(idx, m);
    proof {
        assert(module_views(mods@) =~= module_views(before).update(
            idx as int,
            with_entry(module_views(before)[idx as int], e@),
        ));
    }
}

/// Reads one incoming entry of module `key` (stored at `idx`).
fn apply_entry(
    agent: PromptAgentKind,
    key: &PromptModuleId,
    idx: usize,
    st: &mut NormBuild,
    entry: &AgentPromptModuleEntryConfig,
) -> (r: Result<(), PromptConfigError>)
    requires
        idx < old(st).mods@.len(),
    ensures
        final(st).mods@.len() == old(st).mods@.len(),
        match r {
            Ok(_) => step_entry(agent, key@, idx as int, old(st)@, entry@) == Ok::<
                NormState,
                ConfigErrorView,
            >(final(st)@),
            Err(x) => step_entry(agent, key@, idx as int, old(st)@, entry@) == Err::<
                NormState,
                ConfigErrorView,
            >(x@),
        },
{
    if is_removed_built_in_entry(agent, entry) {
        return Ok(());
    }
    let normalized = normalize_entry(agent, key, entry, &st.pending);
    match normalized {
        Err(x) => Err(x),
        Ok(ne) => {
            if contains_entry_id(&st.seen_ents, ne.entry_id.as_str()) {
                return Err(
                    PromptConfigError::DuplicateEntryId {
                        agent,
                        module_id: key.duplicate(),
                        entry_id: ne.entry_id,
                    },
                );
            }
            let ghost s0 = st@;
            let id = ne.entry_id.clone();
            if ne.kind != PromptEntryKind::CustomText {
                let p = drop_pending_entries(&st.pending, id.as_str());
                st.pending = p;
            }
            let ghost seen_before = st.seen_ents@;
            st.seen_ents.push(id);
            proof {
                assert(string_views(st.seen_ents@) =~= string_views(seen_before).push(ne.entry_id@));
            }
            push_entry_at(&mut st.mods, idx, ne);
            Ok(())
        },
    }
}

/// Reads one incoming module and its entries.
fn apply_module(agent: PromptAgentKind, st: &mut NormBuild, module: &AgentPromptModuleConfig) -> (r: Result<(), PromptConfigError>)
    ensures
        match r {
            Ok(_) => step_module(agent, old(st)@, module@) == Ok::<NormState, ConfigErrorView>(
                final(st)@,
            ),
            Err(x) => step_module(agent, old(st)@, module@) == Err::<NormState, ConfigErrorView>(
                x@,
            ),
        },
{
    let key = match normalize_module_id(&module.module_id) {
        Ok(k) => k,
        Err(x) => {
            return Err(x);
        },
    };
    if contains_module_id(&st.seen_mods, &key) {
        return Err(PromptConfigError::DuplicateModuleId { agent, module_id: key });
    }
    let ghost s0 = st@;
    let idx = match find_module_index(&st.mods, &key) {
        Some(i) => i,
        None => {
            let ghost before = st.mods@;
            st.mods.push(
                AgentPromptModuleConfig {
                    module_id: key.duplicate(),
                    display_name: key.as_str().to_owned(),
                    message_role: PromptMessageRole::User,
                    order: 1000,
                    entries: Vec::new(),
                },
            );
            proof {
                assert(st.mods@ =~= before.push(st.mods@.last()));
                assert(st.mods@.last()@.entries =~= Seq::<EntryView>::empty());
                assert(module_views(st.mods@) =~= module_views(before).push(new_module(key@)));
            }
            st.mods.len() - 1
        },
    };
    proof {
        assert(module_views(st.mods@) == opened_mods(s0.mods, key@));
        assert(idx as int == opened_index(s0.mods, key@));
    }
    let ghost mods1 = st.mods@;
    let mut m = st.mods.remove(idx);
    let ghost mb = m@;
    let fallback = module_fallback_str(&key);
    m.display_name = fallback_display_name(module.display_name.as_str(), fallback);
    m.message_role = module.message_role;
    m.order = module.order;
    proof {
        assert(m@ == with_metadata(mb, module@, key@));
    }
    st.mods.insert(idx, m);
    proof {
        assert(module_views(st.mods@) =~= module_views(mods1).update(
            idx as int,
            with_metadata(module_views(mods1)[idx as int], module@, key@),
        ));
    }
    let ghost seen_before = st.seen_mods@;
    st.seen_mods.push(key.duplicate());
    proof {
        assert(key_views(st.seen_mods@) =~= key_views(seen_before).push(key@));
        assert(st@ == opened_state(s0, key@, module@));
    }
    let ghost s1 = st@;
    let ghost es = module@.entries;
    let mut j: usize = 0;
    assert(es.take(0) =~= Seq::<EntryView>::empty());
    while j < module.entries.len()
        invariant
            es == module@.entries,
            es == entry_views(module.entries@),
            j <= module.entries@.len(),
            idx < st.mods@.len(),
            s1 == opened_state(old(st)@, key@, module@),
            idx as int == opened_index(old(st)@.mods, key@),
            normalize_key(module@.module_id) == Ok::<ModuleKey, ConfigErrorView>(key@),
            !old(st)@.seen_mods.contains(key@),
            fold_entries(agent, key@, idx as int, s1, es.take(j as int)) == Ok::<
                NormState,
                ConfigErrorView,
            >(st@),
        decreases module.entries.len() - j,
    {
        let ghost sj = st@;
        let res = apply_entry(agent, &key, idx, st, &module.entries[j]);
        proof {
            lemma_take_last(es, j as int);
            assert(es[j as int] == module.entries@[j as int]@);
        }
        match res {
            Err(x) => {
                proof {
                    lemma_fold_entries_err(agent, key@, idx as int, s1, es, j + 1, x@);
                }
                return Err(x);
            },
            Ok(_) => {},
        }
        j = j + 1;
    }
    proof {
        assert(es.take(es.len() as int) =~= es);
    }
    Ok(())
}

/// Places the built-in entries that the incoming preset did not mention.
fn flush_pending(agent: PromptAgentKind, st: &mut NormBuild, p: &Vec<PendingEntry>) -> (r: Result<(), PromptConfigError>)
    ensures
        match r {
            Ok(_) => fold_flush(agent, old(st)@, pending_views(p@)) == Ok::<NormState, ConfigErrorView>(
                final(st)@,
            ),
            Err(x) => fold_flush(agent, old(st)@, pending_views(p@)) == Err::<
                NormState,
                ConfigErrorView,
            >(x@),
        },
{
    let ghost s0 = st@;
    let ghost pv = pending_views(p@);
    let mut i: usize = 0;
    assert(pv.take(0) =~= Seq::<(ModuleKey, EntryView)>::empty());
    while i < p.len()
        invariant
            pv == pending_views(p@),
            s0 == old(st)@,
            i <= p@.len(),
            fold_flush(agent, s0, pv.take(i as int)) == Ok::<NormState, ConfigErrorView>(st@),
        decreases p.len() - i,
    {
        proof {
            lemma_take_last(pv, i as int);
            assert(pv[i as int] == p@[i as int]@);
        }
        let x = &p[i];
        if contains_entry_id(&st.seen_ents, x.entry.entry_id.as_str()) {
            proof {
                lemma_fold_flush_err(
                    agent,
                    s0,
                    pv,
                    i + 1,
                    ConfigErrorView::DuplicateEntryId {
                        agent,
                        module_id: x.module_id@,
                        entry_id: x.entry.entry_id@,
                    },
                );
            }
            return Err(
                PromptConfigError::DuplicateEntryId {
                    agent,
                    module_id: x.module_id.duplicate(),
                    entry_id: x.entry.entry_id.clone(),
                },
            );
        }
        match find_module_index(&st.mods, &x.module_id) {
            Some(k) => {
                let ghost seen_before = st.seen_ents@;
                st.seen_ents.push(x.entry.entry_id.clone());
                proof {
                    assert(string_views(st.seen_ents@) =~= string_views(seen_before).push(
                        x.entry.entry_id@,
                    ));
                }
                push_entry_at(&mut st.mods, k, x.entry.duplicate());
            },
            None => {},
        }
        i = i + 1;
    }
    proof {
        assert(pv.take(pv.len() as int) =~= pv);
    }
    Ok(())
}

/// Normalizes an agent's preset: incoming modules and entries are checked and
/// merged over the agent's built-in modules and entries (built-in entries not
/// mentioned are added back with their defaults), then entries and modules are
/// sorted by order and name.
pub fn normalize_agent_preset_config(agent: PromptAgentKind, incoming: AgentPresetConfig) -> (r: Result<AgentPresetConfig, PromptConfigError>)
    ensures
        match r {
            Ok(c) => normalized_result(agent, incoming@, c@),
            Err(e) => merged(agent, incoming@) == Err::<NormState, ConfigErrorView>(e@),
        },
{
    let mut st = NormBuild {
        mods: initial_modules(),
        seen_mods: Vec::new(),
        seen_ents: Vec::new(),
        pending: initial_pending_entries(agent),
    };
    proof {
        assert(key_views(st.seen_mods@) =~= Seq::<ModuleKey>::empty());
        assert(string_views(st.seen_ents@) =~= Seq::<Seq<char>>::empty());
        assert(st@ == initial_state(agent));
    }
    let ghost ms = incoming@.modules;
    let mut i: usize = 0;
    assert(ms.take(0) =~= Seq::<ModuleView>::empty());
    while i < incoming.modules.len()
        invariant
            ms == incoming@.modules,
            ms == module_views(incoming.modules@),
            i <= incoming.modules@.len(),
            fold_modules(agent, ms.take(i as int)) == Ok::<NormState, ConfigErrorView>(st@),
        decreases incoming.modules.len() - i,
    {
        let res = apply_module(agent, &mut st, &incoming.modules[i]);
        proof {
            lemma_take_last(ms, i as int);
            assert(ms[i as int] == incoming.modules@[i as int]@);
        }
        match res {
            Err(x) => {
                proof {
                    lemma_fold_modules_err(agent, ms, i + 1, x@);
                }
                return Err(x);
            },
            Ok(_) => {},
        }
        i = i + 1;
    }
    proof {
        assert(ms.take(ms.len() as int) =~= ms);
    }
    let ghost folded = st@;
    let pending = clone_pending(&st.pending);
    let flushed = flush_pending(agent, &mut st, &pending);
    match flushed {
        Err(x) => {
            return Err(x);
        },
        Ok(_) => {},
    }
    let ghost merged_state = st@;
    let mut sorted_mods: Vec<AgentPromptModuleConfig> = Vec::new();
    let mut source = st.mods;
    let ghost src_views = module_views(source@);
    let ghost mut k: int = 0;
    while source.len() > 0
        invariant
            0 <= k,
            src_views.len() == k + source@.len(),
            module_views(source@) == src_views.skip(k),
            sorted_mods@.len() == k,
            forall|t: int| 0 <= t < k ==> resorted_module(#[trigger] src_views[t], module_views(sorted_mods@)[t]),
        decreases source.len(),
    {
        let ghost sb = source@;
        let m = source.remove(0);
        proof {
            assert(m == sb[0]);
            assert(module_views(sb)[0] == sb[0]@);
            assert(module_views(source@) =~= module_views(sb).skip(1));
            assert(src_views.skip(k).skip(1) =~= src_views.skip(k + 1));
            assert(src_views[k] == m@);
        }
        let ghost mb = m@;
        let entries = sort_entries(m.entries);
        let ghost before = sorted_mods@;
        sorted_mods.push(
            AgentPromptModuleConfig {
                module_id: m.module_id,
                display_name: m.display_name,
                message_role: m.message_role,
                order: m.order,
                entries,
            },
        );
        proof {
            assert(sorted_mods@ =~= before.push(sorted_mods@.last()));
            assert(module_views(sorted_mods@)[k] == sorted_mods@[k]@);
            assert forall|t: int| 0 <= t < k + 1 implies resorted_module(
                #[trigger] src_views[t],
                module_views(sorted_mods@)[t],
            ) by {
                if t < k {
                    assert(module_views(sorted_mods@)[t] == module_views(before)[t]);
                }
            }
        }
        proof {
            k = k + 1;
        }
    }
    let ghost mid = module_views(sorted_mods@);
    let modules = sort_modules(sorted_mods);
    proof {
        assert(src_views == merged_state.mods);
        assert(mid.len() == merged_state.mods.len());
        assert(forall|t: int| 0 <= t < mid.len() ==> resorted_module(#[trigger] merged_state.mods[t], mid[t]));
    }
    Ok(AgentPresetConfig {
        temperature_bits: incoming.temperature_bits,
        max_tokens: incoming.max_tokens,
        director_shared_history_limit: incoming.director_shared_history_limit,
        actor_shared_history_limit: incoming.actor_shared_history_limit,
        actor_private_memory_limit: incoming.actor_private_memory_limit,
        narrator_shared_history_limit: incoming.narrator_shared_history_limit,
        replyer_session_history_limit: incoming.replyer_session_history_limit,
        extra_json: incoming.extra_json,
        modules,
    })
}

/// Copies the pending entries.
fn clone_pending(p: &Vec<PendingEntry>) -> (r: Vec<PendingEntry>)
    ensures
        pending_views(r@) == pending_views(p@),
{
    let mut out: Vec<PendingEntry> = Vec::new();
    let mut i: usize = 0;
    while i < p.len()
        invariant
            i <= p@.len(),
            pending_views(out@) =~= pending_views(p@.take(i as int)),
        decreases p.len() - i,
    {
        let ghost before = out@;
        out.push(p[i].duplicate());
        proof {
            assert(out@ =~= before.push(out@.last()));
            assert(p@.take(i + 1) =~= p@.take(i as int).push(p@[i as int]));
            assert(pending_views(p@.take(i + 1)) =~= pending_views(p@.take(i as int)).push(p@[i as int]@));
        }
        i = i + 1;
    }
    assert(p@.take(p@.len() as int) =~= p@);
    out
}

} // verus!
