//! Rendering compiled prompt previews against a context: texts are trimmed
//! and blank ones dropped, context references are replaced by their values
//! (or by a `<context:key>` placeholder when asked for), and the context keys
//! that had no value are reported once each, in order.
use vstd::prelude::*;

use crate::prompt::compile::{
    CompileSpecView, CompiledEntryView, PromptModuleEntry, agent_compile_spec, architect_compile_spec,
};
use crate::prompt::normalize::{NormState, merged, normalized_result};
use crate::prompt::preview::{
    all_orders_fit, compile_architect_prompt_module, compile_architect_prompt_preview_profile,
    compile_prompt_module, compile_prompt_preview_profile, module_preview_spec, preview_profile_spec,
};
use crate::prompt::types::{
    AgentPresetConfig, ArchitectPromptMode, ConfigErrorView, PresetView, PromptAgentKind,
    PromptConfigError, module_key_str,
};
use crate::prompt::preview::{
    CompiledPromptPreviewEntry, CompiledPromptPreviewModule, CompiledPromptPreviewProfile,
    PreviewEntryView, PreviewModuleView, PreviewProfileView, preview_entry_views,
    preview_module_views,
};
use crate::prompt::types::{
    ModuleKey, PromptEntryKind, PromptMessageRole, PromptModuleId, PromptPreviewEntrySource,
    PromptPreviewMessageRole,
};
use crate::text::{
    lemma_seq_lt_asym, lemma_seq_lt_total, lemma_seq_lt_trans, push_str, seq_lt, str_lt,
    string_of_chars, string_seq_views, text_is_blank, trim_seq, trim_text,
};
use crate::prompt::types::str_eq;
use crate::world::{PairView, StateValue, assoc_get, find_key, pair_views};

verus! {

/// One rendered entry of a preview.
#[derive(Debug)]
pub struct PromptPreviewEntry {
    pub entry_id: String,
    pub display_name: String,
    pub kind: PromptEntryKind,
    pub order: i32,
    pub source: PromptPreviewEntrySource,
    pub compiled_text: String,
}

/// The value of a rendered entry.
pub struct RenderedEntryView {
    pub entry_id: Seq<char>,
    pub display_name: Seq<char>,
    pub kind: PromptEntryKind,
    pub order: i32,
    pub source: PromptPreviewEntrySource,
    pub compiled_text: Seq<char>,
}

impl View for PromptPreviewEntry {
    type V = RenderedEntryView;

    open spec fn view(&self) -> RenderedEntryView {
        RenderedEntryView {
            entry_id: self.entry_id@,
            display_name: self.display_name@,
            kind: self.kind,
            order: self.order,
            source: self.source,
            compiled_text: self.compiled_text@,
        }
    }
}

/// The views of rendered entries.
pub open spec fn rendered_entry_views(v: Seq<PromptPreviewEntry>) -> Seq<RenderedEntryView> {
    v.map_values(|e: PromptPreviewEntry| e@)
}

/// One rendered module of a preview.
#[derive(Debug)]
pub struct PromptPreviewModule {
    pub module_id: PromptModuleId,
    pub display_name: String,
    pub order: i32,
    pub entries: Vec<PromptPreviewEntry>,
}

/// The value of a rendered module.
pub struct RenderedModuleView {
    pub module_id: ModuleKey,
    pub display_name: Seq<char>,
    pub order: i32,
    pub entries: Seq<RenderedEntryView>,
}

impl View for PromptPreviewModule {
    type V = RenderedModuleView;

    open spec fn view(&self) -> RenderedModuleView {
        RenderedModuleView {
            module_id: self.module_id@,
            display_name: self.display_name@,
            order: self.order,
            entries: rendered_entry_views(self.entries@),
        }
    }
}

/// The views of rendered modules.
pub open spec fn rendered_module_views(v: Seq<PromptPreviewModule>) -> Seq<RenderedModuleView> {
    v.map_values(|m: PromptPreviewModule| m@)
}

/// One message of a preview: a role and its modules.
#[derive(Debug)]
pub struct PromptPreviewMessage {
    pub role: PromptMessageRole,
    pub modules: Vec<PromptPreviewModule>,
}

/// The value of a preview message.
pub struct MessageView {
    pub role: PromptMessageRole,
    pub modules: Seq<RenderedModuleView>,
}

impl View for PromptPreviewMessage {
    type V = MessageView;

    open spec fn view(&self) -> MessageView {
        MessageView { role: self.role, modules: rendered_module_views(self.modules@) }
    }
}

/// A rendered preview.
#[derive(Debug)]
pub struct PromptPreview {
    pub message_role: PromptPreviewMessageRole,
    pub messages: Vec<PromptPreviewMessage>,
    pub unresolved_context_keys: Vec<String>,
}

/// The value of a preview.
pub struct PreviewView {
    pub message_role: PromptPreviewMessageRole,
    pub messages: Seq<MessageView>,
    pub unresolved_context_keys: Seq<Seq<char>>,
}

impl View for PromptPreview {
    type V = PreviewView;

    open spec fn view(&self) -> PreviewView {
        PreviewView {
            message_role: self.message_role,
            messages: self.messages@.map_values(|m: PromptPreviewMessage| m@),
            unresolved_context_keys: string_seq_views(self.unresolved_context_keys@),
        }
    }
}

/// The placeholder shown for a context key without a value.
pub open spec fn placeholder(k: Seq<char>) -> Seq<char> {
    "<context:"@ + k + ">"@
}

/// The text of an entry in a context: its trimmed text, or its context value
/// trimmed, or the placeholder for a key without value when placeholders are
/// asked for; nothing when that is blank or missing.
pub open spec fn entry_text(v: CompiledEntryView, include_placeholders: bool, ctx: Seq<PairView>) -> Option<
    Seq<char>,
> {
    match v {
        CompiledEntryView::Text(t) => if trim_seq(t).len() == 0 {
            None
        } else {
            Some(trim_seq(t))
        },
        CompiledEntryView::ContextRef(k) => match assoc_get(ctx, k) {
            Some(value) => if trim_seq(value).len() == 0 {
                None
            } else {
                Some(trim_seq(value))
            },
            None => if include_placeholders {
                Some(placeholder(k))
            } else {
                None
            },
        },
    }
}

/// The context key of an entry that has no value in the context.
pub open spec fn missing_key(v: CompiledEntryView, ctx: Seq<PairView>) -> Option<Seq<char>> {
    match v {
        CompiledEntryView::ContextRef(k) => if assoc_get(ctx, k) is None {
            Some(k)
        } else {
            None
        },
        _ => None,
    }
}

/// The rendered entries of a module, in order.
pub open spec fn rendered_entries(es: Seq<PreviewEntryView>, with_placeholders: bool, ctx: Seq<PairView>) -> Seq<
    RenderedEntryView,
>
    decreases es.len(),
{
    if es.len() == 0 {
        seq![]
    } else {
        let prev = rendered_entries(es.drop_last(), with_placeholders, ctx);
        let e = es.last();
        match entry_text(e.value, with_placeholders, ctx) {
            Some(t) => prev.push(
                RenderedEntryView {
                    entry_id: e.entry_id,
                    display_name: e.display_name,
                    kind: e.kind,
                    order: e.order,
                    source: e.source,
                    compiled_text: t,
                },
            ),
            None => prev,
        }
    }
}

/// The context keys without value that a list of entries refers to.
pub open spec fn missing_keys(es: Seq<PreviewEntryView>, ctx: Seq<PairView>) -> Set<Seq<char>>
    decreases es.len(),
{
    if es.len() == 0 {
        Set::empty()
    } else {
        let prev = missing_keys(es.drop_last(), ctx);
        match missing_key(es.last().value, ctx) {
            Some(k) => prev.insert(k),
            None => prev,
        }
    }
}

/// A rendered module, or nothing when no entry is left.
pub open spec fn rendered_module(m: PreviewModuleView, with_placeholders: bool, ctx: Seq<PairView>) -> Option<
    RenderedModuleView,
> {
    let es = rendered_entries(m.entries, with_placeholders, ctx);
    if es.len() == 0 {
        None
    } else {
        Some(
            RenderedModuleView {
                module_id: m.module_id,
                display_name: m.display_name,
                order: m.order,
                entries: es,
            },
        )
    }
}

/// The rendered modules of a list, in order.
pub open spec fn rendered_modules(ms: Seq<PreviewModuleView>, with_placeholders: bool, ctx: Seq<PairView>) -> Seq<
    RenderedModuleView,
>
    decreases ms.len(),
{
    if ms.len() == 0 {
        seq![]
    } else {
        let prev = rendered_modules(ms.drop_last(), with_placeholders, ctx);
        match rendered_module(ms.last(), with_placeholders, ctx) {
            Some(m) => prev.push(m),
            None => prev,
        }
    }
}

/// The context keys without value that a list of modules refers to.
pub open spec fn modules_missing_keys(ms: Seq<PreviewModuleView>, ctx: Seq<PairView>) -> Set<Seq<char>>
    decreases ms.len(),
{
    if ms.len() == 0 {
        Set::empty()
    } else {
        modules_missing_keys(ms.drop_last(), ctx).union(missing_keys(ms.last().entries, ctx))
    }
}

/// Strings in strictly increasing order.
pub open spec fn strictly_sorted(s: Seq<Seq<char>>) -> bool {
    forall|i: int, j: int| 0 <= i < j < s.len() ==> seq_lt(#[trigger] s[i], #[trigger] s[j])
}

/// A list of keys holds each key of `keys` once, in increasing order.
pub open spec fn lists_keys(s: Seq<Seq<char>>, keys: Set<Seq<char>>) -> bool {
    strictly_sorted(s) && s.to_set() == keys
}

/// Adds a key to a strictly sorted list of keys, unless it is there.
fn insert_key(keys: &mut Vec<String>, key: &String)
    requires
        strictly_sorted(string_seq_views(old(keys)@)),
    ensures
        strictly_sorted(string_seq_views(final(keys)@)),
        string_seq_views(final(keys)@).to_set() == string_seq_views(old(keys)@).to_set().insert(key@),
{
    let ghost kv = string_seq_views(keys@);
    let mut i: usize = 0;
    while i < keys.len() && str_lt(keys[i].as_str(), key.as_str())
        invariant
            kv == string_seq_views(keys@),
            i <= kv.len(),
            forall|j: int| 0 <= j < i ==> seq_lt(#[trigger] kv[j], key@),
        decreases keys.len() - i,
    {
        i = i + 1;
    }
    if i < keys.len() && str_eq(keys[i].as_str(), key.as_str()) {
        proof {
            assert(kv.to_set().contains(key@)) by {
                assert(kv[i as int] == key@);
            }
            assert(kv.to_set().insert(key@) =~= kv.to_set());
        }
        return;
    }
    proof {
        if i < kv.len() {
            lemma_seq_lt_total(kv[i as int], key@);
            assert(kv[i as int] == keys@[i as int]@);
        }
    }
    keys.insert(i, key.clone());
    let ghost nv = string_seq_views(keys@);
    proof {
        assert(nv =~= kv.insert(i as int, key@));
        assert forall|a: int, b: int| 0 <= a < b < nv.len() implies seq_lt(#[trigger] nv[a], #[trigger] nv[b]) by {
            if b < i {
                assert(nv[a] == kv[a] && nv[b] == kv[b]);
            } else if b == i {
                assert(nv[a] == kv[a]);
            } else if a == i {
                assert(nv[b] == kv[b - 1]);
                if b - 1 > i {
                    assert(seq_lt(kv[i as int], kv[b - 1]));
                    lemma_seq_lt_trans(key@, kv[i as int], kv[b - 1]);
                }
            } else if a < i {
                assert(nv[a] == kv[a]);
                assert(nv[b] == kv[b - 1]);
            } else {
                assert(nv[a] == kv[a - 1]);
                assert(nv[b] == kv[b - 1]);
            }
        }
        assert(nv.to_set() =~= kv.to_set().insert(key@)) by {
            assert forall|x: Seq<char>| nv.to_set().contains(x) implies kv.to_set().insert(key@).contains(x) by {
                let j = choose|j: int| 0 <= j < nv.len() && nv[j] == x;
                if j < i {
                    assert(kv[j] == x);
                } else if j > i {
                    assert(kv[j - 1] == x);
                }
            }
            assert forall|x: Seq<char>| kv.to_set().insert(key@).contains(x) implies nv.to_set().contains(x) by {
                if x == key@ {
                    assert(nv[i as int] == x);
                } else {
                    let j = choose|j: int| 0 <= j < kv.len() && kv[j] == x;
                    if j < i {
                        assert(nv[j] == x);
                    } else {
                        assert(nv[j + 1] == x);
                    }
                }
            }
        }
    }
}

/// Renders the entries of a module, adding the keys without value to `keys`.
fn render_entries(
    module: &CompiledPromptPreviewModule,
    include_placeholders: bool,
    context: &Vec<StateValue>,
    keys: &mut Vec<String>,
) -> (r: Vec<PromptPreviewEntry>)
    requires
        strictly_sorted(string_seq_views(old(keys)@)),
    ensures
        rendered_entry_views(r@) == rendered_entries(module@.entries, include_placeholders, pair_views(context@)),
        strictly_sorted(string_seq_views(final(keys)@)),
        string_seq_views(final(keys)@).to_set() == string_seq_views(old(keys)@).to_set().union(
            missing_keys(module@.entries, pair_views(context@)),
        ),
{
    let ghost es = module@.entries;
    let ghost ctx = pair_views(context@);
    let ghost start = string_seq_views(keys@).to_set();
    let mut out: Vec<PromptPreviewEntry> = Vec::new();
    let mut i: usize = 0;
    while i < module.entries.len()
        invariant
            es == preview_entry_views(module.entries@),
            ctx == pair_views(context@),
            i <= es.len(),
            rendered_entry_views(out@) == rendered_entries(es.take(i as int), include_placeholders, ctx),
            strictly_sorted(string_seq_views(keys@)),
            string_seq_views(keys@).to_set() == start.union(missing_keys(es.take(i as int), ctx)),
        decreases module.entries.len() - i,
    {
        proof {
            assert(es.take(i + 1).drop_last() =~= es.take(i as int));
            assert(es.take(i + 1).last() == module.entries@[i as int]@);
        }
        let e = &module.entries[i];
        let text: Option<String> = match &e.value {
            PromptModuleEntry::Text(t) => {
                proof {
                    crate::text::lemma_trim_empty_iff_blank(t@);
                }
                if text_is_blank(t.as_str()) {
                    None
                } else {
                    Some(trim_text(t.as_str()))
                }
            },
            PromptModuleEntry::ContextRef(k) => match find_key(context, k.as_str()) {
                Some(j) => {
                    assert(ctx[j as int] == context@[j as int]@);
                    let value = &context[j].value_json;
                    proof {
                        crate::text::lemma_trim_empty_iff_blank(value@);
                    }
                    if text_is_blank(value.as_str()) {
                        None
                    } else {
                        Some(trim_text(value.as_str()))
                    }
                },
                None => {
                    let ghost before = string_seq_views(keys@).to_set();
                    insert_key(keys, k);
                    if include_placeholders {
                        let mut v: Vec<char> = Vec::new();
                        push_str(&mut v, "<context:");
                        push_str(&mut v, k.as_str());
                        push_str(&mut v, ">");
                        Some(string_of_chars(v.as_slice()))
                    } else {
                        None
                    }
                },
            },
        };
        proof {
            assert(string_seq_views(keys@).to_set() =~= start.union(missing_keys(es.take(i + 1), ctx)));
        }
        match text {
            Some(t) => {
                let ghost before = out@;
                out.push(
                    PromptPreviewEntry {
                        entry_id: e.entry_id.clone(),
                        display_name: e.display_name.clone(),
                        kind: e.kind,
                        order: e.order,
                        source: e.source,
                        compiled_text: t,
                    },
                );
                proof {
                    assert(out@ =~= before.push(out@.last()));
                    assert(rendered_entry_views(out@) =~= rendered_entry_views(before).push(out@.last()@));
                }
            },
            None => {},
        }
        i = i + 1;
    }
    proof {
        assert(es.take(es.len() as int) =~= es);
    }
    out
}

/// Renders a module; nothing when no entry is left. Keys without value are
/// added to `keys`.
fn render_module(
    module: &CompiledPromptPreviewModule,
    include_placeholders: bool,
    context: &Vec<StateValue>,
    keys: &mut Vec<String>,
) -> (r: Option<PromptPreviewModule>)
    requires
        strictly_sorted(string_seq_views(old(keys)@)),
    ensures
        match r {
            Some(m) => rendered_module(module@, include_placeholders, pair_views(context@)) == Some(m@),
            None => rendered_module(module@, include_placeholders, pair_views(context@)) is None,
        },
        strictly_sorted(string_seq_views(final(keys)@)),
        string_seq_views(final(keys)@).to_set() == string_seq_views(old(keys)@).to_set().union(
            missing_keys(module@.entries, pair_views(context@)),
        ),
{
    let entries = render_entries(module, include_placeholders, context, keys);
    if entries.len() == 0 {
        return None;
    }
    Some(
        PromptPreviewModule {
            module_id: module.module_id.duplicate(),
            display_name: module.display_name.clone(),
            order: module.order,
            entries,
        },
    )
}

/// Renders modules, dropping those with no entry left. Keys without value
/// are added to `keys`.
fn render_modules(
    modules: &Vec<CompiledPromptPreviewModule>,
    include_placeholders: bool,
    context: &Vec<StateValue>,
    keys: &mut Vec<String>,
) -> (r: Vec<PromptPreviewModule>)
    requires
        strictly_sorted(string_seq_views(old(keys)@)),
    ensures
        rendered_module_views(r@) == rendered_modules(
            preview_module_views(modules@),
            include_placeholders,
            pair_views(context@),
        ),
        strictly_sorted(string_seq_views(final(keys)@)),
        string_seq_views(final(keys)@).to_set() == string_seq_views(old(keys)@).to_set().union(
            modules_missing_keys(preview_module_views(modules@), pair_views(context@)),
        ),
{
    let ghost ms = preview_module_views(modules@);
    let ghost ctx = pair_views(context@);
    let ghost start = string_seq_views(keys@).to_set();
    let mut out: Vec<PromptPreviewModule> = Vec::new();
    let mut i: usize = 0;
    while i < modules.len()
        invariant
            ms == preview_module_views(modules@),
            ctx == pair_views(context@),
            i <= ms.len(),
            rendered_module_views(out@) == rendered_modules(ms.take(i as int), include_placeholders, ctx),
            strictly_sorted(string_seq_views(keys@)),
            string_seq_views(keys@).to_set() == start.union(modules_missing_keys(ms.take(i as int), ctx)),
        decreases modules.len() - i,
    {
        proof {
            assert(ms.take(i + 1).drop_last() =~= ms.take(i as int));
            assert(ms.take(i + 1).last() == modules@[i as int]@);
        }
        let ghost before_keys = string_seq_views(keys@).to_set();
        match render_module(&modules[i], include_placeholders, context, keys) {
            Some(m) => {
                let ghost before = out@;
                out.push(m);
                proof {
                    assert(out@ =~= before.push(out@.last()));
                    assert(rendered_module_views(out@) =~= rendered_module_views(before).push(out@.last()@));
                }
            },
            None => {},
        }
        proof {
            assert(string_seq_views(keys@).to_set() =~= start.union(modules_missing_keys(ms.take(i + 1), ctx)));
        }
        i = i + 1;
    }
    proof {
        assert(ms.take(ms.len() as int) =~= ms);
    }
    out
}

/// The messages of a full preview: the system modules, then the user modules,
/// each as a message when it has modules.
pub open spec fn full_messages(system: Seq<RenderedModuleView>, user: Seq<RenderedModuleView>) -> Seq<
    MessageView,
> {
    let s: Seq<MessageView> = if system.len() > 0 {
        seq![MessageView { role: PromptMessageRole::System, modules: system }]
    } else {
        seq![]
    };
    let u: Seq<MessageView> = if user.len() > 0 {
        seq![MessageView { role: PromptMessageRole::User, modules: user }]
    } else {
        seq![]
    };
    s + u
}

/// A full preview rendered in a context: its system and user messages, and
/// each context key without value once, in increasing order.
pub open spec fn profile_rendered(
    r: PreviewView,
    profile: PreviewProfileView,
    with_placeholders: bool,
    ctx: Seq<PairView>,
) -> bool {
    &&& r.message_role == PromptPreviewMessageRole::Full
    &&& r.messages == full_messages(
        rendered_modules(profile.system_modules, with_placeholders, ctx),
        rendered_modules(profile.user_modules, with_placeholders, ctx),
    )
    &&& lists_keys(
        r.unresolved_context_keys,
        modules_missing_keys(profile.system_modules, ctx).union(modules_missing_keys(profile.user_modules, ctx)),
    )
}

/// One module rendered in a context, as a message with the given role when
/// it has entries left, with its context keys without value.
pub open spec fn module_rendered(
    r: PreviewView,
    role: PromptMessageRole,
    module: Option<PreviewModuleView>,
    with_placeholders: bool,
    ctx: Seq<PairView>,
) -> bool {
    &&& r.message_role == match role {
        PromptMessageRole::System => PromptPreviewMessageRole::System,
        PromptMessageRole::User => PromptPreviewMessageRole::User,
    }
    &&& r.messages == match module {
        Some(m) => match rendered_module(m, with_placeholders, ctx) {
            Some(rm) => seq![MessageView { role: role, modules: seq![rm] }],
            None => seq![],
        },
        None => seq![],
    }
    &&& lists_keys(
        r.unresolved_context_keys,
        match module {
            Some(m) => missing_keys(m.entries, ctx),
            None => Set::empty(),
        },
    )
}

/// Renders a full compiled preview in a context: its system and user
/// messages, and each context key without value once, in increasing order.
pub fn render_profile_preview(
    profile: &CompiledPromptPreviewProfile,
    include_placeholders: bool,
    context: &Vec<StateValue>,
) -> (r: PromptPreview)
    ensures
        profile_rendered(r@, profile@, include_placeholders, pair_views(context@)),
{
    let mut keys: Vec<String> = Vec::new();
    proof {
        assert(string_seq_views(keys@).to_set() =~= Set::<Seq<char>>::empty());
    }
    let system = render_modules(&profile.system_modules, include_placeholders, context, &mut keys);
    let user = render_modules(&profile.user_modules, include_placeholders, context, &mut keys);
    let ghost sv = rendered_module_views(system@);
    let ghost uv = rendered_module_views(user@);
    let mut messages: Vec<PromptPreviewMessage> = Vec::new();
    if system.len() > 0 {
        messages.push(PromptPreviewMessage { role: PromptMessageRole::System, modules: system });
    }
    if user.len() > 0 {
        messages.push(PromptPreviewMessage { role: PromptMessageRole::User, modules: user });
    }
    proof {
        assert(messages@.map_values(|m: PromptPreviewMessage| m@) =~= full_messages(sv, uv));
        assert(Set::<Seq<char>>::empty().union(
            modules_missing_keys(profile@.system_modules, pair_views(context@)),
        ).union(modules_missing_keys(profile@.user_modules, pair_views(context@))) =~= modules_missing_keys(
            profile@.system_modules,
            pair_views(context@),
        ).union(modules_missing_keys(profile@.user_modules, pair_views(context@))));
    }
    PromptPreview {
        message_role: PromptPreviewMessageRole::Full,
        messages,
        unresolved_context_keys: keys,
    }
}

/// Renders one compiled module in a context, as a message with the given
/// role when the module has entries left.
pub fn render_module_preview(
    message_role: PromptMessageRole,
    module: Option<&CompiledPromptPreviewModule>,
    include_placeholders: bool,
    context: &Vec<StateValue>,
) -> (r: PromptPreview)
    ensures
        module_rendered(
            r@,
            message_role,
            match module {
                Some(m) => Some(m@),
                None => None,
            },
            include_placeholders,
            pair_views(context@),
        ),
{
    let mut keys: Vec<String> = Vec::new();
    proof {
        assert(string_seq_views(keys@).to_set() =~= Set::<Seq<char>>::empty());
    }
    let mut messages: Vec<PromptPreviewMessage> = Vec::new();
    match module {
        Some(m) => {
            match render_module(m, include_placeholders, context, &mut keys) {
                Some(rm) => {
                    let mut modules: Vec<PromptPreviewModule> = Vec::new();
                    modules.push(rm);
                    messages.push(PromptPreviewMessage { role: message_role, modules });
                    proof {
                        assert(rendered_module_views(messages@[0].modules@) =~= seq![messages@[0].modules@[0]@]);
                        assert(messages@.map_values(|m: PromptPreviewMessage| m@) =~= seq![messages@[0]@]);
                    }
                },
                None => {
                    assert(messages@.map_values(|m: PromptPreviewMessage| m@) =~= Seq::<MessageView>::empty());
                },
            }
            proof {
                assert(Set::<Seq<char>>::empty().union(missing_keys(m@.entries, pair_views(context@)))
                    =~= missing_keys(m@.entries, pair_views(context@)));
            }
        },
        None => {
            assert(messages@.map_values(|m: PromptPreviewMessage| m@) =~= Seq::<MessageView>::empty());
        },
    }
    PromptPreview {
        message_role: match message_role {
            PromptMessageRole::System => PromptPreviewMessageRole::System,
            PromptMessageRole::User => PromptPreviewMessageRole::User,
        },
        messages,
        unresolved_context_keys: keys,
    }
}

/// Why a prompt preview could not be rendered from a preset.
#[derive(Debug)]
pub enum PreviewError {
    Config(PromptConfigError),
    ModuleUnavailable { module: String, agent: PromptAgentKind },
    OrderOverflow,
}

/// The compilation spec a preview of `agent` uses: the architect's follows
/// its mode (the graph mode by default).
pub open spec fn preview_spec_for(agent: PromptAgentKind, mode: Option<ArchitectPromptMode>) -> CompileSpecView {
    if agent == PromptAgentKind::Architect {
        architect_compile_spec(
            match mode {
                Some(m) => m,
                None => ArchitectPromptMode::Graph,
            },
        )
    } else {
        agent_compile_spec(agent)
    }
}

/// Renders the preview of a preset in a context: the whole profile, or one
/// module of it when `module_id` is given.
pub fn render_preview_from_config(
    config: &AgentPresetConfig,
    agent: PromptAgentKind,
    module_id: Option<&PromptModuleId>,
    architect_mode: Option<ArchitectPromptMode>,
    include_placeholders: bool,
    context: &Vec<StateValue>,
) -> (r: Result<PromptPreview, PreviewError>)
    ensures
        match r {
            Ok(p) => exists|n: PresetView|
                #[trigger] normalized_result(agent, config@, n) && all_orders_fit(
                    n,
                    preview_spec_for(agent, architect_mode),
                ) && match module_id {
                    Some(id) => module_preview_spec(n.modules, id@, preview_spec_for(agent, architect_mode))
                        matches Some(mp) && module_rendered(
                        p@,
                        mp.0,
                        mp.1,
                        include_placeholders,
                        pair_views(context@),
                    ),
                    None => profile_rendered(
                        p@,
                        preview_profile_spec(n, preview_spec_for(agent, architect_mode)),
                        include_placeholders,
                        pair_views(context@),
                    ),
                },
            Err(PreviewError::Config(e)) => merged(agent, config@) == Err::<NormState, ConfigErrorView>(e@),
            Err(PreviewError::OrderOverflow) => module_id is None && exists|n: PresetView|
                #[trigger] normalized_result(agent, config@, n) && !all_orders_fit(
                    n,
                    preview_spec_for(agent, architect_mode),
                ),
            Err(PreviewError::ModuleUnavailable { module, agent: a }) => module_id matches Some(id) && a
                == agent && module@ == module_key_str(id@) && exists|n: PresetView|
                #[trigger] normalized_result(agent, config@, n) && (!all_orders_fit(
                    n,
                    preview_spec_for(agent, architect_mode),
                ) || module_preview_spec(n.modules, id@, preview_spec_for(agent, architect_mode)) is None),
        },
{
    let mode = match architect_mode {
        Some(m) => m,
        None => ArchitectPromptMode::Graph,
    };
    match module_id {
        Some(id) => {
            let compiled = if agent == PromptAgentKind::Architect {
                compile_architect_prompt_module(config, mode, id)
            } else {
                compile_prompt_module(agent, config, id)
            };
            match compiled {
                Err(e) => Err(PreviewError::Config(e)),
                Ok(None) => Err(
                    PreviewError::ModuleUnavailable { module: id.as_str().to_string(), agent },
                ),
                Ok(Some(mp)) => {
                    let p = render_module_preview(
                        mp.message_role,
                        match &mp.module {
                            Some(m) => Some(m),
                            None => None,
                        },
                        include_placeholders,
                        context,
                    );
                    Ok(p)
                },
            }
        },
        None => {
            let compiled = if agent == PromptAgentKind::Architect {
                compile_architect_prompt_preview_profile(config, mode)
            } else {
                compile_prompt_preview_profile(agent, config)
            };
            match compiled {
                Err(e) => Err(PreviewError::Config(e)),
                Ok(None) => Err(PreviewError::OrderOverflow),
                Ok(Some(profile)) => Ok(render_profile_preview(&profile, include_placeholders, context)),
            }
        },
    }
}

/// The messages of a full preview carry every rendered module once, system
/// modules first: there is a system message exactly when some system module
/// renders, holding those modules, and a user message exactly when some
/// user module renders, holding those modules, after the system message.
pub proof fn lemma_full_messages_hold_all_modules(system: Seq<RenderedModuleView>, user: Seq<RenderedModuleView>)
    ensures
        ({
            let ms = full_messages(system, user);
            &&& ms.len() == (if system.len() > 0 { 1int } else { 0 }) + (if user.len() > 0 { 1int } else { 0 })
            &&& (exists|i: int| 0 <= i < ms.len() && (#[trigger] ms[i]).role == PromptMessageRole::User) <==> user.len()
                > 0
            &&& (exists|i: int| 0 <= i < ms.len() && (#[trigger] ms[i]).role == PromptMessageRole::System)
                <==> system.len() > 0
            &&& forall|i: int|
                0 <= i < ms.len() ==> (#[trigger] ms[i]).modules == if ms[i].role == PromptMessageRole::System {
                    system
                } else {
                    user
                }
            &&& user.len() > 0 ==> ms.last() == (MessageView { role: PromptMessageRole::User, modules: user })
            &&& system.len() > 0 ==> ms[0] == (MessageView { role: PromptMessageRole::System, modules: system })
        }),
{
    let ms = full_messages(system, user);
    if user.len() > 0 {
        assert(ms[ms.len() - 1].role == PromptMessageRole::User);
    }
    if system.len() > 0 {
        assert(ms[0].role == PromptMessageRole::System);
    }
}

/// A full preview has a user message exactly when some user module of the
/// profile renders to an entry, and that message is its last, holding the
/// rendered user modules; likewise its first message holds the rendered
/// system modules when some render.
pub proof fn lemma_full_preview_messages(
    r: PreviewView,
    profile: PreviewProfileView,
    with_placeholders: bool,
    ctx: Seq<PairView>,
)
    requires
        profile_rendered(r, profile, with_placeholders, ctx),
    ensures
        ({
            let sys = rendered_modules(profile.system_modules, with_placeholders, ctx);
            let usr = rendered_modules(profile.user_modules, with_placeholders, ctx);
            &&& (exists|i: int| 0 <= i < r.messages.len() && (#[trigger] r.messages[i]).role == PromptMessageRole::User)
                <==> usr.len() > 0
            &&& usr.len() > 0 ==> r.messages.last() == (MessageView { role: PromptMessageRole::User, modules: usr })
            &&& sys.len() > 0 ==> r.messages[0] == (MessageView { role: PromptMessageRole::System, modules: sys })
            &&& r.messages.len() == (if sys.len() > 0 { 1int } else { 0 }) + (if usr.len() > 0 { 1int } else { 0 })
        }),
{
    lemma_full_messages_hold_all_modules(
        rendered_modules(profile.system_modules, with_placeholders, ctx),
        rendered_modules(profile.user_modules, with_placeholders, ctx),
    );
}

/// A module's entries render to something exactly when one of its entries
/// has text in the context (with placeholders, every context reference has).
pub proof fn lemma_rendered_entries_nonempty(es: Seq<PreviewEntryView>, with_placeholders: bool, ctx: Seq<PairView>)
    ensures
        rendered_entries(es, with_placeholders, ctx).len() > 0 <==> exists|i: int|
            0 <= i < es.len() && #[trigger] entry_text(es[i].value, with_placeholders, ctx) is Some,
        rendered_entries(es, with_placeholders, ctx).len() <= es.len(),
    decreases es.len(),
{
    if es.len() > 0 {
        let d = es.drop_last();
        lemma_rendered_entries_nonempty(d, with_placeholders, ctx);
        if exists|i: int| 0 <= i < d.len() && #[trigger] entry_text(d[i].value, with_placeholders, ctx) is Some {
            let i = choose|i: int| 0 <= i < d.len() && #[trigger] entry_text(d[i].value, with_placeholders, ctx) is Some;
            assert(es[i] == d[i]);
        }
        if exists|i: int| 0 <= i < es.len() && #[trigger] entry_text(es[i].value, with_placeholders, ctx) is Some {
            let i = choose|i: int| 0 <= i < es.len() && #[trigger] entry_text(es[i].value, with_placeholders, ctx) is Some;
            if i < d.len() {
                assert(es[i] == d[i]);
            } else {
                assert(es[i] == es.last());
            }
        }
    }
}

/// The rendered modules of a list are not empty exactly when one of its
/// modules has an entry with text in the context.
pub proof fn lemma_rendered_modules_nonempty(ms: Seq<PreviewModuleView>, with_placeholders: bool, ctx: Seq<PairView>)
    ensures
        rendered_modules(ms, with_placeholders, ctx).len() > 0 <==> exists|i: int|
            0 <= i < ms.len() && #[trigger] rendered_entries(ms[i].entries, with_placeholders, ctx).len() > 0,
    decreases ms.len(),
{
    if ms.len() > 0 {
        let d = ms.drop_last();
        lemma_rendered_modules_nonempty(d, with_placeholders, ctx);
        if exists|i: int| 0 <= i < d.len() && #[trigger] rendered_entries(d[i].entries, with_placeholders, ctx).len() > 0 {
            let i = choose|i: int| 0 <= i < d.len() && #[trigger] rendered_entries(d[i].entries, with_placeholders, ctx).len() > 0;
            assert(ms[i] == d[i]);
        }
        if exists|i: int| 0 <= i < ms.len() && #[trigger] rendered_entries(ms[i].entries, with_placeholders, ctx).len() > 0 {
            let i = choose|i: int| 0 <= i < ms.len() && #[trigger] rendered_entries(ms[i].entries, with_placeholders, ctx).len() > 0;
            if i < d.len() {
                assert(ms[i] == d[i]);
            } else {
                assert(ms[i] == ms.last());
            }
        }
    }
}

/// A full preview has a user message exactly when one of the profile's user
/// modules has an entry with text in the context (a context reference
/// always has one when placeholders are shown).
pub proof fn lemma_user_message_when_user_entry_renders(
    r: PreviewView,
    profile: PreviewProfileView,
    with_placeholders: bool,
    ctx: Seq<PairView>,
)
    requires
        profile_rendered(r, profile, with_placeholders, ctx),
    ensures
        (exists|i: int| 0 <= i < r.messages.len() && (#[trigger] r.messages[i]).role == PromptMessageRole::User) <==> exists|
            m: int,
            k: int,
        |
            0 <= m < profile.user_modules.len() && 0 <= k < profile.user_modules[m].entries.len()
                && #[trigger] entry_text(profile.user_modules[m].entries[k].value, with_placeholders, ctx) is Some,
{
    let us = profile.user_modules;
    lemma_full_preview_messages(r, profile, with_placeholders, ctx);
    lemma_rendered_modules_nonempty(us, with_placeholders, ctx);
    assert forall|m: int| 0 <= m < us.len() implies (#[trigger] rendered_entries(us[m].entries, with_placeholders, ctx).len()
        > 0 <==> exists|k: int|
        0 <= k < us[m].entries.len() && #[trigger] entry_text(us[m].entries[k].value, with_placeholders, ctx) is Some) by {
        lemma_rendered_entries_nonempty(us[m].entries, with_placeholders, ctx);
    }
    if exists|m: int, k: int|
        0 <= m < us.len() && 0 <= k < us[m].entries.len()
            && #[trigger] entry_text(us[m].entries[k].value, with_placeholders, ctx) is Some {
        let (m, k) = choose|m: int, k: int|
            0 <= m < us.len() && 0 <= k < us[m].entries.len()
                && #[trigger] entry_text(us[m].entries[k].value, with_placeholders, ctx) is Some;
        assert(rendered_entries(us[m].entries, with_placeholders, ctx).len() > 0);
    }
    if rendered_modules(us, with_placeholders, ctx).len() > 0 {
        let m = choose|m: int| 0 <= m < us.len() && #[trigger] rendered_entries(us[m].entries, with_placeholders, ctx).len() > 0;
        assert(exists|k: int|
            0 <= k < us[m].entries.len() && #[trigger] entry_text(us[m].entries[k].value, with_placeholders, ctx) is Some);
        let k = choose|k: int|
            0 <= k < us[m].entries.len() && #[trigger] entry_text(us[m].entries[k].value, with_placeholders, ctx) is Some;
        assert(entry_text(us[m].entries[k].value, with_placeholders, ctx) is Some);
    }
}

} // verus!
