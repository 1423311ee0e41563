//! The default preset of each agent, built from its entry templates.
use vstd::prelude::*;

use crate::prompt::templates::{
    agent_templates, builtin_key, template_views, templates_for_agent, BuiltInEntryTemplate,
    BuiltinModule, TemplateView,
};
use crate::prompt::types::{
    entry_views, module_views, AgentPresetConfig, AgentPromptModuleConfig,
    AgentPromptModuleEntryConfig, EntryView, ModuleView, PresetView, PromptAgentKind,
    PromptMessageRole, PromptModuleId,
};
use crate::text::{string_of_chars, str_chars, trim_chars, trim_seq};

verus! {

/// The display name of a built-in module.
pub open spec fn builtin_module_name(m: BuiltinModule) -> Seq<char> {
    match m {
        BuiltinModule::Role => "Role"@,
        BuiltinModule::Task => "Task"@,
        BuiltinModule::StaticContext => "Static Context"@,
        BuiltinModule::DynamicContext => "Dynamic Context"@,
        BuiltinModule::Output => "Output"@,
    }
}

/// The message role of a built-in module.
pub open spec fn builtin_module_role(m: BuiltinModule) -> PromptMessageRole {
    match m {
        BuiltinModule::Role => PromptMessageRole::System,
        BuiltinModule::Task => PromptMessageRole::System,
        BuiltinModule::StaticContext => PromptMessageRole::User,
        BuiltinModule::DynamicContext => PromptMessageRole::User,
        BuiltinModule::Output => PromptMessageRole::System,
    }
}

/// The order of a built-in module.
pub open spec fn builtin_module_order(m: BuiltinModule) -> i32 {
    match m {
        BuiltinModule::Role => 10,
        BuiltinModule::Task => 20,
        BuiltinModule::StaticContext => 30,
        BuiltinModule::DynamicContext => 40,
        BuiltinModule::Output => 50,
    }
}

/// The built-in modules in their default order.
pub open spec fn builtin_modules() -> Seq<BuiltinModule> {
    seq![
        BuiltinModule::Role,
        BuiltinModule::Task,
        BuiltinModule::StaticContext,
        BuiltinModule::DynamicContext,
        BuiltinModule::Output,
    ]
}

/// The preset entry a template stands for: enabled, with the template's data.
pub open spec fn entry_from_template(t: TemplateView) -> EntryView {
    EntryView {
        entry_id: t.entry_id,
        display_name: t.display_name,
        kind: t.kind,
        enabled: true,
        order: t.order,
        required: t.required,
        text: t.text,
        context_key: t.context_key,
    }
}

/// The templates of an agent that belong to module `m`, in template order.
pub open spec fn templates_in(agent: PromptAgentKind, m: BuiltinModule) -> Seq<TemplateView> {
    agent_templates(agent).filter(in_module(m))
}

/// Whether a template belongs to module `m`.
pub open spec fn in_module(m: BuiltinModule) -> spec_fn(TemplateView) -> bool {
    |t: TemplateView| t.module == m
}

/// The default content of built-in module `m` for an agent.
pub open spec fn default_module(agent: PromptAgentKind, m: BuiltinModule) -> ModuleView {
    ModuleView {
        module_id: builtin_key(m),
        display_name: builtin_module_name(m),
        message_role: builtin_module_role(m),
        order: builtin_module_order(m),
        entries: templates_in(agent, m).map_values(|t: TemplateView| entry_from_template(t)),
    }
}

/// The default preset of an agent: no model options, and the five built-in
/// modules with the agent's templates.
pub open spec fn default_preset(agent: PromptAgentKind) -> PresetView {
    PresetView {
        temperature_bits: None,
        max_tokens: None,
        director_shared_history_limit: None,
        actor_shared_history_limit: None,
        actor_private_memory_limit: None,
        narrator_shared_history_limit: None,
        replyer_session_history_limit: None,
        extra_json: None,
        modules: builtin_modules().map_values(|m: BuiltinModule| default_module(agent, m)),
    }
}

/// The metadata of a built-in module.
pub struct BuiltInModuleTemplate {
    pub module: BuiltinModule,
    pub display_name: &'static str,
    pub message_role: PromptMessageRole,
    pub order: i32,
}

/// The five built-in modules with their names, roles and orders.
pub fn built_in_module_templates() -> (v: Vec<BuiltInModuleTemplate>)
    ensures
        v@.len() == 5,
        forall|i: int|
            0 <= i < 5 ==> {
                &&& (#[trigger] v@[i]).module == builtin_modules()[i]
                &&& v@[i].display_name@ == builtin_module_name(builtin_modules()[i])
                &&& v@[i].message_role == builtin_module_role(builtin_modules()[i])
                &&& v@[i].order == builtin_module_order(builtin_modules()[i])
            },
{
    let mut v: Vec<BuiltInModuleTemplate> = Vec::new();
    v.push(
        BuiltInModuleTemplate {
            module: BuiltinModule::Role,
            display_name: "Role",
            message_role: PromptMessageRole::System,
            order: 10,
        },
    );
    v.push(
        BuiltInModuleTemplate {
            module: BuiltinModule::Task,
            display_name: "Task",
            message_role: PromptMessageRole::System,
            order: 20,
        },
    );
    v.push(
        BuiltInModuleTemplate {
            module: BuiltinModule::StaticContext,
            display_name: "Static Context",
            message_role: PromptMessageRole::User,
            order: 30,
        },
    );
    v.push(
        BuiltInModuleTemplate {
            module: BuiltinModule::DynamicContext,
            display_name: "Dynamic Context",
            message_role: PromptMessageRole::User,
            order: 40,
        },
    );
    v.push(
        BuiltInModuleTemplate {
            module: BuiltinModule::Output,
            display_name: "Output",
            message_role: PromptMessageRole::System,
            order: 50,
        },
    );
    v
}

/// The module identifier of a built-in module.
pub fn builtin_module_id(m: BuiltinModule) -> (id: PromptModuleId)
    ensures
        id@ == builtin_key(m),
{
    match m {
        BuiltinModule::Role => PromptModuleId::Role,
        BuiltinModule::Task => PromptModuleId::Task,
        BuiltinModule::StaticContext => PromptModuleId::StaticContext,
        BuiltinModule::DynamicContext => PromptModuleId::DynamicContext,
        BuiltinModule::Output => PromptModuleId::Output,
    }
}

/// Copies an optional static string.
fn opt_static_to_owned(s: Option<&'static str>) -> (r: Option<String>)
    ensures
        crate::prompt::types::opt_view(r) == crate::prompt::templates::opt_str_view(s),
{
    match s {
        Some(t) => Some(t.to_owned()),
        None => None,
    }
}

/// The preset entry a template stands for.
pub fn config_entry_from_template(template: &BuiltInEntryTemplate) -> (e: AgentPromptModuleEntryConfig)
    ensures
        e@ == entry_from_template(template@),
{
    AgentPromptModuleEntryConfig {
        entry_id: template.entry_id.to_owned(),
        display_name: template.display_name.to_owned(),
        kind: template.kind,
        enabled: true,
        order: template.order,
        required: template.required,
        text: opt_static_to_owned(template.text),
        context_key: opt_static_to_owned(template.context_key),
    }
}

/// The display name to use: the trimmed name, or the trimmed fallback when the
/// name is blank.
pub open spec fn fallback_name(display_name: Seq<char>, fallback: Seq<char>) -> Seq<char> {
    if trim_seq(display_name).len() == 0 {
        trim_seq(fallback)
    } else {
        trim_seq(display_name)
    }
}

/// Trims a display name and falls back to the trimmed `fallback` when it is
/// blank.
pub fn fallback_display_name(display_name: &str, fallback: &str) -> (r: String)
    ensures
        r@ == fallback_name(display_name@, fallback@),
{
    let d = str_chars(display_name);
    let trimmed = trim_chars(d.as_slice());
    if trimmed.len() == 0 {
        let f = str_chars(fallback);
        let t = trim_chars(f.as_slice());
        string_of_chars(t.as_slice())
    } else {
        string_of_chars(trimmed.as_slice())
    }
}

/// The entries of module `m` built from an agent's templates.
fn module_entries(
    templates: &Vec<BuiltInEntryTemplate>,
    agent: PromptAgentKind,
    m: BuiltinModule,
) -> (v: Vec<AgentPromptModuleEntryConfig>)
    requires
        template_views(templates@) == agent_templates(agent),
    ensures
        entry_views(v@) == default_module(agent, m).entries,
{
    let ghost pred = in_module(m);
    let ghost f = |t: TemplateView| entry_from_template(t);
    let ghost tv = template_views(templates@);
    let mut out: Vec<AgentPromptModuleEntryConfig> = Vec::new();
    let mut i: usize = 0;
    while i < templates.len()
        invariant
            tv == template_views(templates@),
            tv == agent_templates(agent),
            pred == in_module(m),
            f == (|t: TemplateView| entry_from_template(t)),
            i <= templates@.len(),
            entry_views(out@) == tv.take(i as int).filter(pred).map_values(f),
        decreases templates.len() - i,
    {
        let ghost before = out@;
        proof {
            assert(tv.take(i + 1) =~= tv.take(i as int).push(tv[i as int]));
            tv.take(i as int).lemma_filter_push(tv[i as int], pred);
            assert(tv[i as int] == templates@[i as int]@);
            assert(tv[i as int].module == templates@[i as int].module);
            assert(pred(tv[i as int]) <==> tv[i as int].module == m);
        }
        if templates[i].module == m {
            out.push(config_entry_from_template(&templates[i]));
            proof {
                assert(entry_views(out@) =~= entry_views(before).push(out@.last()@)) by {
                    assert(out@ =~= before.push(out@.last()));
                }
                assert(tv.take(i + 1).filter(pred).map_values(f) =~= tv.take(
                    i as int,
                ).filter(pred).map_values(f).push(f(tv[i as int])));
            }
        } else {
            proof {
                assert(tv.take(i + 1).filter(pred) == tv.take(i as int).filter(pred));
            }
        }
        i = i + 1;
    }
    proof {
        assert(tv.take(templates@.len() as int) =~= tv);
    }
    out
}

/// The default preset of an agent.
pub fn default_agent_preset_config(agent: PromptAgentKind) -> (c: AgentPresetConfig)
    ensures
        c@ == default_preset(agent),
{
    let templates = templates_for_agent(agent);
    let module_templates = built_in_module_templates();
    let mut modules: Vec<AgentPromptModuleConfig> = Vec::new();
    let mut i: usize = 0;
    while i < module_templates.len()
        invariant
            template_views(templates@) == agent_templates(agent),
            module_templates@.len() == 5,
            forall|k: int|
                0 <= k < 5 ==> {
                    &&& (#[trigger] module_templates@[k]).module == builtin_modules()[k]
                    &&& module_templates@[k].display_name@ == builtin_module_name(builtin_modules()[k])
                    &&& module_templates@[k].message_role == builtin_module_role(builtin_modules()[k])
                    &&& module_templates@[k].order == builtin_module_order(builtin_modules()[k])
                },
            i <= 5,
            module_views(modules@) =~= builtin_modules().take(i as int).map_values(
                |m: BuiltinModule| default_module(agent, m),
            ),
        decreases 5 - i,
    {
        let t = &module_templates[i];
        let ghost before = modules@;
        modules.push(
            AgentPromptModuleConfig {
                module_id: builtin_module_id(t.module),
                display_name: t.display_name.to_owned(),
                message_role: t.message_role,
                order: t.order,
                entries: module_entries(&templates, agent, t.module),
            },
        );
        proof {
            assert(module_views(modules@) =~= module_views(before).push(modules@.last()@)) by {
                assert(modules@ =~= before.push(modules@.last()));
            }
            assert(builtin_modules().take(i + 1) =~= builtin_modules().take(i as int).push(
                builtin_modules()[i as int],
            ));
        }
        i = i + 1;
    }
    proof {
        assert(builtin_modules().take(5) =~= builtin_modules());
    }
    AgentPresetConfig {
        temperature_bits: None,
        max_tokens: None,
        director_shared_history_limit: None,
        actor_shared_history_limit: None,
        actor_private_memory_limit: None,
        narrator_shared_history_limit: None,
        replyer_session_history_limit: None,
        extra_json: None,
        modules,
    }
}

} // verus!
