use ss_engine::prompt::preview::{
    compile_prompt_module, compile_prompt_preview_profile, CompiledPromptPreviewEntry,
    CompiledPromptPreviewModule,
};
use ss_engine::prompt::compile::PromptModuleEntry;
use ss_engine::prompt::render::{render_module_preview, render_preview_from_config, render_profile_preview, PreviewError};
use ss_engine::prompt::types::{PromptEntryKind, PromptMessageRole, PromptModuleId};
use ss_engine::world::StateValue;
use ss_engine::{default_agent_preset_config, PromptAgentKind, PromptPreviewEntrySource, PromptPreviewMessageRole};

fn ctx(pairs: &[(&str, &str)]) -> Vec<StateValue> {
    pairs
        .iter()
        .map(|(k, v)| StateValue { key: (*k).to_owned(), value_json: (*v).to_owned() })
        .collect()
}

fn entry(id: &str, order: i32, value: PromptModuleEntry) -> CompiledPromptPreviewEntry {
    CompiledPromptPreviewEntry {
        entry_id: id.to_owned(),
        display_name: id.to_owned(),
        kind: PromptEntryKind::BuiltInContextRef,
        order,
        source: PromptPreviewEntrySource::Preset,
        value,
    }
}

#[test]
fn module_preview_resolves_context_and_lists_missing_keys() {
    let module = CompiledPromptPreviewModule {
        module_id: PromptModuleId::DynamicContext,
        display_name: "Dynamic".to_owned(),
        order: 40,
        entries: vec![
            entry("a", 10, PromptModuleEntry::ContextRef("zeta".to_owned())),
            entry("b", 20, PromptModuleEntry::ContextRef("alpha".to_owned())),
            entry("c", 30, PromptModuleEntry::ContextRef("known".to_owned())),
            entry("d", 40, PromptModuleEntry::ContextRef("zeta".to_owned())),
            entry("e", 50, PromptModuleEntry::Text("   ".to_owned())),
            entry("f", 60, PromptModuleEntry::ContextRef("blank".to_owned())),
        ],
    };
    let context = ctx(&[("known", "  the value \n"), ("blank", "  ")]);
    let preview = render_module_preview(PromptMessageRole::User, Some(&module), true, &context);
    assert_eq!(preview.message_role, PromptPreviewMessageRole::User);
    assert_eq!(preview.unresolved_context_keys, vec!["alpha".to_owned(), "zeta".to_owned()]);
    let texts: Vec<&str> = preview.messages[0].modules[0].entries.iter().map(|e| e.compiled_text.as_str()).collect();
    assert_eq!(texts, vec!["<context:zeta>", "<context:alpha>", "the value", "<context:zeta>"]);

    let hidden = render_module_preview(PromptMessageRole::System, Some(&module), false, &context);
    assert_eq!(hidden.message_role, PromptPreviewMessageRole::System);
    assert_eq!(hidden.messages[0].modules[0].entries.len(), 1);
    assert_eq!(hidden.unresolved_context_keys, vec!["alpha".to_owned(), "zeta".to_owned()]);

    let empty = render_module_preview(PromptMessageRole::User, None, true, &context);
    assert!(empty.messages.is_empty());
    assert!(empty.unresolved_context_keys.is_empty());
}

#[test]
fn default_director_preview_reports_its_context_keys() {
    let config = default_agent_preset_config(PromptAgentKind::Director);
    let profile = compile_prompt_preview_profile(PromptAgentKind::Director, &config)
        .expect("compiles")
        .expect("orders fit");
    assert!(!profile.system_modules.is_empty());
    let preview = render_profile_preview(&profile, false, &Vec::new());
    assert_eq!(preview.message_role, PromptPreviewMessageRole::Full);
    let keys = &preview.unresolved_context_keys;
    assert!(!keys.is_empty());
    assert!(keys.windows(2).all(|w| w[0] < w[1]));
    assert!(keys.iter().any(|k| k == "current_node"));

    let with_player = render_profile_preview(&profile, false, &ctx(&[("player", "name:\nUser")]));
    assert!(!with_player.unresolved_context_keys.iter().any(|k| k == "player"));
}

#[test]
fn synthetic_entries_are_numbered_after_preset_entries() {
    let config = default_agent_preset_config(PromptAgentKind::Director);
    let compiled = compile_prompt_module(PromptAgentKind::Director, &config, &PromptModuleId::Output)
        .expect("compiles")
        .expect("module exists");
    let module = compiled.module.expect("output module has entries");
    let last = module.entries.last().expect("entries");
    let max_preset = module
        .entries
        .iter()
        .filter(|e| e.source == PromptPreviewEntrySource::Preset)
        .map(|e| e.order)
        .max()
        .unwrap_or(0);
    if last.source == PromptPreviewEntrySource::Synthetic {
        assert!(last.order > max_preset);
        assert_eq!((last.order - max_preset) % 10, 0);
    }
}

#[test]
fn preview_from_config_reports_missing_modules() {
    let config = default_agent_preset_config(PromptAgentKind::Planner);
    let err = render_preview_from_config(
        &config,
        PromptAgentKind::Planner,
        Some(&PromptModuleId::Custom("nope".to_owned())),
        None,
        true,
        &Vec::new(),
    )
    .expect_err("no such module");
    assert!(matches!(err, PreviewError::ModuleUnavailable { ref module, agent: PromptAgentKind::Planner } if module == "nope"));

    let full = render_preview_from_config(&config, PromptAgentKind::Planner, None, None, true, &Vec::new())
        .expect("full preview");
    assert_eq!(full.message_role, PromptPreviewMessageRole::Full);
}
