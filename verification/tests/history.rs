use ss_engine::default_agent_preset_config;
use ss_engine::history::{
    resolve_actor_private_memory_limit, resolve_director_shared_history_limit,
    resolve_replyer_session_history_limit, resolve_runtime_shared_memory_limit,
    DEFAULT_MESSAGE_HISTORY_LIMIT,
};
use ss_engine::prompt::types::AgentPresetConfig;
use ss_engine::PromptAgentKind;

#[test]
fn runtime_shared_memory_limit_uses_largest_runtime_window() {
    let director = AgentPresetConfig {
        director_shared_history_limit: Some(12),
        ..default_agent_preset_config(PromptAgentKind::Director)
    };
    let actor = AgentPresetConfig {
        actor_shared_history_limit: Some(3),
        ..default_agent_preset_config(PromptAgentKind::Actor)
    };
    let narrator = AgentPresetConfig {
        narrator_shared_history_limit: Some(20),
        ..default_agent_preset_config(PromptAgentKind::Narrator)
    };

    assert_eq!(resolve_runtime_shared_memory_limit(&director, &actor, &narrator), 20);
}

#[test]
fn history_limits_default_to_eight() {
    let config = default_agent_preset_config(PromptAgentKind::Actor);
    assert_eq!(DEFAULT_MESSAGE_HISTORY_LIMIT, 8);
    assert_eq!(resolve_director_shared_history_limit(&config), 8);
    assert_eq!(resolve_actor_private_memory_limit(&config), 8);
    assert_eq!(resolve_replyer_session_history_limit(&config), 8);
    let narrator = default_agent_preset_config(PromptAgentKind::Narrator);
    assert_eq!(resolve_runtime_shared_memory_limit(&config, &config, &narrator), 8);
    let small = AgentPresetConfig {
        director_shared_history_limit: Some(2),
        actor_shared_history_limit: Some(1),
        narrator_shared_history_limit: Some(0),
        ..default_agent_preset_config(PromptAgentKind::Director)
    };
    assert_eq!(resolve_runtime_shared_memory_limit(&small, &small, &small), 2);
}
