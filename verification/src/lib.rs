//! The story engine library: story graphs and their runtime state, prompt
//! presets and their compilation and previews, lorebook selection, and the
//! helpers the engine and its manager use around a turn.
use vstd::prelude::*;

pub mod binding;
pub mod context;
pub mod draft;
pub mod draft_summary;
pub mod graph;
pub mod history;
pub mod logging;
pub mod lore_inputs;
pub mod lorebook;
pub mod ordering;
pub mod outline;
pub mod preview;
pub mod progression;
pub mod prompt;
pub mod runtime;
pub mod schema;
pub mod session;
pub mod state_text;
pub mod story;
pub mod text;
pub mod turn;
pub mod turn_state;
pub mod util;
pub mod world;

pub use prompt::compact::compact_agent_preset_config;
pub use prompt::compile::{compile_architect_prompt_profiles, compile_prompt_profile};
pub use prompt::defaults::default_agent_preset_config;
pub use prompt::normalize::normalize_agent_preset_config;
pub use prompt::types::{
    ArchitectPromptMode, PromptAgentKind, PromptPreviewActorPurpose, PromptPreviewEntrySource,
    PromptPreviewKeeperPhase, PromptPreviewMessageRole, PromptPreviewNarratorPurpose,
    RuntimePromptPreviewOptions,
};
pub use runtime::{RuntimeError, RuntimeSnapshot, RuntimeState, StoryResources};
pub use session::{EngineStage, SessionCharacterUpdate};

verus! {

} // verus!
