//! Prompt presets: built-in templates, normalization, compaction, compilation
//! and previews.
pub mod types;
pub mod templates;
pub mod defaults;
pub mod sort;
pub mod normalize;
pub mod preview;
pub mod render;
pub mod template_facts;
pub mod compact;
pub mod compile;
pub mod roundtrip;
pub mod compact_facts;
pub mod normal_form;
pub mod preset_laws;
pub mod default_form;
