//! Laws of preset normalization and compaction.
use vstd::prelude::*;

use crate::prompt::compact::compact_spec;
use crate::prompt::compact_facts::{lemma_compact_rebuilds, lemma_normal_rebuilds_itself};
use crate::prompt::normal_form::{lemma_normalized_is_normal, lemma_normalized_unique};
use crate::prompt::normalize::normalized_result;
use crate::prompt::roundtrip::lemma_rebuild_normalizes;
use crate::prompt::types::{ConfigErrorView, PresetView, PromptAgentKind};

verus! {

/// Normalization is a function: a preset has at most one normalized form.
pub proof fn lemma_normalize_unique(agent: PromptAgentKind, c: PresetView, o1: PresetView, o2: PresetView)
    requires
        normalized_result(agent, c, o1),
        normalized_result(agent, c, o2),
    ensures
        o1 == o2,
{
    lemma_normalized_unique(agent, c, o1, o2);
}

/// Normalizing a normalized preset gives it back unchanged.
pub proof fn lemma_normalize_idempotent(agent: PromptAgentKind, c: PresetView, n: PresetView)
    requires
        normalized_result(agent, c, n),
    ensures
        normalized_result(agent, n, n),
{
    lemma_normalized_is_normal(agent, c, n);
    lemma_normal_rebuilds_itself(agent, n.modules);
    lemma_rebuild_normalizes(agent, n, n);
}

/// A normalized preset always has a compact form, and normalizing that
/// compact form gives the normalized preset back: compaction loses nothing.
pub proof fn lemma_compact_normalize_round_trip(agent: PromptAgentKind, c: PresetView, n: PresetView)
    requires
        normalized_result(agent, c, n),
    ensures
        compact_spec(agent, n) is Ok,
        normalized_result(agent, compact_spec(agent, n)->Ok_0, n),
{
    lemma_normalized_is_normal(agent, c, n);
    lemma_compact_rebuilds(agent, n);
    lemma_rebuild_normalizes(agent, n, compact_spec(agent, n)->Ok_0);
}

/// Compacting a normalized preset and normalizing the result expands it to
/// exactly the normalized preset: with `n` the normalized form of `c`, `k`
/// what compaction returns for `n` (it normalizes `n` to some `n2` and
/// compacts that), and `e` the normalized form of `k`, `e` is `n`.
pub proof fn lemma_compacted_preset_expands_back(
    agent: PromptAgentKind,
    c: PresetView,
    n: PresetView,
    n2: PresetView,
    k: PresetView,
    e: PresetView,
)
    requires
        normalized_result(agent, c, n),
        normalized_result(agent, n, n2),
        compact_spec(agent, n2) == Ok::<PresetView, ConfigErrorView>(k),
        normalized_result(agent, k, e),
    ensures
        e == n,
{
    lemma_normalize_idempotent(agent, c, n);
    lemma_normalized_unique(agent, n, n, n2);
    lemma_compact_normalize_round_trip(agent, c, n);
    lemma_normalized_unique(agent, k, n, e);
}

} // verus!
