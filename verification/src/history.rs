//! How many history messages each agent sees: a configured limit, or a
//! default when none is set; the runtime keeps the largest window any agent
//! reads.
use vstd::prelude::*;

use crate::prompt::types::{AgentPresetConfig, PresetView};

verus! {

/// The number of history messages an agent sees when its preset sets none.
pub const DEFAULT_MESSAGE_HISTORY_LIMIT: usize = 8;

/// A configured limit, or the default.
pub open spec fn limit_or_default(limit: Option<usize>) -> usize {
    match limit {
        Some(n) => n,
        None => DEFAULT_MESSAGE_HISTORY_LIMIT,
    }
}

/// A configured limit, or the default.
fn or_default(limit: Option<usize>) -> (n: usize)
    ensures
        n == limit_or_default(limit),
{
    match limit {
        Some(n) => n,
        None => DEFAULT_MESSAGE_HISTORY_LIMIT,
    }
}

/// The director's window over the shared history.
pub fn resolve_director_shared_history_limit(config: &AgentPresetConfig) -> (n: usize)
    ensures
        n == limit_or_default(config@.director_shared_history_limit),
{
    or_default(config.director_shared_history_limit)
}

/// An actor's window over the shared history.
pub fn resolve_actor_shared_history_limit(config: &AgentPresetConfig) -> (n: usize)
    ensures
        n == limit_or_default(config@.actor_shared_history_limit),
{
    or_default(config.actor_shared_history_limit)
}

/// How many private memories an actor keeps.
pub fn resolve_actor_private_memory_limit(config: &AgentPresetConfig) -> (n: usize)
    ensures
        n == limit_or_default(config@.actor_private_memory_limit),
{
    or_default(config.actor_private_memory_limit)
}

/// The narrator's window over the shared history.
pub fn resolve_narrator_shared_history_limit(config: &AgentPresetConfig) -> (n: usize)
    ensures
        n == limit_or_default(config@.narrator_shared_history_limit),
{
    or_default(config.narrator_shared_history_limit)
}

/// How many session messages the reply suggester sees.
pub fn resolve_replyer_session_history_limit(config: &AgentPresetConfig) -> (n: usize)
    ensures
        n == limit_or_default(config@.replyer_session_history_limit),
{
    or_default(config.replyer_session_history_limit)
}

/// The shared history the runtime keeps: the largest window of the director,
/// the actors and the narrator.
pub open spec fn runtime_limit(director: PresetView, actor: PresetView, narrator: PresetView) -> usize {
    let d = limit_or_default(director.director_shared_history_limit);
    let a = limit_or_default(actor.actor_shared_history_limit);
    let n = limit_or_default(narrator.narrator_shared_history_limit);
    let m = if d >= a {
        d
    } else {
        a
    };
    if m >= n {
        m
    } else {
        n
    }
}

/// The shared history the runtime keeps (see `runtime_limit`).
pub fn resolve_runtime_shared_memory_limit(
    director: &AgentPresetConfig,
    actor: &AgentPresetConfig,
    narrator: &AgentPresetConfig,
) -> (n: usize)
    ensures
        n == runtime_limit(director@, actor@, narrator@),
{
    let d = resolve_director_shared_history_limit(director);
    let a = resolve_actor_shared_history_limit(actor);
    let n = resolve_narrator_shared_history_limit(narrator);
    let m = if d >= a {
        d
    } else {
        a
    };
    if m >= n {
        m
    } else {
        n
    }
}

/// The runtime keeps enough shared history for every agent that reads it: its
/// window is at least each of the three windows and equals one of them.
pub proof fn lemma_runtime_limit_covers_agents(director: PresetView, actor: PresetView, narrator: PresetView)
    ensures
        runtime_limit(director, actor, narrator) >= limit_or_default(director.director_shared_history_limit),
        runtime_limit(director, actor, narrator) >= limit_or_default(actor.actor_shared_history_limit),
        runtime_limit(director, actor, narrator) >= limit_or_default(narrator.narrator_shared_history_limit),
        runtime_limit(director, actor, narrator) == limit_or_default(director.director_shared_history_limit)
            || runtime_limit(director, actor, narrator) == limit_or_default(actor.actor_shared_history_limit)
            || runtime_limit(director, actor, narrator) == limit_or_default(
            narrator.narrator_shared_history_limit,
        ),
{
}

} // verus!
