//! Which api group and preset a session runs with: the ones asked for, or,
//! for each that is not given, the one with the smallest id.
use vstd::prelude::*;

use crate::text::{lemma_seq_lt_asym, lemma_seq_lt_total, seq_lt, str_lt, string_seq_views};

verus! {

/// The api group and preset of a session.
#[derive(Debug)]
pub struct SessionBindingConfig {
    pub api_group_id: String,
    pub preset_id: String,
}

/// Why a session has no binding: there is no api group or no preset to
/// fall back on.
#[derive(Debug, Clone, Copy, PartialEq, Eq, Structural)]
pub enum BindingError {
    LlmConfigNotInitialized,
}

/// `x` is one of `ids` and none of `ids` comes before it.
pub open spec fn is_least(ids: Seq<Seq<char>>, x: Seq<char>) -> bool {
    &&& ids.contains(x)
    &&& forall|i: int| 0 <= i < ids.len() ==> !seq_lt(#[trigger] ids[i], x)
}

/// Ids have one least id.
pub proof fn lemma_least_unique(ids: Seq<Seq<char>>, x: Seq<char>, y: Seq<char>)
    requires
        is_least(ids, x),
        is_least(ids, y),
    ensures
        x == y,
{
    let i = choose|i: int| 0 <= i < ids.len() && ids[i] == x;
    let j = choose|j: int| 0 <= j < ids.len() && ids[j] == y;
    assert(!seq_lt(ids[i], y));
    assert(!seq_lt(ids[j], x));
    lemma_seq_lt_total(x, y);
}

/// The smallest id, in string order, or none when there are no ids.
pub fn least_id(ids: &Vec<String>) -> (r: Option<String>)
    ensures
        match r {
            None => ids@.len() == 0,
            Some(x) => is_least(string_seq_views(ids@), x@),
        },
{
    if ids.len() == 0 {
        return None;
    }
    let ghost v = string_seq_views(ids@);
    let mut best: usize = 0;
    let mut i: usize = 1;
    proof {
        lemma_seq_lt_asym(v[0], v[0]);
    }
    while i < ids.len()
        invariant
            v == string_seq_views(ids@),
            0 < ids@.len(),
            best < i <= ids@.len(),
            forall|k: int| 0 <= k < i ==> !seq_lt(#[trigger] v[k], v[best as int]),
        decreases ids.len() - i,
    {
        if str_lt(ids[i].as_str(), ids[best].as_str()) {
            proof {
                assert forall|k: int| 0 <= k <= i implies !seq_lt(#[trigger] v[k], v[i as int]) by {
                    if k < i {
                        lemma_seq_lt_total(v[k], v[best as int]);
                        if seq_lt(v[k], v[i as int]) {
                            crate::text::lemma_seq_lt_trans(v[k], v[i as int], v[best as int]);
                        }
                    } else {
                        lemma_seq_lt_asym(v[k], v[k]);
                    }
                }
            }
            best = i;
        } else {
            proof {
                assert(!seq_lt(v[i as int], v[best as int]));
            }
        }
        i = i + 1;
    }
    proof {
        assert(v[best as int] == ids@[best as int]@);
        assert(v.contains(v[best as int]));
    }
    Some(ids[best].clone())
}

/// The binding with the smallest api group id and the smallest preset id,
/// when there are both.
pub fn resolve_first_available_binding(api_group_ids: &Vec<String>, preset_ids: &Vec<String>) -> (r:
    Option<SessionBindingConfig>)
    ensures
        match r {
            None => api_group_ids@.len() == 0 || preset_ids@.len() == 0,
            Some(b) => is_least(string_seq_views(api_group_ids@), b.api_group_id@) && is_least(
                string_seq_views(preset_ids@),
                b.preset_id@,
            ),
        },
{
    match (least_id(api_group_ids), least_id(preset_ids)) {
        (Some(api_group_id), Some(preset_id)) => Some(SessionBindingConfig { api_group_id, preset_id }),
        _ => None,
    }
}

/// The binding of a session: the api group and preset asked for, each
/// missing one replaced by the one with the smallest id; an error when one is
/// missing and there is none to replace it.
pub fn resolve_binding(
    api_group_id: Option<&str>,
    preset_id: Option<&str>,
    api_group_ids: &Vec<String>,
    preset_ids: &Vec<String>,
) -> (r: Result<SessionBindingConfig, BindingError>)
    ensures
        match r {
            Err(_) => (api_group_id is None && api_group_ids@.len() == 0) || (preset_id is None
                && preset_ids@.len() == 0),
            Ok(b) => {
                &&& match api_group_id {
                    Some(g) => b.api_group_id@ == g@,
                    None => is_least(string_seq_views(api_group_ids@), b.api_group_id@),
                }
                &&& match preset_id {
                    Some(p) => b.preset_id@ == p@,
                    None => is_least(string_seq_views(preset_ids@), b.preset_id@),
                }
            },
        },
{
    let group = match api_group_id {
        Some(g) => g.to_string(),
        None => match least_id(api_group_ids) {
            Some(g) => g,
            None => {
                return Err(BindingError::LlmConfigNotInitialized);
            },
        },
    };
    let preset = match preset_id {
        Some(p) => p.to_string(),
        None => match least_id(preset_ids) {
            Some(p) => p,
            None => {
                return Err(BindingError::LlmConfigNotInitialized);
            },
        },
    };
    Ok(SessionBindingConfig { api_group_id: group, preset_id: preset })
}

} // verus!
