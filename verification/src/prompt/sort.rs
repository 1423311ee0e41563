//! Ordering of preset entries and modules, and the insertion sorts that apply
//! it.
use vstd::prelude::*;

use crate::prompt::types::{
    entry_views, module_key_str, module_views, AgentPromptModuleConfig,
    AgentPromptModuleEntryConfig, EntryView, ModuleView,
};
use crate::text::{lemma_seq_lt_asym, lemma_seq_lt_total, lemma_seq_lt_trans, seq_lt, str_lt};

verus! {

/// Entries are ordered by `order`, then by entry id.
pub open spec fn entry_before(a: EntryView, b: EntryView) -> bool {
    a.order < b.order || (a.order == b.order && seq_lt(a.entry_id, b.entry_id))
}

/// No entry comes before an earlier one.
pub open spec fn entries_sorted(es: Seq<EntryView>) -> bool {
    forall|i: int, j: int| 0 <= i < j < es.len() ==> !entry_before(#[trigger] es[j], #[trigger] es[i])
}

/// Modules are ordered by `order`, then by module name.
pub open spec fn module_before(a: ModuleView, b: ModuleView) -> bool {
    a.order < b.order || (a.order == b.order && seq_lt(
        module_key_str(a.module_id),
        module_key_str(b.module_id),
    ))
}

/// No module comes before an earlier one.
pub open spec fn modules_sorted(ms: Seq<ModuleView>) -> bool {
    forall|i: int, j: int|
        0 <= i < j < ms.len() ==> !module_before(#[trigger] ms[j], #[trigger] ms[i])
}

proof fn lemma_entry_before_props(a: EntryView, b: EntryView, c: EntryView)
    ensures
        entry_before(a, b) && entry_before(b, c) ==> entry_before(a, c),
        !(entry_before(a, b) && entry_before(b, a)),
{
    lemma_seq_lt_asym(a.entry_id, b.entry_id);
    if entry_before(a, b) && entry_before(b, c) {
        if a.order == b.order && b.order == c.order {
            lemma_seq_lt_trans(a.entry_id, b.entry_id, c.entry_id);
        }
    }
}

proof fn lemma_module_before_props(a: ModuleView, b: ModuleView, c: ModuleView)
    ensures
        module_before(a, b) && module_before(b, c) ==> module_before(a, c),
        !(module_before(a, b) && module_before(b, a)),
{
    let (x, y, z) = (module_key_str(a.module_id), module_key_str(b.module_id), module_key_str(c.module_id));
    lemma_seq_lt_asym(x, y);
    if module_before(a, b) && module_before(b, c) {
        if a.order == b.order && b.order == c.order {
            lemma_seq_lt_trans(x, y, z);
        }
    }
}

fn entry_lt(a: &AgentPromptModuleEntryConfig, b: &AgentPromptModuleEntryConfig) -> (r: bool)
    ensures
        r == entry_before(a@, b@),
{
    if a.order < b.order {
        true
    } else if a.order == b.order {
        str_lt(a.entry_id.as_str(), b.entry_id.as_str())
    } else {
        false
    }
}

fn module_lt(a: &AgentPromptModuleConfig, b: &AgentPromptModuleConfig) -> (r: bool)
    ensures
        r == module_before(a@, b@),
{
    if a.order < b.order {
        true
    } else if a.order == b.order {
        str_lt(a.module_id.as_str(), b.module_id.as_str())
    } else {
        false
    }
}

proof fn lemma_insert_multiset<A>(s: Seq<A>, pos: int, x: A)
    requires
        0 <= pos <= s.len(),
    ensures
        s.insert(pos, x).to_multiset() == s.to_multiset().insert(x),
{
    broadcast use vstd::seq_lib::group_to_multiset_ensures;

    let t = s.insert(pos, x);
    assert(t.remove(pos) =~= s);
    assert(t[pos] == x);
    assert(t.remove(pos).to_multiset() =~= t.to_multiset().remove(x));
    assert(t.to_multiset().count(x) > 0) by {
        assert(t.contains(x));
    }
    assert(t.to_multiset() =~= s.to_multiset().insert(x));
}

/// Sorts entries by order, then entry id; equal keys keep their order.
pub fn sort_entries(v: Vec<AgentPromptModuleEntryConfig>) -> (r: Vec<AgentPromptModuleEntryConfig>)
    ensures
        entry_views(r@).to_multiset() == entry_views(v@).to_multiset(),
        entries_sorted(entry_views(r@)),
{
    broadcast use vstd::seq_lib::group_to_multiset_ensures;

    let mut src = v;
    let mut out: Vec<AgentPromptModuleEntryConfig> = Vec::new();
    let ghost total = entry_views(v@).to_multiset();
    while src.len() > 0
        invariant
            entry_views(out@).to_multiset().add(entry_views(src@).to_multiset()) == total,
            entries_sorted(entry_views(out@)),
        decreases src.len(),
    {
        let ghost src_before = src@;
        let x = src.remove(0);
        proof {
            assert(entry_views(src_before).remove(0) =~= entry_views(src@));
            entry_views(src_before).to_multiset_ensures();
            assert(entry_views(src_before).remove(0).to_multiset() =~= entry_views(src_before).to_multiset().remove(
                entry_views(src_before)[0],
            ));
            assert(entry_views(src_before)[0] == x@);
            assert(entry_views(src@).to_multiset() =~= entry_views(src_before).to_multiset().remove(
                x@,
            ));
            assert(entry_views(src_before).to_multiset().count(x@) > 0) by {
                assert(entry_views(src_before).contains(x@));
            }
        }
        let mut pos: usize = 0;
        while pos < out.len() && !entry_lt(&x, &out[pos])
            invariant
                pos <= out@.len(),
                forall|k: int| 0 <= k < pos ==> !entry_before(x@, #[trigger] entry_views(out@)[k]),
            decreases out.len() - pos,
        {
            pos = pos + 1;
        }
        let ghost out_before = entry_views(out@);
        out.insert(pos, x);
        proof {
            let ov = entry_views(out@);
            assert(ov =~= out_before.insert(pos as int, x@));
            lemma_insert_multiset(out_before, pos as int, x@);
            assert forall|i: int, j: int| 0 <= i < j < ov.len() implies !entry_before(
                #[trigger] ov[j],
                #[trigger] ov[i],
            ) by {
                if j < pos {
                    assert(ov[i] == out_before[i] && ov[j] == out_before[j]);
                } else if j == pos {
                    assert(ov[i] == out_before[i]);
                    lemma_entry_before_props(x@, out_before[i], x@);
                } else if i == pos {
                    assert(ov[j] == out_before[j - 1]);
                    assert(entry_before(x@, out_before[pos as int]));
                    if j - 1 > pos {
                        assert(!entry_before(out_before[j - 1], out_before[pos as int]));
                    }
                    lemma_entry_before_props(out_before[j - 1], x@, out_before[pos as int]);
                } else if i < pos {
                    assert(ov[i] == out_before[i] && ov[j] == out_before[j - 1]);
                } else {
                    assert(ov[i] == out_before[i - 1] && ov[j] == out_before[j - 1]);
                }
            }
            assert(entry_views(out@).to_multiset().add(entry_views(src@).to_multiset()) =~= total);
        }
    }
    proof {
        assert(entry_views(src@).to_multiset() =~= vstd::multiset::Multiset::empty());
        assert(entry_views(out@).to_multiset().add(vstd::multiset::Multiset::empty()) =~= entry_views(
            out@,
        ).to_multiset());
    }
    out
}

/// Sorts modules by order, then module name; equal keys keep their order.
pub fn sort_modules(v: Vec<AgentPromptModuleConfig>) -> (r: Vec<AgentPromptModuleConfig>)
    ensures
        module_views(r@).to_multiset() == module_views(v@).to_multiset(),
        modules_sorted(module_views(r@)),
{
    broadcast use vstd::seq_lib::group_to_multiset_ensures;

    let mut src = v;
    let mut out: Vec<AgentPromptModuleConfig> = Vec::new();
    let ghost total = module_views(v@).to_multiset();
    while src.len() > 0
        invariant
            module_views(out@).to_multiset().add(module_views(src@).to_multiset()) == total,
            modules_sorted(module_views(out@)),
        decreases src.len(),
    {
        let ghost src_before = src@;
        let x = src.remove(0);
        proof {
            assert(module_views(src_before).remove(0) =~= module_views(src@));
            module_views(src_before).to_multiset_ensures();
            assert(module_views(src_before).remove(0).to_multiset() =~= module_views(src_before).to_multiset().remove(
                module_views(src_before)[0],
            ));
            assert(module_views(src_before)[0] == x@);
            assert(module_views(src@).to_multiset() =~= module_views(
                src_before,
            ).to_multiset().remove(x@));
            assert(module_views(src_before).to_multiset().count(x@) > 0) by {
                assert(module_views(src_before).contains(x@));
            }
        }
        let mut pos: usize = 0;
        while pos < out.len() && !module_lt(&x, &out[pos])
            invariant
                pos <= out@.len(),
                forall|k: int| 0 <= k < pos ==> !module_before(x@, #[trigger] module_views(out@)[k]),
            decreases out.len() - pos,
        {
            pos = pos + 1;
        }
        let ghost out_before = module_views(out@);
        out.insert(pos, x);
        proof {
            let ov = module_views(out@);
            assert(ov =~= out_before.insert(pos as int, x@));
            lemma_insert_multiset(out_before, pos as int, x@);
            assert forall|i: int, j: int| 0 <= i < j < ov.len() implies !module_before(
                #[trigger] ov[j],
                #[trigger] ov[i],
            ) by {
                if j < pos {
                    assert(ov[i] == out_before[i] && ov[j] == out_before[j]);
                } else if j == pos {
                    assert(ov[i] == out_before[i]);
                    lemma_module_before_props(x@, out_before[i], x@);
                } else if i == pos {
                    assert(ov[j] == out_before[j - 1]);
                    assert(module_before(x@, out_before[pos as int]));
                    if j - 1 > pos {
                        assert(!module_before(out_before[j - 1], out_before[pos as int]));
                    }
                    lemma_module_before_props(out_before[j - 1], x@, out_before[pos as int]);
                } else if i < pos {
                    assert(ov[i] == out_before[i] && ov[j] == out_before[j - 1]);
                } else {
                    assert(ov[i] == out_before[i - 1] && ov[j] == out_before[j - 1]);
                }
            }
            assert(module_views(out@).to_multiset().add(module_views(src@).to_multiset()) =~= total);
        }
    }
    proof {
        assert(module_views(src@).to_multiset() =~= vstd::multiset::Multiset::empty());
        assert(module_views(out@).to_multiset().add(vstd::multiset::Multiset::empty()) =~= module_views(
            out@,
        ).to_multiset());
    }
    out
}

} // verus!
