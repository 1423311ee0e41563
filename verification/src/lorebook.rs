//! Choosing the lorebook entries a prompt carries: enabled entries that are
//! always included (at most 4), and enabled entries whose keywords occur in
//! the texts of the turn (at most 8), each rendered on one line.
use vstd::prelude::*;

use crate::text::{
    chars_contain, contains_seq, inline_seq, is_blank, joined, join_strings, lowercase,
    normalize_inline_text, push_str, str_chars, str_to_lowercase, string_of_chars,
    string_seq_views, text_is_blank, trim_seq, trim_text, truncate_chars, truncated_seq,
};

verus! {

/// The most always-included entries a prompt carries.
pub const MAX_BASE_ENTRIES: usize = 4;

/// The most keyword-matched entries a prompt carries.
pub const MAX_MATCHED_ENTRIES: usize = 8;

/// The most characters of an entry's content that a prompt carries.
pub const MAX_ENTRY_CONTENT_CHARS: usize = 800;

/// A lorebook entry.
#[derive(Debug)]
pub struct LorebookEntryRecord {
    pub entry_id: String,
    pub title: String,
    pub content: String,
    pub keywords: Vec<String>,
    pub enabled: bool,
    pub always_include: bool,
}

/// The value of a lorebook entry.
pub struct LoreView {
    pub entry_id: Seq<char>,
    pub title: Seq<char>,
    pub content: Seq<char>,
    pub keywords: Seq<Seq<char>>,
    pub enabled: bool,
    pub always_include: bool,
}

impl View for LorebookEntryRecord {
    type V = LoreView;

    open spec fn view(&self) -> LoreView {
        LoreView {
            entry_id: self.entry_id@,
            title: self.title@,
            content: self.content@,
            keywords: string_seq_views(self.keywords@),
            enabled: self.enabled,
            always_include: self.always_include,
        }
    }
}

/// The views of lorebook entries.
pub open spec fn lore_views(v: Seq<LorebookEntryRecord>) -> Seq<LoreView> {
    v.map_values(|e: LorebookEntryRecord| e@)
}

/// The lower-cased texts of the turn that are not blank, one per line.
pub open spec fn haystack(inputs: Seq<Seq<char>>) -> Seq<char> {
    joined(inputs.filter(|t: Seq<char>| !is_blank(t)).map_values(|t: Seq<char>| lowercase(t)), "\n"@)
}

/// Whether a keyword of an entry (trimmed, not blank, lower-cased) occurs in
/// the haystack; never for an empty haystack.
pub open spec fn keyword_hit(hay: Seq<char>, keywords: Seq<Seq<char>>) -> bool {
    hay.len() > 0 && exists|k: int|
        0 <= k < keywords.len() && trim_seq(#[trigger] keywords[k]).len() > 0 && contains_seq(
            hay,
            lowercase(trim_seq(keywords[k])),
        )
}

/// The entries chosen so far: (always included, matched).
pub type Chosen = (Seq<LoreView>, Seq<LoreView>);

/// One entry considered: disabled entries are skipped; always-included ones
/// are kept while there are fewer than 4; others are kept when a keyword hits
/// and there are fewer than 8 matched.
pub open spec fn choose_step(c: Chosen, e: LoreView, hay: Seq<char>) -> Chosen {
    if !e.enabled {
        c
    } else if e.always_include {
        if c.0.len() < MAX_BASE_ENTRIES {
            (c.0.push(e), c.1)
        } else {
            c
        }
    } else if c.1.len() >= MAX_MATCHED_ENTRIES {
        c
    } else if keyword_hit(hay, e.keywords) {
        (c.0, c.1.push(e))
    } else {
        c
    }
}

/// The entries chosen from a list, in order.
pub open spec fn chosen(es: Seq<LoreView>, hay: Seq<char>) -> Chosen
    decreases es.len(),
{
    if es.len() == 0 {
        (seq![], seq![])
    } else {
        choose_step(chosen(es.drop_last(), hay), es.last(), hay)
    }
}

/// `- id | title | keywords=... | content`, with whitespace collapsed and the
/// content cut to 800 characters.
pub open spec fn entry_line(e: LoreView) -> Seq<char> {
    "- "@ + e.entry_id + " | "@ + inline_seq(e.title) + " | keywords="@ + (if e.keywords.len() == 0 {
        "none"@
    } else {
        joined(e.keywords.map_values(|k: Seq<char>| inline_seq(k)), ", "@)
    }) + " | "@ + truncated_seq(inline_seq(e.content), MAX_ENTRY_CONTENT_CHARS as nat)
}

/// The entries, one line each; none for no entries.
pub open spec fn entries_text(es: Seq<LoreView>) -> Option<Seq<char>> {
    if es.len() == 0 {
        None
    } else {
        Some(joined(es.map_values(|e: LoreView| entry_line(e)), "\n"@))
    }
}

/// The two lorebook blocks of a prompt.
#[derive(Debug)]
pub struct LorebookPromptSections {
    pub base: Option<String>,
    pub matched: Option<String>,
}

/// The view of an optional string.
pub open spec fn opt_text(s: Option<String>) -> Option<Seq<char>> {
    match s {
        Some(v) => Some(v@),
        None => None,
    }
}

/// Renders one entry's line.
fn render_entry_line(e: &LorebookEntryRecord) -> (r: String)
    ensures
        r@ == entry_line(e@),
{
    let mut out: Vec<char> = Vec::new();
    push_str(&mut out, "- ");
    push_str(&mut out, e.entry_id.as_str());
    push_str(&mut out, " | ");
    let title = normalize_inline_text(e.title.as_str());
    push_str(&mut out, title.as_str());
    push_str(&mut out, " | keywords=");
    if e.keywords.len() == 0 {
        push_str(&mut out, "none");
    } else {
        let ghost kv = string_seq_views(e.keywords@);
        let ghost f = |k: Seq<char>| inline_seq(k);
        let mut ks: Vec<String> = Vec::new();
        let mut i: usize = 0;
        while i < e.keywords.len()
            invariant
                kv == string_seq_views(e.keywords@),
                f == (|k: Seq<char>| inline_seq(k)),
                i <= kv.len(),
                string_seq_views(ks@) =~= kv.take(i as int).map_values(f),
            decreases e.keywords.len() - i,
        {
            let ghost before = ks@;
            ks.push(normalize_inline_text(e.keywords[i].as_str()));
            proof {
                assert(ks@ =~= before.push(ks@.last()));
                assert(kv.take(i + 1) =~= kv.take(i as int).push(kv[i as int]));
                assert(string_seq_views(ks@) =~= string_seq_views(before).push(f(kv[i as int])));
            }
            i = i + 1;
        }
        proof {
            assert(kv.take(kv.len() as int) =~= kv);
        }
        let joined_keywords = join_strings(&ks, ", ");
        push_str(&mut out, joined_keywords.as_str());
    }
    push_str(&mut out, " | ");
    let content = normalize_inline_text(e.content.as_str());
    let cut = truncate_chars(content.as_str(), MAX_ENTRY_CONTENT_CHARS);
    push_str(&mut out, cut.as_str());
    proof {
        assert(out@ =~= entry_line(e@));
    }
    string_of_chars(out.as_slice())
}

/// Renders chosen entries, one line each; none for no entries.
pub fn render_lorebook_entries(entries: &Vec<&LorebookEntryRecord>) -> (r: Option<String>)
    ensures
        opt_text(r) == entries_text(entries@.map_values(|e: &LorebookEntryRecord| e@)),
{
    let ghost ev = entries@.map_values(|e: &LorebookEntryRecord| e@);
    if entries.len() == 0 {
        return None;
    }
    let ghost f = |e: LoreView| entry_line(e);
    let mut lines: Vec<String> = Vec::new();
    let mut i: usize = 0;
    while i < entries.len()
        invariant
            ev == entries@.map_values(|e: &LorebookEntryRecord| e@),
            f == (|e: LoreView| entry_line(e)),
            i <= ev.len(),
            string_seq_views(lines@) =~= ev.take(i as int).map_values(f),
        decreases entries.len() - i,
    {
        let ghost before = lines@;
        lines.push(render_entry_line(entries[i]));
        proof {
            assert(lines@ =~= before.push(lines@.last()));
            assert(ev.take(i + 1) =~= ev.take(i as int).push(ev[i as int]));
            assert(string_seq_views(lines@) =~= string_seq_views(before).push(f(ev[i as int])));
        }
        i = i + 1;
    }
    proof {
        assert(ev.take(ev.len() as int) =~= ev);
    }
    Some(join_strings(&lines, "\n"))
}

/// Builds the haystack the keywords are searched in.
fn build_haystack(match_inputs: &Vec<&str>) -> (r: Vec<char>)
    ensures
        r@ == haystack(match_inputs@.map_values(|t: &str| t@)),
{
    let ghost iv = match_inputs@.map_values(|t: &str| t@);
    let ghost keep = |t: Seq<char>| !is_blank(t);
    let ghost low = |t: Seq<char>| lowercase(t);
    let mut parts: Vec<String> = Vec::new();
    let mut i: usize = 0;
    while i < match_inputs.len()
        invariant
            iv == match_inputs@.map_values(|t: &str| t@),
            keep == (|t: Seq<char>| !is_blank(t)),
            low == (|t: Seq<char>| lowercase(t)),
            i <= iv.len(),
            string_seq_views(parts@) == iv.take(i as int).filter(keep).map_values(low),
        decreases match_inputs.len() - i,
    {
        proof {
            assert(iv.take(i + 1) =~= iv.take(i as int).push(iv[i as int]));
            iv.take(i as int).lemma_filter_push(iv[i as int], keep);
        }
        let t = match_inputs[i];
        if !text_is_blank(t) {
            let ghost before = parts@;
            parts.push(str_to_lowercase(t));
            proof {
                assert(parts@ =~= before.push(parts@.last()));
                assert(string_seq_views(parts@) =~= string_seq_views(before).push(low(iv[i as int])));
                assert(iv.take(i as int).filter(keep).push(iv[i as int]).map_values(low) =~= iv.take(
                    i as int,
                ).filter(keep).map_values(low).push(low(iv[i as int])));
            }
        }
        i = i + 1;
    }
    proof {
        assert(iv.take(iv.len() as int) =~= iv);
    }
    let joined_text = join_strings(&parts, "\n");
    str_chars(joined_text.as_str())
}

/// Whether a keyword of the entry occurs in the haystack (see `keyword_hit`).
fn keywords_hit(hay: &Vec<char>, keywords: &Vec<String>) -> (b: bool)
    ensures
        b == keyword_hit(hay@, string_seq_views(keywords@)),
{
    let ghost kv = string_seq_views(keywords@);
    if hay.len() == 0 {
        return false;
    }
    let mut i: usize = 0;
    while i < keywords.len()
        invariant
            kv == string_seq_views(keywords@),
            i <= kv.len(),
            hay@.len() > 0,
            forall|k: int|
                0 <= k < i ==> !(trim_seq(#[trigger] kv[k]).len() > 0 && contains_seq(
                    hay@,
                    lowercase(trim_seq(kv[k])),
                )),
        decreases keywords.len() - i,
    {
        assert(kv[i as int] == keywords@[i as int]@);
        if !text_is_blank(keywords[i].as_str()) {
            let t = trim_text(keywords[i].as_str());
            let low = str_to_lowercase(t.as_str());
            let lv = str_chars(low.as_str());
            if chars_contain(hay.as_slice(), lv.as_slice()) {
                return true;
            }
        }
        i = i + 1;
    }
    false
}

/// The lorebook blocks of a prompt: the always-included and the
/// keyword-matched entries of the enabled ones (see `chosen`), rendered.
pub fn build_lorebook_prompt_sections(entries: &Vec<LorebookEntryRecord>, match_inputs: &Vec<&str>) -> (r:
    LorebookPromptSections)
    ensures
        ({
            let c = chosen(lore_views(entries@), haystack(match_inputs@.map_values(|t: &str| t@)));
            &&& opt_text(r.base) == entries_text(c.0)
            &&& opt_text(r.matched) == entries_text(c.1)
        }),
{
    let hay = build_haystack(match_inputs);
    let ghost ev = lore_views(entries@);
    let mut base: Vec<&LorebookEntryRecord> = Vec::new();
    let mut matched: Vec<&LorebookEntryRecord> = Vec::new();
    let mut i: usize = 0;
    while i < entries.len()
        invariant
            ev == lore_views(entries@),
            i <= ev.len(),
            (base@.map_values(|e: &LorebookEntryRecord| e@), matched@.map_values(
                |e: &LorebookEntryRecord| e@,
            )) == chosen(ev.take(i as int), hay@),
        decreases entries.len() - i,
    {
        proof {
            assert(ev.take(i + 1).drop_last() =~= ev.take(i as int));
            assert(ev.take(i + 1).last() == entries@[i as int]@);
        }
        let e = &entries[i];
        if e.enabled {
            if e.always_include {
                if base.len() < MAX_BASE_ENTRIES {
                    let ghost before = base@;
                    base.push(e);
                    proof {
                        assert(base@.map_values(|e: &LorebookEntryRecord| e@) =~= before.map_values(
                            |e: &LorebookEntryRecord| e@,
                        ).push(e@));
                    }
                }
            } else if matched.len() < MAX_MATCHED_ENTRIES {
                if keywords_hit(&hay, &e.keywords) {
                    let ghost before = matched@;
                    matched.push(e);
                    proof {
                        assert(matched@.map_values(|e: &LorebookEntryRecord| e@) =~= before.map_values(
                            |e: &LorebookEntryRecord| e@,
                        ).push(e@));
                    }
                }
            }
        }
        i = i + 1;
    }
    proof {
        assert(ev.take(ev.len() as int) =~= ev);
    }
    LorebookPromptSections { base: render_lorebook_entries(&base), matched: render_lorebook_entries(&matched) }
}

/// The lorebook never carries more than 4 always-included and 8 matched
/// entries, and only enabled entries.
pub proof fn lemma_chosen_bounds(es: Seq<LoreView>, hay: Seq<char>)
    ensures
        chosen(es, hay).0.len() <= MAX_BASE_ENTRIES,
        chosen(es, hay).1.len() <= MAX_MATCHED_ENTRIES,
        forall|k: int| 0 <= k < chosen(es, hay).0.len() ==> (#[trigger] chosen(es, hay).0[k]).enabled
            && chosen(es, hay).0[k].always_include,
        forall|k: int| 0 <= k < chosen(es, hay).1.len() ==> (#[trigger] chosen(es, hay).1[k]).enabled
            && !chosen(es, hay).1[k].always_include,
    decreases es.len(),
{
    if es.len() > 0 {
        lemma_chosen_bounds(es.drop_last(), hay);
        let c = chosen(es.drop_last(), hay);
        assert forall|k: int| 0 <= k < chosen(es, hay).0.len() implies (#[trigger] chosen(es, hay).0[k]).enabled
            && chosen(es, hay).0[k].always_include by {
            if k < c.0.len() {
                assert(chosen(es, hay).0[k] == c.0[k]);
            }
        }
        assert forall|k: int| 0 <= k < chosen(es, hay).1.len() implies (#[trigger] chosen(es, hay).1[k]).enabled
            && !chosen(es, hay).1[k].always_include by {
            if k < c.1.len() {
                assert(chosen(es, hay).1[k] == c.1[k]);
            }
        }
    }
}

/// The keywords of an entry hit exactly when one of them does on its own:
/// every keyword is tried, not only some of them.
pub proof fn lemma_keyword_hit_any(hay: Seq<char>, ks: Seq<Seq<char>>)
    ensures
        keyword_hit(hay, ks) <==> exists|k: int| 0 <= k < ks.len() && #[trigger] keyword_hit(hay, seq![ks[k]]),
{
    if keyword_hit(hay, ks) {
        let k = choose|k: int|
            0 <= k < ks.len() && trim_seq(#[trigger] ks[k]).len() > 0 && contains_seq(hay, lowercase(trim_seq(ks[k])));
        let one = seq![ks[k]];
        assert(one[0] == ks[k]);
        assert(trim_seq(one[0]).len() > 0 && contains_seq(hay, lowercase(trim_seq(one[0]))));
        assert(keyword_hit(hay, one));
    }
    if exists|k: int| 0 <= k < ks.len() && #[trigger] keyword_hit(hay, seq![ks[k]]) {
        let k = choose|k: int| 0 <= k < ks.len() && #[trigger] keyword_hit(hay, seq![ks[k]]);
        let one = seq![ks[k]];
        let j = choose|j: int|
            0 <= j < one.len() && trim_seq(#[trigger] one[j]).len() > 0 && contains_seq(hay, lowercase(trim_seq(one[j])));
        assert(j == 0);
        assert(one[0] == ks[k]);
        assert(trim_seq(ks[k]).len() > 0 && contains_seq(hay, lowercase(trim_seq(ks[k]))));
    }
}

/// A keyword hits when it occurs, trimmed and lower-cased, in a non-empty
/// haystack, whichever of the entry's keywords it is.
pub proof fn lemma_keyword_occurs_hits(hay: Seq<char>, ks: Seq<Seq<char>>, k: int)
    requires
        hay.len() > 0,
        0 <= k < ks.len(),
        trim_seq(ks[k]).len() > 0,
        contains_seq(hay, lowercase(trim_seq(ks[k]))),
    ensures
        keyword_hit(hay, ks),
{
}

/// An enabled entry that is not always included is matched, while fewer
/// than 8 entries are, as soon as any one of its keywords hits.
pub proof fn lemma_entry_matched_by_any_keyword(es: Seq<LoreView>, e: LoreView, hay: Seq<char>, k: int)
    requires
        e.enabled,
        !e.always_include,
        chosen(es, hay).1.len() < MAX_MATCHED_ENTRIES,
        0 <= k < e.keywords.len(),
        keyword_hit(hay, seq![e.keywords[k]]),
    ensures
        chosen(es.push(e), hay) == (chosen(es, hay).0, chosen(es, hay).1.push(e)),
{
    lemma_keyword_hit_any(hay, e.keywords);
    assert(es.push(e).drop_last() =~= es);
}

/// Keywords hit only in a non-empty haystack and only when one of them,
/// trimmed, is not blank and occurs lower-cased in it.
pub proof fn lemma_hit_needs_occurrence(hay: Seq<char>, ks: Seq<Seq<char>>)
    requires
        keyword_hit(hay, ks),
    ensures
        hay.len() > 0,
        exists|k: int|
            0 <= k < ks.len() && trim_seq(#[trigger] ks[k]).len() > 0 && contains_seq(hay, lowercase(trim_seq(ks[k]))),
{
}

/// An entry whose keywords do not hit is not matched, and a disabled entry
/// is never chosen: the choice is what it was without them.
pub proof fn lemma_entry_not_chosen(es: Seq<LoreView>, e: LoreView, hay: Seq<char>)
    requires
        !e.enabled || (!e.always_include && !keyword_hit(hay, e.keywords)),
    ensures
        chosen(es.push(e), hay) == chosen(es, hay),
{
    assert(es.push(e).drop_last() =~= es);
}

} // verus!
