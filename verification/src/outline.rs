//! Reading the sections of a planned story outline: the opening situation and
//! the suggested beats, or, for free-form text, its paragraphs.
use vstd::prelude::*;

use crate::text::{str_chars, string_of_chars, trim_chars, trim_seq};

verus! {

/// The pieces of `s` between `\n` characters (an empty piece after a final
/// `\n`).
pub open spec fn lines_of(s: Seq<char>) -> Seq<Seq<char>>
    decreases s.len(),
{
    if s.len() == 0 {
        seq![seq![]]
    } else {
        let r = lines_of(s.drop_last());
        if s.last() == '\n' {
            r.push(seq![])
        } else {
            r.update(r.len() - 1, r.last().push(s.last()))
        }
    }
}

/// There is always at least one piece.
pub proof fn lemma_lines_nonempty(s: Seq<char>)
    ensures
        lines_of(s).len() >= 1,
    decreases s.len(),
{
    if s.len() > 0 {
        lemma_lines_nonempty(s.drop_last());
    }
}

/// The views of character vectors.
pub open spec fn char_vec_views(v: Seq<Vec<char>>) -> Seq<Seq<char>> {
    v.map_values(|x: Vec<char>| x@)
}

/// Splits characters at `\n` (see `lines_of`).
pub fn split_lines(s: &[char]) -> (r: Vec<Vec<char>>)
    ensures
        char_vec_views(r@) == lines_of(s@),
{
    let mut out: Vec<Vec<char>> = Vec::new();
    let mut cur: Vec<char> = Vec::new();
    let mut k: usize = 0;
    assert(s@.take(0) =~= Seq::<char>::empty());
    while k < s.len()
        invariant
            k <= s@.len(),
            char_vec_views(out@).push(cur@) =~= lines_of(s@.take(k as int)),
        decreases s.len() - k,
    {
        proof {
            assert(s@.take(k + 1).drop_last() =~= s@.take(k as int));
            assert(s@.take(k + 1).last() == s@[k as int]);
            lemma_lines_nonempty(s@.take(k as int));
        }
        if s[k] == '\n' {
            let ghost before = out@;
            let done = cur;
            out.push(done);
            cur = Vec::new();
            proof {
                assert(out@ =~= before.push(out@.last()));
                assert(char_vec_views(out@) =~= char_vec_views(before).push(out@.last()@));
            }
        } else {
            cur.push(s[k]);
        }
        k = k + 1;
    }
    proof {
        assert(s@.take(s@.len() as int) =~= s@);
    }
    let ghost before = out@;
    out.push(cur);
    proof {
        assert(out@ =~= before.push(out@.last()));
        assert(char_vec_views(out@) =~= char_vec_views(before).push(out@.last()@));
    }
    out
}

/// Whether `p` is a prefix of `s`.
pub open spec fn has_prefix(s: Seq<char>, p: Seq<char>) -> bool {
    p.len() <= s.len() && s.subrange(0, p.len() as int) == p
}

/// Whether a sequence of characters starts with `p`.
fn starts_with(s: &[char], p: &[char]) -> (b: bool)
    ensures
        b == has_prefix(s@, p@),
{
    if p.len() > s.len() {
        return false;
    }
    let mut i: usize = 0;
    while i < p.len()
        invariant
            p@.len() <= s@.len(),
            i <= p@.len(),
            forall|j: int| 0 <= j < i ==> s@[j] == p@[j],
        decreases p.len() - i,
    {
        if s[i] != p[i] {
            assert(s@.subrange(0, p@.len() as int)[i as int] != p@[i as int]);
            return false;
        }
        i = i + 1;
    }
    assert(s@.subrange(0, p@.len() as int) =~= p@);
    true
}

/// Whether two sequences of characters are equal.
fn same_chars(a: &[char], b: &[char]) -> (r: bool)
    ensures
        r == (a@ == b@),
{
    if a.len() != b.len() {
        return false;
    }
    let r = starts_with(a, b);
    proof {
        if r {
            assert(a@.subrange(0, b@.len() as int) =~= a@);
        } else {
            assert(a@.subrange(0, b@.len() as int) =~= a@);
        }
    }
    r
}

/// A character that may mark a beat: `-`, `*`, an ASCII digit, `.` or `)`.
pub open spec fn is_beat_marker(c: char) -> bool {
    c == '-' || c == '*' || ('0' <= c && c <= '9') || c == '.' || c == ')'
}

/// `s` without its leading beat markers.
pub open spec fn strip_markers(s: Seq<char>) -> Seq<char>
    decreases s.len(),
{
    if s.len() > 0 && is_beat_marker(s[0]) {
        strip_markers(s.drop_first())
    } else {
        s
    }
}

/// The headings that end the list of beats.
pub open spec fn is_other_heading(t: Seq<char>) -> bool {
    t == "Title:"@ || t == "Core Conflict:"@ || t == "Character Roles:"@ || t == "State Hints:"@
}

/// One line of the outline read: the sections found so far and whether the
/// reader is inside the list of suggested beats.
pub open spec fn outline_step(st: (Seq<Seq<char>>, bool), raw: Seq<char>) -> (Seq<Seq<char>>, bool) {
    let t = trim_seq(raw);
    let opening = "Opening Situation:"@;
    if t.len() == 0 {
        st
    } else if has_prefix(t, opening) {
        let o = trim_seq(t.subrange(opening.len() as int, t.len() as int));
        (if o.len() > 0 {
            st.0.push(o)
        } else {
            st.0
        }, false)
    } else if t == "Suggested Beats:"@ {
        (st.0, true)
    } else if is_other_heading(t) {
        (st.0, false)
    } else if st.1 {
        let b = trim_seq(strip_markers(t));
        (if b.len() > 0 {
            st.0.push(b)
        } else {
            st.0
        }, true)
    } else {
        st
    }
}

/// The outline read line by line.
pub open spec fn outline_fold(lines: Seq<Seq<char>>) -> (Seq<Seq<char>>, bool)
    decreases lines.len(),
{
    if lines.len() == 0 {
        (seq![], false)
    } else {
        outline_step(outline_fold(lines.drop_last()), lines.last())
    }
}

/// The first position of a blank line separator (`\n\n`) in `s`, from `i`.
pub open spec fn first_break(s: Seq<char>, i: int) -> Option<int>
    decreases s.len() - i,
{
    if i < 0 || i + 1 >= s.len() {
        None
    } else if s[i] == '\n' && s[i + 1] == '\n' {
        Some(i)
    } else {
        first_break(s, i + 1)
    }
}

/// The pieces of `s` between `\n\n` separators, matched from the left
/// without overlap (`str::split("\n\n")`).
pub open spec fn paragraphs(s: Seq<char>) -> Seq<Seq<char>>
    decreases s.len(),
{
    match first_break(s, 0) {
        None => seq![s],
        Some(i) => if 0 <= i && i + 2 <= s.len() {
            seq![s.subrange(0, i)] + paragraphs(s.subrange(i + 2, s.len() as int))
        } else {
            seq![s]
        },
    }
}

/// A paragraph kept as a section: not empty, not a heading ending in `:`.
pub open spec fn kept_paragraph(p: Seq<char>) -> bool {
    p.len() > 0 && p.last() != ':'
}

/// The trimmed paragraphs of `s` that are kept as sections.
pub open spec fn paragraph_sections(s: Seq<char>) -> Seq<Seq<char>> {
    paragraphs(s).map_values(|p: Seq<char>| trim_seq(p)).filter(|p: Seq<char>| kept_paragraph(p))
}

/// The sections of a planned story: the opening situation and the suggested
/// beats when the outline has them, otherwise its paragraphs.
pub open spec fn outline_sections(s: Seq<char>) -> Seq<Seq<char>> {
    let found = outline_fold(lines_of(s)).0;
    if found.len() == 0 {
        paragraph_sections(s)
    } else {
        found
    }
}

/// The position of the first `\n\n` in `s` from `i`.
fn find_break(s: &[char], i: usize) -> (r: Option<usize>)
    ensures
        match r {
            Some(j) => first_break(s@, i as int) == Some(j as int) && i <= j && j + 2 <= s@.len(),
            None => first_break(s@, i as int) is None,
        },
{
    let mut j: usize = i;
    if i >= s.len() {
        return None;
    }
    while j < s.len() && s.len() - j > 1
        invariant
            i <= j <= s@.len(),
            first_break(s@, i as int) == first_break(s@, j as int),
        decreases s.len() - j,
    {
        if s[j] == '\n' && s[j + 1] == '\n' {
            return Some(j);
        }
        j = j + 1;
    }
    None
}

/// `first_break` of a suffix is shifted from that of the whole.
proof fn lemma_break_shift(s: Seq<char>, start: int, i: int)
    requires
        0 <= start <= s.len(),
        0 <= i,
    ensures
        first_break(s.subrange(start, s.len() as int), i) == match first_break(s, start + i) {
            Some(j) => Some(j - start),
            None => None::<int>,
        },
    decreases s.len() - start - i,
{
    let t = s.subrange(start, s.len() as int);
    if i + 1 < t.len() {
        assert(t[i] == s[start + i]);
        assert(t[i + 1] == s[start + i + 1]);
        if !(t[i] == '\n' && t[i + 1] == '\n') {
            lemma_break_shift(s, start, i + 1);
        }
    }
}

/// Splits characters at `\n\n` separators (see `paragraphs`).
fn split_paragraphs(s: &[char]) -> (r: Vec<Vec<char>>)
    ensures
        char_vec_views(r@) == paragraphs(s@),
{
    let mut out: Vec<Vec<char>> = Vec::new();
    let mut start: usize = 0;
    assert(s@.subrange(0, s@.len() as int) =~= s@);
    loop
        invariant
            start <= s@.len(),
            char_vec_views(out@) + paragraphs(s@.subrange(start as int, s@.len() as int)) == paragraphs(
                s@,
            ),
        decreases s.len() - start,
    {
        let ghost rest = s@.subrange(start as int, s@.len() as int);
        proof {
            lemma_break_shift(s@, start as int, 0);
        }
        match find_break(s, start) {
            None => {
                let mut piece: Vec<char> = Vec::new();
                let mut k: usize = start;
                while k < s.len()
                    invariant
                        start <= k <= s@.len(),
                        piece@ =~= s@.subrange(start as int, k as int),
                    decreases s.len() - k,
                {
                    piece.push(s[k]);
                    k = k + 1;
                }
                let ghost before = out@;
                out.push(piece);
                proof {
                    assert(out@ =~= before.push(out@.last()));
                    assert(char_vec_views(out@) =~= char_vec_views(before).push(rest));
                    assert(paragraphs(rest) == seq![rest]);
                    assert(char_vec_views(before) + seq![rest] =~= char_vec_views(before).push(rest));
                }
                return out;
            },
            Some(j) => {
                let mut piece: Vec<char> = Vec::new();
                let mut k: usize = start;
                while k < j
                    invariant
                        start <= k <= j,
                        j + 2 <= s@.len(),
                        piece@ =~= s@.subrange(start as int, k as int),
                    decreases j - k,
                {
                    piece.push(s[k]);
                    k = k + 1;
                }
                let ghost before = out@;
                out.push(piece);
                proof {
                    let jj = j - start;
                    assert(first_break(rest, 0) == Some(jj as int));
                    assert(rest.subrange(0, jj as int) =~= s@.subrange(start as int, j as int));
                    assert(rest.subrange(jj + 2, rest.len() as int) =~= s@.subrange(
                        j + 2,
                        s@.len() as int,
                    ));
                    assert(paragraphs(rest) == seq![rest.subrange(0, jj as int)] + paragraphs(
                        rest.subrange(jj + 2, rest.len() as int),
                    ));
                    assert(out@ =~= before.push(out@.last()));
                    assert(char_vec_views(out@) =~= char_vec_views(before).push(
                        s@.subrange(start as int, j as int),
                    ));
                    assert(char_vec_views(out@) + paragraphs(s@.subrange(j + 2, s@.len() as int))
                        =~= char_vec_views(before) + paragraphs(rest));
                }
                start = j + 2;
            },
        }
    }
}

/// `s` without its leading beat markers.
fn strip_beat_markers(s: &[char]) -> (r: Vec<char>)
    ensures
        r@ == strip_markers(s@),
{
    let mut i: usize = 0;
    assert(s@.subrange(0, s@.len() as int) =~= s@);
    while i < s.len() && (s[i] == '-' || s[i] == '*' || ('0' <= s[i] && s[i] <= '9') || s[i] == '.'
        || s[i] == ')')
        invariant
            i <= s@.len(),
            strip_markers(s@) == strip_markers(s@.subrange(i as int, s@.len() as int)),
        decreases s.len() - i,
    {
        proof {
            let sub = s@.subrange(i as int, s@.len() as int);
            assert(sub.drop_first() =~= s@.subrange(i + 1, s@.len() as int));
        }
        i = i + 1;
    }
    let mut out: Vec<char> = Vec::new();
    let mut k: usize = i;
    while k < s.len()
        invariant
            i <= k <= s@.len(),
            out@ =~= s@.subrange(i as int, k as int),
        decreases s.len() - k,
    {
        out.push(s[k]);
        k = k + 1;
    }
    proof {
        let sub = s@.subrange(i as int, s@.len() as int);
        assert(strip_markers(sub) == sub) by {
            if sub.len() > 0 {
                assert(sub[0] == s@[i as int]);
            }
        }
    }
    out
}

/// Reads one line of the outline (see `outline_step`).
fn read_outline_line(sections: &mut Vec<Vec<char>>, in_beats: &mut bool, raw: &[char])
    ensures
        (char_vec_views(final(sections)@), *final(in_beats)) == outline_step(
            (char_vec_views(old(sections)@), *old(in_beats)),
            raw@,
        ),
{
    let ghost before = sections@;
    let t = trim_chars(raw);
    if t.len() == 0 {
        return;
    }
    let opening = str_chars("Opening Situation:");
    if starts_with(t.as_slice(), opening.as_slice()) {
        let mut rest: Vec<char> = Vec::new();
        let mut k: usize = opening.len();
        while k < t.len()
            invariant
                opening@.len() <= k <= t@.len(),
                rest@ =~= t@.subrange(opening@.len() as int, k as int),
            decreases t.len() - k,
        {
            rest.push(t[k]);
            k = k + 1;
        }
        let o = trim_chars(rest.as_slice());
        if o.len() > 0 {
            sections.push(o);
            proof {
                assert(sections@ =~= before.push(sections@.last()));
                assert(char_vec_views(sections@) =~= char_vec_views(before).push(sections@.last()@));
            }
        }
        *in_beats = false;
        return;
    }
    let beats_heading = str_chars("Suggested Beats:");
    if same_chars(t.as_slice(), beats_heading.as_slice()) {
        *in_beats = true;
        return;
    }
    let h1 = str_chars("Title:");
    let h2 = str_chars("Core Conflict:");
    let h3 = str_chars("Character Roles:");
    let h4 = str_chars("State Hints:");
    if same_chars(t.as_slice(), h1.as_slice()) || same_chars(t.as_slice(), h2.as_slice()) || same_chars(
        t.as_slice(),
        h3.as_slice(),
    ) || same_chars(t.as_slice(), h4.as_slice()) {
        *in_beats = false;
        return;
    }
    if *in_beats {
        let stripped = strip_beat_markers(t.as_slice());
        let b = trim_chars(stripped.as_slice());
        if b.len() > 0 {
            sections.push(b);
            proof {
                assert(sections@ =~= before.push(sections@.last()));
                assert(char_vec_views(sections@) =~= char_vec_views(before).push(sections@.last()@));
            }
        }
    }
}

/// The sections of a planned story outline: the text after `Opening
/// Situation:` and each suggested beat (without its bullet or number), in
/// order; when the outline has none of these, its non-empty paragraphs that
/// do not end in `:`.
pub fn extract_outline_sections(planned_story: &str) -> (r: Vec<String>)
    ensures
        crate::text::string_seq_views(r@) == outline_sections(planned_story@),
{
    let chars = str_chars(planned_story);
    let lines = split_lines(chars.as_slice());
    let ghost lv = char_vec_views(lines@);
    let mut sections: Vec<Vec<char>> = Vec::new();
    let mut in_beats = false;
    let mut i: usize = 0;
    while i < lines.len()
        invariant
            lv == char_vec_views(lines@),
            i <= lines@.len(),
            (char_vec_views(sections@), in_beats) == outline_fold(lv.take(i as int)),
        decreases lines.len() - i,
    {
        proof {
            assert(lv.take(i + 1).drop_last() =~= lv.take(i as int));
            assert(lv.take(i + 1).last() == lines@[i as int]@);
        }
        read_outline_line(&mut sections, &mut in_beats, lines[i].as_slice());
        i = i + 1;
    }
    proof {
        assert(lv.take(lines@.len() as int) =~= lv);
    }
    let chosen = if sections.len() == 0 {
        let pieces = split_paragraphs(chars.as_slice());
        let ghost pv = char_vec_views(pieces@);
        let ghost tf = |p: Seq<char>| trim_seq(p);
        let ghost kp = |p: Seq<char>| kept_paragraph(p);
        let mut kept: Vec<Vec<char>> = Vec::new();
        let mut k: usize = 0;
        while k < pieces.len()
            invariant
                pv == char_vec_views(pieces@),
                tf == (|p: Seq<char>| trim_seq(p)),
                kp == (|p: Seq<char>| kept_paragraph(p)),
                k <= pieces@.len(),
                char_vec_views(kept@) == pv.take(k as int).map_values(tf).filter(kp),
            decreases pieces.len() - k,
        {
            let t = trim_chars(pieces[k].as_slice());
            proof {
                assert(pv.take(k + 1).map_values(tf) =~= pv.take(k as int).map_values(tf).push(
                    tf(pv[k as int]),
                ));
                pv.take(k as int).map_values(tf).lemma_filter_push(tf(pv[k as int]), kp);
            }
            if t.len() > 0 && t[t.len() - 1] != ':' {
                let ghost before = kept@;
                kept.push(t);
                proof {
                    assert(kept@ =~= before.push(kept@.last()));
                    assert(char_vec_views(kept@) =~= char_vec_views(before).push(kept@.last()@));
                }
            }
            k = k + 1;
        }
        proof {
            assert(pv.take(pieces@.len() as int) =~= pv);
        }
        kept
    } else {
        sections
    };
    let mut out: Vec<String> = Vec::new();
    let mut j: usize = 0;
    while j < chosen.len()
        invariant
            j <= chosen@.len(),
            crate::text::string_seq_views(out@) =~= char_vec_views(chosen@).take(j as int),
        decreases chosen.len() - j,
    {
        let ghost before = out@;
        out.push(string_of_chars(chosen[j].as_slice()));
        proof {
            assert(out@ =~= before.push(out@.last()));
            assert(char_vec_views(chosen@).take(j + 1) =~= char_vec_views(chosen@).take(j as int).push(
                chosen@[j as int]@,
            ));
        }
        j = j + 1;
    }
    proof {
        assert(char_vec_views(chosen@).take(chosen@.len() as int) =~= char_vec_views(chosen@));
    }
    out
}

/// A line that is one of the headings `Title:`, `Core Conflict:`,
/// `Character Roles:` or `State Hints:` (around whitespace) is never a
/// section, and it ends the list of suggested beats.
pub proof fn lemma_heading_ends_beats(st: (Seq<Seq<char>>, bool), raw: Seq<char>)
    requires
        trim_seq(raw) == "Title:"@ || trim_seq(raw) == "Core Conflict:"@ || trim_seq(raw) == "Character Roles:"@
            || trim_seq(raw) == "State Hints:"@,
    ensures
        outline_step(st, raw) == (st.0, false),
{
    let t = trim_seq(raw);
    let opening = "Opening Situation:"@;
    reveal_strlit("Title:");
    reveal_strlit("Core Conflict:");
    reveal_strlit("Character Roles:");
    reveal_strlit("State Hints:");
    reveal_strlit("Opening Situation:");
    reveal_strlit("Suggested Beats:");
    assert(t.len() > 0);
    if has_prefix(t, opening) {
        assert(t.subrange(0, opening.len() as int) == opening);
        assert(t[0] == opening[0]);
        if t == "Character Roles:"@ {
            assert(t[1] == opening[1]);
        }
        assert(false);
    }
    if t == "Suggested Beats:"@ {
        assert(t[0] == 'S');
        if t == "State Hints:"@ {
            assert(t[1] == "Suggested Beats:"@[1]);
        }
        assert(false);
    }
}

/// Outside the list of suggested beats, a line that neither opens the
/// situation nor starts the beats adds no section.
pub proof fn lemma_no_section_outside_beats(st: (Seq<Seq<char>>, bool), raw: Seq<char>)
    requires
        !st.1,
        !has_prefix(trim_seq(raw), "Opening Situation:"@),
        trim_seq(raw) != "Suggested Beats:"@,
    ensures
        outline_step(st, raw).0 == st.0,
        !outline_step(st, raw).1,
{
}

/// Reading the lines after one of those headings adds no section until a
/// line opens the situation or starts the beats again.
pub proof fn lemma_nothing_after_heading(prefix: Seq<Seq<char>>, heading: Seq<char>, rest: Seq<Seq<char>>)
    requires
        trim_seq(heading) == "Title:"@ || trim_seq(heading) == "Core Conflict:"@ || trim_seq(heading)
            == "Character Roles:"@ || trim_seq(heading) == "State Hints:"@,
        forall|i: int|
            0 <= i < rest.len() ==> !has_prefix(trim_seq(#[trigger] rest[i]), "Opening Situation:"@) && trim_seq(
                rest[i],
            ) != "Suggested Beats:"@,
    ensures
        outline_fold(prefix.push(heading) + rest) == (outline_fold(prefix).0, false),
    decreases rest.len(),
{
    if rest.len() == 0 {
        assert(prefix.push(heading) + rest =~= prefix.push(heading));
        assert(prefix.push(heading).drop_last() =~= prefix);
        lemma_heading_ends_beats(outline_fold(prefix), heading);
    } else {
        let r1 = rest.drop_last();
        lemma_nothing_after_heading(prefix, heading, r1);
        let all = prefix.push(heading) + rest;
        assert(all.drop_last() =~= prefix.push(heading) + r1);
        assert(all.last() == rest.last());
        assert(rest[rest.len() - 1] == rest.last());
        lemma_no_section_outside_beats(outline_fold(prefix.push(heading) + r1), rest.last());
    }
}

/// A line `Opening Situation: <text>` adds its text, trimmed, as a section
/// when it is not blank, and ends the list of beats.
pub proof fn lemma_opening_line(st: (Seq<Seq<char>>, bool), raw: Seq<char>)
    requires
        has_prefix(trim_seq(raw), "Opening Situation:"@),
    ensures
        ({
            let t = trim_seq(raw);
            let o = trim_seq(t.subrange("Opening Situation:"@.len() as int, t.len() as int));
            outline_step(st, raw) == (if o.len() > 0 {
                st.0.push(o)
            } else {
                st.0
            }, false)
        }),
{
    reveal_strlit("Opening Situation:");
    assert(trim_seq(raw).len() > 0);
}

/// Inside the list of beats, a line that is not a heading adds its text,
/// without its leading beat markers and trimmed, when that is not blank.
pub proof fn lemma_beat_line(st: (Seq<Seq<char>>, bool), raw: Seq<char>)
    requires
        st.1,
        trim_seq(raw).len() > 0,
        !has_prefix(trim_seq(raw), "Opening Situation:"@),
        trim_seq(raw) != "Suggested Beats:"@,
        !is_other_heading(trim_seq(raw)),
    ensures
        outline_step(st, raw) == (if trim_seq(strip_markers(trim_seq(raw))).len() > 0 {
            st.0.push(trim_seq(strip_markers(trim_seq(raw))))
        } else {
            st.0
        }, true),
{
}

} // verus!
