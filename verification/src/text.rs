//! Character-level text helpers shared by the prompt, lorebook and logging code.
//!
//! Strings are reasoned about through their views (`Seq<char>`); the helpers
//! below trim, collapse whitespace, truncate and search those sequences.
use vstd::prelude::*;

verus! {

/// Unicode `White_Space` code points, the set that `char::is_whitespace` tests.
pub open spec fn is_ws(c: char) -> bool {
    let u = c as u32;
    ||| 0x9 <= u <= 0xD
    ||| u == 0x20
    ||| u == 0x85
    ||| u == 0xA0
    ||| u == 0x1680
    ||| 0x2000 <= u <= 0x200A
    ||| u == 0x2028
    ||| u == 0x2029
    ||| u == 0x202F
    ||| u == 0x205F
    ||| u == 0x3000
}

/// Whether a character is whitespace, as `char::is_whitespace` decides: true
/// exactly for the code points of the Unicode `White_Space` property.
pub(crate) fn char_is_whitespace(c: char) -> (b: bool)
    ensures
        b == is_ws(c),
{
    let u = c as u32;
    (0x9 <= u && u <= 0xD) || u == 0x20 || u == 0x85 || u == 0xA0 || u == 0x1680 || (0x2000 <= u && u <= 0x200A)
        || u == 0x2028 || u == 0x2029 || u == 0x202F || u == 0x205F || u == 0x3000
}

/// Calls `str::chars` and collects the characters in order; the vector holds
/// exactly the characters of the string.
#[verifier::external_body]
pub(crate) fn str_chars(s: &str) -> (v: Vec<char>)
    ensures
        v@ == s@,
{
    s.chars().collect()
}

/// Collects characters into a `String` (`FromIterator<char>`); the string holds
/// exactly those characters.
#[verifier::external_body]
pub(crate) fn string_of_chars(v: &[char]) -> (s: String)
    ensures
        s@ == v@,
{
    v.iter().collect()
}

/// What `str::to_lowercase` returns for a string (Unicode lower-case mapping).
pub uninterp spec fn lowercase(s: Seq<char>) -> Seq<char>;

/// Calls `str::to_lowercase`; its result is named `lowercase` of the input.
#[verifier::external_body]
pub(crate) fn str_to_lowercase(s: &str) -> (r: String)
    ensures
        r@ == lowercase(s@),
{
    s.to_lowercase()
}

/// Decimal digits of a natural number, most significant first, no sign.
pub open spec fn decimal(n: nat) -> Seq<char>
    decreases n,
{
    let digit = (('0' as u32) + (n % 10) as u32) as char;
    if n < 10 {
        seq![digit]
    } else {
        decimal(n / 10).push(digit)
    }
}

/// Calls `ToString::to_string` on a `u64`; the result is its decimal form.
#[verifier::external_body]
pub(crate) fn u64_decimal(n: u64) -> (s: String)
    ensures
        s@ == decimal(n as nat),
{
    n.to_string()
}

/// Calls `ToString::to_string` on a `usize`; the result is its decimal form.
#[verifier::external_body]
pub(crate) fn usize_decimal(n: usize) -> (s: String)
    ensures
        s@ == decimal(n as nat),
{
    n.to_string()
}

/// `s` with leading whitespace removed.
pub open spec fn trim_start_seq(s: Seq<char>) -> Seq<char>
    decreases s.len(),
{
    if s.len() > 0 && is_ws(s[0]) {
        trim_start_seq(s.drop_first())
    } else {
        s
    }
}

/// `s` with trailing whitespace removed.
pub open spec fn trim_end_seq(s: Seq<char>) -> Seq<char>
    decreases s.len(),
{
    if s.len() > 0 && is_ws(s.last()) {
        trim_end_seq(s.drop_last())
    } else {
        s
    }
}

/// `s` with leading and trailing whitespace removed (`str::trim`).
pub open spec fn trim_seq(s: Seq<char>) -> Seq<char> {
    trim_end_seq(trim_start_seq(s))
}

/// True when `s` holds only whitespace (so `s.trim().is_empty()`).
pub open spec fn is_blank(s: Seq<char>) -> bool {
    forall|i: int| 0 <= i < s.len() ==> is_ws(#[trigger] s[i])
}

proof fn lemma_trim_start_skip(s: Seq<char>, i: int)
    requires
        0 <= i < s.len(),
        is_ws(s[i]),
    ensures
        trim_start_seq(s.subrange(i, s.len() as int)) == trim_start_seq(
            s.subrange(i + 1, s.len() as int),
        ),
{
    assert(s.subrange(i, s.len() as int).drop_first() =~= s.subrange(i + 1, s.len() as int));
}

proof fn lemma_trim_end_drop(s: Seq<char>, j: int)
    requires
        0 < j <= s.len(),
        is_ws(s[j - 1]),
    ensures
        trim_end_seq(s.subrange(0, j)) == trim_end_seq(s.subrange(0, j - 1)),
{
    assert(s.subrange(0, j).drop_last() =~= s.subrange(0, j - 1));
}

/// The blank strings are exactly those that trim to nothing.
pub proof fn lemma_trim_start_empty_iff_blank(s: Seq<char>)
    ensures
        (trim_start_seq(s).len() == 0) == is_blank(s),
    decreases s.len(),
{
    if s.len() > 0 {
        lemma_trim_start_empty_iff_blank(s.drop_first());
        if is_ws(s[0]) {
            assert forall|i: int| 0 <= i < s.len() && is_blank(s.drop_first()) implies is_ws(
                #[trigger] s[i],
            ) by {
                if i > 0 {
                    assert(s[i] == s.drop_first()[i - 1]);
                }
            }
            assert(is_blank(s) ==> is_blank(s.drop_first())) by {
                if is_blank(s) {
                    assert forall|k: int| 0 <= k < s.drop_first().len() implies is_ws(
                        #[trigger] s.drop_first()[k],
                    ) by {
                        assert(s.drop_first()[k] == s[k + 1]);
                    }
                }
            }
        }
    }
}

proof fn lemma_trim_end_empty(s: Seq<char>)
    ensures
        s.len() == 0 ==> trim_end_seq(s).len() == 0,
        trim_end_seq(s).len() == 0 ==> s.len() == 0 || is_blank(s),
    decreases s.len(),
{
    if s.len() > 0 && is_ws(s.last()) {
        lemma_trim_end_empty(s.drop_last());
        if trim_end_seq(s).len() == 0 {
            if s.drop_last().len() > 0 {
                assert forall|i: int| 0 <= i < s.len() implies is_ws(#[trigger] s[i]) by {
                    if i < s.len() - 1 {
                        assert(s[i] == s.drop_last()[i]);
                    }
                }
            }
        }
    }
}

proof fn lemma_trim_start_not_blank_head(s: Seq<char>)
    requires
        trim_start_seq(s).len() > 0,
    ensures
        !is_ws(trim_start_seq(s)[0]),
    decreases s.len(),
{
    if s.len() > 0 && is_ws(s[0]) {
        lemma_trim_start_not_blank_head(s.drop_first());
    }
}

proof fn lemma_trim_end_keeps_head(s: Seq<char>)
    requires
        s.len() > 0,
        !is_ws(s[0]),
    ensures
        trim_end_seq(s).len() > 0,
        trim_end_seq(s)[0] == s[0],
    decreases s.len(),
{
    if is_ws(s.last()) {
        assert(s.len() > 1);
        lemma_trim_end_keeps_head(s.drop_last());
    }
}

/// A string trims to nothing exactly when it is blank.
pub proof fn lemma_trim_empty_iff_blank(s: Seq<char>)
    ensures
        (trim_seq(s).len() == 0) == is_blank(s),
{
    lemma_trim_start_empty_iff_blank(s);
    let t = trim_start_seq(s);
    if t.len() > 0 {
        lemma_trim_start_not_blank_head(s);
        lemma_trim_end_keeps_head(t);
    } else {
        lemma_trim_end_empty(t);
    }
}

proof fn lemma_trim_end_last(s: Seq<char>)
    requires
        trim_end_seq(s).len() > 0,
    ensures
        !is_ws(trim_end_seq(s).last()),
    decreases s.len(),
{
    if s.len() > 0 && is_ws(s.last()) {
        lemma_trim_end_last(s.drop_last());
    }
}

/// Trimming twice is trimming once.
pub proof fn lemma_trim_idempotent(s: Seq<char>)
    ensures
        trim_seq(trim_seq(s)) == trim_seq(s),
{
    let t = trim_seq(s);
    let u = trim_start_seq(s);
    if u.len() > 0 {
        lemma_trim_start_not_blank_head(s);
        lemma_trim_end_keeps_head(u);
        lemma_trim_end_last(u);
        assert(trim_start_seq(t) == t);
        assert(trim_end_seq(t) == t);
    } else {
        lemma_trim_end_empty(u);
        assert(t.len() == 0);
        assert(trim_start_seq(t) == t);
    }
}

/// Removes leading and trailing whitespace (`str::trim`) from a sequence of
/// characters.
pub fn trim_chars(s: &[char]) -> (r: Vec<char>)
    ensures
        r@ == trim_seq(s@),
{
    let n = s.len();
    let mut i: usize = 0;
    assert(s@.subrange(0, n as int) =~= s@);
    while i < n && char_is_whitespace(s[i])
        invariant
            n == s@.len(),
            i <= n,
            trim_start_seq(s@) == trim_start_seq(s@.subrange(i as int, n as int)),
        decreases n - i,
    {
        proof {
            lemma_trim_start_skip(s@, i as int);
        }
        i = i + 1;
    }
    let ghost rest = s@.subrange(i as int, n as int);
    assert(trim_start_seq(rest) == rest) by {
        if rest.len() > 0 {
            assert(rest[0] == s@[i as int]);
        }
    }
    let mut j: usize = n;
    while j > i && char_is_whitespace(s[j - 1])
        invariant
            n == s@.len(),
            i <= j <= n,
            rest == s@.subrange(i as int, n as int),
            trim_end_seq(rest) == trim_end_seq(s@.subrange(i as int, j as int)),
        decreases j - i,
    {
        proof {
            let sub = s@.subrange(i as int, j as int);
            assert(sub.drop_last() =~= s@.subrange(i as int, j - 1));
        }
        j = j - 1;
    }
    let mut out: Vec<char> = Vec::new();
    let mut k: usize = i;
    while k < j
        invariant
            n == s@.len(),
            i <= k <= j <= n,
            out@ =~= s@.subrange(i as int, k as int),
        decreases j - k,
    {
        out.push(s[k]);
        k = k + 1;
    }
    proof {
        let sub = s@.subrange(i as int, j as int);
        assert(trim_end_seq(sub) == sub) by {
            if sub.len() > 0 {
                assert(sub.last() == s@[j - 1]);
            }
        }
        assert(out@ =~= sub);
    }
    out
}

/// `str::trim`, returning an owned string.
pub fn trim_text(s: &str) -> (r: String)
    ensures
        r@ == trim_seq(s@),
{
    let v = str_chars(s);
    let t = trim_chars(v.as_slice());
    string_of_chars(t.as_slice())
}

/// Whether a string holds only whitespace (`s.trim().is_empty()`).
pub fn text_is_blank(s: &str) -> (b: bool)
    ensures
        b == is_blank(s@),
        b == (trim_seq(s@).len() == 0),
{
    let v = str_chars(s);
    let mut i: usize = 0;
    while i < v.len()
        invariant
            v@ == s@,
            i <= v@.len(),
            forall|k: int| 0 <= k < i ==> is_ws(#[trigger] v@[k]),
        decreases v.len() - i,
    {
        if !char_is_whitespace(v[i]) {
            proof {
                lemma_trim_empty_iff_blank(s@);
            }
            return false;
        }
        i = i + 1;
    }
    proof {
        lemma_trim_empty_iff_blank(s@);
    }
    true
}

/// `s` with trailing whitespace removed (`str::trim_end`), as an owned string.
pub fn trim_end_text(s: &str) -> (r: String)
    ensures
        r@ == trim_end_seq(s@),
{
    let v = str_chars(s);
    let n = v.len();
    let mut j: usize = n;
    assert(s@.subrange(0, n as int) =~= s@);
    while j > 0 && char_is_whitespace(v[j - 1])
        invariant
            v@ == s@,
            n == v@.len(),
            j <= n,
            trim_end_seq(s@) == trim_end_seq(s@.subrange(0, j as int)),
        decreases j,
    {
        proof {
            lemma_trim_end_drop(s@, j as int);
        }
        j = j - 1;
    }
    let mut out: Vec<char> = Vec::new();
    let mut k: usize = 0;
    while k < j
        invariant
            v@ == s@,
            k <= j <= n,
            n == v@.len(),
            out@ =~= s@.subrange(0, k as int),
        decreases j - k,
    {
        out.push(v[k]);
        k = k + 1;
    }
    proof {
        let sub = s@.subrange(0, j as int);
        assert(trim_end_seq(sub) == sub) by {
            if sub.len() > 0 {
                assert(sub.last() == s@[j - 1]);
            }
        }
        assert(out@ =~= sub);
    }
    string_of_chars(out.as_slice())
}

/// The first `n` characters of `s`.
pub open spec fn take_chars(s: Seq<char>, n: nat) -> Seq<char> {
    if s.len() <= n {
        s
    } else {
        s.subrange(0, n as int)
    }
}

/// Copies the first `n` characters of `s` (all of them when `s` is shorter).
pub fn take_prefix(s: &[char], n: usize) -> (r: Vec<char>)
    ensures
        r@ == take_chars(s@, n as nat),
{
    let m = if s.len() <= n { s.len() } else { n };
    let mut out: Vec<char> = Vec::new();
    let mut k: usize = 0;
    while k < m
        invariant
            m <= s@.len(),
            k <= m,
            m == (if s@.len() <= n { s@.len() } else { n as nat }),
            out@ =~= s@.subrange(0, k as int),
        decreases m - k,
    {
        out.push(s[k]);
        k = k + 1;
    }
    proof {
        assert(out@ =~= take_chars(s@, n as nat));
    }
    out
}

/// Appends all characters of `tail` to `out`.
pub fn push_all(out: &mut Vec<char>, tail: &[char])
    ensures
        final(out)@ == old(out)@ + tail@,
{
    let mut k: usize = 0;
    let ghost start = out@;
    while k < tail.len()
        invariant
            k <= tail@.len(),
            out@ =~= start + tail@.subrange(0, k as int),
            start == old(out)@,
        decreases tail.len() - k,
    {
        out.push(tail[k]);
        k = k + 1;
    }
    assert(out@ =~= old(out)@ + tail@);
}

/// Appends the characters of a string to `out`.
pub fn push_str(out: &mut Vec<char>, tail: &str)
    ensures
        final(out)@ == old(out)@ + tail@,
{
    let v = str_chars(tail);
    push_all(out, v.as_slice());
}

/// Concatenates two strings.
pub fn concat_text(a: &str, b: &str) -> (r: String)
    ensures
        r@ == a@ + b@,
{
    let mut v = str_chars(a);
    push_str(&mut v, b);
    string_of_chars(v.as_slice())
}

/// Whether `needle` occurs in `hay` starting at position `i`.
pub open spec fn occurs_at(hay: Seq<char>, needle: Seq<char>, i: int) -> bool {
    0 <= i && i + needle.len() <= hay.len() && hay.subrange(i, i + needle.len()) == needle
}

/// Whether `needle` occurs somewhere in `hay` (`str::contains`).
pub open spec fn contains_seq(hay: Seq<char>, needle: Seq<char>) -> bool {
    exists|i: int| occurs_at(hay, needle, i)
}

/// Searches `needle` in `hay`.
pub fn chars_contain(hay: &[char], needle: &[char]) -> (b: bool)
    ensures
        b == contains_seq(hay@, needle@),
{
    let n = hay.len();
    let m = needle.len();
    if m > n {
        assert forall|i: int| !occurs_at(hay@, needle@, i) by {}
        return false;
    }
    let mut i: usize = 0;
    while i <= n - m
        invariant
            n == hay@.len(),
            m == needle@.len(),
            m <= n,
            i <= n - m + 1,
            forall|k: int| 0 <= k < i ==> !occurs_at(hay@, needle@, k),
        decreases n - m + 1 - i,
    {
        let mut j: usize = 0;
        let mut same = true;
        while j < m
            invariant
                n == hay@.len(),
                m == needle@.len(),
                i + m <= n,
                j <= m,
                same == (forall|t: int| 0 <= t < j ==> hay@[i + t] == needle@[t]),
            decreases m - j,
        {
            if hay[i + j] != needle[j] {
                same = false;
            }
            j = j + 1;
        }
        if same {
            assert(hay@.subrange(i as int, i + m) =~= needle@);
            assert(occurs_at(hay@, needle@, i as int));
            return true;
        }
        assert(!occurs_at(hay@, needle@, i as int)) by {
            if occurs_at(hay@, needle@, i as int) {
                assert forall|t: int| 0 <= t < m implies hay@[i + t] == needle@[t] by {
                    assert(hay@.subrange(i as int, i + m)[t] == hay@[i + t]);
                }
            }
        }
        i = i + 1;
    }
    assert forall|k: int| !occurs_at(hay@, needle@, k) by {
        if 0 <= k && k < i {
        }
    }
    false
}

/// Number of leading non-whitespace characters of `s`.
pub open spec fn word_len(s: Seq<char>) -> nat
    decreases s.len(),
{
    if s.len() > 0 && !is_ws(s[0]) {
        1 + word_len(s.drop_first())
    } else {
        0
    }
}

pub proof fn lemma_trim_start_len(s: Seq<char>)
    ensures
        trim_start_seq(s).len() <= s.len(),
        trim_start_seq(s).len() > 0 ==> !is_ws(trim_start_seq(s)[0]),
    decreases s.len(),
{
    if s.len() > 0 && is_ws(s[0]) {
        lemma_trim_start_len(s.drop_first());
    }
}

pub proof fn lemma_word_len_bounds(s: Seq<char>)
    ensures
        word_len(s) <= s.len(),
        s.len() > 0 && !is_ws(s[0]) ==> word_len(s) >= 1,
    decreases s.len(),
{
    if s.len() > 0 && !is_ws(s[0]) {
        lemma_word_len_bounds(s.drop_first());
    }
}

/// The maximal runs of non-whitespace characters of `s`, in order
/// (`str::split_whitespace`).
pub open spec fn words(s: Seq<char>) -> Seq<Seq<char>>
    decreases s.len(),
{
    let t = trim_start_seq(s);
    if t.len() == 0 {
        seq![]
    } else {
        let w = word_len(t);
        proof {
            lemma_trim_start_len(s);
            lemma_word_len_bounds(t);
        }
        seq![t.subrange(0, w as int)] + words(t.subrange(w as int, t.len() as int))
    }
}

/// Each word preceded by one space, concatenated.
pub open spec fn prefixed_words(ws: Seq<Seq<char>>) -> Seq<char>
    decreases ws.len(),
{
    if ws.len() == 0 {
        seq![]
    } else {
        seq![' '] + ws[0] + prefixed_words(ws.drop_first())
    }
}

/// Words joined by single spaces (`join(" ")`).
pub open spec fn join_words(ws: Seq<Seq<char>>) -> Seq<char> {
    if ws.len() == 0 {
        seq![]
    } else {
        ws[0] + prefixed_words(ws.drop_first())
    }
}

/// Whitespace runs collapsed to single spaces and the ends trimmed
/// (`split_whitespace().join(" ")`).
pub open spec fn inline_seq(s: Seq<char>) -> Seq<char> {
    join_words(words(s))
}

proof fn lemma_words_skip_ws(s: Seq<char>, i: int)
    requires
        0 <= i < s.len(),
        is_ws(s[i]),
    ensures
        words(s.subrange(i, s.len() as int)) == words(s.subrange(i + 1, s.len() as int)),
{
    lemma_trim_start_skip(s, i);
}

proof fn lemma_word_len_step(s: Seq<char>, i: int)
    requires
        0 <= i < s.len(),
        !is_ws(s[i]),
    ensures
        word_len(s.subrange(i, s.len() as int)) == 1 + word_len(s.subrange(i + 1, s.len() as int)),
{
    assert(s.subrange(i, s.len() as int).drop_first() =~= s.subrange(i + 1, s.len() as int));
}

/// Collapses whitespace runs into single spaces and trims both ends.
pub fn inline_chars(s: &[char]) -> (r: Vec<char>)
    ensures
        r@ == inline_seq(s@),
{
    let n = s.len();
    let mut out: Vec<char> = Vec::new();
    let mut first = true;
    let mut i: usize = 0;
    assert(s@.subrange(0, n as int) =~= s@);
    while i < n
        invariant
            n == s@.len(),
            i <= n,
            first ==> out@.len() == 0 && words(s@.subrange(i as int, n as int)) == words(s@),
            !first ==> out@ + prefixed_words(words(s@.subrange(i as int, n as int))) == inline_seq(s@),
        decreases n - i,
    {
        if char_is_whitespace(s[i]) {
            proof {
                lemma_words_skip_ws(s@, i as int);
            }
            i = i + 1;
        } else {
            let ghost t = s@.subrange(i as int, n as int);
            let mut j: usize = i;
            while j < n && !char_is_whitespace(s[j])
                invariant
                    n == s@.len(),
                    i <= j <= n,
                    t == s@.subrange(i as int, n as int),
                    word_len(t) == (j - i) + word_len(s@.subrange(j as int, n as int)),
                decreases n - j,
            {
                proof {
                    lemma_word_len_step(s@, j as int);
                }
                j = j + 1;
            }
            proof {
                assert(word_len(s@.subrange(j as int, n as int)) == 0) by {
                    if j < n {
                        assert(s@.subrange(j as int, n as int)[0] == s@[j as int]);
                    }
                }
                assert(t[0] == s@[i as int]);
                assert(trim_start_seq(t) == t);
                assert(t.subrange(0, (j - i) as int) =~= s@.subrange(i as int, j as int));
                assert(t.subrange((j - i) as int, t.len() as int) =~= s@.subrange(j as int, n as int));
                assert(words(t) == seq![s@.subrange(i as int, j as int)] + words(s@.subrange(j as int, n as int)));
                let ws = words(t);
                assert(ws.drop_first() =~= words(s@.subrange(j as int, n as int)));
            }
            if !first {
                out.push(' ');
            }
            let ghost before = out@;
            let mut k: usize = i;
            while k < j
                invariant
                    n == s@.len(),
                    i <= k <= j <= n,
                    out@ =~= before + s@.subrange(i as int, k as int),
                decreases j - k,
            {
                out.push(s[k]);
                k = k + 1;
            }
            proof {
                let w = s@.subrange(i as int, j as int);
                let rest = words(s@.subrange(j as int, n as int));
                assert(prefixed_words(seq![w] + rest) == seq![' '] + w + prefixed_words(rest)) by {
                    assert((seq![w] + rest).drop_first() =~= rest);
                }
                if first {
                    assert(out@ =~= w);
                } else {
                    assert(out@ =~= before + w);
                    assert(before =~= out@.subrange(0, before.len() as int));
                }
            }
            first = false;
            i = j;
        }
    }
    proof {
        assert(words(s@.subrange(n as int, n as int)) =~= Seq::<Seq<char>>::empty()) by {
            assert(s@.subrange(n as int, n as int).len() == 0);
        }
        if first {
            assert(out@ =~= inline_seq(s@));
        } else {
            assert(out@ + prefixed_words(Seq::<Seq<char>>::empty()) =~= out@);
        }
    }
    out
}

/// `text.split_whitespace().collect::<Vec<_>>().join(" ")`.
pub fn normalize_inline_text(text: &str) -> (r: String)
    ensures
        r@ == inline_seq(text@),
{
    let v = str_chars(text);
    let t = inline_chars(v.as_slice());
    string_of_chars(t.as_slice())
}

/// At most `max` characters of `s`, followed by `...` when characters were cut
/// off.
pub open spec fn truncated_seq(s: Seq<char>, max: nat) -> Seq<char> {
    if s.len() <= max {
        s
    } else {
        s.subrange(0, max as int) + seq!['.', '.', '.']
    }
}

/// Keeps at most `max_chars` characters and appends `...` when the text was
/// longer.
pub fn truncate_chars(text: &str, max_chars: usize) -> (r: String)
    ensures
        r@ == truncated_seq(text@, max_chars as nat),
{
    let v = str_chars(text);
    let mut out = take_prefix(v.as_slice(), max_chars);
    if v.len() > max_chars {
        out.push('.');
        out.push('.');
        out.push('.');
        assert(out@ =~= text@.subrange(0, max_chars as int) + seq!['.', '.', '.']);
    }
    string_of_chars(out.as_slice())
}

/// Lexicographic order of character sequences by code point (the order of
/// `str::cmp`).
pub open spec fn seq_lt(a: Seq<char>, b: Seq<char>) -> bool
    decreases a.len(),
{
    if a.len() == 0 {
        b.len() > 0
    } else if b.len() == 0 {
        false
    } else if a[0] != b[0] {
        (a[0] as int) < (b[0] as int)
    } else {
        seq_lt(a.drop_first(), b.drop_first())
    }
}

/// `seq_lt` never holds both ways.
pub proof fn lemma_seq_lt_asym(a: Seq<char>, b: Seq<char>)
    ensures
        !(seq_lt(a, b) && seq_lt(b, a)),
    decreases a.len(),
{
    if a.len() > 0 && b.len() > 0 && a[0] == b[0] {
        lemma_seq_lt_asym(a.drop_first(), b.drop_first());
    }
}

/// Two sequences are either equal or ordered one way.
pub proof fn lemma_seq_lt_total(a: Seq<char>, b: Seq<char>)
    ensures
        a == b || seq_lt(a, b) || seq_lt(b, a),
    decreases a.len(),
{
    if a.len() > 0 && b.len() > 0 {
        if a[0] == b[0] {
            lemma_seq_lt_total(a.drop_first(), b.drop_first());
            if a.drop_first() == b.drop_first() {
                assert(a =~= seq![a[0]] + a.drop_first());
                assert(b =~= seq![b[0]] + b.drop_first());
            }
        } else {
            assert((a[0] as int) != (b[0] as int));
        }
    } else if a.len() == 0 && b.len() == 0 {
        assert(a =~= b);
    }
}

/// `seq_lt` is transitive.
pub proof fn lemma_seq_lt_trans(a: Seq<char>, b: Seq<char>, c: Seq<char>)
    requires
        seq_lt(a, b),
        seq_lt(b, c),
    ensures
        seq_lt(a, c),
    decreases a.len(),
{
    if a.len() > 0 && b.len() > 0 && c.len() > 0 {
        if a[0] == b[0] && b[0] == c[0] {
            lemma_seq_lt_trans(a.drop_first(), b.drop_first(), c.drop_first());
        }
    }
}

/// Compares two character sequences in code point order.
pub fn chars_lt(a: &[char], b: &[char]) -> (r: bool)
    ensures
        r == seq_lt(a@, b@),
{
    let mut i: usize = 0;
    assert(a@.subrange(0, a@.len() as int) =~= a@);
    assert(b@.subrange(0, b@.len() as int) =~= b@);
    while i < a.len() && i < b.len()
        invariant
            i <= a@.len(),
            i <= b@.len(),
            seq_lt(a@, b@) == seq_lt(
                a@.subrange(i as int, a@.len() as int),
                b@.subrange(i as int, b@.len() as int),
            ),
        decreases a.len() - i,
    {
        let x = a[i];
        let y = b[i];
        if x != y {
            proof {
                assert(a@.subrange(i as int, a@.len() as int)[0] == x);
                assert(b@.subrange(i as int, b@.len() as int)[0] == y);
            }
            return x < y;
        }
        proof {
            assert(a@.subrange(i as int, a@.len() as int).drop_first() =~= a@.subrange(
                i + 1,
                a@.len() as int,
            ));
            assert(b@.subrange(i as int, b@.len() as int).drop_first() =~= b@.subrange(
                i + 1,
                b@.len() as int,
            ));
        }
        i = i + 1;
    }
    i == a.len() && i < b.len()
}

/// Compares two strings in code point order.
pub fn str_lt(a: &str, b: &str) -> (r: bool)
    ensures
        r == seq_lt(a@, b@),
{
    let x = str_chars(a);
    let y = str_chars(b);
    chars_lt(x.as_slice(), y.as_slice())
}

/// Parts joined by a separator.
pub open spec fn joined(parts: Seq<Seq<char>>, sep: Seq<char>) -> Seq<char>
    decreases parts.len(),
{
    if parts.len() == 0 {
        seq![]
    } else if parts.len() == 1 {
        parts[0]
    } else {
        joined(parts.drop_last(), sep) + sep + parts.last()
    }
}

/// The views of strings.
pub open spec fn string_seq_views(v: Seq<String>) -> Seq<Seq<char>> {
    v.map_values(|s: String| s@)
}

/// Joins strings with a separator (`join`).
pub fn join_strings(parts: &Vec<String>, sep: &str) -> (r: String)
    ensures
        r@ == joined(string_seq_views(parts@), sep@),
{
    let ghost pv = string_seq_views(parts@);
    let mut out: Vec<char> = Vec::new();
    let mut i: usize = 0;
    assert(pv.take(0) =~= Seq::<Seq<char>>::empty());
    while i < parts.len()
        invariant
            pv == string_seq_views(parts@),
            i <= parts@.len(),
            out@ == joined(pv.take(i as int), sep@),
        decreases parts.len() - i,
    {
        proof {
            assert(pv.take(i + 1).drop_last() =~= pv.take(i as int));
            assert(pv.take(i + 1).last() == parts@[i as int]@);
        }
        if i > 0 {
            push_str(&mut out, sep);
        } else {
            assert(pv.take(1) =~= seq![parts@[0]@]);
        }
        push_str(&mut out, parts[i].as_str());
        i = i + 1;
    }
    proof {
        assert(pv.take(parts@.len() as int) =~= pv);
    }
    string_of_chars(out.as_slice())
}

} // verus!
