//! Character-level text handling shared by the parsers and the report
//! renderer: white space, line and word splitting, quote trimming,
//! decimal rendering, and the few std conversions the library relies on.

use vstd::prelude::*;

verus! {

/// Unicode `White_Space`: the characters for which `char::is_whitespace`
/// holds, and the class `\s` of the regex crate in Unicode mode.
pub open spec fn is_white_space(c: char) -> bool {
    ||| ('\u{9}' <= c && c <= '\u{d}')
    ||| c == ' '
    ||| c == '\u{85}'
    ||| c == '\u{a0}'
    ||| c == '\u{1680}'
    ||| ('\u{2000}' <= c && c <= '\u{200a}')
    ||| c == '\u{2028}'
    ||| c == '\u{2029}'
    ||| c == '\u{202f}'
    ||| c == '\u{205f}'
    ||| c == '\u{3000}'
}

pub fn white_space(c: char) -> (b: bool)
    ensures
        b == is_white_space(c),
{
    ('\u{9}' <= c && c <= '\u{d}') || c == ' ' || c == '\u{85}' || c == '\u{a0}' || c
        == '\u{1680}' || ('\u{2000}' <= c && c <= '\u{200a}') || c == '\u{2028}' || c
        == '\u{2029}' || c == '\u{202f}' || c == '\u{205f}' || c == '\u{3000}'
}

// ---------------------------------------------------------------------
// Lines
// ---------------------------------------------------------------------
/// Left-to-right scan that splits at `'\n'`: the finished lines and the
/// line still being read.
pub open spec fn line_scan(s: Seq<char>) -> (Seq<Seq<char>>, Seq<char>)
    decreases s.len(),
{
    if s.len() == 0 {
        (Seq::empty(), Seq::empty())
    } else {
        let (done, cur) = line_scan(s.drop_last());
        if s.last() == '\n' {
            (done.push(cur), Seq::empty())
        } else {
            (done, cur.push(s.last()))
        }
    }
}

/// The lines of `s` as `str::lines` yields them, split at each `'\n'`, with
/// no final empty line after a closing `'\n'`. (`str::lines` also drops a
/// `'\r'` before each `'\n'`; every caller here only looks at the
/// white-space separated words of a line, or at the line trimmed of white
/// space, where that `'\r'` makes no difference.)
pub open spec fn lines(s: Seq<char>) -> Seq<Seq<char>> {
    let (done, cur) = line_scan(s);
    if cur.len() == 0 {
        done
    } else {
        done.push(cur)
    }
}

pub fn split_lines(s: &Vec<char>) -> (out: Vec<Vec<char>>)
    ensures
        out@.map_values(|l: Vec<char>| l@) == lines(s@),
{
    let mut done: Vec<Vec<char>> = Vec::new();
    let mut cur: Vec<char> = Vec::new();
    let mut i: usize = 0;
    while i < s.len()
        invariant
            i <= s.len(),
            (done@.map_values(|l: Vec<char>| l@), cur@) == line_scan(s@.take(i as int)),
        decreases s.len() - i,
    {
        let c = s[i];
        assert(s@.take(i + 1).drop_last() =~= s@.take(i as int));
        if c == '\n' {
            let finished = cur;
            cur = Vec::new();
            done.push(finished);
            assert(done@.map_values(|l: Vec<char>| l@) =~= line_scan(s@.take(i as int)).0.push(
                finished@,
            ));
        } else {
            cur.push(c);
        }
        i = i + 1;
    }
    assert(s@.take(s.len() as int) =~= s@);
    if cur.len() > 0 {
        let last = cur;
        done.push(last);
        assert(done@.map_values(|l: Vec<char>| l@) =~= line_scan(s@).0.push(last@));
    }
    done
}

// ---------------------------------------------------------------------
// Words
// ---------------------------------------------------------------------
/// Left-to-right scan that splits at runs of white space: the finished
/// words and the word still being read.
pub open spec fn word_scan(s: Seq<char>) -> (Seq<Seq<char>>, Seq<char>)
    decreases s.len(),
{
    if s.len() == 0 {
        (Seq::empty(), Seq::empty())
    } else {
        let (done, cur) = word_scan(s.drop_last());
        if is_white_space(s.last()) {
            if cur.len() == 0 {
                (done, cur)
            } else {
                (done.push(cur), Seq::empty())
            }
        } else {
            (done, cur.push(s.last()))
        }
    }
}

/// The maximal runs of non-white-space characters of `s`, in order: what
/// `str::split_whitespace` yields.
pub open spec fn words(s: Seq<char>) -> Seq<Seq<char>> {
    let (done, cur) = word_scan(s);
    if cur.len() == 0 {
        done
    } else {
        done.push(cur)
    }
}

pub fn split_words(s: &Vec<char>) -> (out: Vec<Vec<char>>)
    ensures
        out@.map_values(|w: Vec<char>| w@) == words(s@),
{
    let mut done: Vec<Vec<char>> = Vec::new();
    let mut cur: Vec<char> = Vec::new();
    let mut i: usize = 0;
    while i < s.len()
        invariant
            i <= s.len(),
            (done@.map_values(|w: Vec<char>| w@), cur@) == word_scan(s@.take(i as int)),
        decreases s.len() - i,
    {
        let c = s[i];
        assert(s@.take(i + 1).drop_last() =~= s@.take(i as int));
        if white_space(c) {
            if cur.len() > 0 {
                let finished = cur;
                cur = Vec::new();
                done.push(finished);
                assert(done@.map_values(|w: Vec<char>| w@) =~= word_scan(
                    s@.take(i as int),
                ).0.push(finished@));
            }
        } else {
            cur.push(c);
        }
        i = i + 1;
    }
    assert(s@.take(s.len() as int) =~= s@);
    if cur.len() > 0 {
        let last = cur;
        done.push(last);
        assert(done@.map_values(|w: Vec<char>| w@) =~= word_scan(s@).0.push(last@));
    }
    done
}

/// Every word is non-empty and free of white space.
pub proof fn lemma_words_are_words(s: Seq<char>)
    ensures
        forall|k: int|
            0 <= k < words(s).len() ==> #[trigger] words(s)[k].len() > 0 && forall|j: int|
                0 <= j < words(s)[k].len() ==> !is_white_space(words(s)[k][j]),
{
    lemma_word_scan_words(s);
}

proof fn lemma_word_scan_words(s: Seq<char>)
    ensures
        forall|k: int|
            0 <= k < word_scan(s).0.len() ==> #[trigger] word_scan(s).0[k].len() > 0 && forall|
                j: int,
            | 0 <= j < word_scan(s).0[k].len() ==> !is_white_space(word_scan(s).0[k][j]),
        forall|j: int| 0 <= j < word_scan(s).1.len() ==> !is_white_space(#[trigger] word_scan(s).1[j]),
    decreases s.len(),
{
    if s.len() > 0 {
        lemma_word_scan_words(s.drop_last());
        let (done, cur) = word_scan(s.drop_last());
        let (done2, cur2) = word_scan(s);
        if is_white_space(s.last()) {
            if cur.len() > 0 {
                assert forall|k: int| 0 <= k < done2.len() implies #[trigger] done2[k].len() > 0
                    && forall|j: int| 0 <= j < done2[k].len() ==> !is_white_space(done2[k][j]) by {
                    if k < done.len() {
                        assert(done2[k] == done[k]);
                    } else {
                        assert(done2[k] == cur);
                    }
                }
            }
        } else {
            assert forall|j: int| 0 <= j < cur2.len() implies !is_white_space(#[trigger] cur2[j]) by {
                if j < cur.len() {
                    assert(cur2[j] == cur[j]);
                }
            }
        }
    }
}

// ---------------------------------------------------------------------
// Trimming
// ---------------------------------------------------------------------
pub open spec fn trim_start_char(s: Seq<char>, c: char) -> Seq<char>
    decreases s.len(),
{
    if s.len() > 0 && s[0] == c {
        trim_start_char(s.drop_first(), c)
    } else {
        s
    }
}

pub open spec fn trim_end_char(s: Seq<char>, c: char) -> Seq<char>
    decreases s.len(),
{
    if s.len() > 0 && s.last() == c {
        trim_end_char(s.drop_last(), c)
    } else {
        s
    }
}

/// `s` without every leading and trailing `c`: `str::trim_matches(c)`.
pub open spec fn trim_char(s: Seq<char>, c: char) -> Seq<char> {
    trim_end_char(trim_start_char(s, c), c)
}

proof fn lemma_trim_start_skip(s: Seq<char>, c: char, i: int)
    requires
        0 <= i <= s.len(),
        forall|j: int| 0 <= j < i ==> s[j] == c,
    ensures
        trim_start_char(s, c) == trim_start_char(s.skip(i), c),
    decreases i,
{
    if i > 0 {
        assert(s.drop_first().skip(i - 1) =~= s.skip(i));
        lemma_trim_start_skip(s.drop_first(), c, i - 1);
    } else {
        assert(s.skip(0) =~= s);
    }
}

proof fn lemma_trim_end_take(s: Seq<char>, c: char, k: int)
    requires
        0 <= k <= s.len(),
        forall|j: int| k <= j < s.len() ==> s[j] == c,
    ensures
        trim_end_char(s, c) == trim_end_char(s.take(k), c),
    decreases s.len() - k,
{
    if k < s.len() {
        assert(s.drop_last().take(k) =~= s.take(k));
        lemma_trim_end_take(s.drop_last(), c, k);
    } else {
        assert(s.take(k) =~= s);
    }
}

proof fn lemma_trim_start_shape(s: Seq<char>, c: char)
    ensures
        trim_start_char(s, c).len() > 0 ==> trim_start_char(s, c)[0] != c,
    decreases s.len(),
{
    if s.len() > 0 && s[0] == c {
        lemma_trim_start_shape(s.drop_first(), c);
    }
}

proof fn lemma_trim_end_shape(s: Seq<char>, c: char)
    ensures
        trim_end_char(s, c).len() <= s.len(),
        trim_end_char(s, c) == s.take(trim_end_char(s, c).len() as int),
        trim_end_char(s, c).len() > 0 ==> trim_end_char(s, c).last() != c,
    decreases s.len(),
{
    if s.len() > 0 && s.last() == c {
        lemma_trim_end_shape(s.drop_last(), c);
        let r = trim_end_char(s.drop_last(), c);
        assert(s.drop_last().take(r.len() as int) =~= s.take(r.len() as int));
    } else {
        assert(s.take(s.len() as int) =~= s);
    }
}

/// What is left after trimming `c` neither starts nor ends with `c`.
pub proof fn lemma_trim_char_shape(s: Seq<char>, c: char)
    ensures
        trim_char(s, c).len() > 0 ==> trim_char(s, c)[0] != c && trim_char(s, c).last() != c,
{
    let t = trim_start_char(s, c);
    lemma_trim_start_shape(s, c);
    lemma_trim_end_shape(t, c);
    let r = trim_end_char(t, c);
    if r.len() > 0 {
        assert(r[0] == t.take(r.len() as int)[0]);
    }
}

/// Characters `[from, to)` of `s`, as a new vector.
pub fn slice_chars(s: &Vec<char>, from: usize, to: usize) -> (out: Vec<char>)
    requires
        from <= to <= s.len(),
    ensures
        out@ == s@.subrange(from as int, to as int),
{
    let mut out: Vec<char> = Vec::new();
    let mut i = from;
    while i < to
        invariant
            from <= i <= to <= s.len(),
            out@ == s@.subrange(from as int, i as int),
        decreases to - i,
    {
        out.push(s[i]);
        i = i + 1;
        assert(out@ =~= s@.subrange(from as int, i as int));
    }
    out
}

pub fn trim_matches(s: &Vec<char>, c: char) -> (out: Vec<char>)
    ensures
        out@ == trim_char(s@, c),
{
    let mut a: usize = 0;
    while a < s.len() && s[a] == c
        invariant
            a <= s.len(),
            forall|j: int| 0 <= j < a ==> s@[j] == c,
        decreases s.len() - a,
    {
        a = a + 1;
    }
    proof {
        lemma_trim_start_skip(s@, c, a as int);
    }
    let mut b: usize = s.len();
    while b > a && s[b - 1] == c
        invariant
            a <= b <= s.len(),
            forall|j: int| b <= j < s.len() ==> s@[j] == c,
        decreases b,
    {
        b = b - 1;
    }
    proof {
        let rest = s@.skip(a as int);
        if a < s.len() {
            assert(rest[0] == s@[a as int]);
            assert(trim_start_char(rest, c) == rest);
        } else {
            assert(rest.len() == 0);
        }
        assert forall|j: int| (b - a) <= j < rest.len() implies rest[j] == c by {
            assert(rest[j] == s@[j + a]);
        }
        lemma_trim_end_take(rest, c, b - a);
        let kept = rest.take(b - a);
        if b > a {
            assert(kept.last() == s@[b - 1]);
        }
        assert(kept =~= s@.subrange(a as int, b as int));
    }
    slice_chars(s, a, b)
}

// ---------------------------------------------------------------------
// Conversions between strings and characters
// ---------------------------------------------------------------------
pub fn chars_of(s: &str) -> (out: Vec<char>)
    ensures
        out@ == s@,
{
    let mut out: Vec<char> = Vec::new();
    for c in it: s.chars()
        invariant
            out@ == it.seq().take(it.index() as int),
            it.seq() == s@,
    {
        out.push(c);
        assert(out@ =~= it.seq().take(it.index() + 1));
    }
    assert(out@ =~= s@);
    out
}

/// Whether `a` and `b` hold the same text.
pub fn same_text(a: &str, b: &str) -> (r: bool)
    ensures
        r == (a@ == b@),
{
    let x = chars_of(a);
    let y = chars_of(b);
    if x.len() != y.len() {
        assert(a@.len() != b@.len());
        return false;
    }
    let mut i: usize = 0;
    while i < x.len()
        invariant
            x@ == a@,
            y@ == b@,
            x.len() == y.len(),
            i <= x.len(),
            forall|j: int| 0 <= j < i ==> x@[j] == y@[j],
        decreases x.len() - i,
    {
        if x[i] != y[i] {
            assert(a@[i as int] != b@[i as int]);
            return false;
        }
        i = i + 1;
    }
    assert(x@ =~= y@);
    true
}

/// Appends `c` to `s`: `String::push`.
#[verifier::external_body]
pub(crate) fn push_char(s: &mut String, c: char)
    ensures
        final(s)@ == old(s)@.push(c),
{
    s.push(c)
}

pub fn string_from_chars(cs: &Vec<char>) -> (out: String)
    ensures
        out@ == cs@,
{
    let mut out = String::new();
    let mut i: usize = 0;
    while i < cs.len()
        invariant
            i <= cs.len(),
            out@ == cs@.take(i as int),
        decreases cs.len() - i,
    {
        push_char(&mut out, cs[i]);
        i = i + 1;
        assert(out@ =~= cs@.take(i as int));
    }
    assert(cs@.take(cs.len() as int) =~= cs@);
    out
}

/// What `String::from_utf8_lossy` decodes a byte sequence to: UTF-8 where
/// it is valid, with U+FFFD in place of each maximal invalid subsequence.
pub uninterp spec fn lossy_utf8(bytes: Seq<u8>) -> Seq<char>;

/// Decodes `bytes` with `String::from_utf8_lossy`. Stated: valid UTF-8 is
/// decoded as it is, as the documentation promises. Named, not stated: how
/// invalid sequences are replaced.
#[verifier::external_body]
pub(crate) fn decode_lossy(bytes: &[u8]) -> (s: String)
    ensures
        s@ == lossy_utf8(bytes@),
        vstd::utf8::valid_utf8(bytes@) ==> s@ == vstd::utf8::decode_utf8(bytes@),
{
    String::from_utf8_lossy(bytes).into_owned()
}

/// What `str::to_lowercase` maps a text to: the Unicode lowercase mapping
/// of each character, with the final-sigma rule.
pub uninterp spec fn lowercase(s: Seq<char>) -> Seq<char>;

/// The lowercase of an ASCII character: `A` to `Z` become `a` to `z`, the
/// rest stay as they are.
pub open spec fn ascii_lower(c: char) -> char {
    if 'A' <= c && c <= 'Z' {
        ((c as u32) + 32) as char
    } else {
        c
    }
}

pub open spec fn is_ascii_text(s: Seq<char>) -> bool {
    forall|i: int| 0 <= i < s.len() ==> (s[i] as u32) < 128
}

/// Lowercases `s` with `str::to_lowercase`. Stated: an ASCII text has its
/// letters `A` to `Z` lowered and keeps every other character, one for one.
/// Named, not stated: the Unicode case mapping of other characters.
#[verifier::external_body]
pub(crate) fn to_lowercase(s: &str) -> (out: String)
    ensures
        out@ == lowercase(s@),
        is_ascii_text(s@) ==> out@ == s@.map_values(|c: char| ascii_lower(c)),
{
    s.to_lowercase()
}

// ---------------------------------------------------------------------
// Decimal numbers
// ---------------------------------------------------------------------
pub open spec fn digit_char(d: nat) -> char
    recommends
        d < 10,
{
    if d == 0 {
        '0'
    } else if d == 1 {
        '1'
    } else if d == 2 {
        '2'
    } else if d == 3 {
        '3'
    } else if d == 4 {
        '4'
    } else if d == 5 {
        '5'
    } else if d == 6 {
        '6'
    } else if d == 7 {
        '7'
    } else if d == 8 {
        '8'
    } else {
        '9'
    }
}

/// The decimal digits of `n`, most significant first, with no leading
/// zero: what `format!("{}", n)` writes for an unsigned integer.
pub open spec fn decimal(n: nat) -> Seq<char>
    decreases n,
{
    if n < 10 {
        seq![digit_char(n)]
    } else {
        decimal(n / 10).push(digit_char(n % 10))
    }
}

fn digit(d: usize) -> (c: char)
    requires
        d < 10,
    ensures
        c == digit_char(d as nat),
{
    if d == 0 {
        '0'
    } else if d == 1 {
        '1'
    } else if d == 2 {
        '2'
    } else if d == 3 {
        '3'
    } else if d == 4 {
        '4'
    } else if d == 5 {
        '5'
    } else if d == 6 {
        '6'
    } else if d == 7 {
        '7'
    } else if d == 8 {
        '8'
    } else {
        '9'
    }
}

pub fn decimal_string(n: usize) -> (out: String)
    ensures
        out@ == decimal(n as nat),
    decreases n,
{
    if n < 10 {
        let mut s = String::new();
        push_char(&mut s, digit(n));
        assert(s@ =~= seq![digit_char(n as nat)]);
        s
    } else {
        let mut s = decimal_string(n / 10);
        push_char(&mut s, digit(n % 10));
        s
    }
}

// ---------------------------------------------------------------------
// Containment
// ---------------------------------------------------------------------
/// `needle` occurs in `hay` as a contiguous piece.
pub open spec fn contains_text(hay: Seq<char>, needle: Seq<char>) -> bool {
    exists|i: int|
        0 <= i && i + needle.len() <= hay.len() && #[trigger] hay.subrange(i, i + needle.len())
            == needle
}

pub proof fn lemma_contains_self(s: Seq<char>)
    ensures
        contains_text(s, s),
{
    assert(s.subrange(0int, 0int + s.len()) =~= s);
}

pub proof fn lemma_contains_extend(hay: Seq<char>, needle: Seq<char>, pre: Seq<char>, post: Seq<char>)
    requires
        contains_text(hay, needle),
    ensures
        contains_text(pre + hay + post, needle),
{
    let i = choose|i: int|
        0 <= i && i + needle.len() <= hay.len() && #[trigger] hay.subrange(i, i + needle.len())
            == needle;
    let whole = pre + hay + post;
    let j = pre.len() + i;
    assert(whole.subrange(j, j + needle.len()) =~= hay.subrange(i, i + needle.len()));
}

/// A piece of a piece of `a` is a piece of `a`.
pub proof fn lemma_contains_trans(a: Seq<char>, b: Seq<char>, c: Seq<char>)
    requires
        contains_text(a, b),
        contains_text(b, c),
    ensures
        contains_text(a, c),
{
    let i = choose|i: int|
        0 <= i && i + b.len() <= a.len() && #[trigger] a.subrange(i, i + b.len()) == b;
    let j = choose|j: int|
        0 <= j && j + c.len() <= b.len() && #[trigger] b.subrange(j, j + c.len()) == c;
    assert(a.subrange(i + j, i + j + c.len()) =~= b.subrange(j, j + c.len()));
}

/// The middle of a concatenation is a piece of it.
pub proof fn lemma_contains_part(whole: Seq<char>, pre: Seq<char>, part: Seq<char>, post: Seq<char>)
    requires
        whole =~= pre + part + post,
    ensures
        contains_text(whole, part),
{
    lemma_contains_self(part);
    lemma_contains_extend(part, part, pre, post);
}

} // verus!
