//! The description of an image: the value of the first
//! `LABEL description="..."` instruction of its definition.
//!
//! Labels are found as the pattern `LABEL\s+(\w+)="([^"]*)"` finds them:
//! scanning left to right for non-overlapping matches, with `\s` the Unicode
//! white space and `\w` the Unicode word characters.

use vstd::prelude::*;

use crate::text::{contains_text, is_white_space, slice_chars, string_from_chars, white_space};

verus! {

/// Whether `c` is a Unicode word character (`\w`): Alphabetic,
/// Join_Control, or of the general categories Decimal_Number, Mark or
/// Connector_Punctuation.
pub uninterp spec fn is_word_char(c: char) -> bool;

pub open spec fn is_ascii_word_char(c: char) -> bool {
    ('0' <= c && c <= '9') || ('A' <= c && c <= 'Z') || ('a' <= c && c <= 'z') || c == '_'
}

/// Tells whether `c` is a word character with
/// `regex_syntax::is_word_character`, the table the regex crate's `\w`
/// is built from. Its source answers ASCII characters by `[_0-9a-zA-Z]`,
/// and its table holds no white-space character; the rest of the table is
/// named, not stated.
#[verifier::external_body]
fn word_char(c: char) -> (b: bool)
    ensures
        b == is_word_char(c),
        (c as u32) < 128 ==> (b <==> is_ascii_word_char(c)),
        is_white_space(c) ==> !b,
{
    regex_syntax::is_word_character(c)
}

pub open spec fn label_keyword() -> Seq<char> {
    seq!['L', 'A', 'B', 'E', 'L']
}

pub open spec fn description_key() -> Seq<char> {
    seq!['d', 'e', 's', 'c', 'r', 'i', 'p', 't', 'i', 'o', 'n']
}

/// The end of the run of white space that starts at `j`.
pub open spec fn space_end(t: Seq<char>, j: int) -> int
    decreases t.len() - j,
{
    if 0 <= j < t.len() && is_white_space(t[j]) {
        space_end(t, j + 1)
    } else {
        j
    }
}

/// The end of the run of word characters that starts at `j`.
pub open spec fn word_end(t: Seq<char>, j: int) -> int
    decreases t.len() - j,
{
    if 0 <= j < t.len() && is_word_char(t[j]) {
        word_end(t, j + 1)
    } else {
        j
    }
}

/// The first `'"'` at or after `j`, or the length of `t` if there is none.
pub open spec fn quote_from(t: Seq<char>, j: int) -> int
    decreases t.len() - j,
{
    if 0 <= j < t.len() && t[j] != '"' {
        quote_from(t, j + 1)
    } else {
        j
    }
}

/// The label instruction that starts at `i`, as the positions `(k, m, q)`:
/// its key is `t[k..m]`, its value `t[m+2..q]` and it ends after `t[q]`.
pub open spec fn label_at(t: Seq<char>, i: int) -> Option<(int, int, int)> {
    if 0 <= i && i + 5 <= t.len() && t.subrange(i, i + 5) == label_keyword() {
        let k = space_end(t, i + 5);
        let m = word_end(t, k);
        let q = quote_from(t, m + 2);
        if k > i + 5 && m > k && m + 1 < t.len() && t[m] == '=' && t[m + 1] == '"' && q < t.len() {
            Some((k, m, q))
        } else {
            None
        }
    } else {
        None
    }
}

pub proof fn lemma_runs(t: Seq<char>, j: int)
    requires
        0 <= j,
    ensures
        j <= space_end(t, j),
        j <= word_end(t, j),
        j <= quote_from(t, j),
        j <= t.len() ==> space_end(t, j) <= t.len() && word_end(t, j) <= t.len() && quote_from(
            t,
            j,
        ) <= t.len(),
    decreases t.len() - j,
{
    if j < t.len() {
        lemma_runs(t, j + 1);
    }
}

pub proof fn lemma_label_at(t: Seq<char>, i: int)
    requires
        label_at(t, i) is Some,
    ensures
        ({
            let (k, m, q) = label_at(t, i)->0;
            i + 5 < k < m && m + 2 <= q < t.len()
        }),
{
    lemma_runs(t, i + 5);
    let k = space_end(t, i + 5);
    lemma_runs(t, k);
    let m = word_end(t, k);
    lemma_runs(t, m + 2);
}

/// The value of the first description label at or after `i`, scanning for
/// labels left to right and resuming after each label found.
pub open spec fn description_from(t: Seq<char>, i: int) -> Option<Seq<char>>
    decreases t.len() - i,
{
    if i < 0 || i >= t.len() {
        None
    } else {
        match label_at(t, i) {
            Some((k, m, q)) => {
                if t.subrange(k, m) == description_key() {
                    Some(t.subrange(m + 2, q))
                } else {
                    proof {
                        lemma_label_at(t, i);
                    }
                    description_from(t, q + 1)
                }
            },
            None => description_from(t, i + 1),
        }
    }
}

/// The description that the text `t` of a container definition declares.
pub open spec fn description_of(t: Seq<char>) -> Option<Seq<char>> {
    description_from(t, 0)
}

fn space_end_at(t: &Vec<char>, j: usize) -> (e: usize)
    requires
        j <= t.len(),
    ensures
        e == space_end(t@, j as int),
        j <= e <= t.len(),
{
    let mut e = j;
    while e < t.len() && white_space(t[e])
        invariant
            j <= e <= t.len(),
            space_end(t@, j as int) == space_end(t@, e as int),
        decreases t.len() - e,
    {
        e = e + 1;
    }
    e
}

fn word_end_at(t: &Vec<char>, j: usize) -> (e: usize)
    requires
        j <= t.len(),
    ensures
        e == word_end(t@, j as int),
        j <= e <= t.len(),
{
    let mut e = j;
    while e < t.len() && word_char(t[e])
        invariant
            j <= e <= t.len(),
            word_end(t@, j as int) == word_end(t@, e as int),
        decreases t.len() - e,
    {
        e = e + 1;
    }
    e
}

fn quote_from_at(t: &Vec<char>, j: usize) -> (e: usize)
    requires
        j <= t.len(),
    ensures
        e == quote_from(t@, j as int),
        j <= e <= t.len(),
{
    let mut e = j;
    while e < t.len() && t[e] != '"'
        invariant
            j <= e <= t.len(),
            quote_from(t@, j as int) == quote_from(t@, e as int),
        decreases t.len() - e,
    {
        e = e + 1;
    }
    e
}

/// Whether `t[from..from+w.len()]` exists and equals `w`.
fn matches_at(t: &Vec<char>, from: usize, w: &Vec<char>) -> (b: bool)
    ensures
        b == (from + w@.len() <= t@.len() && t@.subrange(from as int, from + w@.len()) == w@),
{
    if from > t.len() || w.len() > t.len() - from {
        return false;
    }
    let mut j: usize = 0;
    while j < w.len()
        invariant
            from + w.len() <= t.len(),
            j <= w.len(),
            forall|x: int| 0 <= x < j ==> t@[from + x] == w@[x],
        decreases w.len() - j,
    {
        if t[from + j] != w[j] {
            assert(t@.subrange(from as int, from + w@.len())[j as int] != w@[j as int]);
            return false;
        }
        j = j + 1;
    }
    assert(t@.subrange(from as int, from + w@.len()) =~= w@);
    true
}

fn label_at_exec(t: &Vec<char>, i: usize, keyword: &Vec<char>) -> (r: Option<(usize, usize, usize)>)
    requires
        i < t.len(),
        keyword@ == label_keyword(),
    ensures
        match (r, label_at(t@, i as int)) {
            (Some((k, m, q)), Some((k2, m2, q2))) => k == k2 && m == m2 && q == q2,
            (None, None) => true,
            _ => false,
        },
{
    if !matches_at(t, i, keyword) {
        return None;
    }
    let k = space_end_at(t, i + 5);
    let m = word_end_at(t, k);
    if !(k > i + 5 && m > k && m < t.len() - 1) {
        return None;
    }
    if !(t[m] == '=' && t[m + 1] == '"') {
        return None;
    }
    let q = quote_from_at(t, m + 2);
    if q < t.len() {
        Some((k, m, q))
    } else {
        None
    }
}

/// The description that the text of a container definition declares: the
/// value of the first `LABEL description="..."` instruction, or `None`.
pub fn description_in(text: &str) -> (r: Option<String>)
    ensures
        match (r, description_of(text@)) {
            (Some(v), Some(w)) => v@ == w,
            (None, None) => true,
            _ => false,
        },
{
    let t = crate::text::chars_of(text);
    let keyword: Vec<char> = vec!['L', 'A', 'B', 'E', 'L'];
    let key: Vec<char> = vec!['d', 'e', 's', 'c', 'r', 'i', 'p', 't', 'i', 'o', 'n'];
    assert(keyword@ =~= label_keyword());
    assert(key@ =~= description_key());
    let mut i: usize = 0;
    while i < t.len()
        invariant
            i <= t.len() + 1,
            t@ == text@,
            keyword@ == label_keyword(),
            key@ == description_key(),
            description_of(t@) == description_from(t@, i as int),
        decreases t.len() + 1 - i,
    {
        match label_at_exec(&t, i, &keyword) {
            Some((k, m, q)) => {
                proof {
                    lemma_label_at(t@, i as int);
                }
                let label = slice_chars(&t, k, m);
                if label.len() == key.len() && matches_at(&label, 0, &key) {
                    assert(label@.subrange(0, key@.len() as int) =~= label@);
                    let value = slice_chars(&t, m + 2, q);
                    return Some(string_from_chars(&value));
                }
                proof {
                    if label@ == description_key() {
                        assert(label@.subrange(0, key@.len() as int) =~= label@);
                    }
                }
                i = q + 1;
            },
            None => {
                i = i + 1;
            },
        }
    }
    None
}

/// A description found is the text between the quotes of a
/// `description="..."` in the definition, and holds no quote.
pub proof fn lemma_description_is_quoted_value(t: Seq<char>)
    ensures
        description_of(t) matches Some(v) ==> {
            &&& contains_text(t, description_key() + seq!['=', '"'] + v + seq!['"'])
            &&& forall|j: int| 0 <= j < v.len() ==> v[j] != '"'
        },
{
    lemma_description_from(t, 0);
}

proof fn lemma_quote_free(t: Seq<char>, j: int, x: int)
    requires
        0 <= j <= x < quote_from(t, j),
    ensures
        t[x] != '"',
    decreases t.len() - j,
{
    if x > j {
        lemma_quote_free(t, j + 1, x);
    }
}

proof fn lemma_quote_found(t: Seq<char>, j: int)
    requires
        0 <= j,
        quote_from(t, j) < t.len(),
    ensures
        t[quote_from(t, j)] == '"',
    decreases t.len() - j,
{
    if j < t.len() && t[j] != '"' {
        lemma_quote_found(t, j + 1);
    }
}

proof fn lemma_description_from(t: Seq<char>, i: int)
    ensures
        description_from(t, i) matches Some(v) ==> {
            &&& contains_text(t, description_key() + seq!['=', '"'] + v + seq!['"'])
            &&& forall|j: int| 0 <= j < v.len() ==> v[j] != '"'
        },
    decreases t.len() - i,
{
    if 0 <= i < t.len() {
        match label_at(t, i) {
            Some((k, m, q)) => {
                lemma_label_at(t, i);
                if t.subrange(k, m) == description_key() {
                    let v = t.subrange(m + 2, q);
                    let needle = description_key() + seq!['=', '"'] + v + seq!['"'];
                    lemma_quote_found(t, m + 2);
                    assert(t.subrange(k, k + needle.len()) =~= needle);
                    assert forall|j: int| 0 <= j < v.len() implies v[j] != '"' by {
                        lemma_quote_free(t, m + 2, m + 2 + j);
                    }
                } else {
                    lemma_description_from(t, q + 1);
                }
            },
            None => {
                lemma_description_from(t, i + 1);
            },
        }
    }
}

proof fn lemma_space_run(t: Seq<char>, j: int, x: int)
    requires
        0 <= j <= x < space_end(t, j),
    ensures
        is_white_space(t[x]),
    decreases t.len() - j,
{
    if x > j {
        lemma_space_run(t, j + 1, x);
    }
}

/// What a label found at `i` is, in the text itself: `LABEL`, one or more
/// white-space characters, the key `t[k..m]`, `="`, the value `t[m+2..q]`
/// which holds no quote, and the closing quote `t[q]`.
proof fn lemma_label_text(t: Seq<char>, i: int)
    requires
        label_at(t, i) is Some,
    ensures
        ({
            let (k, m, q) = label_at(t, i)->0;
            &&& 0 <= i && i + 5 < k < m && m + 2 <= q < t.len()
            &&& t.subrange(i, i + 5) == "LABEL"@
            &&& forall|x: int| i + 5 <= x < k ==> is_white_space(#[trigger] t[x])
            &&& t[m] == '=' && t[m + 1] == '"' && t[q] == '"'
            &&& forall|x: int| m + 2 <= x < q ==> #[trigger] t[x] != '"'
        }),
{
    lemma_label_at(t, i);
    let (k, m, q) = label_at(t, i)->0;
    reveal_strlit("LABEL");
    assert(label_keyword() =~= "LABEL"@);
    assert forall|x: int| i + 5 <= x < k implies is_white_space(#[trigger] t[x]) by {
        lemma_space_run(t, i + 5, x);
    }
    lemma_quote_found(t, m + 2);
    assert forall|x: int| m + 2 <= x < q implies #[trigger] t[x] != '"' by {
        lemma_quote_free(t, m + 2, x);
    }
}

/// Whether a label with key `description` is found at `j`.
pub open spec fn description_label_at(t: Seq<char>, j: int) -> bool {
    label_at(t, j) matches Some((k, m, q)) && t.subrange(k, m) == "description"@
}

/// The last position of the label found at `j` (its closing quote), or
/// `-1` where none is.
pub open spec fn label_last(t: Seq<char>, j: int) -> int {
    match label_at(t, j) {
        Some((k, m, q)) => q,
        None => -1,
    }
}

/// The value of the label found at `j`.
pub open spec fn label_value(t: Seq<char>, j: int) -> Seq<char> {
    match label_at(t, j) {
        Some((k, m, q)) => t.subrange(m + 2, q),
        None => Seq::empty(),
    }
}

/// Whether position `j` lies inside a label found at a position from `s`
/// on, before `j`.
pub open spec fn inside_label(t: Seq<char>, s: int, j: int) -> bool {
    exists|j2: int| s <= j2 < j && j <= #[trigger] label_last(t, j2)
}

/// Whether the description label at `i` is the first one met from `s` on:
/// every description label in between lies inside an earlier label.
pub open spec fn first_from(t: Seq<char>, s: int, i: int) -> bool {
    forall|j: int| s <= j < i && #[trigger] description_label_at(t, j) ==> inside_label(t, s, j)
}

proof fn lemma_description_found_from(t: Seq<char>, s: int)
    requires
        0 <= s,
    ensures
        description_from(t, s) is Some ==> exists|i: int|
            s <= i && #[trigger] description_label_at(t, i) && description_from(t, s) == Some(
                label_value(t, i),
            ) && first_from(t, s, i),
    decreases t.len() - s,
{
    reveal_strlit("description");
    assert(description_key() =~= "description"@);
    if 0 <= s < t.len() {
        match label_at(t, s) {
            Some((k, m, q)) => {
                lemma_label_at(t, s);
                if t.subrange(k, m) == description_key() {
                    assert(description_label_at(t, s));
                    assert(first_from(t, s, s));
                } else {
                    lemma_description_found_from(t, q + 1);
                    if description_from(t, s) is Some {
                        let i = choose|i: int|
                            q + 1 <= i && #[trigger] description_label_at(t, i) && description_from(
                                t,
                                q + 1,
                            ) == Some(label_value(t, i)) && first_from(t, q + 1, i);
                        assert forall|j: int|
                            s <= j < i && #[trigger] description_label_at(t, j) implies inside_label(
                            t,
                            s,
                            j,
                        ) by {
                            if j <= q {
                                assert(j != s);
                                assert(label_last(t, s) == q);
                            } else {
                                assert(inside_label(t, q + 1, j));
                                let j2 = choose|j2: int| q + 1 <= j2 < j && j <= #[trigger] label_last(t, j2);
                                assert(label_last(t, j2) >= j);
                            }
                        }
                        assert(description_label_at(t, i));
                    }
                }
            },
            None => {
                lemma_description_found_from(t, s + 1);
                if description_from(t, s) is Some {
                    let i = choose|i: int|
                        s + 1 <= i && #[trigger] description_label_at(t, i) && description_from(
                            t,
                            s + 1,
                        ) == Some(label_value(t, i)) && first_from(t, s + 1, i);
                    assert forall|j: int|
                        s <= j < i && #[trigger] description_label_at(t, j) implies inside_label(
                        t,
                        s,
                        j,
                    ) by {
                        assert(j != s);
                        assert(inside_label(t, s + 1, j));
                        let j2 = choose|j2: int| s + 1 <= j2 < j && j <= #[trigger] label_last(t, j2);
                        assert(label_last(t, j2) >= j);
                    }
                    assert(description_label_at(t, i));
                }
            },
        }
    }
}

/// The description found is the value of a label whose whole key is
/// `description`: the text holds `LABEL`, white space, exactly the key
/// `description` (preceded by that white space and followed by `="`),
/// the value, which holds no quote, and its closing quote. Every label
/// with that key that comes earlier lies inside an earlier label, which
/// the scan passes over.
pub proof fn lemma_description_is_label(t: Seq<char>)
    ensures
        description_of(t) matches Some(v) ==> exists|i: int, k: int, m: int, q: int|
            #![trigger label_at(t, i), t.subrange(k, m), t.subrange(m + 2, q)]
            {
                &&& label_at(t, i) == Some((k, m, q))
                &&& 0 <= i && i + 5 < k < m && m + 2 <= q < t.len()
                &&& t.subrange(i, i + 5) == "LABEL"@
                &&& is_white_space(t[k - 1])
                &&& t.subrange(k, m) == "description"@
                &&& t[m] == '=' && t[m + 1] == '"' && t[q] == '"'
                &&& v == t.subrange(m + 2, q)
                &&& forall|x: int| 0 <= x < v.len() ==> v[x] != '"'
                &&& first_from(t, 0, i)
            },
{
    lemma_description_found_from(t, 0);
    if let Some(v) = description_of(t) {
        let i = choose|i: int|
            0 <= i && #[trigger] description_label_at(t, i) && description_from(t, 0) == Some(
                label_value(t, i),
            ) && first_from(t, 0, i);
        lemma_label_text(t, i);
        let (k, m, q) = label_at(t, i)->0;
        assert(is_white_space(t[k - 1]));
        assert(v == t.subrange(m + 2, q));
        assert forall|x: int| 0 <= x < v.len() implies v[x] != '"' by {
            assert(v[x] == t[m + 2 + x]);
        }
        assert(t.subrange(k, m) == "description"@);
    }
}

/// Where a label with key `description` comes before any other label, its
/// value is the description found.
pub proof fn lemma_first_label_is_description(t: Seq<char>, i: int)
    requires
        description_label_at(t, i),
        forall|j: int| 0 <= j < i ==> #[trigger] label_at(t, j) is None,
    ensures
        description_of(t) == Some(label_value(t, i)),
{
    lemma_first_label_from(t, 0, i);
}

proof fn lemma_first_label_from(t: Seq<char>, s: int, i: int)
    requires
        0 <= s <= i,
        description_label_at(t, i),
        forall|j: int| s <= j < i ==> #[trigger] label_at(t, j) is None,
    ensures
        description_from(t, s) == Some(label_value(t, i)),
    decreases i - s,
{
    reveal_strlit("description");
    assert(description_key() =~= "description"@);
    lemma_label_at(t, i);
    if s < i {
        assert(label_at(t, s) is None);
        lemma_first_label_from(t, s + 1, i);
    }
}

} // verus!
