//! R packages: the listing that `Rscript` prints for
//! `installed.packages()[,c('Package','Version')]`.

use vstd::prelude::*;

use super::models::{package_views, Package};
use crate::container::traits::{answers_one_way, command_view, output_view, ContainerEngine};
use crate::text::{
    chars_of, decode_lossy, is_white_space, lemma_trim_char_shape, lemma_words_are_words, line_scan,
    lines, lossy_utf8, split_lines, split_words, string_from_chars, trim_char, trim_end_char,
    trim_matches, trim_start_char, word_scan, words,
};

verus! {

/// Which word of a listing line holds the version. R prints each row as
/// `rowname "Package" "Version"`, so the version is the third word; a row
/// of only two words, `name version`, has it second.
pub open spec fn version_word(count: nat) -> int {
    if count == 2 {
        1
    } else {
        2
    }
}

/// The package a listing line describes, if it has at least two words:
/// its first word as the name and the version word with its quotes
/// trimmed.
pub open spec fn line_package(line: Seq<char>) -> Option<(Seq<char>, Seq<char>)> {
    let w = words(line);
    if w.len() >= 2 {
        Some((w[0], trim_char(w[version_word(w.len())], '"')))
    } else {
        None
    }
}

pub open spec fn packages_of_lines(ls: Seq<Seq<char>>) -> Seq<(Seq<char>, Seq<char>)> {
    ls.filter_map(|l: Seq<char>| line_package(l))
}

/// The packages of a listing: every line after the header line that has
/// at least two words, in order.
pub open spec fn listing_packages(text: Seq<char>) -> Seq<(Seq<char>, Seq<char>)> {
    let ls = lines(text);
    if ls.len() == 0 {
        Seq::empty()
    } else {
        packages_of_lines(ls.skip(1))
    }
}

/// The packages named by what `Rscript` printed, or `None` when it could
/// not be run.
pub open spec fn output_packages(output: Result<Seq<u8>, Seq<char>>) -> Option<
    Seq<(Seq<char>, Seq<char>)>,
> {
    match output {
        Ok(bytes) => Some(listing_packages(lossy_utf8(bytes))),
        Err(_) => None,
    }
}

/// The words of the command that lists the installed R packages.
pub open spec fn r_command() -> Seq<Seq<char>> {
    seq!["Rscript"@, "-e"@, "installed.packages()[,c('Package','Version')]"@]
}

/// The packages found, as plain values.
pub open spec fn found_view(found: Option<Vec<Package>>) -> Option<Seq<(Seq<char>, Seq<char>)>> {
    match found {
        Some(ps) => Some(package_views(ps@)),
        None => None,
    }
}

/// The command that lists the installed R packages.
pub fn command() -> (c: Vec<&'static str>)
    ensures
        command_view(c@) == r_command(),
{
    let c = vec!["Rscript", "-e", "installed.packages()[,c('Package','Version')]"];
    assert(command_view(c@) =~= r_command());
    c
}

/// Parses the listing `text`.
pub fn parse_listing(text: &str) -> (ps: Vec<Package>)
    ensures
        package_views(ps@) == listing_packages(text@),
{
    let chars = chars_of(text);
    let all = split_lines(&chars);
    let ghost ls = all@.map_values(|l: Vec<char>| l@);
    let ghost body = ls.skip(1);
    let mut out: Vec<Package> = Vec::new();
    if all.len() == 0 {
        assert(package_views(out@) =~= Seq::<(Seq<char>, Seq<char>)>::empty());
        return out;
    }
    let mut i: usize = 1;
    while i < all.len()
        invariant
            1 <= i <= all.len(),
            ls == all@.map_values(|l: Vec<char>| l@),
            body == ls.skip(1),
            ls == lines(text@),
            package_views(out@) == packages_of_lines(body.take(i - 1)),
        decreases all.len() - i,
    {
        let ghost before = out@;
        let ws = split_words(&all[i]);
        let ghost wv = ws@.map_values(|w: Vec<char>| w@);
        assert(all@[i as int]@ == ls[i as int]);
        assert(body.take(i as int).drop_last() =~= body.take(i - 1));
        assert(body.take(i as int).last() == ls[i as int]);
        if ws.len() >= 2 {
            let vi: usize = if ws.len() == 2 {
                1
            } else {
                2
            };
            let name = string_from_chars(&ws[0]);
            let trimmed = trim_matches(&ws[vi], '"');
            let version = string_from_chars(&trimmed);
            assert(wv[0] == ws@[0]@);
            assert(wv[vi as int] == ws@[vi as int]@);
            out.push(Package { name, version });
            assert(package_views(out@) =~= package_views(before).push(
                (wv[0], trim_char(wv[vi as int], '"')),
            ));
        } else {
            assert(package_views(out@) =~= package_views(before));
        }
        i = i + 1;
    }
    assert(body.take(all.len() - 1) =~= body);
    out
}

/// The packages named by what `Rscript` printed, or `None` when it could
/// not be run.
pub fn from_output(output: Result<Vec<u8>, String>) -> (r: Option<Vec<Package>>)
    ensures
        match (r, output) {
            (Some(ps), Ok(bytes)) => package_views(ps@) == listing_packages(lossy_utf8(bytes@)),
            (None, Err(_)) => true,
            _ => false,
        },
{
    match output {
        Ok(bytes) => {
            let text = decode_lossy(bytes.as_slice());
            Some(parse_listing(text.as_str()))
        },
        Err(_) => None,
    }
}

/// Whether `found` is what the listing gives for some answer `engine` may
/// give to the R listing command in `image`.
pub open spec fn answered<C: ContainerEngine + ?Sized>(engine: &C, image: Seq<char>, found: Option<Vec<Package>>) -> bool {
    exists|out: Result<Seq<u8>, Seq<char>>|
        engine.answers(image, r_command(), out) && found_view(found) == output_packages(out)
}

/// Two R audits of one image find the same packages where the engine
/// answers the R listing one way.
pub proof fn lemma_r_audit_determined<C: ContainerEngine + ?Sized>(
    engine: &C,
    image: Seq<char>,
    f1: Option<Vec<Package>>,
    f2: Option<Vec<Package>>,
)
    requires
        answers_one_way(engine, image, r_command()),
        answered(engine, image, f1),
        answered(engine, image, f2),
    ensures
        found_view(f1) == found_view(f2),
{
    let o1 = choose|out: Result<Seq<u8>, Seq<char>>|
        engine.answers(image, r_command(), out) && found_view(f1) == output_packages(out);
    let o2 = choose|out: Result<Seq<u8>, Seq<char>>|
        engine.answers(image, r_command(), out) && found_view(f2) == output_packages(out);
    assert(o1 == o2);
}

/// Lists the R packages installed in `image`, as `engine` answered the
/// R listing command there: `None` when it answered an error (`Rscript`
/// cannot be run), otherwise the packages of the listing it printed. Never
/// fails: an unreadable listing yields the lines it could read.
pub fn audit<C: ContainerEngine + ?Sized>(engine: &C, image: &str) -> (r: Result<
    Option<Vec<Package>>,
    String,
>)
    ensures
        r is Ok,
        answered(engine, image@, r->Ok_0),
{
    let cmd = command();
    let output = engine.run(image, cmd.as_slice());
    let ghost out_view = output_view(output);
    assert(engine.answers(image@, r_command(), out_view));
    let found = from_output(output);
    assert(found_view(found) == output_packages(out_view));
    Ok(found)
}

/// The shape of one listed package: its name is a word (non-empty, with no
/// white space) and its version neither starts nor ends with a quote.
pub open spec fn well_formed_package(p: (Seq<char>, Seq<char>)) -> bool {
    &&& p.0.len() > 0
    &&& forall|j: int| 0 <= j < p.0.len() ==> !is_white_space(#[trigger] p.0[j])
    &&& p.1.len() > 0 ==> p.1[0] != '"' && p.1.last() != '"'
}

proof fn lemma_line_package_shape(line: Seq<char>)
    ensures
        line_package(line) matches Some(p) ==> well_formed_package(p),
{
    let w = words(line);
    if w.len() >= 2 {
        lemma_words_are_words(line);
        assert(w[0].len() > 0);
        lemma_trim_char_shape(w[version_word(w.len())], '"');
    }
}

proof fn lemma_packages_of_lines_shape(ls: Seq<Seq<char>>)
    ensures
        packages_of_lines(ls).len() <= ls.len(),
        forall|k: int|
            0 <= k < packages_of_lines(ls).len() ==> well_formed_package(
                #[trigger] packages_of_lines(ls)[k],
            ),
    decreases ls.len(),
{
    if ls.len() > 0 {
        lemma_packages_of_lines_shape(ls.drop_last());
        lemma_line_package_shape(ls.last());
        let rest = packages_of_lines(ls.drop_last());
        let all = packages_of_lines(ls);
        assert(ls.filter_map(|l: Seq<char>| line_package(l)) == all);
        assert forall|k: int| 0 <= k < all.len() implies well_formed_package(#[trigger] all[k]) by {
            if k < rest.len() {
                assert(all[k] == rest[k]);
            }
        }
    }
}

/// Every package of a listing is well formed, and a listing holds at most
/// one package per line after its header line.
pub proof fn lemma_listing_shape(text: Seq<char>)
    ensures
        lines(text).len() > 0 ==> listing_packages(text).len() <= lines(text).len() - 1,
        lines(text).len() == 0 ==> listing_packages(text).len() == 0,
        forall|k: int|
            0 <= k < listing_packages(text).len() ==> well_formed_package(
                #[trigger] listing_packages(text)[k],
            ),
{
    let ls = lines(text);
    if ls.len() > 0 {
        lemma_packages_of_lines_shape(ls.skip(1));
    }
}

// ---------------------------------------------------------------------
// Reading back what R prints
// ---------------------------------------------------------------------
pub open spec fn quoted(s: Seq<char>) -> Seq<char> {
    seq!['"'] + s + seq!['"']
}

/// The row R prints for a package: `name "name" "version"`.
pub open spec fn row_line(p: (Seq<char>, Seq<char>)) -> Seq<char> {
    p.0 + seq![' '] + quoted(p.0) + seq![' '] + quoted(p.1)
}

/// The rows R prints for `ps`, one line each.
pub open spec fn rows_text(ps: Seq<(Seq<char>, Seq<char>)>) -> Seq<char>
    decreases ps.len(),
{
    if ps.len() == 0 {
        Seq::empty()
    } else {
        rows_text(ps.drop_last()) + row_line(ps.last()) + seq!['\n']
    }
}

/// A text that R prints as a single word: no white space and no quote.
pub open spec fn plain(s: Seq<char>) -> bool {
    forall|j: int| 0 <= j < s.len() ==> !is_white_space(#[trigger] s[j]) && s[j] != '"'
}

proof fn lemma_line_scan_append(s: Seq<char>, t: Seq<char>)
    requires
        forall|j: int| 0 <= j < t.len() ==> #[trigger] t[j] != '\n',
    ensures
        line_scan(s + t) == (line_scan(s).0, line_scan(s).1 + t),
    decreases t.len(),
{
    if t.len() == 0 {
        assert(s + t =~= s);
        assert(line_scan(s).1 + t =~= line_scan(s).1);
    } else {
        let u = t.drop_last();
        lemma_line_scan_append(s, u);
        assert((s + t).drop_last() =~= s + u);
        assert((s + t).last() == t.last());
        assert(line_scan(s).1 + u + seq![t.last()] =~= line_scan(s).1 + t);
    }
}

proof fn lemma_line_scan_line(s: Seq<char>, t: Seq<char>)
    requires
        forall|j: int| 0 <= j < t.len() ==> #[trigger] t[j] != '\n',
    ensures
        line_scan(s + t + seq!['\n']) == (line_scan(s).0.push(line_scan(s).1 + t), Seq::<char>::empty()),
{
    lemma_line_scan_append(s, t);
    assert((s + t + seq!['\n']).drop_last() =~= s + t);
}

proof fn lemma_word_scan_append(s: Seq<char>, t: Seq<char>)
    requires
        forall|j: int| 0 <= j < t.len() ==> !is_white_space(#[trigger] t[j]),
    ensures
        word_scan(s + t) == (word_scan(s).0, word_scan(s).1 + t),
    decreases t.len(),
{
    if t.len() == 0 {
        assert(s + t =~= s);
        assert(word_scan(s).1 + t =~= word_scan(s).1);
    } else {
        let u = t.drop_last();
        lemma_word_scan_append(s, u);
        assert((s + t).drop_last() =~= s + u);
        assert((s + t).last() == t.last());
        assert(word_scan(s).1 + u + seq![t.last()] =~= word_scan(s).1 + t);
    }
}

proof fn lemma_row_words(p: (Seq<char>, Seq<char>))
    requires
        p.0.len() > 0,
        plain(p.0),
        plain(p.1),
    ensures
        words(row_line(p)) == seq![p.0, quoted(p.0), quoted(p.1)],
{
    let e = Seq::<char>::empty();
    let qn = quoted(p.0);
    let qv = quoted(p.1);
    assert forall|j: int| 0 <= j < qn.len() implies !is_white_space(#[trigger] qn[j]) by {
        if 0 < j < qn.len() - 1 {
            assert(qn[j] == p.0[j - 1]);
        }
    }
    assert forall|j: int| 0 <= j < qv.len() implies !is_white_space(#[trigger] qv[j]) by {
        if 0 < j < qv.len() - 1 {
            assert(qv[j] == p.1[j - 1]);
        }
    }
    assert(word_scan(e) == (Seq::<Seq<char>>::empty(), e));
    lemma_word_scan_append(e, p.0);
    assert(e + p.0 =~= p.0);
    let a = p.0 + seq![' '];
    assert(a.drop_last() =~= p.0);
    assert(word_scan(a) == (seq![p.0], e));
    lemma_word_scan_append(a, qn);
    let b = a + qn + seq![' '];
    assert(b.drop_last() =~= a + qn);
    assert(e + qn =~= qn);
    assert(word_scan(b) == (seq![p.0, qn], e));
    lemma_word_scan_append(b, qv);
    assert(b + qv =~= row_line(p));
}

proof fn lemma_trim_quoted(v: Seq<char>)
    requires
        plain(v),
    ensures
        trim_char(quoted(v), '"') == v,
{
    let q = quoted(v);
    assert(q.drop_first() =~= v + seq!['"']);
    let w = v + seq!['"'];
    if v.len() == 0 {
        assert(w.drop_first() =~= Seq::<char>::empty());
        assert(trim_start_char(w.drop_first(), '"') == Seq::<char>::empty());
        assert(w[0] == '"');
        assert(trim_start_char(w, '"') == Seq::<char>::empty());
        assert(q[0] == '"');
        assert(trim_start_char(q, '"') == trim_start_char(w, '"'));
    } else {
        assert(w[0] == v[0]);
        assert(q[0] == '"');
        assert(trim_start_char(q, '"') == trim_start_char(w, '"'));
        assert(trim_start_char(w, '"') == w);
        assert(w.drop_last() =~= v);
        assert(trim_end_char(v, '"') == v);
    }
}

proof fn lemma_row_package(p: (Seq<char>, Seq<char>))
    requires
        p.0.len() > 0,
        plain(p.0),
        plain(p.1),
    ensures
        line_package(row_line(p)) == Some(p),
{
    lemma_row_words(p);
    lemma_trim_quoted(p.1);
    assert(version_word(3) == 2);
}

pub open spec fn row_lines(ps: Seq<(Seq<char>, Seq<char>)>) -> Seq<Seq<char>> {
    ps.map_values(|p: (Seq<char>, Seq<char>)| row_line(p))
}

proof fn lemma_rows_scan(head: Seq<char>, ps: Seq<(Seq<char>, Seq<char>)>)
    requires
        forall|j: int| 0 <= j < head.len() ==> #[trigger] head[j] != '\n',
        forall|k: int| 0 <= k < ps.len() ==> plain((#[trigger] ps[k]).0) && plain(ps[k].1),
    ensures
        line_scan(head + seq!['\n'] + rows_text(ps)) == (
            seq![head] + row_lines(ps),
            Seq::<char>::empty(),
        ),
    decreases ps.len(),
{
    let e = Seq::<char>::empty();
    if ps.len() == 0 {
        assert(head + seq!['\n'] + rows_text(ps) =~= e + head + seq!['\n']);
        assert(line_scan(e) == (Seq::<Seq<char>>::empty(), e));
        lemma_line_scan_line(e, head);
        assert(e + head =~= head);
        assert(seq![head] + row_lines(ps) =~= seq![head]);
    } else {
        let rest = ps.drop_last();
        lemma_rows_scan(head, rest);
        let p = ps.last();
        let line = row_line(p);
        assert forall|j: int| 0 <= j < line.len() implies #[trigger] line[j] != '\n' by {
            assert(!is_white_space(line[j]) || line[j] == ' ');
        }
        let before = head + seq!['\n'] + rows_text(rest);
        lemma_line_scan_line(before, line);
        assert(head + seq!['\n'] + rows_text(ps) =~= before + line + seq!['\n']);
        assert(e + line =~= line);
        assert(seq![head] + row_lines(ps) =~= (seq![head] + row_lines(rest)).push(line));
    }
}

proof fn lemma_rows_packages(ps: Seq<(Seq<char>, Seq<char>)>)
    requires
        forall|k: int|
            0 <= k < ps.len() ==> (#[trigger] ps[k]).0.len() > 0 && plain(ps[k].0) && plain(
                ps[k].1,
            ),
    ensures
        packages_of_lines(row_lines(ps)) == ps,
    decreases ps.len(),
{
    if ps.len() > 0 {
        let rest = ps.drop_last();
        lemma_rows_packages(rest);
        lemma_row_package(ps.last());
        assert(row_lines(ps).drop_last() =~= row_lines(rest));
        assert(row_lines(ps).last() == row_line(ps.last()));
        assert(packages_of_lines(row_lines(ps)) == packages_of_lines(row_lines(rest)).push(ps.last()));
        assert(rest.push(ps.last()) =~= ps);
    } else {
        assert(packages_of_lines(row_lines(ps)) =~= ps);
    }
}

/// What R prints for a list of packages reads back as that list: after a
/// header line, one row `name "name" "version"` per package, for names
/// and versions that R prints as single words.
pub proof fn lemma_printed_listing_reads_back(header: Seq<char>, ps: Seq<(Seq<char>, Seq<char>)>)
    requires
        forall|j: int| 0 <= j < header.len() ==> #[trigger] header[j] != '\n',
        forall|k: int|
            0 <= k < ps.len() ==> (#[trigger] ps[k]).0.len() > 0 && plain(ps[k].0) && plain(
                ps[k].1,
            ),
    ensures
        listing_packages(header + seq!['\n'] + rows_text(ps)) == ps,
{
    let text = header + seq!['\n'] + rows_text(ps);
    lemma_rows_scan(header, ps);
    let ls = lines(text);
    assert(ls == seq![header] + row_lines(ps));
    assert(ls.skip(1) =~= row_lines(ps));
    lemma_rows_packages(ps);
}

} // verus!
