//! The index page: one card per audited project, listing its description
//! and its Python and R packages, searchable by package name.

use vstd::prelude::*;

use super::page::{
    CARD_BODY, CARD_CLOSE, CARD_DESCRIPTION, CARD_OPEN, CARD_UPDATED, NO_DESCRIPTION, PAGE_HEAD,
    PAGE_TAIL, PYTHON_TITLE, ROW_CLOSE, ROW_NAME, ROW_OPEN, ROW_VERSION, R_TITLE, SECTION_CLOSE,
    SECTION_COUNT, SECTION_OPEN, SECTION_TABLE,
};
use super::json::{project_of, REPORT_FILE};
use crate::audit::models::{AuditReport, Package};
use crate::paths::{file_name, parent, parts_view, PathPart};
use crate::text::{
    contains_text, decimal, decimal_string, lemma_contains_part, lemma_contains_trans, lowercase,
    same_text, to_lowercase,
};

verus! {

/// What the page shows of one audited project.
pub struct ProjectCard {
    /// The name of the directory that holds the project's report.
    pub project: String,
    /// When the report was last modified, as it is to be shown.
    pub updated: String,
    pub report: AuditReport,
}

/// Whether a directory entry is a report to show: a file named
/// `audit-report.json`.
pub fn is_report_file(is_file: bool, name: &str) -> (b: bool)
    ensures
        b == (is_file && name@ == REPORT_FILE@),
{
    is_file && same_text(name, REPORT_FILE)
}

/// The project a report file belongs to: the name of the directory that
/// holds it.
pub fn project_name(report_path: &Vec<PathPart>) -> (r: Option<String>)
    ensures
        match (r, project_of(parts_view(report_path@))) {
            (Some(n), Some(s)) => n@ == s,
            (None, None) => true,
            _ => false,
        },
{
    match parent(report_path) {
        Some(dir) => file_name(&dir),
        None => None,
    }
}

/// The table row of one package: searched by its lowercased name.
pub open spec fn package_row(p: Package) -> Seq<char> {
    ROW_OPEN@ + lowercase(p.name@) + ROW_NAME@ + p.name@ + ROW_VERSION@ + p.version@ + ROW_CLOSE@
}

pub open spec fn package_rows(ps: Seq<Package>) -> Seq<char>
    decreases ps.len(),
{
    if ps.len() == 0 {
        Seq::empty()
    } else {
        package_rows(ps.drop_last()) + package_row(ps.last())
    }
}

/// The section titled `title` that lists `packages`: a count in its
/// summary and a row per package; nothing where there is no list.
pub open spec fn package_section(title: Seq<char>, packages: Option<Vec<Package>>) -> Seq<char> {
    match packages {
        None => Seq::empty(),
        Some(ps) => SECTION_OPEN@ + title + SECTION_COUNT@ + decimal(ps@.len()) + SECTION_TABLE@
            + package_rows(ps@) + SECTION_CLOSE@,
    }
}

pub open spec fn description_text(d: Option<String>) -> Seq<char> {
    match d {
        Some(s) => s@,
        None => NO_DESCRIPTION@,
    }
}

/// The card of one project.
pub open spec fn card_text(c: ProjectCard) -> Seq<char> {
    CARD_OPEN@ + c.project@ + CARD_UPDATED@ + c.updated@ + CARD_DESCRIPTION@ + description_text(
        c.report.description,
    ) + CARD_BODY@ + package_section(PYTHON_TITLE@, c.report.python_packages) + package_section(
        R_TITLE@,
        c.report.r_packages,
    ) + CARD_CLOSE@
}

pub open spec fn cards_text(cs: Seq<ProjectCard>) -> Seq<char>
    decreases cs.len(),
{
    if cs.len() == 0 {
        Seq::empty()
    } else {
        cards_text(cs.drop_last()) + card_text(cs.last())
    }
}

/// The whole page for `cs`, one card per project in order.
pub open spec fn index_page(cs: Seq<ProjectCard>) -> Seq<char> {
    PAGE_HEAD@ + cards_text(cs) + PAGE_TAIL@
}

/// Appends to `html` the section titled `title` that lists `packages`.
pub fn write_packages(html: &mut String, title: &str, packages: Option<Vec<Package>>)
    ensures
        final(html)@ == old(html)@ + package_section(title@, packages),
{
    let ghost spec_packages = packages;
    let packages = match packages {
        Some(p) => p,
        None => {
            assert(old(html)@ + package_section(title@, spec_packages) =~= old(html)@);
            return ;
        },
    };
    html.append(SECTION_OPEN);
    html.append(title);
    html.append(SECTION_COUNT);
    let count = decimal_string(packages.len());
    html.append(count.as_str());
    html.append(SECTION_TABLE);
    let ghost start = html@;
    let mut i: usize = 0;
    while i < packages.len()
        invariant
            i <= packages.len(),
            html@ == start + package_rows(packages@.take(i as int)),
        decreases packages.len() - i,
    {
        let p = &packages[i];
        let lower = to_lowercase(p.name.as_str());
        html.append(ROW_OPEN);
        html.append(lower.as_str());
        html.append(ROW_NAME);
        html.append(p.name.as_str());
        html.append(ROW_VERSION);
        html.append(p.version.as_str());
        html.append(ROW_CLOSE);
        assert(packages@.take(i + 1).drop_last() =~= packages@.take(i as int));
        assert(html@ =~= start + package_rows(packages@.take(i + 1)));
        i = i + 1;
    }
    assert(packages@.take(packages.len() as int) =~= packages@);
    html.append(SECTION_CLOSE);
    assert(html@ =~= old(html)@ + package_section(title@, spec_packages));
}

/// Appends the card of `card` to `html`.
pub fn write_card(html: &mut String, card: ProjectCard)
    ensures
        final(html)@ == old(html)@ + card_text(card),
{
    let ghost c = card;
    let ProjectCard { project, updated, report } = card;
    let AuditReport { description, python_packages, r_packages } = report;
    html.append(CARD_OPEN);
    html.append(project.as_str());
    html.append(CARD_UPDATED);
    html.append(updated.as_str());
    html.append(CARD_DESCRIPTION);
    match &description {
        Some(d) => html.append(d.as_str()),
        None => html.append(NO_DESCRIPTION),
    }
    html.append(CARD_BODY);
    write_packages(html, PYTHON_TITLE, python_packages);
    write_packages(html, R_TITLE, r_packages);
    html.append(CARD_CLOSE);
    assert(html@ =~= old(html)@ + card_text(c));
}

/// The index page for `cards`, one card per project in order.
pub fn render_index(cards: Vec<ProjectCard>) -> (html: String)
    ensures
        html@ == index_page(cards@),
{
    let mut html = String::new();
    html.append(PAGE_HEAD);
    let ghost all = cards@;
    for card in it: cards.into_iter()
        invariant
            it.seq() == all,
            html@ == PAGE_HEAD@ + cards_text(all.take(it.index() as int)),
    {
        let ghost c = card;
        write_card(&mut html, card);
        assert(all.take(it.index() + 1).drop_last() =~= all.take(it.index() as int));
        assert(html@ =~= PAGE_HEAD@ + cards_text(all.take(it.index() + 1)));
    }
    assert(all.take(all.len() as int) =~= all);
    html.append(PAGE_TAIL);
    html
}

// ---------------------------------------------------------------------
// What the page shows
// ---------------------------------------------------------------------
/// The rows of two lists, one after the other, are the rows of the first
/// list followed by those of the second.
pub proof fn lemma_rows_concat(ps: Seq<Package>, qs: Seq<Package>)
    ensures
        package_rows(ps + qs) == package_rows(ps) + package_rows(qs),
    decreases qs.len(),
{
    if qs.len() == 0 {
        assert(ps + qs =~= ps);
        assert(package_rows(ps) + package_rows(qs) =~= package_rows(ps));
    } else {
        lemma_rows_concat(ps, qs.drop_last());
        assert((ps + qs).drop_last() =~= ps + qs.drop_last());
        assert((ps + qs).last() == qs.last());
        assert(package_rows(ps + qs) =~= package_rows(ps) + package_rows(qs));
    }
}

/// A table lists its packages in their order, one row each: the rows of
/// `ps` are the rows of the packages before `ps[k]`, then the row of
/// `ps[k]`, then the rows of those after it.
pub proof fn lemma_rows_in_order(ps: Seq<Package>, k: int)
    requires
        0 <= k < ps.len(),
    ensures
        package_rows(seq![ps[k]]) == package_row(ps[k]),
        package_rows(ps) == package_rows(ps.take(k)) + package_row(ps[k]) + package_rows(
            ps.skip(k + 1),
        ),
{
    let one = seq![ps[k]];
    assert(one.drop_last() =~= Seq::<Package>::empty());
    assert(package_rows(one.drop_last()) == Seq::<char>::empty());
    assert(one.last() == ps[k]);
    assert(package_rows(one) =~= package_row(ps[k]));
    assert(ps =~= ps.take(k) + one + ps.skip(k + 1));
    lemma_rows_concat(ps.take(k) + one, ps.skip(k + 1));
    lemma_rows_concat(ps.take(k), one);
}

proof fn lemma_rows_mention(ps: Seq<Package>, j: int)
    requires
        0 <= j < ps.len(),
    ensures
        contains_text(package_rows(ps), package_row(ps[j])),
    decreases ps.len(),
{
    let rows = package_rows(ps);
    if j == ps.len() - 1 {
        lemma_contains_part(rows, package_rows(ps.drop_last()), package_row(ps.last()), Seq::empty());
    } else {
        lemma_rows_mention(ps.drop_last(), j);
        assert(ps.drop_last()[j] == ps[j]);
        lemma_contains_part(rows, Seq::empty(), package_rows(ps.drop_last()), package_row(ps.last()));
        lemma_contains_trans(rows, package_rows(ps.drop_last()), package_row(ps[j]));
    }
}

proof fn lemma_section_mentions(title: Seq<char>, ps: Vec<Package>, j: int)
    requires
        0 <= j < ps@.len(),
    ensures
        contains_text(package_section(title, Some(ps)), ps@[j].name@),
        contains_text(package_section(title, Some(ps)), ps@[j].version@),
{
    let sec = package_section(title, Some(ps));
    let rows = package_rows(ps@);
    let row = package_row(ps@[j]);
    let p = ps@[j];
    lemma_contains_part(
        sec,
        SECTION_OPEN@ + title + SECTION_COUNT@ + decimal(ps@.len()) + SECTION_TABLE@,
        rows,
        SECTION_CLOSE@,
    );
    lemma_rows_mention(ps@, j);
    lemma_contains_trans(sec, rows, row);
    lemma_contains_part(
        row,
        ROW_OPEN@ + lowercase(p.name@) + ROW_NAME@,
        p.name@,
        ROW_VERSION@ + p.version@ + ROW_CLOSE@,
    );
    lemma_contains_part(
        row,
        ROW_OPEN@ + lowercase(p.name@) + ROW_NAME@ + p.name@ + ROW_VERSION@,
        p.version@,
        ROW_CLOSE@,
    );
    lemma_contains_trans(sec, row, p.name@);
    lemma_contains_trans(sec, row, p.version@);
}

proof fn lemma_section_title(title: Seq<char>, ps: Vec<Package>)
    ensures
        contains_text(package_section(title, Some(ps)), title),
{
    lemma_contains_part(
        package_section(title, Some(ps)),
        SECTION_OPEN@,
        title,
        SECTION_COUNT@ + decimal(ps@.len()) + SECTION_TABLE@ + package_rows(ps@) + SECTION_CLOSE@,
    );
}

proof fn lemma_cards_mention(cs: Seq<ProjectCard>, k: int)
    requires
        0 <= k < cs.len(),
    ensures
        contains_text(cards_text(cs), card_text(cs[k])),
    decreases cs.len(),
{
    let all = cards_text(cs);
    if k == cs.len() - 1 {
        lemma_contains_part(all, cards_text(cs.drop_last()), card_text(cs.last()), Seq::empty());
    } else {
        lemma_cards_mention(cs.drop_last(), k);
        assert(cs.drop_last()[k] == cs[k]);
        lemma_contains_part(all, Seq::empty(), cards_text(cs.drop_last()), card_text(cs.last()));
        lemma_contains_trans(all, cards_text(cs.drop_last()), card_text(cs[k]));
    }
}

proof fn lemma_card_parts(c: ProjectCard)
    ensures
        contains_text(card_text(c), c.project@),
        contains_text(card_text(c), description_text(c.report.description)),
        contains_text(card_text(c), package_section(PYTHON_TITLE@, c.report.python_packages)),
        contains_text(card_text(c), package_section(R_TITLE@, c.report.r_packages)),
{
    let card = card_text(c);
    let desc = description_text(c.report.description);
    let py = package_section(PYTHON_TITLE@, c.report.python_packages);
    let rs = package_section(R_TITLE@, c.report.r_packages);
    let head = CARD_OPEN@ + c.project@ + CARD_UPDATED@ + c.updated@ + CARD_DESCRIPTION@;
    lemma_contains_part(
        card,
        CARD_OPEN@,
        c.project@,
        CARD_UPDATED@ + c.updated@ + CARD_DESCRIPTION@ + desc + CARD_BODY@ + py + rs + CARD_CLOSE@,
    );
    lemma_contains_part(card, head, desc, CARD_BODY@ + py + rs + CARD_CLOSE@);
    lemma_contains_part(card, head + desc + CARD_BODY@, py, rs + CARD_CLOSE@);
    lemma_contains_part(card, head + desc + CARD_BODY@ + py, rs, CARD_CLOSE@);
}

/// Whatever a card shows, the page shows.
proof fn lemma_page_shows_card(cs: Seq<ProjectCard>, k: int, x: Seq<char>)
    requires
        0 <= k < cs.len(),
        contains_text(card_text(cs[k]), x),
    ensures
        contains_text(index_page(cs), x),
{
    lemma_contains_part(index_page(cs), PAGE_HEAD@, cards_text(cs), PAGE_TAIL@);
    lemma_cards_mention(cs, k);
    lemma_contains_trans(index_page(cs), cards_text(cs), card_text(cs[k]));
    lemma_contains_trans(index_page(cs), card_text(cs[k]), x);
}

/// Whatever a package section shows, the card and so the page show.
proof fn lemma_page_shows_section(cs: Seq<ProjectCard>, k: int, sec: Seq<char>, x: Seq<char>)
    requires
        0 <= k < cs.len(),
        contains_text(card_text(cs[k]), sec),
        contains_text(sec, x),
    ensures
        contains_text(index_page(cs), x),
{
    lemma_contains_trans(card_text(cs[k]), sec, x);
    lemma_page_shows_card(cs, k, x);
}

/// The page names every project it was given, shows its description (or
/// that it has none), and lists the name and version of every Python and
/// R package of its report under the section's title.
pub proof fn lemma_page_mentions(cs: Seq<ProjectCard>, k: int)
    requires
        0 <= k < cs.len(),
    ensures
        contains_text(index_page(cs), cs[k].project@),
        contains_text(index_page(cs), description_text(cs[k].report.description)),
        cs[k].report.python_packages matches Some(ps) ==> {
            &&& contains_text(index_page(cs), PYTHON_TITLE@)
            &&& forall|j: int|
                0 <= j < ps@.len() ==> contains_text(index_page(cs), #[trigger] ps@[j].name@)
                    && contains_text(index_page(cs), ps@[j].version@)
        },
        cs[k].report.r_packages matches Some(ps) ==> {
            &&& contains_text(index_page(cs), R_TITLE@)
            &&& forall|j: int|
                0 <= j < ps@.len() ==> contains_text(index_page(cs), #[trigger] ps@[j].name@)
                    && contains_text(index_page(cs), ps@[j].version@)
        },
{
    let c = cs[k];
    lemma_card_parts(c);
    lemma_page_shows_card(cs, k, c.project@);
    lemma_page_shows_card(cs, k, description_text(c.report.description));
    if c.report.python_packages is Some {
        let ps = c.report.python_packages->0;
        let py = package_section(PYTHON_TITLE@, Some(ps));
        lemma_section_title(PYTHON_TITLE@, ps);
        lemma_page_shows_section(cs, k, py, PYTHON_TITLE@);
        assert forall|j: int| 0 <= j < ps@.len() implies contains_text(
            index_page(cs),
            #[trigger] ps@[j].name@,
        ) && contains_text(index_page(cs), ps@[j].version@) by {
            lemma_section_mentions(PYTHON_TITLE@, ps, j);
            lemma_page_shows_section(cs, k, py, ps@[j].name@);
            lemma_page_shows_section(cs, k, py, ps@[j].version@);
        }
    }
    if c.report.r_packages is Some {
        let ps = c.report.r_packages->0;
        let rs = package_section(R_TITLE@, Some(ps));
        lemma_section_title(R_TITLE@, ps);
        lemma_page_shows_section(cs, k, rs, R_TITLE@);
        assert forall|j: int| 0 <= j < ps@.len() implies contains_text(
            index_page(cs),
            #[trigger] ps@[j].name@,
        ) && contains_text(index_page(cs), ps@[j].version@) by {
            lemma_section_mentions(R_TITLE@, ps, j);
            lemma_page_shows_section(cs, k, rs, ps@[j].name@);
            lemma_page_shows_section(cs, k, rs, ps@[j].version@);
        }
    }
}

} // verus!
