//! The documents page of a case: its reference id, and the links to the
//! documents that the crawl keeps, classified by kind.

use crate::error::CrawlError;
use crate::html::{cells_of_page, fits, is_page, selected_cells, selected_texts, texts_of_page};
use crate::portal::{
    BASE_URL, DESCRIPTION_SELECTOR, DOCS_LINK_SELECTOR, DOCS_ROW_SELECTOR, DOCS_SELECTOR,
    REFERENCE_ID_SELECTOR,
};
use crate::record::DocKind;
use crate::text::{contains, joined, lowercase_of, occurs_in, trim, trimmed};
use vstd::prelude::*;

verus! {

/// The word that marks a decision notice.
pub const DECISION_WORD: &'static str = "decision";

/// The words that mark an application form.
pub const FORM_WORDS: &'static str = "application form";

/// The name of the attribute that holds a link's target.
pub const HREF: &'static str = "href";

/// At most one link per kind of document.
#[derive(Clone, Debug, PartialEq, Eq)]
pub struct DocLinks {
    pub decision_notice: Option<String>,
    pub application_form: Option<String>,
}

/// The view of a [`DocLinks`].
pub struct DocLinksView {
    pub decision_notice: Option<Seq<char>>,
    pub application_form: Option<Seq<char>>,
}

impl View for DocLinks {
    type V = DocLinksView;

    open spec fn view(&self) -> DocLinksView {
        DocLinksView {
            decision_notice: self.decision_notice.deep_view(),
            application_form: self.application_form.deep_view(),
        }
    }
}

impl DocLinksView {
    /// The link kept for `kind`, if there is one.
    pub open spec fn get(self, kind: DocKind) -> Option<Seq<char>> {
        match kind {
            DocKind::DecisionNotice => self.decision_notice,
            DocKind::ApplicationForm => self.application_form,
        }
    }
}

impl DocLinks {
    /// The link kept for `kind`, if there is one.
    pub fn get(&self, kind: DocKind) -> (link: Option<&String>)
        ensures
            link.deep_view() == self@.get(kind),
    {
        match kind {
            DocKind::DecisionNotice => self.decision_notice.as_ref(),
            DocKind::ApplicationForm => self.application_form.as_ref(),
        }
    }
}

/// Whether `text`, trimmed and in lower case, holds `word`.
pub open spec fn mentions(text: Seq<char>, word: Seq<char>) -> bool {
    occurs_in(lowercase_of(trimmed(text)), word)
}

/// Whether `text`, trimmed and in lower case, holds `word`.
pub fn mentions_word(text: &str, word: &str) -> (r: bool)
    ensures
        r == mentions(text@, word@),
{
    let lower = trim(text).to_lowercase();
    contains(lower.as_str(), word)
}

/// One row of the documents table: its name, the target of its link, and
/// its description.
pub struct DocRow {
    pub name: Seq<char>,
    pub link: Seq<char>,
    pub description: Seq<char>,
}

/// The kind under which a row of the documents table is kept. A row is kept
/// when its name or its description mentions a decision or an application
/// form and its link is not blank; it is a decision notice when either
/// mentions a decision, and an application form otherwise.
pub open spec fn kind_of(row: DocRow) -> Option<DocKind> {
    kind_by(
        trimmed(row.link).len() == 0,
        mentions(row.name, DECISION_WORD@) || mentions(row.description, DECISION_WORD@),
        mentions(row.name, FORM_WORDS@) || mentions(row.description, FORM_WORDS@),
    )
}

/// The kind under which a row is kept, from what was found of it: whether
/// its link is blank, whether it mentions a decision, and whether it
/// mentions an application form.
pub open spec fn kind_by(blank: bool, decision: bool, form: bool) -> Option<DocKind> {
    if blank || !(decision || form) {
        None
    } else if decision {
        Some(DocKind::DecisionNotice)
    } else {
        Some(DocKind::ApplicationForm)
    }
}

/// The kind under which a row is kept, from what was found of it.
pub fn decide_kind(blank: bool, decision: bool, form: bool) -> (kind: Option<DocKind>)
    ensures
        kind == kind_by(blank, decision, form),
        kind is None <==> blank || !(decision || form),
        kind == Some(DocKind::DecisionNotice) <==> !blank && decision,
        kind == Some(DocKind::ApplicationForm) <==> !blank && !decision && form,
{
    if blank {
        None
    } else if decision {
        Some(DocKind::DecisionNotice)
    } else if form {
        Some(DocKind::ApplicationForm)
    } else {
        None
    }
}

/// Classifies one row of the documents table.
pub fn classify(name: &str, description: &str, link: &str) -> (kind: Option<DocKind>)
    ensures
        kind == kind_of(DocRow { name: name@, link: link@, description: description@ }),
{
    let blank = trim(link).as_str().is_empty();
    let decision = mentions_word(name, DECISION_WORD) || mentions_word(description, DECISION_WORD);
    let form = mentions_word(name, FORM_WORDS) || mentions_word(description, FORM_WORDS);
    decide_kind(blank, decision, form)
}

/// The first of the texts, empty if there is none.
pub open spec fn first_text(texts: Seq<Seq<char>>) -> Seq<char> {
    if texts.len() > 0 {
        texts[0]
    } else {
        Seq::empty()
    }
}

/// The first of the link targets, empty if there is no link or the first
/// link has no target.
pub open spec fn first_target(targets: Seq<Option<Seq<char>>>) -> Seq<char> {
    if targets.len() > 0 {
        match targets[0] {
            Some(target) => target,
            None => Seq::empty(),
        }
    } else {
        Seq::empty()
    }
}

/// The row that was read of one row of the documents table: the text of its
/// name cell, the text of its description cell, and the target of the link
/// in its link cell, each empty where the row has none.
pub open spec fn row_of(cells: (Seq<Seq<char>>, Seq<Seq<char>>, Seq<Option<Seq<char>>>)) -> DocRow {
    DocRow {
        name: first_text(cells.0),
        description: first_text(cells.1),
        link: first_target(cells.2),
    }
}

/// The rows that were read of a documents table, in the order of the table;
/// none where the selection failed.
pub open spec fn rows_of(
    found: Option<Seq<(Seq<Seq<char>>, Seq<Seq<char>>, Seq<Option<Seq<char>>>)>>,
) -> Seq<DocRow> {
    match found {
        Some(rows) => Seq::new(rows.len(), |i: int| row_of(rows[i])),
        None => Seq::empty(),
    }
}

/// The link of the last row of kind `kind`, if there is such a row.
pub open spec fn latest_link(rows: Seq<DocRow>, kind: DocKind) -> Option<Seq<char>>
    decreases rows.len(),
{
    if rows.len() == 0 {
        None
    } else if kind_of(rows.last()) == Some(kind) {
        Some(rows.last().link)
    } else {
        latest_link(rows.drop_last(), kind)
    }
}

/// A link is kept for a kind exactly when some row is of that kind; the link
/// kept is that of the last such row.
pub proof fn link_is_of_the_last_row_of_its_kind(rows: Seq<DocRow>, kind: DocKind)
    ensures
        latest_link(rows, kind) is Some <==> exists|i: int|
            0 <= i < rows.len() && kind_of(#[trigger] rows[i]) == Some(kind),
        latest_link(rows, kind) is Some ==> exists|i: int|
            {
                &&& 0 <= i < rows.len()
                &&& kind_of(#[trigger] rows[i]) == Some(kind)
                &&& latest_link(rows, kind) == Some(rows[i].link)
                &&& forall|j: int| i < j < rows.len() ==> kind_of(#[trigger] rows[j]) != Some(kind)
            },
    decreases rows.len(),
{
    if rows.len() > 0 {
        let rest = rows.drop_last();
        let last = rows.len() - 1;
        link_is_of_the_last_row_of_its_kind(rest, kind);
        if kind_of(rows.last()) == Some(kind) {
            assert(kind_of(rows[last]) == Some(kind));
        } else if latest_link(rest, kind) is Some {
            let i = choose|i: int|
                {
                    &&& 0 <= i < rest.len()
                    &&& kind_of(#[trigger] rest[i]) == Some(kind)
                    &&& latest_link(rest, kind) == Some(rest[i].link)
                    &&& forall|j: int|
                        i < j < rest.len() ==> kind_of(#[trigger] rest[j]) != Some(kind)
                };
            assert(rows[i] == rest[i]);
            assert forall|j: int| i < j < rows.len() implies kind_of(#[trigger] rows[j]) != Some(
                kind,
            ) by {
                if j < last {
                    assert(rows[j] == rest[j]);
                }
            }
        } else {
            assert forall|i: int| 0 <= i < rows.len() implies kind_of(#[trigger] rows[i]) != Some(
                kind,
            ) by {
                if i < last {
                    assert(rows[i] == rest[i]);
                }
            }
        }
    }
}

/// `base` put before the link, where there is one.
pub open spec fn rooted(base: Seq<char>, link: Option<Seq<char>>) -> Option<Seq<char>> {
    match link {
        Some(l) => Some(base + l),
        None => None,
    }
}

/// The links that a documents table yields: for each kind the link of the
/// last row of that kind, made absolute.
pub open spec fn links_of(rows: Seq<DocRow>) -> DocLinksView {
    DocLinksView {
        decision_notice: rooted(BASE_URL@, latest_link(rows, DocKind::DecisionNotice)),
        application_form: rooted(BASE_URL@, latest_link(rows, DocKind::ApplicationForm)),
    }
}

/// The first of the texts, empty if there is none.
fn first_text_in(texts: &Vec<String>) -> (text: String)
    ensures
        text@ == first_text(texts.deep_view()),
{
    if texts.len() > 0 {
        assert(texts.deep_view()[0] == texts[0]@);
        texts[0].clone()
    } else {
        String::new()
    }
}

/// The first of the link targets, empty if there is none.
fn first_target_in(targets: &Vec<Option<String>>) -> (target: String)
    ensures
        target@ == first_target(targets.deep_view()),
{
    if targets.len() > 0 {
        assert(targets.deep_view()[0] == targets[0].deep_view());
        match &targets[0] {
            Some(target) => target.clone(),
            None => String::new(),
        }
    } else {
        String::new()
    }
}

/// Classifies the rows that were read of a documents table, each with its
/// own name, description and link, and keeps for each kind the link of the
/// last row of that kind.
pub fn collect_links(found: &Option<Vec<(Vec<String>, Vec<String>, Vec<Option<String>>)>>) -> (d:
    DocLinks)
    ensures
        d@ == links_of(rows_of(found.deep_view())),
{
    let ghost rows = rows_of(found.deep_view());
    let mut d = DocLinks { decision_notice: None, application_form: None };
    match found {
        Some(given) => {
            let mut i: usize = 0;
            assert(rows.take(0).len() == 0);
            while i < given.len()
                invariant
                    i <= given.len(),
                    rows == rows_of(Some(given.deep_view())),
                    d@ == links_of(rows.take(i as int)),
                decreases given.len() - i,
            {
                assert(given.deep_view()[i as int] == given[i as int].deep_view());
                let name = first_text_in(&given[i].0);
                let description = first_text_in(&given[i].1);
                let link = first_target_in(&given[i].2);
                let kind = classify(name.as_str(), description.as_str(), link.as_str());
                proof {
                    let next = rows.take(i + 1);
                    assert(next.last() == rows[i as int]);
                    assert(next.drop_last() == rows.take(i as int));
                    assert(rows[i as int] == row_of(given.deep_view()[i as int]));
                }
                match kind {
                    Some(DocKind::DecisionNotice) => {
                        d.decision_notice = Some(joined(BASE_URL, link.as_str()));
                    },
                    Some(DocKind::ApplicationForm) => {
                        d.application_form = Some(joined(BASE_URL, link.as_str()));
                    },
                    None => {},
                }
                i += 1;
            }
            assert(rows.take(given.len() as int) == rows);
        },
        None => {},
    }
    d
}

/// The reference id among the texts selected for it: the first, trimmed.
pub open spec fn reference_in(found: Option<Seq<Seq<char>>>) -> Option<Seq<char>> {
    match found {
        Some(texts) => if texts.len() > 0 {
            Some(trimmed(texts[0]))
        } else {
            None
        },
        None => None,
    }
}

/// What a documents page gives, from what was selected from it: the
/// reference id, which must be there, and the classified links of the rows
/// of the documents table.
pub fn read_documents(
    reference: Option<Vec<String>>,
    rows: &Option<Vec<(Vec<String>, Vec<String>, Vec<Option<String>>)>>,
) -> (r: Result<(String, DocLinks), CrawlError>)
    ensures
        match reference_in(reference.deep_view()) {
            Some(id) => r matches Ok(found) && found.0@ == id && found.1@ == links_of(
                rows_of(rows.deep_view()),
            ),
            None => r == Err::<(String, DocLinks), CrawlError>(CrawlError::MissingReference),
        },
{
    let id = match reference {
        Some(found) => {
            if found.len() == 0 {
                return Err(CrawlError::MissingReference);
            }
            assert(found.deep_view()[0] == found[0]@);
            trim(found[0].as_str())
        },
        None => {
            return Err(CrawlError::MissingReference);
        },
    };
    Ok((id, collect_links(rows)))
}

/// The reference id that a documents page names: the trimmed text of the
/// first element that holds one.
pub open spec fn reference_of(html: Seq<char>) -> Option<Seq<char>> {
    reference_in(selected_texts(html, REFERENCE_ID_SELECTOR@))
}

/// The classified links of a documents page: those of the rows of its
/// tables, each row read by its own cells.
pub open spec fn docs_of(html: Seq<char>) -> DocLinksView {
    links_of(
        rows_of(
            selected_cells(
                html,
                DOCS_ROW_SELECTOR@,
                DOCS_SELECTOR@,
                DESCRIPTION_SELECTOR@,
                DOCS_LINK_SELECTOR@,
                HREF@,
            ),
        ),
    )
}

/// Why a documents page that names no reference is refused: a page too long
/// to be parsed is not what the portal sends; any other lacks its reference.
pub open spec fn refusal_of(html: Seq<char>) -> CrawlError {
    if is_page(html) {
        CrawlError::MissingReference
    } else {
        CrawlError::ProtocolShape
    }
}

/// Reads a case's documents page: the reference id, which the page must
/// name, and the classified links of its documents table.
pub fn extract_docs(html: &str) -> (r: Result<(String, DocLinks), CrawlError>)
    ensures
        match reference_of(html@) {
            Some(reference) => r matches Ok(found) && found.0@ == reference && found.1@ == docs_of(
                html@,
            ),
            None => r == Err::<(String, DocLinks), CrawlError>(refusal_of(html@)),
        },
{
    if !fits(html) {
        return Err(CrawlError::ProtocolShape);
    }
    let reference = texts_of_page(html, REFERENCE_ID_SELECTOR);
    let rows = cells_of_page(
        html,
        DOCS_ROW_SELECTOR,
        DOCS_SELECTOR,
        DESCRIPTION_SELECTOR,
        DOCS_LINK_SELECTOR,
        HREF,
    );
    read_documents(reference, &rows)
}

} // verus!
