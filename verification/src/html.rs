//! Selection of text and attributes from HTML by CSS selectors. The parsing
//! and matching are the `scraper` crate's; what it selects is named here so
//! that the contracts of the extractors can speak of it.

use scraper::{ElementRef, Html, Selector};
use vstd::prelude::*;

verus! {

/// The longest page, in characters, that is handed to the parser. The
/// parser keeps text in buffers whose lengths are 32-bit numbers, and may
/// put up to four bytes for a character; a page within this limit stays
/// well below what those buffers hold.
pub const MAX_PAGE_CHARS: usize = 0x0fff_ffff;

/// Whether `html` is short enough to be parsed.
pub open spec fn is_page(html: Seq<char>) -> bool {
    html.len() <= MAX_PAGE_CHARS
}

/// Whether `html` is short enough to be parsed.
pub fn fits(html: &str) -> (r: bool)
    ensures
        r == is_page(html@),
{
    html.unicode_len() <= MAX_PAGE_CHARS
}

/// What `scraper` selects from the document `html` with `selector`: the text
/// of each matching element (its descendant text nodes joined), in the order
/// in which `Html::select` yields them. `None` when `selector` is no CSS
/// selector.
pub uninterp spec fn texts_at(html: Seq<char>, selector: Seq<char>) -> Option<Seq<Seq<char>>>;

/// What `scraper` selects from the document `html` with `selector`: for each
/// matching element, in the order of `Html::select`, the value of its
/// attribute `attr` if it has one. `None` when `selector` is no CSS selector.
pub uninterp spec fn attrs_at(html: Seq<char>, selector: Seq<char>, attr: Seq<char>) -> Option<
    Seq<Option<Seq<char>>>,
>;

/// What `scraper` selects from the tables of the document `html`: for each
/// element matching `table`, for each of its descendants matching `row`, the
/// texts of the row's descendants matching `head` and of those matching
/// `cell`. `None` when one of the four is no CSS selector.
pub uninterp spec fn rows_at(
    html: Seq<char>,
    table: Seq<char>,
    row: Seq<char>,
    head: Seq<char>,
    cell: Seq<char>,
) -> Option<Seq<Seq<(Seq<Seq<char>>, Seq<Seq<char>>)>>>;

/// What `scraper` selects from the rows of the document `html`: for each
/// element matching `row`, in the order of `Html::select`, the texts of its
/// descendants matching `first`, the texts of those matching `second`, and
/// for each of those matching `link` the value of its attribute `attr` if it
/// has one. In the three inner selectors `:scope` stands for the row. `None`
/// when one of the four is no CSS selector.
pub uninterp spec fn cells_at(
    html: Seq<char>,
    row: Seq<char>,
    first: Seq<char>,
    second: Seq<char>,
    link: Seq<char>,
    attr: Seq<char>,
) -> Option<Seq<(Seq<Seq<char>>, Seq<Seq<char>>, Seq<Option<Seq<char>>>)>>;

/// Calls `Html::parse_document`, `Selector::parse`, `Html::select`
/// and `ElementRef::text`. The result is the text of every element that the
/// selector matches, in the order of selection; it depends on the two
/// strings alone. The parser is not handed a text beyond the limit, on
/// which it may panic.
#[verifier::external_body]
pub(crate) fn select_texts(html: &str, selector: &str) -> (r: Option<Vec<String>>)
    requires
        is_page(html@),
    ensures
        r.deep_view() == texts_at(html@, selector@),
{
    let sel = Selector::parse(selector).ok()?;
    let doc = Html::parse_document(html);
    Some(doc.select(&sel).map(|e| e.text().collect::<String>()).collect())
}

/// Calls `Html::parse_document`, `Selector::parse`, `Html::select`
/// and `Element::attr`. The result holds, for every element that the selector
/// matches, the value of the named attribute if the element has it; it
/// depends on the three strings alone. The parser is not handed a text
/// beyond the limit, on which it may panic.
#[verifier::external_body]
pub(crate) fn select_attrs(html: &str, selector: &str, attr: &str) -> (r: Option<
    Vec<Option<String>>,
>)
    requires
        is_page(html@),
    ensures
        r.deep_view() == attrs_at(html@, selector@, attr@),
{
    let sel = Selector::parse(selector).ok()?;
    let doc = Html::parse_document(html);
    Some(doc.select(&sel).map(|e| e.value().attr(attr).map(|v| v.to_string())).collect())
}

/// Calls `Html::parse_document`, `Selector::parse`, `Html::select`,
/// `ElementRef::select` and `ElementRef::text`. The result holds, for every
/// table matched and every row matched inside it, the texts of the heads and
/// of the cells matched inside the row; it depends on the five strings alone.
/// The parser is not handed a text beyond the limit, on which it may panic.
#[verifier::external_body]
pub(crate) fn select_rows(html: &str, table: &str, row: &str, head: &str, cell: &str) -> (r:
    Option<Vec<Vec<(Vec<String>, Vec<String>)>>>)
    requires
        is_page(html@),
    ensures
        r.deep_view() == rows_at(html@, table@, row@, head@, cell@),
{
    let (t, r) = (Selector::parse(table).ok()?, Selector::parse(row).ok()?);
    let (h, c) = (Selector::parse(head).ok()?, Selector::parse(cell).ok()?);
    let texts = |e: ElementRef, s: &Selector| -> Vec<String> {
        e.select(s).map(|x| x.text().collect::<String>()).collect()
    };
    let doc = Html::parse_document(html);
    Some(doc.select(&t).map(|e| e.select(&r).map(|x| (texts(x, &h), texts(x, &c))).collect()).collect())
}

/// Calls `Html::parse_document`, `Selector::parse`, `Html::select`,
/// `ElementRef::select`, `ElementRef::text` and `ElementRef::attr`. The result
/// holds, for every row matched, the texts of the elements matched inside it
/// by `first` and by `second`, and of those matched by `link` the value of
/// the named attribute where they have it; it depends on the six strings
/// alone. The parser is not handed a text beyond the limit, on which it may
/// panic.
#[verifier::external_body]
pub(crate) fn select_cells(
    html: &str,
    row: &str,
    first: &str,
    second: &str,
    link: &str,
    attr: &str,
) -> (r: Option<Vec<(Vec<String>, Vec<String>, Vec<Option<String>>)>>)
    requires
        is_page(html@),
    ensures
        r.deep_view() == cells_at(html@, row@, first@, second@, link@, attr@),
{
    let (r, a) = (Selector::parse(row).ok()?, Selector::parse(first).ok()?);
    let (b, l) = (Selector::parse(second).ok()?, Selector::parse(link).ok()?);
    let texts = |e: ElementRef, s: &Selector| e.select(s).map(|x| x.text().collect()).collect();
    let targets = |e: ElementRef| e.select(&l).map(|x| x.attr(attr).map(str::to_string)).collect();
    let doc = Html::parse_document(html);
    Some(doc.select(&r).map(|e| (texts(e, &a), texts(e, &b), targets(e))).collect())
}

/// The texts that `selector` selects from the page `html`; `None` when the
/// page is too long to be parsed or `selector` is no CSS selector.
pub open spec fn selected_texts(html: Seq<char>, selector: Seq<char>) -> Option<Seq<Seq<char>>> {
    if is_page(html) {
        texts_at(html, selector)
    } else {
        None
    }
}

/// The texts that `selector` selects from the page `html`.
pub fn texts_of_page(html: &str, selector: &str) -> (r: Option<Vec<String>>)
    ensures
        r.deep_view() == selected_texts(html@, selector@),
{
    if fits(html) {
        select_texts(html, selector)
    } else {
        None
    }
}

/// The attribute values that `selector` selects from the page `html`; `None`
/// when the page is too long to be parsed or `selector` is no CSS selector.
pub open spec fn selected_attrs(html: Seq<char>, selector: Seq<char>, attr: Seq<char>) -> Option<
    Seq<Option<Seq<char>>>,
> {
    if is_page(html) {
        attrs_at(html, selector, attr)
    } else {
        None
    }
}

/// The attribute values that `selector` selects from the page `html`.
pub fn attrs_of_page(html: &str, selector: &str, attr: &str) -> (r: Option<Vec<Option<String>>>)
    ensures
        r.deep_view() == selected_attrs(html@, selector@, attr@),
{
    if fits(html) {
        select_attrs(html, selector, attr)
    } else {
        None
    }
}

/// The tables that are selected from the page `html`, each as its rows;
/// `None` when the page is too long to be parsed or one of the four is no CSS
/// selector.
pub open spec fn selected_rows(
    html: Seq<char>,
    table: Seq<char>,
    row: Seq<char>,
    head: Seq<char>,
    cell: Seq<char>,
) -> Option<Seq<Seq<(Seq<Seq<char>>, Seq<Seq<char>>)>>> {
    if is_page(html) {
        rows_at(html, table, row, head, cell)
    } else {
        None
    }
}

/// The tables that are selected from the page `html`, each as its rows.
pub fn rows_of_page(html: &str, table: &str, row: &str, head: &str, cell: &str) -> (r: Option<
    Vec<Vec<(Vec<String>, Vec<String>)>>,
>)
    ensures
        r.deep_view() == selected_rows(html@, table@, row@, head@, cell@),
{
    if fits(html) {
        select_rows(html, table, row, head, cell)
    } else {
        None
    }
}

/// The rows that are selected from the page `html`, each as what is selected
/// inside it; `None` when the page is too long to be parsed or one of the
/// four is no CSS selector.
pub open spec fn selected_cells(
    html: Seq<char>,
    row: Seq<char>,
    first: Seq<char>,
    second: Seq<char>,
    link: Seq<char>,
    attr: Seq<char>,
) -> Option<Seq<(Seq<Seq<char>>, Seq<Seq<char>>, Seq<Option<Seq<char>>>)>> {
    if is_page(html) {
        cells_at(html, row, first, second, link, attr)
    } else {
        None
    }
}

/// The rows that are selected from the page `html`, each as what is selected
/// inside it.
pub fn cells_of_page(
    html: &str,
    row: &str,
    first: &str,
    second: &str,
    link: &str,
    attr: &str,
) -> (r: Option<Vec<(Vec<String>, Vec<String>, Vec<Option<String>>)>>)
    ensures
        r.deep_view() == selected_cells(html@, row@, first@, second@, link@, attr@),
{
    if fits(html) {
        select_cells(html, row, first, second, link, attr)
    } else {
        None
    }
}

/// The first of the selected attribute values: `None` if nothing was
/// selected, or the first element selected lacks the attribute.
pub open spec fn first_of(found: Option<Seq<Option<Seq<char>>>>) -> Option<Seq<char>> {
    match found {
        Some(values) => if values.len() > 0 {
            values[0]
        } else {
            None
        },
        None => None,
    }
}

/// The first of the selected attribute values.
pub fn first_in(found: Option<Vec<Option<String>>>) -> (r: Option<String>)
    ensures
        r.deep_view() == first_of(found.deep_view()),
{
    match found {
        Some(mut values) => {
            if values.len() > 0 {
                assert(values.deep_view()[0] == values[0].deep_view());
                values.swap_remove(0)
            } else {
                None
            }
        },
        None => None,
    }
}

/// The selected attribute values, empty where an element lacks the
/// attribute; nothing where the selection failed.
pub open spec fn values_of(found: Option<Seq<Option<Seq<char>>>>) -> Seq<Seq<char>> {
    match found {
        Some(values) => Seq::new(
            values.len(),
            |i: int|
                match values[i] {
                    Some(value) => value,
                    None => Seq::empty(),
                },
        ),
        None => Seq::empty(),
    }
}

/// The selected attribute values, empty where an element lacks the
/// attribute.
pub fn values_in(found: Option<Vec<Option<String>>>) -> (values: Vec<String>)
    ensures
        values.deep_view() == values_of(found.deep_view()),
{
    let ghost wanted = values_of(found.deep_view());
    let mut values: Vec<String> = Vec::new();
    match found {
        Some(given) => {
            let mut i: usize = 0;
            assert(values.deep_view() == wanted.take(0));
            while i < given.len()
                invariant
                    i <= given.len(),
                    wanted == values_of(Some(given.deep_view())),
                    values.deep_view() == wanted.take(i as int),
                decreases given.len() - i,
            {
                let ghost before = values.deep_view();
                let value = match &given[i] {
                    Some(v) => v.clone(),
                    None => String::new(),
                };
                assert(value@ == wanted[i as int]) by {
                    assert(given.deep_view()[i as int] == given[i as int].deep_view());
                }
                values.push(value);
                i += 1;
                assert(values.deep_view() == before.push(value@));
                assert(wanted.take(i as int) == wanted.take(i - 1).push(wanted[i - 1]));
            }
            assert(wanted.take(given.len() as int) == wanted);
        },
        None => {
            assert(values.deep_view() == Seq::<Seq<char>>::empty());
        },
    }
    values
}

/// The value of attribute `attr` on the first element that `selector`
/// selects from `html`; `None` if nothing is selected or that element lacks
/// the attribute.
pub open spec fn first_attr_of(html: Seq<char>, selector: Seq<char>, attr: Seq<char>) -> Option<
    Seq<char>,
> {
    first_of(selected_attrs(html, selector, attr))
}

/// The value of attribute `attr` on the first element that `selector`
/// selects from `html`.
pub fn first_attr(html: &str, selector: &str, attr: &str) -> (r: Option<String>)
    ensures
        r.deep_view() == first_attr_of(html@, selector@, attr@),
{
    first_in(attrs_of_page(html, selector, attr))
}

/// For each element that `selector` selects from `html`, the value of its
/// attribute `attr`, empty where the element lacks it; nothing where the
/// selection fails.
pub open spec fn attr_values_of(html: Seq<char>, selector: Seq<char>, attr: Seq<char>) -> Seq<
    Seq<char>,
> {
    values_of(selected_attrs(html, selector, attr))
}

/// For each element that `selector` selects from `html`, the value of its
/// attribute `attr`, empty where the element lacks it.
pub fn attr_values(html: &str, selector: &str, attr: &str) -> (values: Vec<String>)
    ensures
        values.deep_view() == attr_values_of(html@, selector@, attr@),
{
    values_in(attrs_of_page(html, selector, attr))
}

} // verus!
