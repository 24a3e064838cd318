//! Queries on HTML pages, answered by the `scraper` crate.
//!
//! Each query parses a page, runs one CSS selector over it and hands back
//! plain strings. What the parser and the selector engine compute is given a
//! name here and is not restated: the rest of the library speaks of those
//! names.
use vstd::prelude::*;

verus! {

/// View of an optional string.
pub open spec fn opt_view(o: Option<String>) -> Option<Seq<char>> {
    match o {
        Some(s) => Some(s@),
        None => None,
    }
}

/// View of a list of optional strings.
pub open spec fn opt_list_view(v: Seq<Option<String>>) -> Seq<Option<Seq<char>>> {
    v.map_values(|o: Option<String>| opt_view(o))
}

/// View of the cell texts of a list of rows.
pub open spec fn cells_view(v: Seq<Vec<Option<String>>>) -> Seq<Seq<Option<Seq<char>>>> {
    v.map_values(|row: Vec<Option<String>>| opt_list_view(row@))
}

/// For each element of `page` that `selector` matches, in the order the
/// parser stores them, its first descendant text node; `None` when the
/// selector does not parse.
pub uninterp spec fn matched_texts(page: Seq<char>, selector: Seq<char>) -> Option<Seq<Option<Seq<char>>>>;

/// For each element of `page` that `selector` matches, the value of its
/// attribute `attr`; `None` when the selector does not parse.
pub uninterp spec fn matched_attrs(page: Seq<char>, selector: Seq<char>, attr: Seq<char>) -> Option<Seq<Option<Seq<char>>>>;

/// For each element of `page` that `row_selector` matches, the first text
/// node of each of its descendants that `cell_selector` matches; `None` when
/// either selector does not parse.
pub uninterp spec fn matched_cells(page: Seq<char>, row_selector: Seq<char>, cell_selector: Seq<char>) -> Option<Seq<Seq<Option<Seq<char>>>>>;

/// Relies on scraper's `Html::parse_document`, `Selector::parse`, `Html::select`
/// and `ElementRef::text`: the first text node of every matching element.
#[verifier::external_body]
pub(crate) fn select_texts(page: &str, selector: &str) -> (r: Option<Vec<Option<String>>>)
    ensures
        match r {
            None => matched_texts(page@, selector@) is None,
            Some(v) => matched_texts(page@, selector@) == Some(opt_list_view(v@)),
        },
{
    let sel = scraper::Selector::parse(selector).ok()?;
    let doc = scraper::Html::parse_document(page);
    let mut out = Vec::new();
    for element in doc.select(&sel) {
        out.push(element.text().next().map(|t| t.to_string()));
    }
    Some(out)
}

/// Relies on scraper's `Html::parse_document`, `Selector::parse`, `Html::select`
/// and `Element::attr`: one attribute of every matching element.
#[verifier::external_body]
pub(crate) fn select_attrs(page: &str, selector: &str, attr: &str) -> (r: Option<Vec<Option<String>>>)
    ensures
        match r {
            None => matched_attrs(page@, selector@, attr@) is None,
            Some(v) => matched_attrs(page@, selector@, attr@) == Some(opt_list_view(v@)),
        },
{
    let sel = scraper::Selector::parse(selector).ok()?;
    let doc = scraper::Html::parse_document(page);
    let mut out = Vec::new();
    for element in doc.select(&sel) {
        out.push(element.value().attr(attr).map(|a| a.to_string()));
    }
    Some(out)
}

/// Relies on scraper's `Html::parse_document`, `Selector::parse`,
/// `Html::select`, `ElementRef::select` and `ElementRef::text`: the cell texts
/// of every matching row.
#[verifier::external_body]
pub(crate) fn select_cells(page: &str, row_selector: &str, cell_selector: &str) -> (r: Option<Vec<Vec<Option<String>>>>)
    ensures
        match r {
            None => matched_cells(page@, row_selector@, cell_selector@) is None,
            Some(v) => matched_cells(page@, row_selector@, cell_selector@)
                == Some(cells_view(v@)),
        },
{
    let rows = scraper::Selector::parse(row_selector).ok()?;
    let cells = scraper::Selector::parse(cell_selector).ok()?;
    let doc = scraper::Html::parse_document(page);
    let mut out = Vec::new();
    for row in doc.select(&rows) {
        let mut texts = Vec::new();
        for cell in row.select(&cells) {
            texts.push(cell.text().next().map(|t| t.to_string()));
        }
        out.push(texts);
    }
    Some(out)
}

} // verus!
