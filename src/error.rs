//! Errors of the scraping and decoding layers.
use vstd::prelude::*;

verus! {

/// A page did not have the shape that a scrape expects.
#[derive(Clone, Copy, Debug, PartialEq, Eq, Structural)]
pub enum ScrapeError {
    /// The element that the scrape looks for is absent: typically an
    /// unauthenticated session or a changed page layout.
    ElementNotFound,
    /// The element is there but lacks the attribute that is read.
    AttributeNotFound,
    /// The element is there but its text is not what the field holds
    /// (a number that does not parse).
    Unparseable,
    /// A selector of the scrape was refused by the selector engine.
    InvalidSelector,
}

/// A field of a JSON answer could not be coerced to its type.
#[derive(Clone, Copy, Debug, PartialEq, Eq, Structural)]
pub enum DecodeError {
    /// A numeric field that arrives as a string does not hold a `u32`.
    NotANumber,
}

} // verus!
