use vstd::prelude::*;

verus! {

/// Why an attribute could not be read.
#[derive(Clone, Debug, PartialEq, Eq)]
pub enum Error {
    /// `debug` was given a list, where a path or a name-value pair belongs.
    UnexpectedList,
    /// A value that must be a string literal was some other literal.
    ExpectedStrLiteral,
    /// An entry's path is not a single identifier.
    MissingIdent,
    /// A bare literal stood where a named entry belongs.
    UnsupportedLiteral,
    /// An entry whose name is not one of the accepted ones.
    UnknownField(String),
    /// An entry given twice.
    DuplicateField(String),
    /// A generics bound that does not parse, with the parser's message.
    InvalidGenerics(String),
    /// A nested tag list that could not be rendered as JSON.
    Json,
}

/// An error with its names as characters.
pub enum ErrorView {
    UnexpectedList,
    ExpectedStrLiteral,
    MissingIdent,
    UnsupportedLiteral,
    UnknownField(Seq<char>),
    DuplicateField(Seq<char>),
    /// The parser's message is left out.
    InvalidGenerics,
    Json,
}

impl View for Error {
    type V = ErrorView;

    open spec fn view(&self) -> ErrorView {
        match self {
            Error::UnexpectedList => ErrorView::UnexpectedList,
            Error::ExpectedStrLiteral => ErrorView::ExpectedStrLiteral,
            Error::MissingIdent => ErrorView::MissingIdent,
            Error::UnsupportedLiteral => ErrorView::UnsupportedLiteral,
            Error::UnknownField(s) => ErrorView::UnknownField(s@),
            Error::DuplicateField(s) => ErrorView::DuplicateField(s@),
            Error::InvalidGenerics(_) => ErrorView::InvalidGenerics,
            Error::Json => ErrorView::Json,
        }
    }
}

} // verus!
