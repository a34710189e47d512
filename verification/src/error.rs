//! The closed set of ways in which a request can fail.

use vstd::prelude::*;

verus! {

/// Why a request produced no value.
///
/// The two kinds that carry a token own a copy of the offending token,
/// exactly as it was supplied. Turning a kind into a message for a person is
/// left to whoever shows it.
#[derive(Debug, PartialEq, Eq)]
pub enum ErrorKind {
    /// An operand token that denotes no number.
    ParseError(String),
    /// An operator token that names none of the five operators.
    UnsupportedOperator(String),
    /// Division with a zero on the right.
    DivisionByZero,
    /// Remainder with a zero on the right.
    ModuloByZero,
}

/// What an [`ErrorKind`] says, with each token as a sequence of characters.
pub enum ErrorView {
    ParseError(Seq<char>),
    UnsupportedOperator(Seq<char>),
    DivisionByZero,
    ModuloByZero,
}

impl View for ErrorKind {
    type V = ErrorView;

    open spec fn view(&self) -> ErrorView {
        match *self {
            ErrorKind::ParseError(token) => ErrorView::ParseError(token@),
            ErrorKind::UnsupportedOperator(token) => ErrorView::UnsupportedOperator(token@),
            ErrorKind::DivisionByZero => ErrorView::DivisionByZero,
            ErrorKind::ModuloByZero => ErrorView::ModuloByZero,
        }
    }
}

/// An outcome with its error, if it is one, taken by its view.
pub open spec fn outcome<T>(r: Result<T, ErrorKind>) -> Result<T, ErrorView> {
    match r {
        Ok(value) => Ok(value),
        Err(e) => Err(e@),
    }
}

} // verus!
