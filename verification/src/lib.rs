//! A verified front end for a two-operand calculator.
//!
//! The crate settles everything about a request `left OP right` that can be
//! settled without doing the arithmetic: which operator a token names, whether
//! the right operand is a zero, and which error a request runs into. Operands
//! are carried as bit patterns, and the arithmetic is left to the caller.
//!
//! - [`operator`]: the five operators and the tokens that name them.
//! - [`operand`]: operands as binary64 bit patterns, and their zeros.
//! - [`error`]: the kinds of error and their views.
//! - [`evaluator`]: requests, their validation, and the laws of both.
//! - [`text`]: what the bytes of a text say about its characters.
//!
//! Beside the calculator stand the small functions of two lessons:
//! [`functions`] on integers and a rectangle, [`ownership`] on strings.

pub mod error;
pub mod evaluator;
pub mod functions;
pub mod operand;
pub mod operator;
pub mod ownership;
pub mod text;
