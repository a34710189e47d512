//! The five supported operators and the tokens that name them.

use vstd::prelude::*;
use crate::error::{outcome, ErrorKind, ErrorView};
use crate::text::lemma_single_byte;

verus! {

/// One of the five binary operations. Every value of this type is supported:
/// an unsupported token never becomes an `Operator`.
#[derive(Clone, Copy, Debug, PartialEq, Eq, Structural)]
pub enum Operator {
    Add,
    Subtract,
    Multiply,
    Divide,
    Modulo,
}

impl Operator {
    /// The character that names this operator.
    pub open spec fn spec_symbol(self) -> char {
        match self {
            Operator::Add => '+',
            Operator::Subtract => '-',
            Operator::Multiply => '*',
            Operator::Divide => '/',
            Operator::Modulo => '%',
        }
    }

    /// The operator that `c` names, if any.
    pub open spec fn spec_from_char(c: char) -> Option<Operator> {
        if c == '+' {
            Some(Operator::Add)
        } else if c == '-' {
            Some(Operator::Subtract)
        } else if c == '*' {
            Some(Operator::Multiply)
        } else if c == '/' {
            Some(Operator::Divide)
        } else if c == '%' {
            Some(Operator::Modulo)
        } else {
            None
        }
    }

    /// What reading `token` gives: the operator whose symbol is all of the
    /// token, or else the token back as unsupported.
    pub open spec fn spec_parse(token: Seq<char>) -> Result<Operator, ErrorView> {
        if token.len() == 1 && Self::spec_from_char(token[0]) is Some {
            Ok(Self::spec_from_char(token[0])->0)
        } else {
            Err(ErrorView::UnsupportedOperator(token))
        }
    }

    /// The operation needs a right operand that is not a zero.
    pub open spec fn divides(self) -> bool {
        self == Operator::Divide || self == Operator::Modulo
    }

    /// The character that names this operator.
    #[verifier::when_used_as_spec(spec_symbol)]
    pub fn symbol(self) -> (c: char)
        ensures
            c == self.spec_symbol(),
    {
        match self {
            Operator::Add => '+',
            Operator::Subtract => '-',
            Operator::Multiply => '*',
            Operator::Divide => '/',
            Operator::Modulo => '%',
        }
    }

    /// Reads an operator from the one character that names it.
    pub fn from_char(c: char) -> (r: Option<Operator>)
        ensures
            r == Self::spec_from_char(c),
    {
        match c {
            '+' => Some(Operator::Add),
            '-' => Some(Operator::Subtract),
            '*' => Some(Operator::Multiply),
            '/' => Some(Operator::Divide),
            '%' => Some(Operator::Modulo),
            _ => None,
        }
    }

    /// Reads an operator token. The match is exact and case-sensitive:
    /// nothing is trimmed, there are no aliases, and nothing may stand before
    /// or after the symbol. A token that is refused comes back in the error.
    pub fn parse(token: &str) -> (r: Result<Operator, ErrorKind>)
        ensures
            outcome(r) == Self::spec_parse(token@),
    {
        let bytes = token.as_bytes();
        proof {
            lemma_single_byte(token@);
        }
        if bytes.len() == 1 {
            if let Some(operator) = Self::from_char(bytes[0] as char) {
                return Ok(operator);
            }
        }
        Err(ErrorKind::UnsupportedOperator(token.to_owned()))
    }
}

/// A token is read as an operator exactly when it is that operator's symbol
/// and nothing else.
pub proof fn lemma_parse_exact(token: Seq<char>, operator: Operator)
    ensures
        Operator::spec_parse(token) == Ok::<Operator, ErrorView>(operator) <==> token == seq![
            operator.symbol(),
        ],
{
    if Operator::spec_parse(token) == Ok::<Operator, ErrorView>(operator) {
        assert(token =~= seq![operator.symbol()]);
    }
}

/// Every token outside the five symbols is refused, and the error carries
/// the token unchanged.
pub proof fn lemma_unsupported_token(token: Seq<char>)
    requires
        token != seq!['+'],
        token != seq!['-'],
        token != seq!['*'],
        token != seq!['/'],
        token != seq!['%'],
    ensures
        Operator::spec_parse(token) == Err::<Operator, ErrorView>(
            ErrorView::UnsupportedOperator(token),
        ),
{
    if token.len() == 1 {
        assert(token =~= seq![token[0]]);
    }
}

} // verus!
