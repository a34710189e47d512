//! The evaluator's decisions.
//!
//! A request is a triple `left OP right`. The evaluator decides whether the
//! operation is defined on the operands and, if it is not, which error the
//! request runs into. It keeps no state: a decision depends on the request
//! alone. The arithmetic is the caller's, who does it only on a request that
//! passed.

use vstd::prelude::*;
use crate::error::{outcome, ErrorKind, ErrorView};
use crate::operand::Operand;
use crate::operator::{lemma_parse_exact, Operator};

verus! {

/// One request: two operands and the operator between them.
#[derive(Clone, Copy, Debug, PartialEq, Eq, Structural)]
pub struct EvaluationRequest {
    pub left: Operand,
    pub operator: Operator,
    pub right: Operand,
}

impl EvaluationRequest {
    /// The operation is defined on the operands: division and remainder
    /// want a right operand that is not a zero, the others take anything.
    pub open spec fn is_defined(self) -> bool {
        !(self.operator.divides() && self.right.is_zero())
    }

    /// What validating the request gives: nothing to object to, or the
    /// error that belongs to the operator.
    pub open spec fn spec_validate(self) -> Result<(), ErrorView> {
        if self.is_defined() {
            Ok(())
        } else if self.operator == Operator::Divide {
            Err(ErrorView::DivisionByZero)
        } else {
            Err(ErrorView::ModuloByZero)
        }
    }

    /// The request `left OP right`, not yet validated.
    pub fn new(left: Operand, operator: Operator, right: Operand) -> (request: EvaluationRequest)
        ensures
            request == (EvaluationRequest { left, operator, right }),
    {
        EvaluationRequest { left, operator, right }
    }

    /// Decides whether the result of the request may be computed.
    pub fn validate(&self) -> (r: Result<(), ErrorKind>)
        ensures
            outcome(r) == self.spec_validate(),
    {
        match self.operator {
            Operator::Divide => {
                if self.right.is_zero() {
                    Err(ErrorKind::DivisionByZero)
                } else {
                    Ok(())
                }
            },
            Operator::Modulo => {
                if self.right.is_zero() {
                    Err(ErrorKind::ModuloByZero)
                } else {
                    Ok(())
                }
            },
            _ => Ok(()),
        }
    }
}

/// What [`calculate`] gives for an operator token between two operands. The
/// token is read first; then the request is validated.
pub open spec fn spec_calculate(first: Operand, token: Seq<char>, second: Operand) -> Result<
    EvaluationRequest,
    ErrorView,
> {
    match Operator::spec_parse(token) {
        Err(e) => Err(e),
        Ok(operator) => {
            let request = EvaluationRequest { left: first, operator, right: second };
            match request.spec_validate() {
                Err(e) => Err(e),
                Ok(_) => Ok(request),
            }
        },
    }
}

/// Reads the operator token and decides the request `first OP second`.
///
/// On success the caller holds the request, and the operation is defined on
/// its operands; otherwise the caller holds the one error that stopped it.
pub fn calculate(first: Operand, operator: &str, second: Operand) -> (r: Result<
    EvaluationRequest,
    ErrorKind,
>)
    ensures
        outcome(r) == spec_calculate(first, operator@, second),
{
    match Operator::parse(operator) {
        Err(e) => Err(e),
        Ok(parsed) => {
            let request = EvaluationRequest::new(first, parsed, second);
            match request.validate() {
                Err(e) => Err(e),
                Ok(_) => Ok(request),
            }
        },
    }
}

/// A request that [`calculate`] lets pass is the one that was asked for, and
/// its operation is defined.
pub proof fn lemma_passed_request(
    first: Operand,
    token: Seq<char>,
    second: Operand,
    request: EvaluationRequest,
)
    requires
        spec_calculate(first, token, second) == Ok::<EvaluationRequest, ErrorView>(request),
    ensures
        request.left == first,
        request.right == second,
        token == seq![request.operator.symbol()],
        request.is_defined(),
{
    lemma_parse_exact(token, request.operator);
}

/// Division and remainder by a zero fail, whatever stands on the left and
/// whichever zero stands on the right: neither ever passes.
pub proof fn lemma_zero_on_the_right(left: Operand, right: Operand)
    requires
        right.is_zero(),
    ensures
        (EvaluationRequest { left, operator: Operator::Divide, right }).spec_validate() == Err::<
            (),
            ErrorView,
        >(ErrorView::DivisionByZero),
        (EvaluationRequest { left, operator: Operator::Modulo, right }).spec_validate() == Err::<
            (),
            ErrorView,
        >(ErrorView::ModuloByZero),
{
}

/// With anything but a zero on the right every operation passes, division
/// and remainder too.
pub proof fn lemma_no_zero_on_the_right(left: Operand, operator: Operator, right: Operand)
    requires
        !right.is_zero(),
    ensures
        (EvaluationRequest { left, operator, right }).spec_validate() is Ok,
{
}

/// Addition, subtraction and multiplication pass on all operands.
pub proof fn lemma_always_defined(left: Operand, right: Operand)
    ensures
        (EvaluationRequest { left, operator: Operator::Add, right }).spec_validate() is Ok,
        (EvaluationRequest { left, operator: Operator::Subtract, right }).spec_validate() is Ok,
        (EvaluationRequest { left, operator: Operator::Multiply, right }).spec_validate() is Ok,
{
}

/// Addition and multiplication are decided alike with their operands in
/// either order.
pub proof fn lemma_either_order(a: Operand, b: Operand)
    ensures
        ({
            let forth = EvaluationRequest { left: a, operator: Operator::Add, right: b };
            let back = EvaluationRequest { left: b, operator: Operator::Add, right: a };
            forth.spec_validate() == back.spec_validate()
        }),
        ({
            let forth = EvaluationRequest { left: a, operator: Operator::Multiply, right: b };
            let back = EvaluationRequest { left: b, operator: Operator::Multiply, right: a };
            forth.spec_validate() == back.spec_validate()
        }),
{
}

/// Validating the same request again gives the same outcome: any two
/// results that [`EvaluationRequest::validate`] can return for one request
/// say the same.
pub proof fn lemma_same_request_same_validation(
    request: EvaluationRequest,
    once: Result<(), ErrorKind>,
    again: Result<(), ErrorKind>,
)
    requires
        call_ensures(EvaluationRequest::validate, (&request,), once),
        call_ensures(EvaluationRequest::validate, (&request,), again),
    ensures
        outcome(once) == outcome(again),
{
}

/// Deciding the same request again gives the same outcome: any two results
/// that [`calculate`] can return for one token between two operands say the
/// same.
pub proof fn lemma_same_request_same_outcome(
    first: Operand,
    token: &str,
    second: Operand,
    once: Result<EvaluationRequest, ErrorKind>,
    again: Result<EvaluationRequest, ErrorKind>,
)
    requires
        call_ensures(calculate, (first, token, second), once),
        call_ensures(calculate, (first, token, second), again),
    ensures
        outcome(once) == outcome(again),
{
}

} // verus!
