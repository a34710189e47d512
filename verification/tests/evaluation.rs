use calculator::error::ErrorKind;
use calculator::evaluator::{calculate as decide, EvaluationRequest};
use calculator::operand::Operand;
use calculator::operator::Operator;

fn arithmetic(request: EvaluationRequest) -> f64 {
    let left = f64::from_bits(request.left.to_bits());
    let right = f64::from_bits(request.right.to_bits());
    match request.operator {
        Operator::Add => left + right,
        Operator::Subtract => left - right,
        Operator::Multiply => left * right,
        Operator::Divide => left / right,
        Operator::Modulo => left % right,
    }
}

fn calculate(first: f64, operator: &str, second: f64) -> Result<f64, ErrorKind> {
    let request = decide(
        Operand::from_bits(first.to_bits()),
        operator,
        Operand::from_bits(second.to_bits()),
    )?;
    Ok(arithmetic(request))
}

fn request(left: f64, operator: Operator, right: f64) -> EvaluationRequest {
    EvaluationRequest::new(
        Operand::from_bits(left.to_bits()),
        operator,
        Operand::from_bits(right.to_bits()),
    )
}

#[test]
fn test_addition() {
    let result = calculate(2.0, "+", 3.0);
    assert_eq!(result, Ok(5.0));
}

#[test]
fn test_subtraction() {
    let result = calculate(5.0, "-", 2.0);
    assert_eq!(result, Ok(3.0));
}

#[test]
fn test_multiplication() {
    let result = calculate(4.0, "*", 3.0);
    assert_eq!(result, Ok(12.0));
}

#[test]
fn test_division() {
    let result = calculate(10.0, "/", 2.0);
    assert_eq!(result, Ok(5.0));
}

#[test]
fn test_division_by_zero() {
    let result = calculate(10.0, "/", 0.0);
    assert!(result.is_err());
}

#[test]
fn test_modulo() {
    let result = calculate(10.0, "%", 3.0);
    assert_eq!(result, Ok(1.0));
}

#[test]
fn test_unsupported_operator() {
    let result = calculate(10.0, "^", 2.0);
    assert!(result.is_err());
}

#[test]
fn division_by_zero_is_classified() {
    assert_eq!(calculate(10.0, "/", 0.0), Err(ErrorKind::DivisionByZero));
    assert_eq!(calculate(10.0, "/", -0.0), Err(ErrorKind::DivisionByZero));
    assert_eq!(calculate(0.0, "/", 0.0), Err(ErrorKind::DivisionByZero));
}

#[test]
fn modulo_by_zero_is_classified() {
    assert_eq!(calculate(10.0, "%", 0.0), Err(ErrorKind::ModuloByZero));
    assert_eq!(calculate(10.0, "%", -0.0), Err(ErrorKind::ModuloByZero));
}

#[test]
fn unsupported_operator_carries_the_token() {
    assert_eq!(
        calculate(10.0, "^", 2.0),
        Err(ErrorKind::UnsupportedOperator(String::from("^")))
    );
    assert_eq!(
        calculate(10.0, "x", 0.0),
        Err(ErrorKind::UnsupportedOperator(String::from("x")))
    );
}

#[test]
fn operator_is_read_before_the_operands_are_checked() {
    assert_eq!(
        calculate(1.0, "//", 0.0),
        Err(ErrorKind::UnsupportedOperator(String::from("//")))
    );
}

#[test]
fn passed_request_is_the_one_asked_for() {
    let first = Operand::from_bits(10.0f64.to_bits());
    let second = Operand::from_bits(4.0f64.to_bits());
    let passed = decide(first, "/", second);
    assert_eq!(
        passed,
        Ok(EvaluationRequest { left: first, operator: Operator::Divide, right: second })
    );
    assert_eq!(calculate(10.0, "/", 4.0), Ok(2.5));
}

#[test]
fn validate_passes_everything_but_a_zero_divisor() {
    for operator in [Operator::Add, Operator::Subtract, Operator::Multiply] {
        assert_eq!(request(1.0, operator, 0.0).validate(), Ok(()));
        assert_eq!(request(1.0, operator, -0.0).validate(), Ok(()));
        assert_eq!(request(1.0, operator, 2.0).validate(), Ok(()));
    }
    assert_eq!(request(1.0, Operator::Divide, 2.0).validate(), Ok(()));
    assert_eq!(request(1.0, Operator::Modulo, 2.0).validate(), Ok(()));
    assert_eq!(request(1.0, Operator::Divide, 0.0).validate(), Err(ErrorKind::DivisionByZero));
    assert_eq!(request(1.0, Operator::Modulo, 0.0).validate(), Err(ErrorKind::ModuloByZero));
}

#[test]
fn zero_comparison_has_no_tolerance() {
    assert_eq!(calculate(1.0, "/", f64::MIN_POSITIVE), Ok(1.0 / f64::MIN_POSITIVE));
    assert_eq!(calculate(1.0, "/", 5e-324), Ok(f64::INFINITY));
    assert_eq!(calculate(1.0, "%", 1e-300), Ok(1.0 % 1e-300));
}

#[test]
fn not_a_number_on_the_right_is_no_zero() {
    let result = calculate(1.0, "/", f64::NAN);
    assert!(matches!(result, Ok(value) if value.is_nan()));
    assert_eq!(calculate(1.0, "/", f64::INFINITY), Ok(0.0));
}

#[test]
fn overflow_is_passed_on_as_a_value() {
    assert_eq!(calculate(1e308, "*", 1e308), Ok(f64::INFINITY));
    assert_eq!(calculate(-1e308, "+", -1e308), Ok(f64::NEG_INFINITY));
}

#[test]
fn remainder_takes_the_sign_of_the_dividend() {
    assert_eq!(calculate(-10.0, "%", 3.0), Ok(-1.0));
    assert_eq!(calculate(10.0, "%", -3.0), Ok(1.0));
    assert_eq!(calculate(5.5, "%", 2.0), Ok(1.5));
}

#[test]
fn addition_and_multiplication_commute() {
    let pairs = [(2.0, 3.0), (-1.5, 4.25), (0.0, -0.0), (1e308, 1e308), (0.1, 0.2)];
    for (a, b) in pairs {
        assert_eq!(calculate(a, "+", b), calculate(b, "+", a));
        assert_eq!(calculate(a, "*", b), calculate(b, "*", a));
    }
}

#[test]
fn division_then_multiplication_recovers_the_dividend() {
    let pairs = [(10.0, 2.0), (1.0, 3.0), (-7.5, 0.3), (123456.789, -0.001)];
    for (a, b) in pairs {
        let quotient: f64 = calculate(a, "/", b).unwrap();
        assert_eq!(quotient, a / b);
        let back: f64 = calculate(quotient, "*", b).unwrap();
        assert!((back - a).abs() <= a.abs() * 1e-12);
    }
}

#[test]
fn same_request_same_outcome() {
    let tokens = ["+", "-", "*", "/", "%", "^", ""];
    let values: [f64; 4] = [0.0, -0.0, 1.0, 3.5];
    for token in tokens {
        for a in values {
            for b in values {
                let once = decide(
                    Operand::from_bits(a.to_bits()),
                    token,
                    Operand::from_bits(b.to_bits()),
                );
                let again = decide(
                    Operand::from_bits(a.to_bits()),
                    token,
                    Operand::from_bits(b.to_bits()),
                );
                assert_eq!(once, again);
            }
        }
    }
}

#[test]
fn zero_divisor_fails_for_every_dividend() {
    let dividends = [0.0, -0.0, 1.0, -2.5, 1e-320, f64::MAX, f64::MIN, f64::MIN_POSITIVE];
    for a in dividends {
        for zero in [0.0, -0.0] {
            assert_eq!(calculate(a, "/", zero), Err(ErrorKind::DivisionByZero));
            assert_eq!(calculate(a, "%", zero), Err(ErrorKind::ModuloByZero));
        }
    }
}

#[test]
fn nonzero_divisor_gives_the_quotient() {
    let pairs = [(10.0, 4.0), (1.0, 3.0), (-9.0, 0.5), (0.0, 7.0), (5.0, -1e-310)];
    for (a, b) in pairs {
        assert_eq!(calculate(a, "/", b), Ok(a / b));
        assert_eq!(calculate(a, "%", b), Ok(a % b));
    }
}
