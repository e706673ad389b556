use roxy::interpreter::{Interpreter, RuntimeTypeError, Value};
use roxy::parser::{Binary, BinaryOperator, Expr, Literal, Parser, Unary, UnaryOperator};
use roxy::scanner::Scanner;

#[test]
fn interpreter_number_literal() {
    let expr = Expr::Literal(Literal::Number(123.2f64.to_bits()));
    let value = Interpreter::eval(&expr).unwrap();
    assert_eq!(value, Value::Number(123.2f64.to_bits()));
}

#[test]
fn interpreter_string_literal() {
    let expr = Expr::Literal(Literal::String("string".to_string()));
    let value = Interpreter::eval(&expr).unwrap();
    assert_eq!(value, Value::String("string".to_string()));
}

#[test]
fn interpreter_bool_literal() {
    let expr = Expr::Literal(Literal::Boolean(false));
    let value = Interpreter::eval(&expr).unwrap();
    assert_eq!(value, Value::Boolean(false));
}

#[test]
fn interpreter_nil_literal() {
    let expr = Expr::Literal(Literal::Nil);
    let value = Interpreter::eval(&expr).unwrap();
    assert_eq!(value, Value::Nil);
}

#[test]
fn interpreter_unary_expr_number() {
    let expr = Expr::Unary(Unary {
        operator: UnaryOperator::Minus,
        right: Box::new(Expr::Literal(Literal::Number(42.0f64.to_bits()))),
    });

    let val = Interpreter::eval(&expr).unwrap();
    assert_eq!(val, Value::Number((-42.0f64).to_bits()));
}

#[test]
fn interpreter_unary_expr_bool() {
    let expr = Expr::Unary(Unary {
        operator: UnaryOperator::Not,
        right: Box::new(Expr::Literal(Literal::Boolean(false))),
    });

    let val = Interpreter::eval(&expr).unwrap();
    assert_eq!(val, Value::Boolean(true));
}

#[test]
fn interpreter_binary_expression() {
    let source = "(5 - (3 - 1)) + -1".to_string();
    let mut scanner = Scanner::new(source);
    let tokens = scanner.scan_tokens().unwrap();
    let mut parser = Parser::new(tokens);
    let expr = parser.expression().unwrap();
    let val = Interpreter::eval(&expr).unwrap();
    assert_eq!(val, Value::Number(2.0f64.to_bits()));
}

#[test]
fn incorrect_binary_expression() {
    // Negating the string makes the division's operand fail the number
    // check: evaluation stops with a type error.
    let source = r#"2 * (3 / -"muffin")"#.to_string();
    let mut scanner = Scanner::new(source);
    let tokens = scanner.scan_tokens().unwrap();
    let mut parser = Parser::new(tokens);
    let expr = parser.expression().unwrap();
    let err = Interpreter::eval(&expr).unwrap_err();
    assert_eq!(
        err,
        RuntimeTypeError::UnaryOperand {
            operator: UnaryOperator::Minus
        }
    );
}

#[test]
fn truthiness_of_nil_false_and_zero() {
    let not_nil = Expr::Unary(Unary {
        operator: UnaryOperator::Not,
        right: Box::new(Expr::Literal(Literal::Nil)),
    });
    assert_eq!(Interpreter::eval(&not_nil).unwrap(), Value::Boolean(true));

    let not_false = Expr::Unary(Unary {
        operator: UnaryOperator::Not,
        right: Box::new(Expr::Literal(Literal::Boolean(false))),
    });
    assert_eq!(Interpreter::eval(&not_false).unwrap(), Value::Boolean(true));

    let not_zero = Expr::Unary(Unary {
        operator: UnaryOperator::Not,
        right: Box::new(Expr::Literal(Literal::Number(0.0f64.to_bits()))),
    });
    assert_eq!(Interpreter::eval(&not_zero).unwrap(), Value::Boolean(false));
}

#[test]
fn string_concatenation() {
    let concat = Expr::Binary(Binary {
        left: Box::new(Expr::Literal(Literal::String("a".to_string()))),
        operator: BinaryOperator::Plus,
        right: Box::new(Expr::Literal(Literal::String("b".to_string()))),
    });
    assert_eq!(
        Interpreter::eval(&concat).unwrap(),
        Value::String("ab".to_string())
    );

    let mixed = Expr::Binary(Binary {
        left: Box::new(Expr::Literal(Literal::Number(1.0f64.to_bits()))),
        operator: BinaryOperator::Plus,
        right: Box::new(Expr::Literal(Literal::String("a".to_string()))),
    });
    assert_eq!(
        Interpreter::eval(&mixed).unwrap_err(),
        RuntimeTypeError::BinaryOperands {
            operator: BinaryOperator::Plus
        }
    );
}

#[test]
fn evaluation_is_repeatable() {
    let source = "(5 - (3 - 1)) + -1 * 2".to_string();
    let mut scanner = Scanner::new(source);
    let tokens = scanner.scan_tokens().unwrap();
    let mut parser = Parser::new(tokens);
    let expr = parser.expression().unwrap();
    let first = Interpreter::eval(&expr);
    let second = Interpreter::eval(&expr);
    assert_eq!(first, second);
    assert_eq!(first.unwrap(), Value::Number(1.0f64.to_bits()));
}

fn eval_source(source: &str) -> Result<Value, RuntimeTypeError> {
    let mut scanner = Scanner::new(source.to_string());
    let tokens = scanner.scan_tokens().unwrap();
    let mut parser = Parser::new(tokens);
    let expr = parser.expression().unwrap();
    Interpreter::eval(&expr)
}

#[test]
fn arithmetic_follows_ieee_doubles() {
    assert_eq!(
        eval_source("2 * 3").unwrap(),
        Value::Number(6.0f64.to_bits())
    );
    assert_eq!(
        eval_source("7 / 2").unwrap(),
        Value::Number(3.5f64.to_bits())
    );
    assert_eq!(
        eval_source("0.1 + 0.2").unwrap(),
        Value::Number((0.1f64 + 0.2f64).to_bits())
    );
    assert_eq!(
        eval_source("1 / 0").unwrap(),
        Value::Number(f64::INFINITY.to_bits())
    );
}

#[test]
fn comparisons_follow_ieee_doubles() {
    assert_eq!(eval_source("1 < 2").unwrap(), Value::Boolean(true));
    assert_eq!(eval_source("2 < 1").unwrap(), Value::Boolean(false));
    assert_eq!(eval_source("2 <= 2").unwrap(), Value::Boolean(true));
    assert_eq!(eval_source("2 > 1").unwrap(), Value::Boolean(true));
    assert_eq!(eval_source("1 >= 2").unwrap(), Value::Boolean(false));
    assert_eq!(eval_source("1 == 1").unwrap(), Value::Boolean(true));
    assert_eq!(eval_source("1 == 2").unwrap(), Value::Boolean(false));
    assert_eq!(eval_source("1 != 2").unwrap(), Value::Boolean(true));
    // 0/0 is NaN, which is not even equal to itself.
    assert_eq!(eval_source("0 / 0 == 0 / 0").unwrap(), Value::Boolean(false));
}

#[test]
fn equality_never_coerces_between_variants() {
    assert_eq!(eval_source("1 == \"1\"").unwrap(), Value::Boolean(false));
    assert_eq!(eval_source("nil == false").unwrap(), Value::Boolean(false));
    assert_eq!(eval_source("nil == nil").unwrap(), Value::Boolean(true));
    assert_eq!(
        eval_source("\"a\" == \"a\"").unwrap(),
        Value::Boolean(true)
    );
    assert_eq!(
        eval_source("\"a\" != \"b\"").unwrap(),
        Value::Boolean(true)
    );
}

#[test]
fn type_errors_name_the_operator() {
    assert_eq!(
        eval_source("1 - \"a\"").unwrap_err(),
        RuntimeTypeError::BinaryOperands {
            operator: BinaryOperator::Minus
        }
    );
    assert_eq!(
        eval_source("\"a\" * 2").unwrap_err(),
        RuntimeTypeError::BinaryOperands {
            operator: BinaryOperator::Multiply
        }
    );
    assert_eq!(
        eval_source("\"a\" / 2").unwrap_err(),
        RuntimeTypeError::BinaryOperands {
            operator: BinaryOperator::Divide
        }
    );
    assert_eq!(
        eval_source("1 < \"a\"").unwrap_err(),
        RuntimeTypeError::BinaryOperands {
            operator: BinaryOperator::LessThan
        }
    );
    assert_eq!(
        eval_source("-nil").unwrap_err(),
        RuntimeTypeError::UnaryOperand {
            operator: UnaryOperator::Minus
        }
    );
    assert_eq!(
        eval_source("-nil").unwrap_err().message(),
        "can only negate a number"
    );
}

#[test]
fn interpret_renders_printed_values() {
    let source = "print 1 + 2; 4 * 4; print \"hi\"; print nil; print true;".to_string();
    let mut scanner = Scanner::new(source);
    let tokens = scanner.scan_tokens().unwrap();
    let mut parser = Parser::new(tokens);
    let stmts = parser.parse().unwrap();
    let lines = Interpreter::interpret(stmts).unwrap();
    assert_eq!(lines, vec!["3", "hi", "nil", "true"]);
}

#[test]
fn interpret_stops_at_the_first_error() {
    let source = "print 1; print -\"x\"; print 2;".to_string();
    let mut scanner = Scanner::new(source);
    let tokens = scanner.scan_tokens().unwrap();
    let mut parser = Parser::new(tokens);
    let stmts = parser.parse().unwrap();
    let err = Interpreter::interpret(stmts).unwrap_err();
    assert_eq!(
        err,
        RuntimeTypeError::UnaryOperand {
            operator: UnaryOperator::Minus
        }
    );
}
