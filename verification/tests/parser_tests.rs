use roxy::parser::{
    Binary, BinaryOperator, Expected, Expr, Grouping, Literal, Parser, Stmt, Unary, UnaryOperator,
};
use roxy::scanner::Scanner;

#[test]
fn parsing_literals() {
    let source = r#"123.456 "a string literal" nil true false"#.to_string();
    let mut scanner = Scanner::new(source);
    let tokens = scanner.scan_tokens().unwrap();
    let (_, tail) = tokens.split_last().unwrap();
    let mut parser = Parser::new(tail.to_vec());
    let mut literals: Vec<Literal> = vec![];
    for _ in tail {
        literals.push(parser.literal().unwrap())
    }
    assert_eq!(
        literals,
        vec![
            Literal::Number(123.456f64.to_bits()),
            Literal::String("a string literal".to_string()),
            Literal::Nil,
            Literal::Boolean(true),
            Literal::Boolean(false)
        ]
    );
}

#[test]
fn binary_expr() {
    let source = r#"-1 - 2 * (4 - 2)"#.to_string();
    let mut scanner = Scanner::new(source);
    let tokens = scanner.scan_tokens().unwrap();
    let mut parser = Parser::new(tokens);
    let expr = parser.expression().unwrap();
    println!("{:#?}", expr);
}

#[test]
fn var_declaration() {
    let source = r#"var age = 26;"#.to_string();
    let mut scanner = Scanner::new(source);
    let tokens = scanner.scan_tokens().unwrap();
    let mut parser = Parser::new(tokens);
    let program = parser.parse().unwrap();
    assert_eq!(
        program,
        vec![Stmt::Var {
            name: "age".to_string(),
            initializer: Expr::Literal(Literal::Number(26.0f64.to_bits()))
        }]
    )
}

#[test]
fn var_declaration_without_initializer_defaults_to_nil() {
    let source = "var lonely;".to_string();
    let mut scanner = Scanner::new(source);
    let tokens = scanner.scan_tokens().unwrap();
    let mut parser = Parser::new(tokens);
    let program = parser.parse().unwrap();
    assert_eq!(
        program,
        vec![Stmt::Var {
            name: "lonely".to_string(),
            initializer: Expr::Literal(Literal::Nil)
        }]
    )
}

#[test]
fn precedence_and_associativity() {
    // 1 - 2 * 3 parses as 1 - (2 * 3), and 1 - 2 - 3 as (1 - 2) - 3.
    let mut scanner = Scanner::new("1 - 2 * 3".to_string());
    let tokens = scanner.scan_tokens().unwrap();
    let mut parser = Parser::new(tokens);
    let expr = parser.expression().unwrap();
    assert_eq!(
        expr,
        Expr::Binary(Binary {
            left: Box::new(Expr::Literal(Literal::Number(1.0f64.to_bits()))),
            operator: BinaryOperator::Minus,
            right: Box::new(Expr::Binary(Binary {
                left: Box::new(Expr::Literal(Literal::Number(2.0f64.to_bits()))),
                operator: BinaryOperator::Multiply,
                right: Box::new(Expr::Literal(Literal::Number(3.0f64.to_bits()))),
            })),
        })
    );

    let mut scanner = Scanner::new("1 - 2 - 3".to_string());
    let tokens = scanner.scan_tokens().unwrap();
    let mut parser = Parser::new(tokens);
    let expr = parser.expression().unwrap();
    assert_eq!(
        expr,
        Expr::Binary(Binary {
            left: Box::new(Expr::Binary(Binary {
                left: Box::new(Expr::Literal(Literal::Number(1.0f64.to_bits()))),
                operator: BinaryOperator::Minus,
                right: Box::new(Expr::Literal(Literal::Number(2.0f64.to_bits()))),
            })),
            operator: BinaryOperator::Minus,
            right: Box::new(Expr::Literal(Literal::Number(3.0f64.to_bits()))),
        })
    );
}

#[test]
fn unary_is_right_associative_and_grouping_is_kept() {
    let mut scanner = Scanner::new("!!true".to_string());
    let tokens = scanner.scan_tokens().unwrap();
    let mut parser = Parser::new(tokens);
    let expr = parser.expression().unwrap();
    assert_eq!(
        expr,
        Expr::Unary(Unary {
            operator: UnaryOperator::Not,
            right: Box::new(Expr::Unary(Unary {
                operator: UnaryOperator::Not,
                right: Box::new(Expr::Literal(Literal::Boolean(true))),
            })),
        })
    );

    let mut scanner = Scanner::new("(nil)".to_string());
    let tokens = scanner.scan_tokens().unwrap();
    let mut parser = Parser::new(tokens);
    let expr = parser.expression().unwrap();
    assert_eq!(
        expr,
        Expr::Grouping(Grouping {
            expr: Box::new(Expr::Literal(Literal::Nil)),
        })
    );
}

#[test]
fn missing_right_paren_is_reported() {
    let mut scanner = Scanner::new("(1 + 2".to_string());
    let tokens = scanner.scan_tokens().unwrap();
    let mut parser = Parser::new(tokens);
    let err = parser.expression().unwrap_err();
    assert_eq!(err.expected, Expected::RightParen);
}

#[test]
fn missing_semicolon_is_reported() {
    let mut scanner = Scanner::new("1 + 2".to_string());
    let tokens = scanner.scan_tokens().unwrap();
    let mut parser = Parser::new(tokens);
    let err = parser.parse().unwrap_err();
    assert_eq!(err.expected, Expected::Semicolon);
}

#[test]
fn var_requires_an_identifier() {
    let mut scanner = Scanner::new("var 1 = 2;".to_string());
    let tokens = scanner.scan_tokens().unwrap();
    let mut parser = Parser::new(tokens);
    let err = parser.parse().unwrap_err();
    assert_eq!(err.expected, Expected::Identifier);
}

#[test]
fn statement_must_start_with_an_expression() {
    let mut scanner = Scanner::new("; 1;".to_string());
    let tokens = scanner.scan_tokens().unwrap();
    let mut parser = Parser::new(tokens);
    let err = parser.parse().unwrap_err();
    assert_eq!(err.expected, Expected::Expression);
}

#[test]
fn print_statement_parses() {
    let mut scanner = Scanner::new("print 1 + 2;".to_string());
    let tokens = scanner.scan_tokens().unwrap();
    let mut parser = Parser::new(tokens);
    let program = parser.parse().unwrap();
    assert_eq!(
        program,
        vec![Stmt::Print(Expr::Binary(Binary {
            left: Box::new(Expr::Literal(Literal::Number(1.0f64.to_bits()))),
            operator: BinaryOperator::Plus,
            right: Box::new(Expr::Literal(Literal::Number(2.0f64.to_bits()))),
        }))]
    );
}

#[test]
fn parse_error_messages_name_the_expectation() {
    let mut scanner = Scanner::new("var 1 = 2;".to_string());
    let tokens = scanner.scan_tokens().unwrap();
    let mut parser = Parser::new(tokens);
    let err = parser.parse().unwrap_err();
    assert_eq!(
        err.message(),
        "variable declarations require an identifier near line 1"
    );
}
