use roxy::scanner::{ScanError, Scanner, Token, TokenKind};

#[test]
fn single_character_tokens() {
    let source = "(){},-*;".to_string();
    let mut scanner = Scanner::new(source);
    let tokens = scanner
        .scan_tokens()
        .unwrap()
        .iter()
        .map(|token| Token {
            kind: token.kind.clone(),
            // Lines and positions are normalized: this test checks the kinds.
            line: 1,
            pos: 0,
        })
        .collect::<Vec<Token>>();
    assert_eq!(
        *tokens,
        vec![
            Token {
                kind: TokenKind::LeftParen,
                line: 1,
                pos: 0
            },
            Token {
                kind: TokenKind::RightParen,
                line: 1,
                pos: 0
            },
            Token {
                kind: TokenKind::LeftBrace,
                line: 1,
                pos: 0
            },
            Token {
                kind: TokenKind::RightBrace,
                line: 1,
                pos: 0
            },
            Token {
                kind: TokenKind::Comma,
                line: 1,
                pos: 0
            },
            Token {
                kind: TokenKind::Minus,
                line: 1,
                pos: 0
            },
            Token {
                kind: TokenKind::Star,
                line: 1,
                pos: 0
            },
            Token {
                kind: TokenKind::Semicolon,
                line: 1,
                pos: 0
            },
            Token {
                kind: TokenKind::EOF,
                line: 1,
                pos: 0
            }
        ]
    )
}

#[test]
fn ignore_whitespaec() {
    let source = r#" ( ) { },    -
        *;  "#
        .to_string();
    let mut scanner = Scanner::new(source);
    let tokens = scanner
        .scan_tokens()
        .unwrap()
        .iter()
        .map(|token| Token {
            kind: token.kind.clone(),
            // Lines and positions are normalized: this test checks the kinds.
            line: 1,
            pos: 0,
        })
        .collect::<Vec<Token>>();
    assert_eq!(
        *tokens,
        vec![
            Token {
                kind: TokenKind::LeftParen,
                line: 1,
                pos: 0
            },
            Token {
                kind: TokenKind::RightParen,
                line: 1,
                pos: 0
            },
            Token {
                kind: TokenKind::LeftBrace,
                line: 1,
                pos: 0
            },
            Token {
                kind: TokenKind::RightBrace,
                line: 1,
                pos: 0
            },
            Token {
                kind: TokenKind::Comma,
                line: 1,
                pos: 0
            },
            Token {
                kind: TokenKind::Minus,
                line: 1,
                pos: 0
            },
            Token {
                kind: TokenKind::Star,
                line: 1,
                pos: 0
            },
            Token {
                kind: TokenKind::Semicolon,
                line: 1,
                pos: 0
            },
            Token {
                kind: TokenKind::EOF,
                line: 1,
                pos: 0
            },
        ]
    );
}

#[test]
fn operators() {
    let source = "! != - - = == < <= > >= */".to_string();
    let mut scanner = Scanner::new(source);
    let tokens = scanner
        .scan_tokens()
        .unwrap()
        .iter()
        .map(|token| Token {
            kind: token.kind.clone(),
            // Lines and positions are normalized: this test checks the kinds.
            line: 1,
            pos: 0,
        })
        .collect::<Vec<Token>>();
    assert_eq!(
        *tokens,
        vec![
            Token {
                kind: TokenKind::Bang,
                line: 1,
                pos: 0
            },
            Token {
                kind: TokenKind::BangEqual,
                line: 1,
                pos: 0
            },
            Token {
                kind: TokenKind::Minus,
                line: 1,
                pos: 0
            },
            Token {
                kind: TokenKind::Minus,
                line: 1,
                pos: 0
            },
            Token {
                kind: TokenKind::Equal,
                line: 1,
                pos: 0
            },
            Token {
                kind: TokenKind::EqualEqual,
                line: 1,
                pos: 0
            },
            Token {
                kind: TokenKind::Less,
                line: 1,
                pos: 0
            },
            Token {
                kind: TokenKind::LessEqual,
                line: 1,
                pos: 0
            },
            Token {
                kind: TokenKind::Greater,
                line: 1,
                pos: 0
            },
            Token {
                kind: TokenKind::GreaterEqual,
                line: 1,
                pos: 0
            },
            Token {
                kind: TokenKind::Star,
                line: 1,
                pos: 0
            },
            Token {
                kind: TokenKind::Slash,
                line: 1,
                pos: 0
            },
            Token {
                kind: TokenKind::EOF,
                line: 1,
                pos: 0
            },
        ]
    );
}

#[test]
fn comments() {
    let source = r#"// this is a comment
        (), // another comment
        "#
    .to_string();
    let mut scanner = Scanner::new(source);
    let tokens = scanner
        .scan_tokens()
        .unwrap()
        .iter()
        .map(|token| Token {
            kind: token.kind.clone(),
            // Lines and positions are normalized: this test checks the kinds.
            line: 1,
            pos: 0,
        })
        .collect::<Vec<Token>>();
    assert_eq!(
        *tokens,
        vec![
            Token {
                kind: TokenKind::LeftParen,
                line: 1,
                pos: 0,
            },
            Token {
                kind: TokenKind::RightParen,
                line: 1,
                pos: 0
            },
            Token {
                kind: TokenKind::Comma,
                line: 1,
                pos: 0
            },
            Token {
                kind: TokenKind::EOF,
                line: 1,
                pos: 0
            }
        ]
    )
}

#[test]
fn lib_string_literal() {
    let source = r#""This is a string literal"
        "This is a
multiline string
literal""#
        .to_string();
    let mut scanner = Scanner::new(source);
    let tokens = scanner
        .scan_tokens()
        .unwrap()
        .iter()
        .map(|token| Token {
            kind: token.kind.clone(),
            // Lines and positions are normalized: this test checks the kinds.
            line: 1,
            pos: 0,
        })
        .collect::<Vec<Token>>();
    assert_eq!(
        *tokens,
        vec![
            Token {
                kind: TokenKind::StringLiteral("This is a string literal".to_string()),
                line: 1,
                pos: 0
            },
            Token {
                kind: TokenKind::StringLiteral(
                    "This is a
multiline string
literal"
                        .to_string()
                ),
                line: 1,
                pos: 0
            },
            Token {
                kind: TokenKind::EOF,
                line: 1,
                pos: 0
            }
        ]
    )
}

#[test]
fn unterminated_string_literal() {
    let source = r#""This is an unterminated string literal"#.to_string();
    let mut scanner = Scanner::new(source);
    let result = scanner.scan_tokens();
    assert_eq!(result, Err(ScanError::UnterminatedString { line: 1 }));
}

#[test]
fn lib_number_literal() {
    let source = "123.456".to_string();
    let mut scanner = Scanner::new(source);
    let tokens = scanner.scan_tokens().unwrap();
    assert_eq!(
        *tokens,
        vec![
            Token {
                kind: TokenKind::NumberLiteral(123.456f64.to_bits()),
                line: 1,
                // The position of the first character of the lexeme.
                pos: 0
            },
            Token {
                kind: TokenKind::EOF,
                line: 1,
                pos: 7
            }
        ]
    )
}

#[test]
fn keywords() {
    let source =
        "and class false fun if nil or print return super this true var while".to_string();
    let mut scanner = Scanner::new(source);
    let tokens = scanner
        .scan_tokens()
        .unwrap()
        .iter()
        .map(|token| Token {
            kind: token.kind.clone(),
            // Lines and positions are normalized: this test checks the kinds.
            line: 1,
            pos: 0,
        })
        .collect::<Vec<Token>>();
    assert_eq!(
        *tokens,
        vec![
            Token {
                kind: TokenKind::And,
                line: 1,
                pos: 0
            },
            Token {
                kind: TokenKind::Class,
                line: 1,
                pos: 0
            },
            Token {
                kind: TokenKind::False,
                line: 1,
                pos: 0
            },
            Token {
                kind: TokenKind::Fun,
                line: 1,
                pos: 0
            },
            Token {
                kind: TokenKind::If,
                line: 1,
                pos: 0
            },
            Token {
                kind: TokenKind::Nil,
                line: 1,
                pos: 0
            },
            Token {
                kind: TokenKind::Or,
                line: 1,
                pos: 0
            },
            Token {
                kind: TokenKind::Print,
                line: 1,
                pos: 0
            },
            Token {
                kind: TokenKind::Return,
                line: 1,
                pos: 0
            },
            Token {
                kind: TokenKind::Super,
                line: 1,
                pos: 0
            },
            Token {
                kind: TokenKind::This,
                line: 1,
                pos: 0
            },
            Token {
                kind: TokenKind::True,
                line: 1,
                pos: 0
            },
            Token {
                kind: TokenKind::Var,
                line: 1,
                pos: 0
            },
            Token {
                kind: TokenKind::While,
                line: 1,
                pos: 0
            },
            Token {
                kind: TokenKind::EOF,
                line: 1,
                pos: 0
            }
        ]
    )
}

#[test]
fn identifiers() {
    let source = "variable iffy classy snake_case_variable".to_string();
    let mut scanner = Scanner::new(source);
    let tokens = scanner
        .scan_tokens()
        .unwrap()
        .iter()
        .map(|token| Token {
            kind: token.kind.clone(),
            // Lines and positions are normalized: this test checks the kinds.
            line: 1,
            pos: 0,
        })
        .collect::<Vec<Token>>();
    assert_eq!(
        *tokens,
        vec![
            Token {
                kind: TokenKind::Identifier("variable".to_string()),
                line: 1,
                pos: 0
            },
            Token {
                kind: TokenKind::Identifier("iffy".to_string()),
                line: 1,
                pos: 0
            },
            Token {
                kind: TokenKind::Identifier("classy".to_string()),
                line: 1,
                pos: 0
            },
            Token {
                kind: TokenKind::Identifier("snake_case_variable".to_string()),
                line: 1,
                pos: 0
            },
            Token {
                kind: TokenKind::EOF,
                line: 1,
                pos: 0
            },
        ]
    );
}

#[test]
fn unrecognized_character() {
    let source = "1 + @".to_string();
    let mut scanner = Scanner::new(source);
    let result = scanner.scan_tokens();
    assert_eq!(
        result,
        Err(ScanError::UnrecognizedCharacter { ch: '@', line: 1 })
    );
}

#[test]
fn unterminated_string_counts_lines() {
    let source = "\"one\ntwo\nthree".to_string();
    let mut scanner = Scanner::new(source);
    let result = scanner.scan_tokens();
    assert_eq!(result, Err(ScanError::UnterminatedString { line: 3 }));
}

#[test]
fn token_positions_mark_lexeme_starts() {
    let source = "( != print".to_string();
    let mut scanner = Scanner::new(source);
    let tokens = scanner.scan_tokens().unwrap();
    let positions = tokens.iter().map(|t| t.pos).collect::<Vec<usize>>();
    assert_eq!(positions, vec![0, 2, 5, 10]);
}

#[test]
fn number_without_fraction_keeps_trailing_dot_separate() {
    let source = "123.".to_string();
    let mut scanner = Scanner::new(source);
    let tokens = scanner.scan_tokens().unwrap();
    assert_eq!(
        tokens.iter().map(|t| t.kind.clone()).collect::<Vec<TokenKind>>(),
        vec![
            TokenKind::NumberLiteral(123.0f64.to_bits()),
            TokenKind::Dot,
            TokenKind::EOF
        ]
    );
}

#[test]
fn scan_error_messages_name_the_line() {
    assert_eq!(
        ScanError::UnterminatedString { line: 12 }.message(),
        "unterminated string literal on line 12"
    );
    assert_eq!(
        ScanError::UnrecognizedCharacter { ch: '@', line: 3 }.message(),
        "unrecognized character '@' on line 3"
    );
}

#[test]
fn remaining_keywords() {
    let source = "else for elsewhere fortune".to_string();
    let mut scanner = Scanner::new(source);
    let kinds = scanner
        .scan_tokens()
        .unwrap()
        .iter()
        .map(|t| t.kind.clone())
        .collect::<Vec<TokenKind>>();
    assert_eq!(
        kinds,
        vec![
            TokenKind::Else,
            TokenKind::For,
            TokenKind::Identifier("elsewhere".to_string()),
            TokenKind::Identifier("fortune".to_string()),
            TokenKind::EOF,
        ]
    );
}
