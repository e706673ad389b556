//! The parser: an EOF-terminated token sequence to statement and expression
//! trees, by recursive descent over a fixed precedence grammar.
//!
//! The grammar, lowest to highest binding power:
//!
//! ```text
//! program     := declaration* EOF
//! declaration := "var" IDENT ("=" expression)? ";" | statement
//! statement   := "print" expression ";" | expression ";"
//! expression  := equality
//! equality    := comparison ( ("!=" | "==") comparison )*
//! comparison  := term ( (">" | ">=" | "<" | "<=") term )*
//! term        := factor ( ("-" | "+") factor )*
//! factor      := unary ( ("/" | "*") unary )*
//! unary       := ("!" | "-") unary | primary
//! primary     := NUMBER | STRING | "true" | "false" | "nil"
//!              | "(" expression ")"
//! ```
//!
//! Binary operators chain left-associatively; `unary` is right-associative;
//! parenthesised expressions are kept as explicit [`Grouping`] nodes. The
//! parser holds one read position into the token sequence, never backtracks,
//! and aborts on the first grammar violation with a [`ParseError`] carrying
//! the offending token and what was expected in its place.
//!
//! The whole parse is specified by the pure model functions below
//! ([`parse_program`], [`parse_expression`], ...), and each method of
//! [`Parser`] is proved to return exactly what its model says.

use vstd::prelude::*;

use crate::scanner::Token;
use crate::scanner::TokenKind;
use crate::scanner::TokenModel;
use crate::scanner::TokenKindModel;
use crate::scanner::tokens_view;
use crate::scanner::bump;
use crate::scanner::decimal_digits;
use crate::scanner::decimal_text;

verus! {

// ---------------------------------------------------------------------------
// Syntax trees
// ---------------------------------------------------------------------------

/// A statement: an expression evaluated for effect, a print statement, or a
/// variable declaration.
#[derive(Debug, PartialEq)]
pub enum Stmt {
    Expression(Expr),
    Print(Expr),
    Var { name: String, initializer: Expr },
}

/// An expression node; every child is exclusively owned.
#[derive(Debug, PartialEq)]
pub enum Expr {
    Binary(Binary),
    Unary(Unary),
    Literal(Literal),
    Grouping(Grouping),
}

/// A binary operator.
#[derive(Debug, PartialEq, Eq, Clone, Copy)]
pub enum BinaryOperator {
    EqualEqual,
    NotEqual,
    LessThan,
    LessThanEqual,
    GreaterThan,
    GreaterThanEqual,
    Plus,
    Minus,
    Multiply,
    Divide,
}

/// A binary application: left operand, operator, right operand.
#[derive(Debug, PartialEq)]
pub struct Binary {
    pub left: Box<Expr>,
    pub operator: BinaryOperator,
    pub right: Box<Expr>,
}

/// A unary (prefix) operator.
#[derive(Debug, PartialEq, Eq, Clone, Copy)]
pub enum UnaryOperator {
    Minus,
    Not,
}

/// A unary application.
#[derive(Debug, PartialEq)]
pub struct Unary {
    pub operator: UnaryOperator,
    pub right: Box<Expr>,
}

/// A literal: a string, a number (as its IEEE-754 binary64 encoding), a
/// boolean, or nil.
#[derive(Debug, PartialEq, Clone)]
pub enum Literal {
    String(String),
    Number(u64),
    Boolean(bool),
    Nil,
}

/// A parenthesised expression, kept for parse-tree fidelity.
#[derive(Debug, PartialEq)]
pub struct Grouping {
    pub expr: Box<Expr>,
}

/// What the parser was looking for when it found the wrong token.
#[derive(Debug, PartialEq, Eq, Clone, Copy)]
pub enum Expected {
    /// A token that can start an expression.
    Expression,
    /// A closing parenthesis after a grouped expression.
    RightParen,
    /// A terminating semicolon.
    Semicolon,
    /// An identifier naming a declared variable.
    Identifier,
}

/// A fatal parser error: the token actually found, and what the grammar
/// required in its place. The first error ends parsing of the whole program.
#[derive(Debug, PartialEq, Clone)]
pub struct ParseError {
    pub found: Token,
    pub expected: Expected,
}

/// The text naming what the parser was looking for.
pub open spec fn expected_text(e: Expected) -> Seq<char> {
    match e {
        Expected::Expression => "expected an expression"@,
        Expected::RightParen => "expected ')' after expression"@,
        Expected::Semicolon => "expected ';'"@,
        Expected::Identifier => "variable declarations require an identifier"@,
    }
}

/// The text of a parser error message: what was expected, and the line of
/// the token found in its place.
pub open spec fn parse_error_message(e: ParseErrorModel) -> Seq<char> {
    expected_text(e.expected) + " near line "@ + decimal_digits(e.found.line)
}

impl ParseError {
    /// A human-readable description of the error, with its source line:
    /// exactly the text [`parse_error_message`] gives for it.
    pub fn message(&self) -> (r: String)
        ensures
            r@ == parse_error_message(self@),
    {
        let mut m = String::from_str(
            match self.expected {
                Expected::Expression => "expected an expression",
                Expected::RightParen => "expected ')' after expression",
                Expected::Semicolon => "expected ';'",
                Expected::Identifier => "variable declarations require an identifier",
            },
        );
        m.append(" near line ");
        m.append(decimal_text(self.found.line).as_str());
        m
    }
}

// ---------------------------------------------------------------------------
// Models
// ---------------------------------------------------------------------------

/// The mathematical shadow of [`Literal`].
pub ghost enum LiteralModel {
    String { text: Seq<char> },
    Number { bits: u64 },
    Boolean { value: bool },
    Nil,
}

/// The mathematical shadow of [`Expr`].
pub ghost enum ExprModel {
    Binary { operator: BinaryOperator, left: Box<ExprModel>, right: Box<ExprModel> },
    Unary { operator: UnaryOperator, right: Box<ExprModel> },
    Literal { literal: LiteralModel },
    Grouping { inner: Box<ExprModel> },
}

/// The mathematical shadow of [`Stmt`].
pub ghost enum StmtModel {
    Expression { expr: ExprModel },
    Print { expr: ExprModel },
    Var { name: Seq<char>, initializer: ExprModel },
}

/// The mathematical shadow of [`ParseError`].
pub ghost struct ParseErrorModel {
    pub found: TokenModel,
    pub expected: Expected,
}

impl View for Literal {
    type V = LiteralModel;

    open spec fn view(&self) -> LiteralModel {
        match self {
            Literal::String(s) => LiteralModel::String { text: s@ },
            Literal::Number(b) => LiteralModel::Number { bits: *b },
            Literal::Boolean(v) => LiteralModel::Boolean { value: *v },
            Literal::Nil => LiteralModel::Nil,
        }
    }
}

/// The model of an expression tree, child by child.
pub open spec fn expr_model(e: Expr) -> ExprModel
    decreases e,
{
    match e {
        Expr::Binary(b) => ExprModel::Binary {
            operator: b.operator,
            left: Box::new(expr_model(*b.left)),
            right: Box::new(expr_model(*b.right)),
        },
        Expr::Unary(u) => ExprModel::Unary {
            operator: u.operator,
            right: Box::new(expr_model(*u.right)),
        },
        Expr::Literal(l) => ExprModel::Literal { literal: l@ },
        Expr::Grouping(g) => ExprModel::Grouping { inner: Box::new(expr_model(*g.expr)) },
    }
}

impl View for Expr {
    type V = ExprModel;

    open spec fn view(&self) -> ExprModel {
        expr_model(*self)
    }
}

impl View for Stmt {
    type V = StmtModel;

    open spec fn view(&self) -> StmtModel {
        match self {
            Stmt::Expression(e) => StmtModel::Expression { expr: e@ },
            Stmt::Print(e) => StmtModel::Print { expr: e@ },
            Stmt::Var { name, initializer } => StmtModel::Var {
                name: name@,
                initializer: initializer@,
            },
        }
    }
}

impl View for ParseError {
    type V = ParseErrorModel;

    open spec fn view(&self) -> ParseErrorModel {
        ParseErrorModel { found: self.found@, expected: self.expected }
    }
}

/// The models of a sequence of statements, element by element.
pub open spec fn stmts_view(ss: Seq<Stmt>) -> Seq<StmtModel> {
    ss.map(|i: int, s: Stmt| s@)
}

pub proof fn lemma_stmts_view_push(ss: Seq<Stmt>, s: Stmt)
    ensures
        stmts_view(ss.push(s)) =~= stmts_view(ss).push(s@),
{
}

// ---------------------------------------------------------------------------
// The parsing model
// ---------------------------------------------------------------------------

/// The outcome of one model parsing function: a value and the position just
/// past what it consumed, or the error that stopped the parse.
pub ghost enum Parsed<T> {
    Accept { v: T, next: nat },
    Reject { error: ParseErrorModel },
}

/// How many tokens lie at or after position `i`: the parsing model's
/// termination measure.
pub open spec fn remaining(len: nat, i: nat) -> nat {
    if i <= len {
        (len - i) as nat
    } else {
        0
    }
}

/// Whether the cursor stands at the end of input: past the sequence, or on
/// the EOF token.
pub open spec fn at_end(ts: Seq<TokenModel>, i: nat) -> bool {
    i >= ts.len() || ts[i as int].kind is EOF
}

/// The token at a position, with a harmless stand-in past the end; the
/// executable parser never reads past the EOF token.
pub open spec fn token_at(ts: Seq<TokenModel>, i: nat) -> TokenModel {
    if i < ts.len() {
        ts[i as int]
    } else {
        TokenModel { kind: TokenKindModel::EOF, line: 0, pos: i }
    }
}

/// Whether an EOF token stands at or after position `i`.
pub open spec fn has_eof_from(ts: Seq<TokenModel>, i: nat) -> bool {
    exists|j: int| i <= j < ts.len() && (#[trigger] ts[j]).kind is EOF
}

/// What [`Parser::literal`] makes of one token.
pub open spec fn literal_spec(t: TokenModel) -> Result<LiteralModel, ()> {
    match t.kind {
        TokenKindModel::StringLiteral { text } => Ok(LiteralModel::String { text }),
        TokenKindModel::NumberLiteral { bits } => Ok(LiteralModel::Number { bits }),
        TokenKindModel::True => Ok(LiteralModel::Boolean { value: true }),
        TokenKindModel::False => Ok(LiteralModel::Boolean { value: false }),
        TokenKindModel::Nil => Ok(LiteralModel::Nil),
        _ => Err(()),
    }
}

/// `primary := NUMBER | STRING | "true" | "false" | "nil" | "(" expression ")"`.
pub open spec fn parse_primary(ts: Seq<TokenModel>, i: nat) -> Parsed<ExprModel>
    decreases remaining(ts.len(), i), 0int,
{
    if i >= ts.len() {
        Parsed::Reject { error: ParseErrorModel { found: token_at(ts, i), expected: Expected::Expression } }
    } else {
        match ts[i as int].kind {
            TokenKindModel::False => Parsed::Accept {
                v: ExprModel::Literal { literal: LiteralModel::Boolean { value: false } },
                next: i + 1,
            },
            TokenKindModel::True => Parsed::Accept {
                v: ExprModel::Literal { literal: LiteralModel::Boolean { value: true } },
                next: i + 1,
            },
            TokenKindModel::Nil => Parsed::Accept {
                v: ExprModel::Literal { literal: LiteralModel::Nil },
                next: i + 1,
            },
            TokenKindModel::NumberLiteral { bits } => Parsed::Accept {
                v: ExprModel::Literal { literal: LiteralModel::Number { bits } },
                next: i + 1,
            },
            TokenKindModel::StringLiteral { text } => Parsed::Accept {
                v: ExprModel::Literal { literal: LiteralModel::String { text } },
                next: i + 1,
            },
            TokenKindModel::LeftParen => match parse_expression(ts, i + 1) {
                Parsed::Accept { v, next } => {
                    let j = bump(i, next, ts.len());
                    if !at_end(ts, j) && ts[j as int].kind is RightParen {
                        Parsed::Accept {
                            v: ExprModel::Grouping { inner: Box::new(v) },
                            next: j + 1,
                        }
                    } else {
                        Parsed::Reject {
                            error: ParseErrorModel {
                                found: token_at(ts, j),
                                expected: Expected::RightParen,
                            },
                        }
                    }
                },
                Parsed::Reject { error } => Parsed::Reject { error },
            },
            _ => Parsed::Reject {
                error: ParseErrorModel { found: token_at(ts, i), expected: Expected::Expression },
            },
        }
    }
}

/// `unary := ("!" | "-") unary | primary`; right-associative.
pub open spec fn parse_unary(ts: Seq<TokenModel>, i: nat) -> Parsed<ExprModel>
    decreases remaining(ts.len(), i), 1int,
{
    if !at_end(ts, i) && (ts[i as int].kind is Bang || ts[i as int].kind is Minus) {
        let operator = if ts[i as int].kind is Bang {
            UnaryOperator::Not
        } else {
            UnaryOperator::Minus
        };
        match parse_unary(ts, i + 1) {
            Parsed::Accept { v, next } => Parsed::Accept {
                v: ExprModel::Unary { operator, right: Box::new(v) },
                next,
            },
            Parsed::Reject { error } => Parsed::Reject { error },
        }
    } else {
        parse_primary(ts, i)
    }
}

/// The left-associative tail of `factor`: more `/` or `*` applications.
pub open spec fn parse_factor_rest(ts: Seq<TokenModel>, left: ExprModel, i: nat) -> Parsed<
    ExprModel,
>
    decreases remaining(ts.len(), i), 0int,
{
    if !at_end(ts, i) && (ts[i as int].kind is Slash || ts[i as int].kind is Star) {
        let operator = if ts[i as int].kind is Slash {
            BinaryOperator::Divide
        } else {
            BinaryOperator::Multiply
        };
        match parse_unary(ts, i + 1) {
            Parsed::Accept { v, next } => parse_factor_rest(
                ts,
                ExprModel::Binary { operator, left: Box::new(left), right: Box::new(v) },
                bump(i, next, ts.len()),
            ),
            Parsed::Reject { error } => Parsed::Reject { error },
        }
    } else {
        Parsed::Accept { v: left, next: i }
    }
}

/// `factor := unary ( ("/" | "*") unary )*`.
pub open spec fn parse_factor(ts: Seq<TokenModel>, i: nat) -> Parsed<ExprModel>
    decreases remaining(ts.len(), i), 2int,
{
    match parse_unary(ts, i) {
        Parsed::Accept { v, next } => parse_factor_rest(ts, v, bump(i, next, ts.len())),
        Parsed::Reject { error } => Parsed::Reject { error },
    }
}

/// The left-associative tail of `term`: more `-` or `+` applications.
pub open spec fn parse_term_rest(ts: Seq<TokenModel>, left: ExprModel, i: nat) -> Parsed<ExprModel>
    decreases remaining(ts.len(), i), 0int,
{
    if !at_end(ts, i) && (ts[i as int].kind is Minus || ts[i as int].kind is Plus) {
        let operator = if ts[i as int].kind is Minus {
            BinaryOperator::Minus
        } else {
            BinaryOperator::Plus
        };
        match parse_factor(ts, i + 1) {
            Parsed::Accept { v, next } => parse_term_rest(
                ts,
                ExprModel::Binary { operator, left: Box::new(left), right: Box::new(v) },
                bump(i, next, ts.len()),
            ),
            Parsed::Reject { error } => Parsed::Reject { error },
        }
    } else {
        Parsed::Accept { v: left, next: i }
    }
}

/// `term := factor ( ("-" | "+") factor )*`.
pub open spec fn parse_term(ts: Seq<TokenModel>, i: nat) -> Parsed<ExprModel>
    decreases remaining(ts.len(), i), 3int,
{
    match parse_factor(ts, i) {
        Parsed::Accept { v, next } => parse_term_rest(ts, v, bump(i, next, ts.len())),
        Parsed::Reject { error } => Parsed::Reject { error },
    }
}

/// The left-associative tail of `comparison`.
pub open spec fn parse_comparison_rest(ts: Seq<TokenModel>, left: ExprModel, i: nat) -> Parsed<
    ExprModel,
>
    decreases remaining(ts.len(), i), 0int,
{
    if !at_end(ts, i) && (ts[i as int].kind is Greater || ts[i as int].kind is GreaterEqual
        || ts[i as int].kind is Less || ts[i as int].kind is LessEqual) {
        let operator = if ts[i as int].kind is Greater {
            BinaryOperator::GreaterThan
        } else if ts[i as int].kind is GreaterEqual {
            BinaryOperator::GreaterThanEqual
        } else if ts[i as int].kind is Less {
            BinaryOperator::LessThan
        } else {
            BinaryOperator::LessThanEqual
        };
        match parse_term(ts, i + 1) {
            Parsed::Accept { v, next } => parse_comparison_rest(
                ts,
                ExprModel::Binary { operator, left: Box::new(left), right: Box::new(v) },
                bump(i, next, ts.len()),
            ),
            Parsed::Reject { error } => Parsed::Reject { error },
        }
    } else {
        Parsed::Accept { v: left, next: i }
    }
}

/// `comparison := term ( (">" | ">=" | "<" | "<=") term )*`.
pub open spec fn parse_comparison(ts: Seq<TokenModel>, i: nat) -> Parsed<ExprModel>
    decreases remaining(ts.len(), i), 4int,
{
    match parse_term(ts, i) {
        Parsed::Accept { v, next } => parse_comparison_rest(ts, v, bump(i, next, ts.len())),
        Parsed::Reject { error } => Parsed::Reject { error },
    }
}

/// The left-associative tail of `equality`: more `!=` or `==` applications.
pub open spec fn parse_equality_rest(ts: Seq<TokenModel>, left: ExprModel, i: nat) -> Parsed<
    ExprModel,
>
    decreases remaining(ts.len(), i), 0int,
{
    if !at_end(ts, i) && (ts[i as int].kind is BangEqual || ts[i as int].kind is EqualEqual) {
        let operator = if ts[i as int].kind is BangEqual {
            BinaryOperator::NotEqual
        } else {
            BinaryOperator::EqualEqual
        };
        match parse_comparison(ts, i + 1) {
            Parsed::Accept { v, next } => parse_equality_rest(
                ts,
                ExprModel::Binary { operator, left: Box::new(left), right: Box::new(v) },
                bump(i, next, ts.len()),
            ),
            Parsed::Reject { error } => Parsed::Reject { error },
        }
    } else {
        Parsed::Accept { v: left, next: i }
    }
}

/// `equality := comparison ( ("!=" | "==") comparison )*`.
pub open spec fn parse_equality(ts: Seq<TokenModel>, i: nat) -> Parsed<ExprModel>
    decreases remaining(ts.len(), i), 5int,
{
    match parse_comparison(ts, i) {
        Parsed::Accept { v, next } => parse_equality_rest(ts, v, bump(i, next, ts.len())),
        Parsed::Reject { error } => Parsed::Reject { error },
    }
}

/// `expression := equality`.
pub open spec fn parse_expression(ts: Seq<TokenModel>, i: nat) -> Parsed<ExprModel>
    decreases remaining(ts.len(), i), 6int,
{
    parse_equality(ts, i)
}

/// `"print" expression ";"`, with `print` already consumed.
pub open spec fn parse_print_statement(ts: Seq<TokenModel>, i: nat) -> Parsed<StmtModel>
    decreases remaining(ts.len(), i), 7int,
{
    match parse_expression(ts, i) {
        Parsed::Accept { v, next } => {
            let j = bump(i, next, ts.len());
            if !at_end(ts, j) && ts[j as int].kind is Semicolon {
                Parsed::Accept { v: StmtModel::Print { expr: v }, next: j + 1 }
            } else {
                Parsed::Reject {
                    error: ParseErrorModel { found: token_at(ts, j), expected: Expected::Semicolon },
                }
            }
        },
        Parsed::Reject { error } => Parsed::Reject { error },
    }
}

/// `expression ";"`.
pub open spec fn parse_expression_statement(ts: Seq<TokenModel>, i: nat) -> Parsed<StmtModel>
    decreases remaining(ts.len(), i), 7int,
{
    match parse_expression(ts, i) {
        Parsed::Accept { v, next } => {
            let j = bump(i, next, ts.len());
            if !at_end(ts, j) && ts[j as int].kind is Semicolon {
                Parsed::Accept { v: StmtModel::Expression { expr: v }, next: j + 1 }
            } else {
                Parsed::Reject {
                    error: ParseErrorModel { found: token_at(ts, j), expected: Expected::Semicolon },
                }
            }
        },
        Parsed::Reject { error } => Parsed::Reject { error },
    }
}

/// `statement := "print" expression ";" | expression ";"`.
pub open spec fn parse_statement(ts: Seq<TokenModel>, i: nat) -> Parsed<StmtModel>
    decreases remaining(ts.len(), i), 8int,
{
    if !at_end(ts, i) && ts[i as int].kind is Print {
        parse_print_statement(ts, i + 1)
    } else {
        parse_expression_statement(ts, i)
    }
}

/// `"var" IDENT ("=" expression)? ";"`, with `var` already consumed: the
/// name must be an identifier; a missing initializer defaults to the nil
/// literal; a semicolon must close the declaration.
pub open spec fn parse_var_declaration(ts: Seq<TokenModel>, i: nat) -> Parsed<StmtModel>
    decreases remaining(ts.len(), i), 7int,
{
    if i >= ts.len() {
        Parsed::Reject {
            error: ParseErrorModel { found: token_at(ts, i), expected: Expected::Identifier },
        }
    } else {
        match ts[i as int].kind {
            TokenKindModel::Identifier { text } => parse_var_tail(ts, i, text),
            _ => Parsed::Reject {
                error: ParseErrorModel { found: token_at(ts, i), expected: Expected::Identifier },
            },
        }
    }
}

/// The rest of a variable declaration, after its identifier at `i`: an
/// optional `=` initializer, then the terminating semicolon.
pub open spec fn parse_var_tail(ts: Seq<TokenModel>, i: nat, name: Seq<char>) -> Parsed<StmtModel>
    decreases remaining(ts.len(), i), 6int,
{
    ({
        if !at_end(ts, i + 1) && ts[i as int + 1].kind is Equal {
            match parse_expression(ts, i + 2) {
                Parsed::Accept { v, next } => {
                    let j = bump(i, next, ts.len());
                    if !at_end(ts, j) && ts[j as int].kind is Semicolon {
                        Parsed::Accept {
                            v: StmtModel::Var { name, initializer: v },
                            next: j + 1,
                        }
                    } else {
                        Parsed::Reject {
                            error: ParseErrorModel {
                                found: token_at(ts, j),
                                expected: Expected::Semicolon,
                            },
                        }
                    }
                },
                Parsed::Reject { error } => Parsed::Reject { error },
            }
        } else {
            if !at_end(ts, i + 1) && ts[i as int + 1].kind is Semicolon {
                Parsed::Accept {
                    v: StmtModel::Var {
                        name,
                        initializer: ExprModel::Literal { literal: LiteralModel::Nil },
                    },
                    next: i + 2,
                }
            } else {
                Parsed::Reject {
                    error: ParseErrorModel {
                        found: token_at(ts, i + 1),
                        expected: Expected::Semicolon,
                    },
                }
            }
        }
    })
}

/// `declaration := "var" IDENT ("=" expression)? ";" | statement`.
pub open spec fn parse_declaration(ts: Seq<TokenModel>, i: nat) -> Parsed<StmtModel>
    decreases remaining(ts.len(), i), 9int,
{
    if !at_end(ts, i) && ts[i as int].kind is Var {
        parse_var_declaration(ts, i + 1)
    } else {
        parse_statement(ts, i)
    }
}

/// `program := declaration* EOF`: every statement down to the EOF token.
pub open spec fn parse_program(ts: Seq<TokenModel>, i: nat) -> Parsed<Seq<StmtModel>>
    decreases remaining(ts.len(), i), 10int,
{
    if at_end(ts, i) {
        Parsed::Accept { v: Seq::empty(), next: i }
    } else {
        match parse_declaration(ts, i) {
            Parsed::Accept { v, next } => {
                match parse_program(ts, bump(i, next, ts.len())) {
                    Parsed::Accept { v: rest, next: n } => Parsed::Accept { v: seq![v] + rest, next: n },
                    Parsed::Reject { error } => Parsed::Reject { error },
                }
            },
            Parsed::Reject { error } => Parsed::Reject { error },
        }
    }
}

// ---------------------------------------------------------------------------
// The parser itself
// ---------------------------------------------------------------------------

/// An exact copy of a token, field by field.
fn clone_token(t: &Token) -> (r: Token)
    ensures
        r@ == t@,
{
    let kind = match &t.kind {
        TokenKind::Bang => TokenKind::Bang,
        TokenKind::BangEqual => TokenKind::BangEqual,
        TokenKind::Equal => TokenKind::Equal,
        TokenKind::EqualEqual => TokenKind::EqualEqual,
        TokenKind::Greater => TokenKind::Greater,
        TokenKind::GreaterEqual => TokenKind::GreaterEqual,
        TokenKind::Less => TokenKind::Less,
        TokenKind::LessEqual => TokenKind::LessEqual,
        TokenKind::LeftParen => TokenKind::LeftParen,
        TokenKind::RightParen => TokenKind::RightParen,
        TokenKind::LeftBrace => TokenKind::LeftBrace,
        TokenKind::RightBrace => TokenKind::RightBrace,
        TokenKind::Comma => TokenKind::Comma,
        TokenKind::Dot => TokenKind::Dot,
        TokenKind::Minus => TokenKind::Minus,
        TokenKind::Plus => TokenKind::Plus,
        TokenKind::Semicolon => TokenKind::Semicolon,
        TokenKind::Slash => TokenKind::Slash,
        TokenKind::Star => TokenKind::Star,
        TokenKind::And => TokenKind::And,
        TokenKind::Class => TokenKind::Class,
        TokenKind::Else => TokenKind::Else,
        TokenKind::False => TokenKind::False,
        TokenKind::Fun => TokenKind::Fun,
        TokenKind::For => TokenKind::For,
        TokenKind::If => TokenKind::If,
        TokenKind::Nil => TokenKind::Nil,
        TokenKind::Or => TokenKind::Or,
        TokenKind::Print => TokenKind::Print,
        TokenKind::Return => TokenKind::Return,
        TokenKind::Super => TokenKind::Super,
        TokenKind::This => TokenKind::This,
        TokenKind::True => TokenKind::True,
        TokenKind::Var => TokenKind::Var,
        TokenKind::While => TokenKind::While,
        TokenKind::StringLiteral(s) => TokenKind::StringLiteral(s.clone()),
        TokenKind::NumberLiteral(b) => TokenKind::NumberLiteral(*b),
        TokenKind::Identifier(s) => TokenKind::Identifier(s.clone()),
        TokenKind::EOF => TokenKind::EOF,
    };
    Token { kind, line: t.line, pos: t.pos }
}

/// The parser: the token sequence and a single read position into it. The
/// position never moves backwards, and never moves past the EOF token.
pub struct Parser {
    tokens: Vec<Token>,
    current: usize,
}

impl Parser {
    /// The models of the tokens being parsed.
    pub closed spec fn toks(&self) -> Seq<TokenModel> {
        tokens_view(self.tokens@)
    }

    /// The read position.
    pub closed spec fn pos(&self) -> nat {
        self.current as nat
    }

    /// An EOF token stands at or after the read position, as the scanner
    /// guarantees of every token sequence it produces.
    pub open spec fn wf(&self) -> bool {
        has_eof_from(self.toks(), self.pos())
    }

    /// A parser over the given tokens, at the start.
    pub fn new(tokens: Vec<Token>) -> (p: Parser)
        ensures
            p.toks() == tokens_view(tokens@),
            p.pos() == 0,
    {
        Parser { tokens, current: 0 }
    }

    /// The token under the read position, by reference.
    fn peek(&self) -> (t: &Token)
        requires
            self.pos() < self.toks().len(),
        ensures
            t@ == self.toks()[self.pos() as int],
    {
        &self.tokens[self.current]
    }

    /// An owned copy of the token under the read position.
    fn clone_current(&self) -> (r: Token)
        requires
            self.pos() < self.toks().len(),
        ensures
            r@ == token_at(self.toks(), self.pos()),
    {
        clone_token(&self.tokens[self.current])
    }

    /// Whether the read position stands on the EOF token.
    fn is_at_end(&self) -> (r: bool)
        requires
            self.pos() < self.toks().len(),
        ensures
            r == at_end(self.toks(), self.pos()),
    {
        match self.peek().kind {
            TokenKind::EOF => true,
            _ => false,
        }
    }

    /// Moves the read position forward by one token, unless it already
    /// stands on EOF.
    fn advance(&mut self)
        requires
            old(self).wf(),
        ensures
            final(self).toks() == old(self).toks(),
            final(self).wf(),
            final(self).pos() == if at_end(old(self).toks(), old(self).pos()) {
                old(self).pos()
            } else {
                old(self).pos() + 1
            },
    {
        if !self.is_at_end() {
            let ghost ts = self.toks();
            let ghost i = self.pos();
            let n = self.tokens.len();
            self.current = self.current + 1;
            proof {
                let j = choose|j: int| i <= j < ts.len() && (#[trigger] ts[j]).kind is EOF;
                assert(self.pos() <= j < ts.len() && ts[j].kind is EOF);
            }
        }
    }

    /// Classifies the token under the read position as a literal and
    /// consumes it, exactly as [`literal_spec`] says; any other token is
    /// consumed too, with an error.
    pub fn literal(&mut self) -> (r: Result<Literal, ()>)
        requires
            old(self).pos() < old(self).toks().len(),
        ensures
            final(self).toks() == old(self).toks(),
            final(self).pos() == old(self).pos() + 1,
            match r {
                Ok(l) => literal_spec(old(self).toks()[old(self).pos() as int]) == Ok::<
                    LiteralModel,
                    (),
                >(l@),
                Err(_) => literal_spec(old(self).toks()[old(self).pos() as int]) is Err,
            },
    {
        let r = match &self.tokens[self.current].kind {
            TokenKind::StringLiteral(s) => Ok(Literal::String(s.clone())),
            TokenKind::NumberLiteral(b) => Ok(Literal::Number(*b)),
            TokenKind::True => Ok(Literal::Boolean(true)),
            TokenKind::False => Ok(Literal::Boolean(false)),
            TokenKind::Nil => Ok(Literal::Nil),
            _ => Err(()),
        };
        let n = self.tokens.len();
        self.current = self.current + 1;
        r
    }

    /// `primary := NUMBER | STRING | "true" | "false" | "nil"
    /// | "(" expression ")"`; exactly what [`parse_primary`] says.
    #[verifier::rlimit(100)]
    #[verifier::spinoff_prover]
    fn primary(&mut self) -> (r: Result<Expr, ParseError>)
        requires
            old(self).wf(),
        ensures
            final(self).toks() == old(self).toks(),
            match r {
                Ok(e) => {
                    &&& parse_primary(old(self).toks(), old(self).pos()) == (Parsed::Accept {
                        v: e@,
                        next: final(self).pos(),
                    })
                    &&& old(self).pos() < final(self).pos() <= old(self).toks().len()
                    &&& final(self).wf()
                },
                Err(pe) => parse_primary(old(self).toks(), old(self).pos()) == (Parsed::Reject::<
                    ExprModel,
                > { error: pe@ }),
            },
        decreases remaining(self.toks().len(), self.pos()), 0int,
    {
        match &self.tokens[self.current].kind {
            TokenKind::False => {
                self.advance();
                Ok(Expr::Literal(Literal::Boolean(false)))
            },
            TokenKind::True => {
                self.advance();
                Ok(Expr::Literal(Literal::Boolean(true)))
            },
            TokenKind::Nil => {
                self.advance();
                Ok(Expr::Literal(Literal::Nil))
            },
            TokenKind::NumberLiteral(b) => {
                let bits = *b;
                self.advance();
                Ok(Expr::Literal(Literal::Number(bits)))
            },
            TokenKind::StringLiteral(s) => {
                let text = s.clone();
                self.advance();
                Ok(Expr::Literal(Literal::String(text)))
            },
            TokenKind::LeftParen => {
                self.advance();
                let inner = match self.expression() {
                    Ok(e) => e,
                    Err(pe) => {
                        return Err(pe);
                    },
                };
                let closed = !self.is_at_end() && matches!(
                    self.peek().kind,
                    TokenKind::RightParen,
                );
                if closed {
                    self.advance();
                    Ok(Expr::Grouping(Grouping { expr: Box::new(inner) }))
                } else {
                    Err(ParseError { found: self.clone_current(), expected: Expected::RightParen })
                }
            },
            _ => Err(ParseError { found: self.clone_current(), expected: Expected::Expression }),
        }
    }

    /// `unary := ("!" | "-") unary | primary`; exactly what
    /// [`parse_unary`] says.
    #[verifier::rlimit(100)]
    #[verifier::spinoff_prover]
    fn unary(&mut self) -> (r: Result<Expr, ParseError>)
        requires
            old(self).wf(),
        ensures
            final(self).toks() == old(self).toks(),
            match r {
                Ok(e) => {
                    &&& parse_unary(old(self).toks(), old(self).pos()) == (Parsed::Accept {
                        v: e@,
                        next: final(self).pos(),
                    })
                    &&& old(self).pos() < final(self).pos() <= old(self).toks().len()
                    &&& final(self).wf()
                },
                Err(pe) => parse_unary(old(self).toks(), old(self).pos()) == (Parsed::Reject::<
                    ExprModel,
                > { error: pe@ }),
            },
        decreases remaining(self.toks().len(), self.pos()), 1int,
    {
        let is_bang = matches!(self.peek().kind, TokenKind::Bang);
        let is_minus = matches!(self.peek().kind, TokenKind::Minus);
        if is_bang || is_minus {
            let operator = if is_bang {
                UnaryOperator::Not
            } else {
                UnaryOperator::Minus
            };
            self.advance();
            let right = match self.unary() {
                Ok(e) => e,
                Err(pe) => {
                    return Err(pe);
                },
            };
            Ok(Expr::Unary(Unary { operator, right: Box::new(right) }))
        } else {
            self.primary()
        }
    }

    /// `factor := unary ( ("/" | "*") unary )*`; exactly what
    /// [`parse_factor`] says.
    #[verifier::rlimit(100)]
    #[verifier::spinoff_prover]
    fn factor(&mut self) -> (r: Result<Expr, ParseError>)
        requires
            old(self).wf(),
        ensures
            final(self).toks() == old(self).toks(),
            match r {
                Ok(e) => {
                    &&& parse_factor(old(self).toks(), old(self).pos()) == (Parsed::Accept {
                        v: e@,
                        next: final(self).pos(),
                    })
                    &&& old(self).pos() < final(self).pos() <= old(self).toks().len()
                    &&& final(self).wf()
                },
                Err(pe) => parse_factor(old(self).toks(), old(self).pos()) == (Parsed::Reject::<
                    ExprModel,
                > { error: pe@ }),
            },
        decreases remaining(self.toks().len(), self.pos()), 2int,
    {
        let ghost ts = self.toks();
        let ghost i0 = self.pos();
        let mut expr = match self.unary() {
            Ok(e) => e,
            Err(pe) => {
                return Err(pe);
            },
        };
        loop
            invariant
                self.wf(),
                self.toks() == ts,
                ts == old(self).toks(),
                i0 == old(self).pos(),
                i0 < self.pos() <= ts.len(),
                parse_factor(ts, i0) == parse_factor_rest(ts, expr@, self.pos()),
            ensures
                self.wf(),
                self.toks() == ts,
                i0 < self.pos() <= ts.len(),
                parse_factor(ts, i0) == parse_factor_rest(ts, expr@, self.pos()),
                at_end(ts, self.pos()) || !(ts[self.pos() as int].kind is Slash || ts[
                    self.pos() as int
                ].kind is Star),
            decreases ts.len() - self.pos(),
        {
            if self.is_at_end() {
                break ;
            }
            let is_slash = matches!(self.peek().kind, TokenKind::Slash);
            let is_star = matches!(self.peek().kind, TokenKind::Star);
            if !(is_slash || is_star) {
                break ;
            }
            let operator = if is_slash {
                BinaryOperator::Divide
            } else {
                BinaryOperator::Multiply
            };
            self.advance();
            let right = match self.unary() {
                Ok(e) => e,
                Err(pe) => {
                    return Err(pe);
                },
            };
            expr = Expr::Binary(Binary { left: Box::new(expr), operator, right: Box::new(right) });
        }
        Ok(expr)
    }

    /// `term := factor ( ("-" | "+") factor )*`; exactly what
    /// [`parse_term`] says.
    #[verifier::rlimit(100)]
    #[verifier::spinoff_prover]
    fn term(&mut self) -> (r: Result<Expr, ParseError>)
        requires
            old(self).wf(),
        ensures
            final(self).toks() == old(self).toks(),
            match r {
                Ok(e) => {
                    &&& parse_term(old(self).toks(), old(self).pos()) == (Parsed::Accept {
                        v: e@,
                        next: final(self).pos(),
                    })
                    &&& old(self).pos() < final(self).pos() <= old(self).toks().len()
                    &&& final(self).wf()
                },
                Err(pe) => parse_term(old(self).toks(), old(self).pos()) == (Parsed::Reject::<
                    ExprModel,
                > { error: pe@ }),
            },
        decreases remaining(self.toks().len(), self.pos()), 3int,
    {
        let ghost ts = self.toks();
        let ghost i0 = self.pos();
        let mut expr = match self.factor() {
            Ok(e) => e,
            Err(pe) => {
                return Err(pe);
            },
        };
        loop
            invariant
                self.wf(),
                self.toks() == ts,
                ts == old(self).toks(),
                i0 == old(self).pos(),
                i0 < self.pos() <= ts.len(),
                parse_term(ts, i0) == parse_term_rest(ts, expr@, self.pos()),
            ensures
                self.wf(),
                self.toks() == ts,
                i0 < self.pos() <= ts.len(),
                parse_term(ts, i0) == parse_term_rest(ts, expr@, self.pos()),
                at_end(ts, self.pos()) || !(ts[self.pos() as int].kind is Minus || ts[
                    self.pos() as int
                ].kind is Plus),
            decreases ts.len() - self.pos(),
        {
            if self.is_at_end() {
                break ;
            }
            let is_minus = matches!(self.peek().kind, TokenKind::Minus);
            let is_plus = matches!(self.peek().kind, TokenKind::Plus);
            if !(is_minus || is_plus) {
                break ;
            }
            let operator = if is_minus {
                BinaryOperator::Minus
            } else {
                BinaryOperator::Plus
            };
            self.advance();
            let right = match self.factor() {
                Ok(e) => e,
                Err(pe) => {
                    return Err(pe);
                },
            };
            expr = Expr::Binary(Binary { left: Box::new(expr), operator, right: Box::new(right) });
        }
        Ok(expr)
    }

    /// `comparison := term ( (">" | ">=" | "<" | "<=") term )*`; exactly
    /// what [`parse_comparison`] says.
    #[verifier::rlimit(100)]
    #[verifier::spinoff_prover]
    fn comparison(&mut self) -> (r: Result<Expr, ParseError>)
        requires
            old(self).wf(),
        ensures
            final(self).toks() == old(self).toks(),
            match r {
                Ok(e) => {
                    &&& parse_comparison(old(self).toks(), old(self).pos()) == (Parsed::Accept {
                        v: e@,
                        next: final(self).pos(),
                    })
                    &&& old(self).pos() < final(self).pos() <= old(self).toks().len()
                    &&& final(self).wf()
                },
                Err(pe) => parse_comparison(old(self).toks(), old(self).pos()) == (
                Parsed::Reject::<ExprModel> { error: pe@ }),
            },
        decreases remaining(self.toks().len(), self.pos()), 4int,
    {
        let ghost ts = self.toks();
        let ghost i0 = self.pos();
        let mut expr = match self.term() {
            Ok(e) => e,
            Err(pe) => {
                return Err(pe);
            },
        };
        loop
            invariant
                self.wf(),
                self.toks() == ts,
                ts == old(self).toks(),
                i0 == old(self).pos(),
                i0 < self.pos() <= ts.len(),
                parse_comparison(ts, i0) == parse_comparison_rest(ts, expr@, self.pos()),
            ensures
                self.wf(),
                self.toks() == ts,
                i0 < self.pos() <= ts.len(),
                parse_comparison(ts, i0) == parse_comparison_rest(ts, expr@, self.pos()),
                at_end(ts, self.pos()) || !(ts[self.pos() as int].kind is Greater || ts[
                    self.pos() as int
                ].kind is GreaterEqual || ts[self.pos() as int].kind is Less || ts[
                    self.pos() as int
                ].kind is LessEqual),
            decreases ts.len() - self.pos(),
        {
            if self.is_at_end() {
                break ;
            }
            let is_gt = matches!(self.peek().kind, TokenKind::Greater);
            let is_ge = matches!(self.peek().kind, TokenKind::GreaterEqual);
            let is_lt = matches!(self.peek().kind, TokenKind::Less);
            let is_le = matches!(self.peek().kind, TokenKind::LessEqual);
            if !(is_gt || is_ge || is_lt || is_le) {
                break ;
            }
            let operator = if is_gt {
                BinaryOperator::GreaterThan
            } else if is_ge {
                BinaryOperator::GreaterThanEqual
            } else if is_lt {
                BinaryOperator::LessThan
            } else {
                BinaryOperator::LessThanEqual
            };
            self.advance();
            let right = match self.term() {
                Ok(e) => e,
                Err(pe) => {
                    return Err(pe);
                },
            };
            expr = Expr::Binary(Binary { left: Box::new(expr), operator, right: Box::new(right) });
        }
        Ok(expr)
    }

    /// `equality := comparison ( ("!=" | "==") comparison )*`; exactly what
    /// [`parse_equality`] says.
    #[verifier::rlimit(100)]
    #[verifier::spinoff_prover]
    fn equality(&mut self) -> (r: Result<Expr, ParseError>)
        requires
            old(self).wf(),
        ensures
            final(self).toks() == old(self).toks(),
            match r {
                Ok(e) => {
                    &&& parse_equality(old(self).toks(), old(self).pos()) == (Parsed::Accept {
                        v: e@,
                        next: final(self).pos(),
                    })
                    &&& old(self).pos() < final(self).pos() <= old(self).toks().len()
                    &&& final(self).wf()
                },
                Err(pe) => parse_equality(old(self).toks(), old(self).pos()) == (Parsed::Reject::<
                    ExprModel,
                > { error: pe@ }),
            },
        decreases remaining(self.toks().len(), self.pos()), 5int,
    {
        let ghost ts = self.toks();
        let ghost i0 = self.pos();
        let mut expr = match self.comparison() {
            Ok(e) => e,
            Err(pe) => {
                return Err(pe);
            },
        };
        loop
            invariant
                self.wf(),
                self.toks() == ts,
                ts == old(self).toks(),
                i0 == old(self).pos(),
                i0 < self.pos() <= ts.len(),
                parse_equality(ts, i0) == parse_equality_rest(ts, expr@, self.pos()),
            ensures
                self.wf(),
                self.toks() == ts,
                i0 < self.pos() <= ts.len(),
                parse_equality(ts, i0) == parse_equality_rest(ts, expr@, self.pos()),
                at_end(ts, self.pos()) || !(ts[self.pos() as int].kind is BangEqual || ts[
                    self.pos() as int
                ].kind is EqualEqual),
            decreases ts.len() - self.pos(),
        {
            if self.is_at_end() {
                break ;
            }
            let is_ne = matches!(self.peek().kind, TokenKind::BangEqual);
            let is_eq = matches!(self.peek().kind, TokenKind::EqualEqual);
            if !(is_ne || is_eq) {
                break ;
            }
            let operator = if is_ne {
                BinaryOperator::NotEqual
            } else {
                BinaryOperator::EqualEqual
            };
            self.advance();
            let right = match self.comparison() {
                Ok(e) => e,
                Err(pe) => {
                    return Err(pe);
                },
            };
            expr = Expr::Binary(Binary { left: Box::new(expr), operator, right: Box::new(right) });
        }
        Ok(expr)
    }

    /// `expression := equality`: parses one whole expression at the read
    /// position; exactly what [`parse_expression`] says, success and error
    /// alike.
    #[verifier::rlimit(100)]
    #[verifier::spinoff_prover]
    pub fn expression(&mut self) -> (r: Result<Expr, ParseError>)
        requires
            old(self).wf(),
        ensures
            final(self).toks() == old(self).toks(),
            match r {
                Ok(e) => {
                    &&& parse_expression(old(self).toks(), old(self).pos()) == (Parsed::Accept {
                        v: e@,
                        next: final(self).pos(),
                    })
                    &&& old(self).pos() < final(self).pos() <= old(self).toks().len()
                    &&& final(self).wf()
                },
                Err(pe) => parse_expression(old(self).toks(), old(self).pos()) == (
                Parsed::Reject::<ExprModel> { error: pe@ }),
            },
        decreases remaining(self.toks().len(), self.pos()), 6int,
    {
        self.equality()
    }

    /// `"print" expression ";"`, the keyword already consumed; exactly what
    /// [`parse_print_statement`] says.
    #[verifier::rlimit(100)]
    #[verifier::spinoff_prover]
    fn print_statement(&mut self) -> (r: Result<Stmt, ParseError>)
        requires
            old(self).wf(),
        ensures
            final(self).toks() == old(self).toks(),
            match r {
                Ok(s) => {
                    &&& parse_print_statement(old(self).toks(), old(self).pos()) == (
                    Parsed::Accept { v: s@, next: final(self).pos() })
                    &&& old(self).pos() < final(self).pos() <= old(self).toks().len()
                    &&& final(self).wf()
                },
                Err(pe) => parse_print_statement(old(self).toks(), old(self).pos()) == (
                Parsed::Reject::<StmtModel> { error: pe@ }),
            },
        decreases remaining(self.toks().len(), self.pos()), 7int,
    {
        let value = match self.expression() {
            Ok(e) => e,
            Err(pe) => {
                return Err(pe);
            },
        };
        let closed = !self.is_at_end() && matches!(self.peek().kind, TokenKind::Semicolon);
        if closed {
            self.advance();
            Ok(Stmt::Print(value))
        } else {
            Err(ParseError { found: self.clone_current(), expected: Expected::Semicolon })
        }
    }

    /// `expression ";"`; exactly what [`parse_expression_statement`] says.
    #[verifier::rlimit(100)]
    #[verifier::spinoff_prover]
    fn expression_statement(&mut self) -> (r: Result<Stmt, ParseError>)
        requires
            old(self).wf(),
        ensures
            final(self).toks() == old(self).toks(),
            match r {
                Ok(s) => {
                    &&& parse_expression_statement(old(self).toks(), old(self).pos()) == (
                    Parsed::Accept { v: s@, next: final(self).pos() })
                    &&& old(self).pos() < final(self).pos() <= old(self).toks().len()
                    &&& final(self).wf()
                },
                Err(pe) => parse_expression_statement(old(self).toks(), old(self).pos()) == (
                Parsed::Reject::<StmtModel> { error: pe@ }),
            },
        decreases remaining(self.toks().len(), self.pos()), 7int,
    {
        let value = match self.expression() {
            Ok(e) => e,
            Err(pe) => {
                return Err(pe);
            },
        };
        let closed = !self.is_at_end() && matches!(self.peek().kind, TokenKind::Semicolon);
        if closed {
            self.advance();
            Ok(Stmt::Expression(value))
        } else {
            Err(ParseError { found: self.clone_current(), expected: Expected::Semicolon })
        }
    }

    /// `statement := "print" expression ";" | expression ";"`; exactly what
    /// [`parse_statement`] says.
    #[verifier::rlimit(100)]
    #[verifier::spinoff_prover]
    fn statement(&mut self) -> (r: Result<Stmt, ParseError>)
        requires
            old(self).wf(),
        ensures
            final(self).toks() == old(self).toks(),
            match r {
                Ok(s) => {
                    &&& parse_statement(old(self).toks(), old(self).pos()) == (Parsed::Accept {
                        v: s@,
                        next: final(self).pos(),
                    })
                    &&& old(self).pos() < final(self).pos() <= old(self).toks().len()
                    &&& final(self).wf()
                },
                Err(pe) => parse_statement(old(self).toks(), old(self).pos()) == (Parsed::Reject::<
                    StmtModel,
                > { error: pe@ }),
            },
        decreases remaining(self.toks().len(), self.pos()), 8int,
    {
        let is_print = matches!(self.peek().kind, TokenKind::Print);
        if is_print {
            self.advance();
            self.print_statement()
        } else {
            self.expression_statement()
        }
    }

    /// `"var" IDENT ("=" expression)? ";"`, the keyword already consumed:
    /// the name must be an identifier, a missing initializer defaults to
    /// the nil literal, and a semicolon must close the declaration; exactly
    /// what [`parse_var_declaration`] says.
    #[verifier::rlimit(100)]
    #[verifier::spinoff_prover]
    fn var_declaration(&mut self) -> (r: Result<Stmt, ParseError>)
        requires
            old(self).wf(),
        ensures
            final(self).toks() == old(self).toks(),
            match r {
                Ok(s) => {
                    &&& parse_var_declaration(old(self).toks(), old(self).pos()) == (
                    Parsed::Accept { v: s@, next: final(self).pos() })
                    &&& old(self).pos() < final(self).pos() <= old(self).toks().len()
                    &&& final(self).wf()
                },
                Err(pe) => parse_var_declaration(old(self).toks(), old(self).pos()) == (
                Parsed::Reject::<StmtModel> { error: pe@ }),
            },
        decreases remaining(self.toks().len(), self.pos()), 7int,
    {
        let name_found: Option<String> = match &self.tokens[self.current].kind {
            TokenKind::Identifier(s) => Some(s.clone()),
            _ => None,
        };
        let name = match name_found {
            Some(n) => n,
            None => {
                return Err(
                    ParseError { found: self.clone_current(), expected: Expected::Identifier },
                );
            },
        };
        self.advance();
        let has_initializer = !self.is_at_end() && matches!(self.peek().kind, TokenKind::Equal);
        if has_initializer {
            self.advance();
            let initializer = match self.expression() {
                Ok(e) => e,
                Err(pe) => {
                    return Err(pe);
                },
            };
            let closed = !self.is_at_end() && matches!(self.peek().kind, TokenKind::Semicolon);
            if closed {
                self.advance();
                Ok(Stmt::Var { name, initializer })
            } else {
                Err(ParseError { found: self.clone_current(), expected: Expected::Semicolon })
            }
        } else {
            let closed = !self.is_at_end() && matches!(self.peek().kind, TokenKind::Semicolon);
            if closed {
                self.advance();
                Ok(Stmt::Var { name, initializer: Expr::Literal(Literal::Nil) })
            } else {
                Err(ParseError { found: self.clone_current(), expected: Expected::Semicolon })
            }
        }
    }

    /// `declaration := "var" IDENT ("=" expression)? ";" | statement`;
    /// exactly what [`parse_declaration`] says.
    #[verifier::rlimit(100)]
    #[verifier::spinoff_prover]
    fn declaration(&mut self) -> (r: Result<Stmt, ParseError>)
        requires
            old(self).wf(),
        ensures
            final(self).toks() == old(self).toks(),
            match r {
                Ok(s) => {
                    &&& parse_declaration(old(self).toks(), old(self).pos()) == (Parsed::Accept {
                        v: s@,
                        next: final(self).pos(),
                    })
                    &&& old(self).pos() < final(self).pos() <= old(self).toks().len()
                    &&& final(self).wf()
                },
                Err(pe) => parse_declaration(old(self).toks(), old(self).pos()) == (
                Parsed::Reject::<StmtModel> { error: pe@ }),
            },
        decreases remaining(self.toks().len(), self.pos()), 9int,
    {
        let is_var = matches!(self.peek().kind, TokenKind::Var);
        if is_var {
            self.advance();
            self.var_declaration()
        } else {
            self.statement()
        }
    }

    /// Parses the whole program: every declaration down to the EOF token;
    /// exactly what [`parse_program`] says, success and error alike.
    #[verifier::rlimit(100)]
    #[verifier::spinoff_prover]
    pub fn parse(&mut self) -> (r: Result<Vec<Stmt>, ParseError>)
        requires
            old(self).wf(),
        ensures
            final(self).toks() == old(self).toks(),
            match r {
                Ok(ss) => parse_program(old(self).toks(), old(self).pos()) == (Parsed::Accept {
                    v: stmts_view(ss@),
                    next: final(self).pos(),
                }),
                Err(pe) => parse_program(old(self).toks(), old(self).pos()) == (Parsed::Reject::<
                    Seq<StmtModel>,
                > { error: pe@ }),
            },
    {
        let ghost ts = self.toks();
        let ghost i0 = self.pos();
        let mut statements: Vec<Stmt> = Vec::new();
        proof {
            assert(stmts_view(statements@) =~= Seq::<StmtModel>::empty());
            if let Parsed::Accept { v: rest, next } = parse_program(ts, i0) {
                assert(Seq::<StmtModel>::empty() + rest =~= rest);
            }
        }
        loop
            invariant
                self.wf(),
                self.toks() == ts,
                ts == old(self).toks(),
                i0 == old(self).pos(),
                i0 <= self.pos() <= ts.len(),
                match parse_program(ts, self.pos()) {
                    Parsed::Accept { v: rest, next } => parse_program(ts, i0) == (Parsed::Accept {
                        v: stmts_view(statements@) + rest,
                        next,
                    }),
                    Parsed::Reject { error } => parse_program(ts, i0) == (Parsed::Reject::<
                        Seq<StmtModel>,
                    > { error }),
                },
            ensures
                self.wf(),
                self.toks() == ts,
                at_end(ts, self.pos()),
                match parse_program(ts, self.pos()) {
                    Parsed::Accept { v: rest, next } => parse_program(ts, i0) == (Parsed::Accept {
                        v: stmts_view(statements@) + rest,
                        next,
                    }),
                    Parsed::Reject { error } => parse_program(ts, i0) == (Parsed::Reject::<
                        Seq<StmtModel>,
                    > { error }),
                },
            decreases ts.len() - self.pos(),
        {
            if self.is_at_end() {
                break ;
            }
            let ghost pre_pos = self.pos();
            let ghost stmts0 = statements@;
            let s = match self.declaration() {
                Ok(s) => s,
                Err(pe) => {
                    return Err(pe);
                },
            };
            statements.push(s);
            proof {
                lemma_stmts_view_push(stmts0, s);
                assert(bump(pre_pos, self.pos(), ts.len()) == self.pos());
                if let Parsed::Accept { v: rest, next } = parse_program(ts, self.pos()) {
                    assert(stmts_view(stmts0) + (seq![s@] + rest) =~= stmts_view(stmts0).push(s@)
                        + rest);
                }
            }
        }
        proof {
            assert(stmts_view(statements@) + Seq::<StmtModel>::empty() =~= stmts_view(
                statements@,
            ));
        }
        Ok(statements)
    }
}

} // verus!
