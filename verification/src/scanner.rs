//! The lexical scanner: source text to an EOF-terminated token sequence.
//!
//! The scanner walks the source one code point at a time (all indices and
//! positions below count code points, not bytes). Single-character
//! punctuation is emitted directly; `! = < >` look one character ahead for a
//! two-character operator (maximal munch); `//` discards the rest of the
//! line; whitespace is dropped and newlines advance the line counter; `"`
//! opens a string literal whose payload is the text strictly between the
//! quotes; a digit opens a numeric literal; a letter or `_` opens an
//! identifier, which a fixed keyword table may reclassify. Any other
//! character, or an unterminated string literal, aborts the whole scan with
//! a [`ScanError`].
//!
//! Each token records the line it ends on and the position of the first
//! character of its lexeme. The whole scan is specified by the pure model
//! [`scan_spec`], and [`Scanner::scan_tokens`] is proved to return exactly
//! what the model says, error or token sequence alike.

use vstd::prelude::*;
use vstd::string::*;

use crate::double::number_of;
use crate::double::parse_num;

verus! {

/// The discriminant of a token: punctuation, an operator, a keyword, a
/// literal with its payload, an identifier, or the end-of-input marker.
#[derive(Debug, PartialEq, Clone)]
pub enum TokenKind {
    Bang,
    BangEqual,
    Equal,
    EqualEqual,
    Greater,
    GreaterEqual,
    Less,
    LessEqual,
    LeftParen,
    RightParen,
    LeftBrace,
    RightBrace,
    Comma,
    Dot,
    Minus,
    Plus,
    Semicolon,
    Slash,
    Star,
    And,
    Class,
    Else,
    False,
    Fun,
    For,
    If,
    Nil,
    Or,
    Print,
    Return,
    Super,
    This,
    True,
    Var,
    While,
    StringLiteral(String),
    NumberLiteral(u64),
    Identifier(String),
    EOF,
}

/// A scanned token: its kind, the source line it was scanned on, and the
/// position of the first character of its lexeme.
#[derive(Debug, PartialEq, Clone)]
pub struct Token {
    pub kind: TokenKind,
    pub line: usize,
    pub pos: usize,
}

/// A fatal scanner error; the scan stops at the failure point and no token
/// sequence is produced.
#[derive(Debug, PartialEq, Eq, Clone, Copy)]
pub enum ScanError {
    /// End of input was reached inside a string literal.
    UnterminatedString { line: usize },
    /// A character that cannot start any lexeme.
    UnrecognizedCharacter { ch: char, line: usize },
}

impl ScanError {
    /// A human-readable description of the error, with its source line:
    /// exactly the text [`scan_error_message`] gives for it.
    pub fn message(&self) -> (r: String)
        ensures
            r@ == scan_error_message(self@),
    {
        match self {
            ScanError::UnterminatedString { line } => {
                unterminated_message(*line)
            },
            ScanError::UnrecognizedCharacter { ch, line } => {
                unrecognized_message(*ch, *line)
            },
        }
    }
}

/// The mathematical shadow of [`TokenKind`], with literal payloads as
/// sequences of characters.
pub ghost enum TokenKindModel {
    Bang,
    BangEqual,
    Equal,
    EqualEqual,
    Greater,
    GreaterEqual,
    Less,
    LessEqual,
    LeftParen,
    RightParen,
    LeftBrace,
    RightBrace,
    Comma,
    Dot,
    Minus,
    Plus,
    Semicolon,
    Slash,
    Star,
    And,
    Class,
    Else,
    False,
    Fun,
    For,
    If,
    Nil,
    Or,
    Print,
    Return,
    Super,
    This,
    True,
    Var,
    While,
    StringLiteral { text: Seq<char> },
    NumberLiteral { bits: u64 },
    Identifier { text: Seq<char> },
    EOF,
}

/// The mathematical shadow of [`Token`].
pub ghost struct TokenModel {
    pub kind: TokenKindModel,
    pub line: nat,
    pub pos: nat,
}

/// The mathematical shadow of [`ScanError`].
pub ghost enum ScanErrorModel {
    UnterminatedString { line: nat },
    UnrecognizedCharacter { ch: char, line: nat },
}

impl View for TokenKind {
    type V = TokenKindModel;

    open spec fn view(&self) -> TokenKindModel {
        match self {
            TokenKind::Bang => TokenKindModel::Bang,
            TokenKind::BangEqual => TokenKindModel::BangEqual,
            TokenKind::Equal => TokenKindModel::Equal,
            TokenKind::EqualEqual => TokenKindModel::EqualEqual,
            TokenKind::Greater => TokenKindModel::Greater,
            TokenKind::GreaterEqual => TokenKindModel::GreaterEqual,
            TokenKind::Less => TokenKindModel::Less,
            TokenKind::LessEqual => TokenKindModel::LessEqual,
            TokenKind::LeftParen => TokenKindModel::LeftParen,
            TokenKind::RightParen => TokenKindModel::RightParen,
            TokenKind::LeftBrace => TokenKindModel::LeftBrace,
            TokenKind::RightBrace => TokenKindModel::RightBrace,
            TokenKind::Comma => TokenKindModel::Comma,
            TokenKind::Dot => TokenKindModel::Dot,
            TokenKind::Minus => TokenKindModel::Minus,
            TokenKind::Plus => TokenKindModel::Plus,
            TokenKind::Semicolon => TokenKindModel::Semicolon,
            TokenKind::Slash => TokenKindModel::Slash,
            TokenKind::Star => TokenKindModel::Star,
            TokenKind::And => TokenKindModel::And,
            TokenKind::Class => TokenKindModel::Class,
            TokenKind::Else => TokenKindModel::Else,
            TokenKind::False => TokenKindModel::False,
            TokenKind::Fun => TokenKindModel::Fun,
            TokenKind::For => TokenKindModel::For,
            TokenKind::If => TokenKindModel::If,
            TokenKind::Nil => TokenKindModel::Nil,
            TokenKind::Or => TokenKindModel::Or,
            TokenKind::Print => TokenKindModel::Print,
            TokenKind::Return => TokenKindModel::Return,
            TokenKind::Super => TokenKindModel::Super,
            TokenKind::This => TokenKindModel::This,
            TokenKind::True => TokenKindModel::True,
            TokenKind::Var => TokenKindModel::Var,
            TokenKind::While => TokenKindModel::While,
            TokenKind::StringLiteral(s) => TokenKindModel::StringLiteral { text: s@ },
            TokenKind::NumberLiteral(b) => TokenKindModel::NumberLiteral { bits: *b },
            TokenKind::Identifier(s) => TokenKindModel::Identifier { text: s@ },
            TokenKind::EOF => TokenKindModel::EOF,
        }
    }
}

impl View for Token {
    type V = TokenModel;

    open spec fn view(&self) -> TokenModel {
        TokenModel { kind: self.kind@, line: self.line as nat, pos: self.pos as nat }
    }
}

impl View for ScanError {
    type V = ScanErrorModel;

    open spec fn view(&self) -> ScanErrorModel {
        match self {
            ScanError::UnterminatedString { line } => {
                ScanErrorModel::UnterminatedString { line: *line as nat }
            },
            ScanError::UnrecognizedCharacter { ch, line } => {
                ScanErrorModel::UnrecognizedCharacter { ch: *ch, line: *line as nat }
            },
        }
    }
}

/// The models of a sequence of tokens, element by element.
pub open spec fn tokens_view(ts: Seq<Token>) -> Seq<TokenModel> {
    ts.map(|i: int, t: Token| t@)
}

pub proof fn lemma_tokens_view_push(ts: Seq<Token>, t: Token)
    ensures
        tokens_view(ts.push(t)) =~= tokens_view(ts).push(t@),
{
}

// ---------------------------------------------------------------------------
// Character classes
// ---------------------------------------------------------------------------

/// A decimal digit.
pub open spec fn is_lox_digit_spec(c: char) -> bool {
    '0' as u32 <= c as u32 && c as u32 <= '9' as u32
}

/// A letter or an underscore: what can start an identifier.
pub open spec fn is_lox_alphabetic_spec(c: char) -> bool {
    ||| 'a' as u32 <= c as u32 && c as u32 <= 'z' as u32
    ||| 'A' as u32 <= c as u32 && c as u32 <= 'Z' as u32
    ||| c == '_'
}

/// A letter, digit or underscore: what can continue an identifier.
pub open spec fn is_lox_alphanumeric_spec(c: char) -> bool {
    is_lox_alphabetic_spec(c) || is_lox_digit_spec(c)
}

// ---------------------------------------------------------------------------
// Lexeme boundaries in the model
// ---------------------------------------------------------------------------

/// The first position at or after `i` holding a non-digit, or the end.
pub open spec fn digit_run_end(src: Seq<char>, i: nat) -> nat
    decreases src.len() - i,
{
    if i >= src.len() || !is_lox_digit_spec(src[i as int]) {
        i
    } else {
        digit_run_end(src, i + 1)
    }
}

/// The first position at or after `i` holding neither letter, digit nor
/// underscore, or the end.
pub open spec fn ident_run_end(src: Seq<char>, i: nat) -> nat
    decreases src.len() - i,
{
    if i >= src.len() || !is_lox_alphanumeric_spec(src[i as int]) {
        i
    } else {
        ident_run_end(src, i + 1)
    }
}

/// The first position at or after `i` holding a double quote, or the end.
pub open spec fn string_body_end(src: Seq<char>, i: nat) -> nat
    decreases src.len() - i,
{
    if i >= src.len() || src[i as int] == '"' {
        i
    } else {
        string_body_end(src, i + 1)
    }
}

/// The first position at or after `i` holding a newline, or the end.
pub open spec fn comment_end(src: Seq<char>, i: nat) -> nat
    decreases src.len() - i,
{
    if i >= src.len() || src[i as int] == '\n' {
        i
    } else {
        comment_end(src, i + 1)
    }
}

/// How many newlines lie in `src[i..j]`.
pub open spec fn newline_count(src: Seq<char>, i: nat, j: nat) -> nat
    decreases j - i,
{
    if i >= j || i >= src.len() {
        0
    } else {
        (if src[i as int] == '\n' {
            1nat
        } else {
            0nat
        }) + newline_count(src, i + 1, j)
    }
}

/// Where a numeric literal starting at `i` (a digit) ends: a maximal digit
/// run, then at most one `.` followed by at least one digit and another
/// maximal digit run. A trailing dot is not part of the number.
pub open spec fn number_end(src: Seq<char>, i: nat) -> nat {
    let d = digit_run_end(src, i);
    if d < src.len() && src[d as int] == '.' && d + 1 < src.len()
        && is_lox_digit_spec(src[d as int + 1]) {
        digit_run_end(src, d + 1)
    } else {
        d
    }
}

// ---------------------------------------------------------------------------
// The keyword table
// ---------------------------------------------------------------------------

/// Looks an identifier's text up in the fixed keyword table; an exact match
/// is the keyword's kind, anything else an identifier carrying the text.
pub open spec fn keyword_kind(w: Seq<char>) -> TokenKindModel {
    if w == "and"@ {
        TokenKindModel::And
    } else if w == "class"@ {
        TokenKindModel::Class
    } else if w == "else"@ {
        TokenKindModel::Else
    } else if w == "false"@ {
        TokenKindModel::False
    } else if w == "for"@ {
        TokenKindModel::For
    } else if w == "fun"@ {
        TokenKindModel::Fun
    } else if w == "if"@ {
        TokenKindModel::If
    } else if w == "nil"@ {
        TokenKindModel::Nil
    } else if w == "or"@ {
        TokenKindModel::Or
    } else if w == "print"@ {
        TokenKindModel::Print
    } else if w == "return"@ {
        TokenKindModel::Return
    } else if w == "super"@ {
        TokenKindModel::Super
    } else if w == "this"@ {
        TokenKindModel::This
    } else if w == "true"@ {
        TokenKindModel::True
    } else if w == "var"@ {
        TokenKindModel::Var
    } else if w == "while"@ {
        TokenKindModel::While
    } else {
        TokenKindModel::Identifier { text: w }
    }
}

// ---------------------------------------------------------------------------
// One scanning step
// ---------------------------------------------------------------------------

/// What one scanning step does: emit a token and move on, move on without a
/// token, or abort the scan.
pub ghost enum ScanStep {
    Emit { token: TokenModel, next: nat, line: nat },
    Skip { next: nat, line: nat },
    Fail { error: ScanErrorModel },
}

/// A step that emits the single-character token starting at `i`.
pub open spec fn one_char_step(kind: TokenKindModel, i: nat, line: nat) -> ScanStep {
    ScanStep::Emit { token: TokenModel { kind, line, pos: i }, next: i + 1, line }
}

/// Maximal munch for `! = < >`: if the next character is `=`, emit the
/// two-character operator, else the one-character one.
pub open spec fn operator_step(
    src: Seq<char>,
    two: TokenKindModel,
    one: TokenKindModel,
    i: nat,
    line: nat,
) -> ScanStep {
    if i + 1 < src.len() && src[i as int + 1] == '=' {
        ScanStep::Emit { token: TokenModel { kind: two, line, pos: i }, next: i + 2, line }
    } else {
        one_char_step(one, i, line)
    }
}

/// The step taken for a string literal whose opening quote stands at `i`.
pub open spec fn string_step(src: Seq<char>, i: nat, line: nat) -> ScanStep {
    let e = string_body_end(src, i + 1);
    let end_line = line + newline_count(src, i + 1, e);
    if e >= src.len() {
        ScanStep::Fail { error: ScanErrorModel::UnterminatedString { line: end_line } }
    } else {
        ScanStep::Emit {
            token: TokenModel {
                kind: TokenKindModel::StringLiteral { text: src.subrange(i as int + 1, e as int) },
                line: end_line,
                pos: i,
            },
            next: e + 1,
            line: end_line,
        }
    }
}

/// The single step the scanner takes at position `i` of the source, with
/// `line` lines already begun.
pub open spec fn scan_step(src: Seq<char>, i: nat, line: nat) -> ScanStep
    recommends
        i < src.len(),
{
    let c = src[i as int];
    if c == '(' {
        one_char_step(TokenKindModel::LeftParen, i, line)
    } else if c == ')' {
        one_char_step(TokenKindModel::RightParen, i, line)
    } else if c == '{' {
        one_char_step(TokenKindModel::LeftBrace, i, line)
    } else if c == '}' {
        one_char_step(TokenKindModel::RightBrace, i, line)
    } else if c == ',' {
        one_char_step(TokenKindModel::Comma, i, line)
    } else if c == '.' {
        one_char_step(TokenKindModel::Dot, i, line)
    } else if c == '-' {
        one_char_step(TokenKindModel::Minus, i, line)
    } else if c == '+' {
        one_char_step(TokenKindModel::Plus, i, line)
    } else if c == ';' {
        one_char_step(TokenKindModel::Semicolon, i, line)
    } else if c == '*' {
        one_char_step(TokenKindModel::Star, i, line)
    } else if c == ' ' || c == '\r' || c == '\t' {
        ScanStep::Skip { next: i + 1, line }
    } else if c == '\n' {
        ScanStep::Skip { next: i + 1, line: line + 1 }
    } else if c == '!' {
        operator_step(src, TokenKindModel::BangEqual, TokenKindModel::Bang, i, line)
    } else if c == '=' {
        operator_step(src, TokenKindModel::EqualEqual, TokenKindModel::Equal, i, line)
    } else if c == '<' {
        operator_step(src, TokenKindModel::LessEqual, TokenKindModel::Less, i, line)
    } else if c == '>' {
        operator_step(src, TokenKindModel::GreaterEqual, TokenKindModel::Greater, i, line)
    } else if c == '/' {
        if i + 1 < src.len() && src[i as int + 1] == '/' {
            ScanStep::Skip { next: comment_end(src, i + 2), line }
        } else {
            one_char_step(TokenKindModel::Slash, i, line)
        }
    } else if c == '"' {
        string_step(src, i, line)
    } else if is_lox_digit_spec(c) {
        let e = number_end(src, i);
        ScanStep::Emit {
            token: TokenModel {
                kind: TokenKindModel::NumberLiteral {
                    bits: number_of(src.subrange(i as int, e as int)),
                },
                line,
                pos: i,
            },
            next: e,
            line,
        }
    } else if is_lox_alphabetic_spec(c) {
        let e = ident_run_end(src, i);
        ScanStep::Emit {
            token: TokenModel {
                kind: keyword_kind(src.subrange(i as int, e as int)),
                line,
                pos: i,
            },
            next: e,
            line,
        }
    } else {
        ScanStep::Fail { error: ScanErrorModel::UnrecognizedCharacter { ch: c, line } }
    }
}

// ---------------------------------------------------------------------------
// The whole scan
// ---------------------------------------------------------------------------

/// Forces a step's target position into `(i, len]`; every reachable step
/// lands there already, so this only makes the recursion's termination
/// measure plain.
pub open spec fn bump(i: nat, next: nat, len: nat) -> nat {
    if next <= i {
        i + 1
    } else if next > len {
        len
    } else {
        next
    }
}

/// The token sequence (or error) the scanner produces from position `i` on,
/// with `line` lines already begun. The sequence always ends with exactly
/// one EOF token.
pub open spec fn scan_from(src: Seq<char>, i: nat, line: nat) -> Result<
    Seq<TokenModel>,
    ScanErrorModel,
>
    decreases src.len() - i,
{
    if i >= src.len() {
        Ok(
            seq![
                TokenModel { kind: TokenKindModel::EOF, line, pos: src.len() },
            ],
        )
    } else {
        match scan_step(src, i, line) {
            ScanStep::Emit { token, next, line: new_line } => {
                match scan_from(src, bump(i, next, src.len()), new_line) {
                    Ok(rest) => Ok(seq![token] + rest),
                    Err(e) => Err(e),
                }
            },
            ScanStep::Skip { next, line: new_line } => {
                scan_from(src, bump(i, next, src.len()), new_line)
            },
            ScanStep::Fail { error } => Err(error),
        }
    }
}

/// The complete scan of a source text: all tokens from the start, on line 1.
pub open spec fn scan_spec(src: Seq<char>) -> Result<Seq<TokenModel>, ScanErrorModel> {
    scan_from(src, 0, 1)
}

/// A successful scan always produces a sequence ending with exactly one
/// EOF token: the last token is EOF, and no earlier one is.
pub proof fn lemma_scan_ends_with_eof(src: Seq<char>, i: nat, line: nat)
    ensures
        match scan_from(src, i, line) {
            Ok(ts) => ts.len() >= 1 && ts[ts.len() - 1].kind is EOF && forall|k: int|
                0 <= k < ts.len() - 1 ==> !((#[trigger] ts[k]).kind is EOF),
            Err(_) => true,
        },
    decreases src.len() - i,
{
    if i < src.len() {
        match scan_step(src, i, line) {
            ScanStep::Emit { token, next, line: new_line } => {
                let j = bump(i, next, src.len());
                lemma_scan_ends_with_eof(src, j, new_line);
                assert(!(token.kind is EOF));
                match scan_from(src, j, new_line) {
                    Ok(rest) => {
                        let ts = seq![token] + rest;
                        assert(ts[ts.len() - 1] == rest[rest.len() - 1]);
                        assert forall|k: int| 0 <= k < ts.len() - 1 implies !((#[trigger] ts[k]).kind
                            is EOF) by {
                            if k > 0 {
                                assert(ts[k] == rest[k - 1]);
                            }
                        }
                    },
                    Err(_) => {},
                }
            },
            ScanStep::Skip { next, line: new_line } => {
                lemma_scan_ends_with_eof(src, bump(i, next, src.len()), new_line);
            },
            ScanStep::Fail { .. } => {},
        }
    }
}

proof fn lemma_string_body_end_no_quote(src: Seq<char>, j: nat)
    requires
        j <= src.len(),
        forall|k: int| j <= k < src.len() ==> (#[trigger] src[k]) != '"',
    ensures
        string_body_end(src, j) == src.len(),
    decreases src.len() - j,
{
    if j < src.len() {
        lemma_string_body_end_no_quote(src, j + 1);
    }
}

/// An unterminated string literal always aborts the scan: from any position
/// holding an opening quote with no closing quote anywhere after it, the
/// scan yields an unterminated-string error, never a token sequence.
pub proof fn lemma_unterminated_string(src: Seq<char>, i: nat, line: nat)
    requires
        i < src.len(),
        src[i as int] == '"',
        forall|j: int| i < j < src.len() ==> (#[trigger] src[j]) != '"',
    ensures
        scan_from(src, i, line) == Err::<Seq<TokenModel>, ScanErrorModel>(
            ScanErrorModel::UnterminatedString {
                line: line + newline_count(src, i + 1, src.len()),
            },
        ),
{
    lemma_string_body_end_no_quote(src, i + 1);
}

pub proof fn lemma_newline_count_extend(src: Seq<char>, i: nat, j: nat)
    requires
        i <= j,
        j < src.len(),
    ensures
        newline_count(src, i, j + 1) == newline_count(src, i, j) + (if src[j as int] == '\n' {
            1nat
        } else {
            0nat
        }),
    decreases j - i,
{
    reveal_with_fuel(newline_count, 3);
    if i < j {
        lemma_newline_count_extend(src, i + 1, j);
    }
}

// ---------------------------------------------------------------------------
// The scanner itself
// ---------------------------------------------------------------------------

/// The scanner: the source text, the tokens emitted so far, the cursor and
/// the line counter.
pub struct Scanner {
    source: String,
    tokens: Vec<Token>,
    current: usize,
    line: usize,
}

impl Scanner {
    /// The source text being scanned, as a sequence of code points.
    pub closed spec fn src(&self) -> Seq<char> {
        self.source@
    }

    /// The models of the tokens emitted so far.
    pub closed spec fn toks(&self) -> Seq<TokenModel> {
        tokens_view(self.tokens@)
    }

    /// The cursor: how many code points have been consumed.
    pub closed spec fn cursor(&self) -> nat {
        self.current as nat
    }

    /// The line counter.
    pub closed spec fn cur_line(&self) -> nat {
        self.line as nat
    }

    /// The source is short enough for every counter to stay in machine range.
    pub open spec fn src_fits(&self) -> bool {
        self.src().len() < usize::MAX
    }

    /// The scanner's internal sanity: the cursor is inside the source and
    /// the line counter began at one and grew at most once per character.
    pub closed spec fn wf(&self) -> bool {
        &&& self.cursor() <= self.src().len()
        &&& self.src_fits()
        &&& 1 <= self.line
        &&& self.cur_line() <= self.cursor() + 1
    }

    /// A fresh scanner over the given source, at the start, on line one,
    /// with no tokens yet.
    pub fn new(source: String) -> (s: Scanner)
        requires
            source@.len() < usize::MAX,
        ensures
            s.src() == source@,
            s.src_fits(),
            s.wf(),
            s.toks() =~= Seq::<TokenModel>::empty(),
            s.cursor() == 0,
            s.cur_line() == 1,
    {
        let s = Scanner { source, tokens: Vec::new(), current: 0, line: 1 };
        proof {
            assert(tokens_view(s.tokens@) =~= Seq::<TokenModel>::empty());
        }
        s
    }

    /// Whether the whole source has been consumed.
    fn is_at_end(&self) -> (r: bool)
        ensures
            r == (self.cursor() >= self.src().len()),
    {
        self.current >= self.source.as_str().unicode_len()
    }

    /// The character under the cursor, or a NUL sentinel at the end.
    fn peek(&self) -> (c: char)
        requires
            self.wf(),
        ensures
            c == (if self.cursor() < self.src().len() {
                self.src()[self.cursor() as int]
            } else {
                '\0'
            }),
    {
        if self.is_at_end() {
            '\0'
        } else {
            self.source.as_str().get_char(self.current)
        }
    }

    /// The character one past the cursor, or a NUL sentinel at the end.
    fn peek_next(&self) -> (c: char)
        requires
            self.wf(),
        ensures
            c == (if self.cursor() + 1 < self.src().len() {
                self.src()[self.cursor() as int + 1]
            } else {
                '\0'
            }),
    {
        if self.current + 1 >= self.source.as_str().unicode_len() {
            '\0'
        } else {
            self.source.as_str().get_char(self.current + 1)
        }
    }

    /// Consumes and returns the character under the cursor.
    fn advance(&mut self) -> (c: char)
        requires
            old(self).wf(),
            old(self).cursor() < old(self).src().len(),
        ensures
            final(self).src() == old(self).src(),
            final(self).toks() == old(self).toks(),
            final(self).cursor() == old(self).cursor() + 1,
            final(self).cur_line() == old(self).cur_line(),
            final(self).wf(),
            c == old(self).src()[old(self).cursor() as int],
    {
        let c = self.source.as_str().get_char(self.current);
        self.current = self.current + 1;
        c
    }

    /// Consumes the character under the cursor if it is exactly `c`.
    fn match_char(&mut self, c: char) -> (r: bool)
        requires
            old(self).wf(),
        ensures
            final(self).src() == old(self).src(),
            final(self).toks() == old(self).toks(),
            final(self).cur_line() == old(self).cur_line(),
            final(self).wf(),
            r == (old(self).cursor() < old(self).src().len() && old(self).src()[old(
                self,
            ).cursor() as int] == c),
            final(self).cursor() == if r {
                old(self).cursor() + 1
            } else {
                old(self).cursor()
            },
    {
        if self.is_at_end() {
            return false;
        }
        if self.source.as_str().get_char(self.current) != c {
            return false;
        }
        self.current = self.current + 1;
        true
    }

    /// Appends a token to the output.
    fn add_token(&mut self, t: Token)
        ensures
            final(self).src() == old(self).src(),
            final(self).cursor() == old(self).cursor(),
            final(self).cur_line() == old(self).cur_line(),
            final(self).wf() == old(self).wf(),
            final(self).toks() == old(self).toks().push(t@),
    {
        proof {
            lemma_tokens_view_push(self.tokens@, t);
        }
        self.tokens.push(t);
    }

    /// A decimal digit.
    fn is_lox_digit(c: char) -> (r: bool)
        ensures
            r == is_lox_digit_spec(c),
    {
        let u = c as u32;
        ('0' as u32) <= u && u <= ('9' as u32)
    }

    /// A letter or an underscore.
    fn is_lox_alphabetic(c: char) -> (r: bool)
        ensures
            r == is_lox_alphabetic_spec(c),
    {
        let u = c as u32;
        (('a' as u32) <= u && u <= ('z' as u32)) || (('A' as u32) <= u && u <= ('Z' as u32)) || c
            == '_'
    }

    /// A letter, digit or underscore.
    fn is_lox_alphanumeric(c: char) -> (r: bool)
        ensures
            r == is_lox_alphanumeric_spec(c),
    {
        Scanner::is_lox_alphabetic(c) || Scanner::is_lox_digit(c)
    }

    /// Scans the rest of a string literal whose opening quote stood at
    /// `start`; the cursor is just past the quote.
    fn string(&mut self, start: usize) -> (r: Result<(), ScanError>)
        requires
            old(self).wf(),
            old(self).cursor() == start + 1,
            start < old(self).src().len(),
            old(self).src()[start as int] == '"',
        ensures
            final(self).src() == old(self).src(),
            final(self).wf(),
            ({
                let src = old(self).src();
                let i = start as nat;
                match string_step(src, i, old(self).cur_line()) {
                    ScanStep::Emit { token, next, line } => {
                        &&& r is Ok
                        &&& final(self).toks() == old(self).toks().push(token)
                        &&& final(self).cursor() == next
                        &&& final(self).cur_line() == line
                        &&& i < next <= src.len()
                    },
                    ScanStep::Fail { error } => {
                        &&& r matches Err(e) && e@ == error
                    },
                    ScanStep::Skip { .. } => false,
                }
            }),
    {
        let ghost src = self.src();
        let ghost toks0 = self.toks();
        let ghost line0 = self.cur_line();
        loop
            invariant
                self.wf(),
                self.src() == src,
                self.toks() == toks0,
                start + 1 <= self.cursor() <= src.len(),
                string_body_end(src, self.cursor()) == string_body_end(src, start as nat + 1),
                self.cur_line() == line0 + newline_count(src, start as nat + 1, self.cursor()),
            ensures
                self.wf(),
                self.src() == src,
                self.toks() == toks0,
                start + 1 <= self.cursor() <= src.len(),
                self.cursor() == string_body_end(src, start as nat + 1),
                self.cur_line() == line0 + newline_count(src, start as nat + 1, self.cursor()),
            decreases src.len() - self.cursor(),
        {
            if self.is_at_end() {
                break ;
            }
            if self.peek() == '"' {
                break ;
            }
            proof {
                lemma_newline_count_extend(src, start as nat + 1, self.cursor());
            }
            let c = self.advance();
            if c == '\n' {
                self.line = self.line + 1;
            }
        }
        if self.is_at_end() {
            return Err(ScanError::UnterminatedString { line: self.line });
        }
        let end = self.current;
        let text = self.source.as_str().substring_char(start + 1, end).to_owned();
        let _ = self.advance();
        let t = Token { kind: TokenKind::StringLiteral(text), line: self.line, pos: start };
        self.add_token(t);
        Ok(())
    }

    /// Scans the rest of a numeric literal whose first digit stood at
    /// `start`; the cursor is just past that digit.
    fn number(&mut self, start: usize)
        requires
            old(self).wf(),
            old(self).cursor() == start + 1,
            start < old(self).src().len(),
            is_lox_digit_spec(old(self).src()[start as int]),
        ensures
            final(self).src() == old(self).src(),
            final(self).wf(),
            ({
                let src = old(self).src();
                let i = start as nat;
                let e = number_end(src, i);
                &&& final(self).toks() == old(self).toks().push(
                    TokenModel {
                        kind: TokenKindModel::NumberLiteral {
                            bits: number_of(src.subrange(i as int, e as int)),
                        },
                        line: old(self).cur_line(),
                        pos: i,
                    },
                )
                &&& final(self).cursor() == e
                &&& final(self).cur_line() == old(self).cur_line()
                &&& i < e <= src.len()
            }),
    {
        let ghost src = self.src();
        let ghost toks0 = self.toks();
        let ghost line0 = self.cur_line();
        loop
            invariant
                self.wf(),
                self.src() == src,
                self.toks() == toks0,
                self.cur_line() == line0,
                start + 1 <= self.cursor() <= src.len(),
                digit_run_end(src, self.cursor()) == digit_run_end(src, start as nat),
            ensures
                self.wf(),
                self.src() == src,
                self.toks() == toks0,
                self.cur_line() == line0,
                start + 1 <= self.cursor() <= src.len(),
                self.cursor() == digit_run_end(src, start as nat),
            decreases src.len() - self.cursor(),
        {
            if !Scanner::is_lox_digit(self.peek()) {
                break ;
            }
            let _ = self.advance();
        }
        let d = self.current;
        if self.peek() == '.' && Scanner::is_lox_digit(self.peek_next()) {
            let _ = self.advance();
            loop
                invariant
                    self.wf(),
                    self.src() == src,
                    self.toks() == toks0,
                    self.cur_line() == line0,
                    d + 1 <= self.cursor() <= src.len(),
                    digit_run_end(src, self.cursor()) == digit_run_end(src, d as nat + 1),
                ensures
                    self.wf(),
                    self.src() == src,
                    self.toks() == toks0,
                    self.cur_line() == line0,
                    d + 1 <= self.cursor() <= src.len(),
                    self.cursor() == digit_run_end(src, d as nat + 1),
                decreases src.len() - self.cursor(),
            {
                if !Scanner::is_lox_digit(self.peek()) {
                    break ;
                }
                let _ = self.advance();
            }
        }
        let end = self.current;
        let lex = self.source.as_str().substring_char(start, end);
        let bits = parse_num(lex);
        let t = Token { kind: TokenKind::NumberLiteral(bits), line: self.line, pos: start };
        self.add_token(t);
    }

    /// Scans the rest of an identifier or keyword whose first character
    /// stood at `start`; the cursor is just past that character.
    fn identifier(&mut self, start: usize)
        requires
            old(self).wf(),
            old(self).cursor() == start + 1,
            start < old(self).src().len(),
            is_lox_alphabetic_spec(old(self).src()[start as int]),
        ensures
            final(self).src() == old(self).src(),
            final(self).wf(),
            ({
                let src = old(self).src();
                let i = start as nat;
                let e = ident_run_end(src, i);
                &&& final(self).toks() == old(self).toks().push(
                    TokenModel {
                        kind: keyword_kind(src.subrange(i as int, e as int)),
                        line: old(self).cur_line(),
                        pos: i,
                    },
                )
                &&& final(self).cursor() == e
                &&& final(self).cur_line() == old(self).cur_line()
                &&& i < e <= src.len()
            }),
    {
        let ghost src = self.src();
        let ghost toks0 = self.toks();
        let ghost line0 = self.cur_line();
        loop
            invariant
                self.wf(),
                self.src() == src,
                self.toks() == toks0,
                self.cur_line() == line0,
                start + 1 <= self.cursor() <= src.len(),
                ident_run_end(src, self.cursor()) == ident_run_end(src, start as nat),
            ensures
                self.wf(),
                self.src() == src,
                self.toks() == toks0,
                self.cur_line() == line0,
                start + 1 <= self.cursor() <= src.len(),
                self.cursor() == ident_run_end(src, start as nat),
            decreases src.len() - self.cursor(),
        {
            if !Scanner::is_lox_alphanumeric(self.peek()) {
                break ;
            }
            let _ = self.advance();
        }
        let end = self.current;
        let lex = self.source.as_str().substring_char(start, end);
        let kind = if word_is(lex, "and") {
            TokenKind::And
        } else if word_is(lex, "class") {
            TokenKind::Class
        } else if word_is(lex, "else") {
            TokenKind::Else
        } else if word_is(lex, "false") {
            TokenKind::False
        } else if word_is(lex, "for") {
            TokenKind::For
        } else if word_is(lex, "fun") {
            TokenKind::Fun
        } else if word_is(lex, "if") {
            TokenKind::If
        } else if word_is(lex, "nil") {
            TokenKind::Nil
        } else if word_is(lex, "or") {
            TokenKind::Or
        } else if word_is(lex, "print") {
            TokenKind::Print
        } else if word_is(lex, "return") {
            TokenKind::Return
        } else if word_is(lex, "super") {
            TokenKind::Super
        } else if word_is(lex, "this") {
            TokenKind::This
        } else if word_is(lex, "true") {
            TokenKind::True
        } else if word_is(lex, "var") {
            TokenKind::Var
        } else if word_is(lex, "while") {
            TokenKind::While
        } else {
            TokenKind::Identifier(lex.to_owned())
        };
        let t = Token { kind, line: self.line, pos: start };
        self.add_token(t);
    }

    /// Scans one lexeme at the cursor: emits at most one token, or fails.
    fn scan_token(&mut self) -> (r: Result<(), ScanError>)
        requires
            old(self).wf(),
            old(self).cursor() < old(self).src().len(),
        ensures
            final(self).src() == old(self).src(),
            final(self).wf(),
            ({
                let src = old(self).src();
                let i = old(self).cursor();
                match scan_step(src, i, old(self).cur_line()) {
                    ScanStep::Emit { token, next, line } => {
                        &&& r is Ok
                        &&& final(self).toks() == old(self).toks().push(token)
                        &&& final(self).cursor() == next
                        &&& final(self).cur_line() == line
                        &&& i < next <= src.len()
                    },
                    ScanStep::Skip { next, line } => {
                        &&& r is Ok
                        &&& final(self).toks() == old(self).toks()
                        &&& final(self).cursor() == next
                        &&& final(self).cur_line() == line
                        &&& i < next <= src.len()
                    },
                    ScanStep::Fail { error } => {
                        &&& r matches Err(e) && e@ == error
                    },
                }
            }),
    {
        let ghost src = self.src();
        let start = self.current;
        let c = self.advance();
        if c == '(' {
            self.add_token(Token { kind: TokenKind::LeftParen, line: self.line, pos: start });
            Ok(())
        } else if c == ')' {
            self.add_token(Token { kind: TokenKind::RightParen, line: self.line, pos: start });
            Ok(())
        } else if c == '{' {
            self.add_token(Token { kind: TokenKind::LeftBrace, line: self.line, pos: start });
            Ok(())
        } else if c == '}' {
            self.add_token(Token { kind: TokenKind::RightBrace, line: self.line, pos: start });
            Ok(())
        } else if c == ',' {
            self.add_token(Token { kind: TokenKind::Comma, line: self.line, pos: start });
            Ok(())
        } else if c == '.' {
            self.add_token(Token { kind: TokenKind::Dot, line: self.line, pos: start });
            Ok(())
        } else if c == '-' {
            self.add_token(Token { kind: TokenKind::Minus, line: self.line, pos: start });
            Ok(())
        } else if c == '+' {
            self.add_token(Token { kind: TokenKind::Plus, line: self.line, pos: start });
            Ok(())
        } else if c == ';' {
            self.add_token(Token { kind: TokenKind::Semicolon, line: self.line, pos: start });
            Ok(())
        } else if c == '*' {
            self.add_token(Token { kind: TokenKind::Star, line: self.line, pos: start });
            Ok(())
        } else if c == ' ' || c == '\r' || c == '\t' {
            Ok(())
        } else if c == '\n' {
            self.line = self.line + 1;
            Ok(())
        } else if c == '!' {
            if self.match_char('=') {
                self.add_token(Token { kind: TokenKind::BangEqual, line: self.line, pos: start });
            } else {
                self.add_token(Token { kind: TokenKind::Bang, line: self.line, pos: start });
            }
            Ok(())
        } else if c == '=' {
            if self.match_char('=') {
                self.add_token(Token { kind: TokenKind::EqualEqual, line: self.line, pos: start });
            } else {
                self.add_token(Token { kind: TokenKind::Equal, line: self.line, pos: start });
            }
            Ok(())
        } else if c == '<' {
            if self.match_char('=') {
                self.add_token(Token { kind: TokenKind::LessEqual, line: self.line, pos: start });
            } else {
                self.add_token(Token { kind: TokenKind::Less, line: self.line, pos: start });
            }
            Ok(())
        } else if c == '>' {
            if self.match_char('=') {
                self.add_token(
                    Token { kind: TokenKind::GreaterEqual, line: self.line, pos: start },
                );
            } else {
                self.add_token(Token { kind: TokenKind::Greater, line: self.line, pos: start });
            }
            Ok(())
        } else if c == '/' {
            if self.match_char('/') {
                let ghost toks0 = self.toks();
                let ghost line0 = self.cur_line();
                loop
                    invariant
                        self.wf(),
                        self.src() == src,
                        self.toks() == toks0,
                        self.cur_line() == line0,
                        start + 2 <= self.cursor() <= src.len(),
                        comment_end(src, self.cursor()) == comment_end(src, start as nat + 2),
                    ensures
                        self.wf(),
                        self.src() == src,
                        self.toks() == toks0,
                        self.cur_line() == line0,
                        start + 2 <= self.cursor() <= src.len(),
                        self.cursor() == comment_end(src, start as nat + 2),
                    decreases src.len() - self.cursor(),
                {
                    if self.is_at_end() {
                        break ;
                    }
                    if self.peek() == '\n' {
                        break ;
                    }
                    let _ = self.advance();
                }
            } else {
                self.add_token(Token { kind: TokenKind::Slash, line: self.line, pos: start });
            }
            Ok(())
        } else if c == '"' {
            self.string(start)
        } else if Scanner::is_lox_digit(c) {
            self.number(start);
            Ok(())
        } else if Scanner::is_lox_alphabetic(c) {
            self.identifier(start);
            Ok(())
        } else {
            Err(ScanError::UnrecognizedCharacter { ch: c, line: self.line })
        }
    }

    /// Scans the whole source from the beginning and returns the complete
    /// EOF-terminated token sequence, or the error that stopped the scan:
    /// exactly what the model [`scan_spec`] says for this source.
    pub fn scan_tokens(&mut self) -> (r: Result<Vec<Token>, ScanError>)
        requires
            old(self).src_fits(),
        ensures
            final(self).src() == old(self).src(),
            final(self).src_fits(),
            match r {
                Ok(ts) => scan_spec(old(self).src()) == Ok::<Seq<TokenModel>, ScanErrorModel>(
                    tokens_view(ts@),
                ),
                Err(e) => scan_spec(old(self).src()) == Err::<Seq<TokenModel>, ScanErrorModel>(e@),
            },
    {
        self.tokens = Vec::new();
        self.current = 0;
        self.line = 1;
        let ghost src = self.src();
        proof {
            assert(tokens_view(self.tokens@) =~= Seq::<TokenModel>::empty());
            if let Ok(rest) = scan_from(src, 0, 1) {
                assert(Seq::<TokenModel>::empty() + rest =~= rest);
            }
        }
        loop
            invariant
                self.wf(),
                self.src() == src,
                src == old(self).src(),
                match scan_from(src, self.cursor(), self.cur_line()) {
                    Ok(rest) => scan_from(src, 0, 1) == Ok::<Seq<TokenModel>, ScanErrorModel>(
                        self.toks() + rest,
                    ),
                    Err(e) => scan_from(src, 0, 1) == Err::<Seq<TokenModel>, ScanErrorModel>(e),
                },
            ensures
                self.wf(),
                self.src() == src,
                self.cursor() == src.len(),
                match scan_from(src, self.cursor(), self.cur_line()) {
                    Ok(rest) => scan_from(src, 0, 1) == Ok::<Seq<TokenModel>, ScanErrorModel>(
                        self.toks() + rest,
                    ),
                    Err(e) => scan_from(src, 0, 1) == Err::<Seq<TokenModel>, ScanErrorModel>(e),
                },
            decreases src.len() - self.cursor(),
        {
            if self.is_at_end() {
                break ;
            }
            let ghost pre = *self;
            let res = self.scan_token();
            match res {
                Ok(()) => {
                    proof {
                        match scan_step(src, pre.cursor(), pre.cur_line()) {
                            ScanStep::Emit { token, next, line } => {
                                assert(bump(pre.cursor(), next, src.len()) == next);
                                match scan_from(src, next, line) {
                                    Ok(rest2) => {
                                        assert(pre.toks() + (seq![token] + rest2) =~= pre.toks()
                                            .push(token) + rest2);
                                    },
                                    Err(_) => {},
                                }
                            },
                            ScanStep::Skip { next, line } => {
                                assert(bump(pre.cursor(), next, src.len()) == next);
                            },
                            ScanStep::Fail { .. } => {
                                assert(false);
                            },
                        }
                    }
                },
                Err(e) => {
                    proof {
                        match scan_step(src, pre.cursor(), pre.cur_line()) {
                            ScanStep::Fail { error } => {
                                assert(scan_from(src, pre.cursor(), pre.cur_line())
                                    == Err::<Seq<TokenModel>, ScanErrorModel>(error));
                            },
                            _ => {
                                assert(false);
                            },
                        }
                    }
                    return Err(e);
                },
            }
        }
        let ghost toks0 = self.toks();
        let eof = Token { kind: TokenKind::EOF, line: self.line, pos: self.current };
        self.add_token(eof);
        proof {
            assert(toks0 + seq![eof@] =~= toks0.push(eof@));
        }
        let mut out: Vec<Token> = Vec::new();
        core::mem::swap(&mut out, &mut self.tokens);
        Ok(out)
    }
}

/// Whether two string slices hold exactly the same characters.
fn word_is(s: &str, w: &str) -> (r: bool)
    ensures
        r == (s@ == w@),
{
    let n = s.unicode_len();
    if n != w.unicode_len() {
        return false;
    }
    let mut k: usize = 0;
    while k < n
        invariant
            n as nat == s@.len(),
            n as nat == w@.len(),
            k <= n,
            forall|j: int| 0 <= j < k ==> s@[j] == w@[j],
        decreases n - k,
    {
        if s.get_char(k) != w.get_char(k) {
            return false;
        }
        k = k + 1;
    }
    proof {
        assert(s@ =~= w@);
    }
    true
}

} // verus!

verus! {

/// The character for one decimal digit.
pub open spec fn digit_char_spec(d: nat) -> char {
    if d == 0 {
        '0'
    } else if d == 1 {
        '1'
    } else if d == 2 {
        '2'
    } else if d == 3 {
        '3'
    } else if d == 4 {
        '4'
    } else if d == 5 {
        '5'
    } else if d == 6 {
        '6'
    } else if d == 7 {
        '7'
    } else if d == 8 {
        '8'
    } else {
        '9'
    }
}

/// The decimal text of a number: most significant digit first, no sign, no
/// leading zeroes but for the number zero itself.
pub open spec fn decimal_digits(n: nat) -> Seq<char>
    decreases n,
{
    if n < 10 {
        seq![digit_char_spec(n)]
    } else {
        decimal_digits(n / 10).push(digit_char_spec(n % 10))
    }
}

/// The text of a scanner error message: what went wrong, the character
/// where that names one, and the source line.
pub open spec fn scan_error_message(e: ScanErrorModel) -> Seq<char> {
    match e {
        ScanErrorModel::UnterminatedString { line } => "unterminated string literal on line "@
            + decimal_digits(line),
        ScanErrorModel::UnrecognizedCharacter { ch, line } => "unrecognized character '"@
            + seq![ch] + "' on line "@ + decimal_digits(line),
    }
}

/// Relies on `String::push`: appends the one character to the end of the
/// string.
#[verifier::external_body]
fn push_char(s: &mut String, c: char)
    ensures
        final(s)@ == old(s)@.push(c),
{
    s.push(c)
}

/// Renders the unterminated-string message.
fn unterminated_message(line: usize) -> (r: String)
    ensures
        r@ == scan_error_message(ScanErrorModel::UnterminatedString { line: line as nat }),
{
    let mut m = String::from_str("unterminated string literal on line ");
    m.append(decimal_text(line).as_str());
    m
}

/// Renders the unrecognized-character message.
fn unrecognized_message(ch: char, line: usize) -> (r: String)
    ensures
        r@ == scan_error_message(
            ScanErrorModel::UnrecognizedCharacter { ch, line: line as nat },
        ),
{
    let mut m = String::from_str("unrecognized character '");
    push_char(&mut m, ch);
    proof {
        assert(m@ =~= "unrecognized character '"@ + seq![ch]);
    }
    m.append("' on line ");
    m.append(decimal_text(line).as_str());
    m
}

/// The decimal text of a machine integer.
pub(crate) fn decimal_text(n: usize) -> (r: String)
    ensures
        r@ == decimal_digits(n as nat),
    decreases n,
{
    if n < 10 {
        let mut m = String::new();
        push_char(&mut m, digit_char(n));
        proof {
            assert(m@ =~= seq![digit_char_spec(n as nat)]);
        }
        m
    } else {
        let mut m = decimal_text(n / 10);
        push_char(&mut m, digit_char(n % 10));
        m
    }
}

/// The digit character for a value below ten.
fn digit_char(d: usize) -> (c: char)
    requires
        d < 10,
    ensures
        c == digit_char_spec(d as nat),
{
    if d == 0 {
        '0'
    } else if d == 1 {
        '1'
    } else if d == 2 {
        '2'
    } else if d == 3 {
        '3'
    } else if d == 4 {
        '4'
    } else if d == 5 {
        '5'
    } else if d == 6 {
        '6'
    } else if d == 7 {
        '7'
    } else if d == 8 {
        '8'
    } else {
        '9'
    }
}

} // verus!
