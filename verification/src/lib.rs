//! A small language front end: a lexical scanner, a recursive-descent parser
//! and a tree-walking evaluator.
//!
//! The pipeline is strictly sequential: the scanner turns source text into an
//! EOF-terminated token sequence, the parser turns tokens into statement and
//! expression trees, and the evaluator walks an expression tree to a runtime
//! value. Each stage is specified against a pure model of its input and
//! output, and every error is reported as a typed result rather than a panic.
//!
//! Numbers are IEEE-754 binary64 values, carried everywhere as their 64-bit
//! encodings; the `double` module delegates the arithmetic itself to a
//! software floating-point implementation.

pub mod double;
pub mod interpreter;
pub mod parser;
pub mod scanner;

use vstd::prelude::*;
use vstd::string::*;

use crate::interpreter::interpret_spec;
use crate::interpreter::Interpreter;
use crate::interpreter::RuntimeTypeError;
use crate::parser::has_eof_from;
use crate::parser::parse_program;
use crate::parser::stmts_view;
use crate::parser::ParseError;
use crate::parser::ParseErrorModel;
use crate::parser::Parsed;
use crate::parser::Parser;
use crate::parser::Stmt;
use crate::parser::StmtModel;
use crate::scanner::lemma_scan_ends_with_eof;
use crate::scanner::TokenModel;
use crate::scanner::scan_spec;
use crate::scanner::tokens_view;
use crate::scanner::ScanError;
use crate::scanner::ScanErrorModel;
use crate::scanner::Scanner;

verus! {

/// The error that stopped a whole run, from whichever stage raised it;
/// a program that declares a variable is reported as unsupported, since no
/// binding store exists yet.
#[derive(Debug, PartialEq, Clone)]
pub enum RunError {
    Scan(ScanError),
    Parse(ParseError),
    UnsupportedStatement,
    Runtime(RuntimeTypeError),
}

/// The mathematical shadow of [`RunError`].
pub ghost enum RunErrorModel {
    Scan { error: ScanErrorModel },
    Parse { error: ParseErrorModel },
    UnsupportedStatement,
    Runtime { error: RuntimeTypeError },
}

impl View for RunError {
    type V = RunErrorModel;

    open spec fn view(&self) -> RunErrorModel {
        match self {
            RunError::Scan(e) => RunErrorModel::Scan { error: e@ },
            RunError::Parse(e) => RunErrorModel::Parse { error: e@ },
            RunError::UnsupportedStatement => RunErrorModel::UnsupportedStatement,
            RunError::Runtime(e) => RunErrorModel::Runtime { error: *e },
        }
    }
}

/// The text of a run error message, from whichever stage raised it.
pub open spec fn run_error_message(e: RunErrorModel) -> Seq<char> {
    match e {
        RunErrorModel::Scan { error } => crate::scanner::scan_error_message(error),
        RunErrorModel::Parse { error } => crate::parser::parse_error_message(error),
        RunErrorModel::UnsupportedStatement => "variable declarations are not supported yet"@,
        RunErrorModel::Runtime { error } => crate::interpreter::runtime_error_message(error),
    }
}

impl RunError {
    /// A human-readable description of the error: exactly the text
    /// [`run_error_message`] gives for it.
    pub fn message(&self) -> (r: String)
        ensures
            r@ == run_error_message(self@),
    {
        match self {
            RunError::Scan(e) => e.message(),
            RunError::Parse(e) => e.message(),
            RunError::UnsupportedStatement => String::from_str(
                "variable declarations are not supported yet",
            ),
            RunError::Runtime(e) => e.message(),
        }
    }
}

/// Whether any statement of a program is a variable declaration.
pub open spec fn has_var_statement(ss: Seq<StmtModel>) -> bool {
    exists|k: int| 0 <= k < ss.len() && (#[trigger] ss[k]) is Var
}

/// The whole pipeline on one source text: scan, parse, evaluate, and the
/// lines the print statements render, the first error of any stage
/// stopping everything.
pub open spec fn run_spec(src: Seq<char>) -> Result<Seq<Seq<char>>, RunErrorModel> {
    match scan_spec(src) {
        Ok(ts) => match parse_program(ts, 0) {
            Parsed::Accept { v: ss, next } => if has_var_statement(ss) {
                Err(RunErrorModel::UnsupportedStatement)
            } else {
                match interpret_spec(ss) {
                    Ok(lines) => Ok(lines),
                    Err(e) => Err(RunErrorModel::Runtime { error: e }),
                }
            },
            Parsed::Reject { error } => Err(RunErrorModel::Parse { error }),
        },
        Err(e) => Err(RunErrorModel::Scan { error: e }),
    }
}

/// Runs a complete program source through all three stages and returns the
/// lines its print statements produced, or the error that stopped the run:
/// exactly what the pure model [`run_spec`] says of the text.
#[verifier::rlimit(100)]
#[verifier::spinoff_prover]
pub fn run(source: String) -> (r: Result<Vec<String>, RunError>)
    requires
        source@.len() < usize::MAX,
    ensures
        match r {
            Ok(lines) => run_spec(source@) == Ok::<Seq<Seq<char>>, RunErrorModel>(
                lines.deep_view(),
            ),
            Err(e) => run_spec(source@) == Err::<Seq<Seq<char>>, RunErrorModel>(e@),
        },
{
    let ghost src = source@;
    let mut scanner = Scanner::new(source);
    let tokens = match scanner.scan_tokens() {
        Ok(t) => t,
        Err(e) => {
            return Err(RunError::Scan(e));
        },
    };
    let ghost tsv = tokens_view(tokens@);
    proof {
        lemma_scan_ends_with_eof(src, 0, 1);
        assert(tsv.len() >= 1 && tsv[tsv.len() - 1].kind is EOF);
        assert(has_eof_from(tsv, 0));
    }
    let mut parser = Parser::new(tokens);
    let statements = match parser.parse() {
        Ok(s) => s,
        Err(e) => {
            return Err(RunError::Parse(e));
        },
    };
    let ghost ss = stmts_view(statements@);
    let ghost parse_end = parser.pos();
    let n = statements.len();
    let mut k: usize = 0;
    while k < n
        invariant
            n == statements@.len(),
            k <= n,
            ss == stmts_view(statements@),
            src == source@,
            scan_spec(src) == Ok::<Seq<TokenModel>, ScanErrorModel>(tsv),
            parse_program(tsv, 0) == (Parsed::Accept::<Seq<StmtModel>> { v: ss, next: parse_end }),
            forall|j: int| 0 <= j < k ==> !((#[trigger] statements@[j])@ is Var),
        decreases n - k,
    {
        let is_var = matches!(&statements[k], Stmt::Var { .. });
        if is_var {
            proof {
                assert(ss[k as int] == statements@[k as int]@);
                assert(has_var_statement(ss));
            }
            return Err(RunError::UnsupportedStatement);
        }
        k = k + 1;
    }
    proof {
        assert(!has_var_statement(ss)) by {
            if has_var_statement(ss) {
                let j = choose|j: int| 0 <= j < ss.len() && (#[trigger] ss[j]) is Var;
                assert(ss[j] == statements@[j]@);
            }
        }
    }
    match Interpreter::interpret(statements) {
        Ok(lines) => Ok(lines),
        Err(e) => Err(RunError::Runtime(e)),
    }
}

} // verus!

