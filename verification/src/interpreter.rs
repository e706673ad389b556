//! The evaluator: a tree-walking interpreter over expression trees, and the
//! statement driver built on it.
//!
//! Evaluation is post-order and pure: a literal becomes the matching
//! [`Value`] variant; a grouping is an identity transform; unary negation
//! demands a number; logical not applies the truthiness rule (only nil and
//! false are falsy); the arithmetic operators demand numbers, except `+`,
//! which also concatenates two strings; the relational operators demand
//! numbers; equality is structural over the whole value space and never
//! fails. An operator applied to operand types outside its semantics stops
//! evaluation with a [`RuntimeTypeError`].
//!
//! Statement execution drives evaluation: an expression statement discards
//! its value, and a print statement renders it to one line of text, which
//! the caller writes out. The whole evaluator is specified by the pure
//! model [`eval_spec`] and its companions, and the executable functions are
//! proved to return exactly what the models say; running them twice on the
//! same tree therefore returns the same value.

use vstd::prelude::*;
use vstd::string::*;

use crate::double::add_bits;
use crate::double::add_num;
use crate::double::div_bits;
use crate::double::div_num;
use crate::double::eq_bits;
use crate::double::eq_num;
use crate::double::le_bits;
use crate::double::le_num;
use crate::double::lt_bits;
use crate::double::lt_num;
use crate::double::mul_bits;
use crate::double::mul_num;
use crate::double::neg_bits;
use crate::double::neg_num;
use crate::double::render_bits;
use crate::double::render_num;
use crate::double::sub_bits;
use crate::double::sub_num;
use crate::parser::stmts_view;
use crate::parser::BinaryOperator;
use crate::parser::Expr;
use crate::parser::ExprModel;
use crate::parser::Literal;
use crate::parser::LiteralModel;
use crate::parser::Stmt;
use crate::parser::StmtModel;
use crate::parser::UnaryOperator;

verus! {

/// A runtime value: a number (as its IEEE-754 binary64 encoding), a string,
/// a boolean, or nil.
#[derive(Debug, PartialEq, Clone)]
pub enum Value {
    Number(u64),
    String(String),
    Boolean(bool),
    Nil,
}

/// The mathematical shadow of [`Value`].
pub ghost enum ValueModel {
    Number { bits: u64 },
    String { text: Seq<char> },
    Boolean { value: bool },
    Nil,
}

impl View for Value {
    type V = ValueModel;

    open spec fn view(&self) -> ValueModel {
        match self {
            Value::Number(b) => ValueModel::Number { bits: *b },
            Value::String(s) => ValueModel::String { text: s@ },
            Value::Boolean(v) => ValueModel::Boolean { value: *v },
            Value::Nil => ValueModel::Nil,
        }
    }
}

/// A fatal evaluation error: an operator was applied to operand types its
/// semantics do not accept. Raised lazily, after the tree is already built.
#[derive(Debug, PartialEq, Eq, Clone, Copy)]
pub enum RuntimeTypeError {
    /// A unary operator met the wrong operand type (negating a non-number).
    UnaryOperand { operator: UnaryOperator },
    /// A binary operator met an operand-type combination outside its
    /// semantics.
    BinaryOperands { operator: BinaryOperator },
}

/// The text of an evaluation error message, naming what the operator
/// accepts.
pub open spec fn runtime_error_message(e: RuntimeTypeError) -> Seq<char> {
    match e {
        RuntimeTypeError::UnaryOperand { .. } => "can only negate a number"@,
        RuntimeTypeError::BinaryOperands { operator } => match operator {
            BinaryOperator::Plus => "can only add two numbers or two strings"@,
            BinaryOperator::Minus => "can only subtract numbers"@,
            BinaryOperator::Multiply => "can only multiply numbers"@,
            BinaryOperator::Divide => "can only divide numbers"@,
            _ => "can only compare numbers"@,
        },
    }
}

impl RuntimeTypeError {
    /// A human-readable description of the error: exactly the text
    /// [`runtime_error_message`] gives for it.
    pub fn message(&self) -> (r: String)
        ensures
            r@ == runtime_error_message(*self),
    {
        String::from_str(
            match self {
                RuntimeTypeError::UnaryOperand { .. } => "can only negate a number",
                RuntimeTypeError::BinaryOperands { operator } => match operator {
                    BinaryOperator::Plus => "can only add two numbers or two strings",
                    BinaryOperator::Minus => "can only subtract numbers",
                    BinaryOperator::Multiply => "can only multiply numbers",
                    BinaryOperator::Divide => "can only divide numbers",
                    _ => "can only compare numbers",
                },
            },
        )
    }
}

// ---------------------------------------------------------------------------
// The evaluation model
// ---------------------------------------------------------------------------

/// The truthiness rule: nil and false are falsy; every other value,
/// including zero and the empty string, is truthy.
pub open spec fn is_truthy_spec(v: ValueModel) -> bool {
    match v {
        ValueModel::Nil => false,
        ValueModel::Boolean { value } => value,
        _ => true,
    }
}

/// Structural equality over the whole value space: no coercion between
/// variants; numbers compare by IEEE-754 equality; defined for every
/// combination.
pub open spec fn values_equal(a: ValueModel, b: ValueModel) -> bool {
    match (a, b) {
        (ValueModel::Number { bits: x }, ValueModel::Number { bits: y }) => eq_bits(x, y),
        (ValueModel::String { text: s }, ValueModel::String { text: t }) => s == t,
        (ValueModel::Boolean { value: x }, ValueModel::Boolean { value: y }) => x == y,
        (ValueModel::Nil, ValueModel::Nil) => true,
        _ => false,
    }
}

/// A literal's payload, converted one-to-one into the matching value.
pub open spec fn literal_value(l: LiteralModel) -> ValueModel {
    match l {
        LiteralModel::String { text } => ValueModel::String { text },
        LiteralModel::Number { bits } => ValueModel::Number { bits },
        LiteralModel::Boolean { value } => ValueModel::Boolean { value },
        LiteralModel::Nil => ValueModel::Nil,
    }
}

/// What one binary operator makes of its two evaluated operands.
pub open spec fn apply_binary(op: BinaryOperator, l: ValueModel, r: ValueModel) -> Result<
    ValueModel,
    RuntimeTypeError,
> {
    match op {
        BinaryOperator::Minus => match (l, r) {
            (ValueModel::Number { bits: x }, ValueModel::Number { bits: y }) => Ok(
                ValueModel::Number { bits: sub_bits(x, y) },
            ),
            _ => Err(RuntimeTypeError::BinaryOperands { operator: BinaryOperator::Minus }),
        },
        BinaryOperator::Plus => match (l, r) {
            (ValueModel::Number { bits: x }, ValueModel::Number { bits: y }) => Ok(
                ValueModel::Number { bits: add_bits(x, y) },
            ),
            (ValueModel::String { text: s }, ValueModel::String { text: t }) => Ok(
                ValueModel::String { text: s + t },
            ),
            _ => Err(RuntimeTypeError::BinaryOperands { operator: BinaryOperator::Plus }),
        },
        BinaryOperator::Multiply => match (l, r) {
            (ValueModel::Number { bits: x }, ValueModel::Number { bits: y }) => Ok(
                ValueModel::Number { bits: mul_bits(x, y) },
            ),
            _ => Err(RuntimeTypeError::BinaryOperands { operator: BinaryOperator::Multiply }),
        },
        BinaryOperator::Divide => match (l, r) {
            (ValueModel::Number { bits: x }, ValueModel::Number { bits: y }) => Ok(
                ValueModel::Number { bits: div_bits(x, y) },
            ),
            _ => Err(RuntimeTypeError::BinaryOperands { operator: BinaryOperator::Divide }),
        },
        BinaryOperator::GreaterThan => match (l, r) {
            (ValueModel::Number { bits: x }, ValueModel::Number { bits: y }) => Ok(
                ValueModel::Boolean { value: lt_bits(y, x) },
            ),
            _ => Err(RuntimeTypeError::BinaryOperands { operator: BinaryOperator::GreaterThan }),
        },
        BinaryOperator::LessThan => match (l, r) {
            (ValueModel::Number { bits: x }, ValueModel::Number { bits: y }) => Ok(
                ValueModel::Boolean { value: lt_bits(x, y) },
            ),
            _ => Err(RuntimeTypeError::BinaryOperands { operator: BinaryOperator::LessThan }),
        },
        BinaryOperator::GreaterThanEqual => match (l, r) {
            (ValueModel::Number { bits: x }, ValueModel::Number { bits: y }) => Ok(
                ValueModel::Boolean { value: le_bits(y, x) },
            ),
            _ => Err(
                RuntimeTypeError::BinaryOperands { operator: BinaryOperator::GreaterThanEqual },
            ),
        },
        BinaryOperator::LessThanEqual => match (l, r) {
            (ValueModel::Number { bits: x }, ValueModel::Number { bits: y }) => Ok(
                ValueModel::Boolean { value: le_bits(x, y) },
            ),
            _ => Err(RuntimeTypeError::BinaryOperands { operator: BinaryOperator::LessThanEqual }),
        },
        BinaryOperator::EqualEqual => Ok(ValueModel::Boolean { value: values_equal(l, r) }),
        BinaryOperator::NotEqual => Ok(ValueModel::Boolean { value: !values_equal(l, r) }),
    }
}

/// The value of an expression tree: children before parent, left operand
/// before right, the first error stopping everything.
pub open spec fn eval_spec(e: ExprModel) -> Result<ValueModel, RuntimeTypeError>
    decreases e,
{
    match e {
        ExprModel::Literal { literal } => Ok(literal_value(literal)),
        ExprModel::Grouping { inner } => eval_spec(*inner),
        ExprModel::Unary { operator, right } => match eval_spec(*right) {
            Ok(v) => match operator {
                UnaryOperator::Minus => match v {
                    ValueModel::Number { bits } => Ok(ValueModel::Number { bits: neg_bits(bits) }),
                    _ => Err(
                        RuntimeTypeError::UnaryOperand { operator: UnaryOperator::Minus },
                    ),
                },
                UnaryOperator::Not => Ok(ValueModel::Boolean { value: !is_truthy_spec(v) }),
            },
            Err(err) => Err(err),
        },
        ExprModel::Binary { operator, left, right } => match eval_spec(*left) {
            Ok(l) => match eval_spec(*right) {
                Ok(r) => apply_binary(operator, l, r),
                Err(err) => Err(err),
            },
            Err(err) => Err(err),
        },
    }
}

/// The text a value renders to when printed: a number in its decimal form,
/// a boolean as `true`/`false`, nil as `nil`, a string as its raw content.
pub open spec fn render_value(v: ValueModel) -> Seq<char> {
    match v {
        ValueModel::Number { bits } => render_bits(bits),
        ValueModel::String { text } => text,
        ValueModel::Boolean { value } => if value {
            "true"@
        } else {
            "false"@
        },
        ValueModel::Nil => "nil"@,
    }
}

/// What executing one statement produces: a line of output for a print
/// statement, nothing for an expression statement. Variable declarations
/// are outside this core (there is no binding store yet) and are excluded
/// by the executable functions.
pub open spec fn execute_spec(s: StmtModel) -> Result<Option<Seq<char>>, RuntimeTypeError> {
    match s {
        StmtModel::Print { expr } => match eval_spec(expr) {
            Ok(v) => Ok(Some(render_value(v))),
            Err(e) => Err(e),
        },
        StmtModel::Expression { expr } => match eval_spec(expr) {
            Ok(_) => Ok(None),
            Err(e) => Err(e),
        },
        StmtModel::Var { .. } => Ok(None),
    }
}

/// The output of a whole program: each statement's line in order, the first
/// error stopping everything.
pub open spec fn interpret_spec(ss: Seq<StmtModel>) -> Result<Seq<Seq<char>>, RuntimeTypeError>
    decreases ss.len(),
{
    if ss.len() == 0 {
        Ok(Seq::empty())
    } else {
        match execute_spec(ss[0]) {
            Ok(line) => match interpret_spec(ss.drop_first()) {
                Ok(rest) => Ok(
                    match line {
                        Some(l) => seq![l] + rest,
                        None => rest,
                    },
                ),
                Err(e) => Err(e),
            },
            Err(e) => Err(e),
        }
    }
}

// ---------------------------------------------------------------------------
// The evaluator itself
// ---------------------------------------------------------------------------

/// The tree-walking evaluator. It keeps no state: every evaluation is a
/// pure function of the tree it is given.
pub struct Interpreter {}

impl Interpreter {
    /// The truthiness rule on a runtime value.
    fn is_truthy(v: &Value) -> (r: bool)
        ensures
            r == is_truthy_spec(v@),
    {
        match v {
            Value::Nil => false,
            Value::Boolean(b) => *b,
            _ => true,
        }
    }

    /// Structural equality of two runtime values.
    fn values_eq(a: &Value, b: &Value) -> (r: bool)
        ensures
            r == values_equal(a@, b@),
    {
        match (a, b) {
            (Value::Number(x), Value::Number(y)) => eq_num(*x, *y),
            (Value::String(s), Value::String(t)) => *s == *t,
            (Value::Boolean(x), Value::Boolean(y)) => *x == *y,
            (Value::Nil, Value::Nil) => true,
            _ => false,
        }
    }

    /// Applies one binary operator to its two evaluated operands; exactly
    /// what [`apply_binary`] says.
    fn apply_binary_op(operator: BinaryOperator, left: Value, right: Value) -> (r: Result<
        Value,
        RuntimeTypeError,
    >)
        ensures
            match r {
                Ok(v) => apply_binary(operator, left@, right@) == Ok::<
                    ValueModel,
                    RuntimeTypeError,
                >(v@),
                Err(e) => apply_binary(operator, left@, right@) == Err::<
                    ValueModel,
                    RuntimeTypeError,
                >(e),
            },
    {
        match operator {
            BinaryOperator::Minus => match (left, right) {
                (Value::Number(x), Value::Number(y)) => Ok(Value::Number(sub_num(x, y))),
                _ => Err(RuntimeTypeError::BinaryOperands { operator: BinaryOperator::Minus }),
            },
            BinaryOperator::Plus => match (left, right) {
                (Value::Number(x), Value::Number(y)) => Ok(Value::Number(add_num(x, y))),
                (Value::String(s1), Value::String(s2)) => Ok(
                    Value::String(s1.concat(s2.as_str())),
                ),
                _ => Err(RuntimeTypeError::BinaryOperands { operator: BinaryOperator::Plus }),
            },
            BinaryOperator::Multiply => match (left, right) {
                (Value::Number(x), Value::Number(y)) => Ok(Value::Number(mul_num(x, y))),
                _ => Err(RuntimeTypeError::BinaryOperands { operator: BinaryOperator::Multiply }),
            },
            BinaryOperator::Divide => match (left, right) {
                (Value::Number(x), Value::Number(y)) => Ok(Value::Number(div_num(x, y))),
                _ => Err(RuntimeTypeError::BinaryOperands { operator: BinaryOperator::Divide }),
            },
            BinaryOperator::GreaterThan => match (left, right) {
                (Value::Number(x), Value::Number(y)) => Ok(Value::Boolean(lt_num(y, x))),
                _ => Err(
                    RuntimeTypeError::BinaryOperands { operator: BinaryOperator::GreaterThan },
                ),
            },
            BinaryOperator::LessThan => match (left, right) {
                (Value::Number(x), Value::Number(y)) => Ok(Value::Boolean(lt_num(x, y))),
                _ => Err(RuntimeTypeError::BinaryOperands { operator: BinaryOperator::LessThan }),
            },
            BinaryOperator::GreaterThanEqual => match (left, right) {
                (Value::Number(x), Value::Number(y)) => Ok(Value::Boolean(le_num(y, x))),
                _ => Err(
                    RuntimeTypeError::BinaryOperands {
                        operator: BinaryOperator::GreaterThanEqual,
                    },
                ),
            },
            BinaryOperator::LessThanEqual => match (left, right) {
                (Value::Number(x), Value::Number(y)) => Ok(Value::Boolean(le_num(x, y))),
                _ => Err(
                    RuntimeTypeError::BinaryOperands { operator: BinaryOperator::LessThanEqual },
                ),
            },
            BinaryOperator::EqualEqual => Ok(
                Value::Boolean(Interpreter::values_eq(&left, &right)),
            ),
            BinaryOperator::NotEqual => Ok(
                Value::Boolean(!Interpreter::values_eq(&left, &right)),
            ),
        }
    }

    /// Evaluates an expression tree to a runtime value, or to the error
    /// that stopped evaluation: exactly what the pure model [`eval_spec`]
    /// says of the tree, so two evaluations of the same tree always return
    /// equal results.
    pub fn eval(expr: &Expr) -> (r: Result<Value, RuntimeTypeError>)
        ensures
            match r {
                Ok(v) => eval_spec(expr@) == Ok::<ValueModel, RuntimeTypeError>(v@),
                Err(e) => eval_spec(expr@) == Err::<ValueModel, RuntimeTypeError>(e),
            },
        decreases expr,
    {
        match expr {
            Expr::Binary(b) => {
                let left = match Interpreter::eval(&b.left) {
                    Ok(v) => v,
                    Err(e) => {
                        return Err(e);
                    },
                };
                let right = match Interpreter::eval(&b.right) {
                    Ok(v) => v,
                    Err(e) => {
                        return Err(e);
                    },
                };
                Interpreter::apply_binary_op(b.operator, left, right)
            },
            Expr::Grouping(g) => Interpreter::eval(&g.expr),
            Expr::Literal(l) => match l {
                Literal::String(s) => Ok(Value::String(s.clone())),
                Literal::Number(n) => Ok(Value::Number(*n)),
                Literal::Boolean(b) => Ok(Value::Boolean(*b)),
                Literal::Nil => Ok(Value::Nil),
            },
            Expr::Unary(u) => {
                let right = match Interpreter::eval(&u.right) {
                    Ok(v) => v,
                    Err(e) => {
                        return Err(e);
                    },
                };
                match u.operator {
                    UnaryOperator::Minus => match right {
                        Value::Number(n) => Ok(Value::Number(neg_num(n))),
                        _ => Err(
                            RuntimeTypeError::UnaryOperand { operator: UnaryOperator::Minus },
                        ),
                    },
                    UnaryOperator::Not => Ok(
                        Value::Boolean(!Interpreter::is_truthy(&right)),
                    ),
                }
            },
        }
    }

    /// Executes one statement: evaluates it, and returns the line a print
    /// statement renders, or nothing for an expression statement; exactly
    /// what [`execute_spec`] says. Variable declarations are outside this
    /// core: no binding store exists yet.
    fn execute(stmt: &Stmt) -> (r: Result<Option<String>, RuntimeTypeError>)
        requires
            !(stmt@ is Var),
        ensures
            match r {
                Ok(line) => execute_spec(stmt@) == Ok::<
                    Option<Seq<char>>,
                    RuntimeTypeError,
                >(line.deep_view()),
                Err(e) => execute_spec(stmt@) == Err::<Option<Seq<char>>, RuntimeTypeError>(e),
            },
    {
        match stmt {
            Stmt::Print(expr) => {
                let value = match Interpreter::eval(expr) {
                    Ok(v) => v,
                    Err(e) => {
                        return Err(e);
                    },
                };
                let line = match value {
                    Value::String(v) => v,
                    Value::Boolean(v) => {
                        if v {
                            String::from_str("true")
                        } else {
                            String::from_str("false")
                        }
                    },
                    Value::Nil => String::from_str("nil"),
                    Value::Number(v) => render_num(v),
                };
                Ok(Some(line))
            },
            Stmt::Expression(expr) => match Interpreter::eval(expr) {
                Ok(_) => Ok(None),
                Err(e) => Err(e),
            },
            Stmt::Var { .. } => Ok(None),
        }
    }

    /// Runs a whole program: executes each statement in order and returns
    /// the lines the print statements rendered, or the first error; exactly
    /// what [`interpret_spec`] says. The caller writes the lines out.
    pub fn interpret(statements: Vec<Stmt>) -> (r: Result<Vec<String>, RuntimeTypeError>)
        requires
            forall|i: int|
                0 <= i < statements@.len() ==> !((#[trigger] statements@[i])@ is Var),
        ensures
            match r {
                Ok(lines) => interpret_spec(stmts_view(statements@)) == Ok::<
                    Seq<Seq<char>>,
                    RuntimeTypeError,
                >(lines.deep_view()),
                Err(e) => interpret_spec(stmts_view(statements@)) == Err::<
                    Seq<Seq<char>>,
                    RuntimeTypeError,
                >(e),
            },
    {
        let ghost ss = stmts_view(statements@);
        let mut lines: Vec<String> = Vec::new();
        let mut i: usize = 0;
        proof {
            assert(ss.skip(0) =~= ss);
            assert(lines.deep_view() =~= Seq::<Seq<char>>::empty());
            if let Ok(rest) = interpret_spec(ss) {
                assert(Seq::<Seq<char>>::empty() + rest =~= rest);
            }
        }
        while i < statements.len()
            invariant
                i <= statements.len(),
                ss == stmts_view(statements@),
                forall|k: int|
                    0 <= k < statements@.len() ==> !((#[trigger] statements@[k])@ is Var),
                match interpret_spec(ss.skip(i as int)) {
                    Ok(rest) => interpret_spec(ss) == Ok::<Seq<Seq<char>>, RuntimeTypeError>(
                        lines.deep_view() + rest,
                    ),
                    Err(e) => interpret_spec(ss) == Err::<Seq<Seq<char>>, RuntimeTypeError>(e),
                },
            decreases statements.len() - i,
        {
            let ghost lines0 = lines.deep_view();
            let s = &statements[i];
            proof {
                assert(ss.skip(i as int).len() == ss.len() - i);
                assert(ss.skip(i as int)[0] == ss[i as int]);
                assert(s@ == ss[i as int]);
            }
            let line = match Interpreter::execute(s) {
                Ok(l) => l,
                Err(e) => {
                    return Err(e);
                },
            };
            proof {
                assert(ss.skip(i as int).drop_first() =~= ss.skip(i as int + 1));
            }
            match line {
                Some(l) => {
                    lines.push(l);
                    proof {
                        assert(lines.deep_view() =~= lines0.push(l@));
                        if let Ok(rest) = interpret_spec(ss.skip(i as int + 1)) {
                            assert(lines0 + (seq![l@] + rest) =~= lines0.push(l@) + rest);
                        }
                    }
                },
                None => {},
            }
            i = i + 1;
        }
        proof {
            assert(ss.skip(statements@.len() as int) =~= Seq::<StmtModel>::empty());
            if let Ok(rest) = interpret_spec(ss.skip(statements@.len() as int)) {
                assert(lines.deep_view() + rest =~= lines.deep_view());
            }
        }
        Ok(lines)
    }
}

// ---------------------------------------------------------------------------
// Laws
// ---------------------------------------------------------------------------

/// Logical not always applies the truthiness rule: for every literal, the
/// negation evaluates to the boolean opposite of the literal's truthiness.
pub proof fn lemma_logical_not_truthiness(l: LiteralModel)
    ensures
        eval_spec(
            ExprModel::Unary {
                operator: UnaryOperator::Not,
                right: Box::new(ExprModel::Literal { literal: l }),
            },
        ) == Ok::<ValueModel, RuntimeTypeError>(
            ValueModel::Boolean { value: !is_truthy_spec(literal_value(l)) },
        ),
{
    reveal_with_fuel(eval_spec, 3);
}

/// Adding two string literals always concatenates their texts, and adding
/// a number literal to a string literal is always a type error.
pub proof fn lemma_string_concatenation(s1: Seq<char>, s2: Seq<char>, bits: u64)
    ensures
        eval_spec(
            ExprModel::Binary {
                operator: BinaryOperator::Plus,
                left: Box::new(ExprModel::Literal { literal: LiteralModel::String { text: s1 } }),
                right: Box::new(ExprModel::Literal { literal: LiteralModel::String { text: s2 } }),
            },
        ) == Ok::<ValueModel, RuntimeTypeError>(ValueModel::String { text: s1 + s2 }),
        eval_spec(
            ExprModel::Binary {
                operator: BinaryOperator::Plus,
                left: Box::new(ExprModel::Literal { literal: LiteralModel::Number { bits } }),
                right: Box::new(ExprModel::Literal { literal: LiteralModel::String { text: s2 } }),
            },
        ) == Err::<ValueModel, RuntimeTypeError>(
            RuntimeTypeError::BinaryOperands { operator: BinaryOperator::Plus },
        ),
{
    reveal_with_fuel(eval_spec, 3);
}

} // verus!
