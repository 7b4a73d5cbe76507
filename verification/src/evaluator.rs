//! The evaluator: the value of an expression in a frame.

use vstd::prelude::*;
use vstd::string::StringExecFns;
use crate::error::{Kind, RuntimeError};
use crate::text::join3;
use crate::executor::Executor;
use crate::floats::Floats;
use crate::frame::Frame;
use crate::logger::{logged, Level, Logger};
use crate::semantics::{
    arithmetic,
    asked,
    call_trace,
    equal_to,
    eval_args,
    eval_expr,
    integer_arithmetic,
    relational,
    value_result,
};
use crate::text::{order_i32, order_text, Order};
use crate::tree::{ArithmeticOp, BinaryOp, ExprNode, ExprView, ProgramNode, RelationalOp};
use crate::value::{value_views, Value, ValueView};

verus! {

/// The evaluator. It has no state of its own: what an evaluation reads and
/// writes is handed to it.
pub struct Evaluator {}

/// Whether a relational operator holds of two things in the given order.
fn holds(op: RelationalOp, order: Order) -> (r: bool)
    ensures
        r == op.holds(order),
{
    match op {
        RelationalOp::Equal => order == Order::Equal,
        RelationalOp::LessThan => order == Order::Less,
        RelationalOp::GreaterThan => order == Order::Greater,
        RelationalOp::NotEqual => order != Order::Equal,
        RelationalOp::LessThanEqual => order != Order::Greater,
        RelationalOp::GreaterThanEqual => order != Order::Less,
    }
}

/// The string made of two texts.
fn joined(a: &str, b: &str) -> (r: Value)
    ensures
        r@ == ValueView::Chars(a@ + b@),
{
    let mut out = a.to_owned();
    out.append(b);
    Value::Chars(out)
}

impl Evaluator {
    /// The value of an expression in a frame: see
    /// [`eval_expr`](crate::semantics::eval_expr). What the evaluation
    /// writes is appended to the output of `logger`.
    pub fn evaluate<'a>(
        program: &ProgramNode,
        floats: &Floats,
        expr: &ExprNode,
        frame: &Frame<'a>,
        logger: &mut Logger,
        fuel: u64,
    ) -> (r: Result<Value, RuntimeError>)
        ensures
            ({
                let outcome = eval_expr(
                    program@,
                    old(logger)@.level,
                    floats@,
                    expr@,
                    frame@,
                    old(logger)@.output,
                    fuel as nat,
                );
                &&& final(logger)@.level == old(logger)@.level
                &&& final(logger)@.output == outcome.output
                &&& value_result(r) == outcome.result
            }),
        decreases fuel, 0int, expr,
    {
        match expr {
            ExprNode::Var(name) => {
                match frame.lookup(name) {
                    Value::Nil => Err(RuntimeError::VariableNotFound(name.clone())),
                    other => Ok(other),
                }
            },
            ExprNode::Val(value) => Ok(value.clone()),
            ExprNode::String(value) => Ok(Value::Chars(value.clone())),
            ExprNode::Add(expr_a, expr_b) => {
                let value_a = Self::evaluate(program, floats, expr_a, frame, logger, fuel)?;
                let value_b = Self::evaluate(program, floats, expr_b, frame, logger, fuel)?;
                Self::arithmetic(value_a, value_b, ArithmeticOp::Add, floats)
            },
            ExprNode::Mul(expr_a, expr_b) => {
                let value_a = Self::evaluate(program, floats, expr_a, frame, logger, fuel)?;
                let value_b = Self::evaluate(program, floats, expr_b, frame, logger, fuel)?;
                Self::arithmetic(value_a, value_b, ArithmeticOp::Mul, floats)
            },
            ExprNode::Sub(expr_a, expr_b) => {
                let value_a = Self::evaluate(program, floats, expr_a, frame, logger, fuel)?;
                let value_b = Self::evaluate(program, floats, expr_b, frame, logger, fuel)?;
                Self::arithmetic(value_a, value_b, ArithmeticOp::Sub, floats)
            },
            ExprNode::Call(name, rc_exprs) => {
                let ghost views = expr@->Call_1;
                let ghost start = logger@.output;
                logger.debug(join3("evaluating call '", name.as_str(), "'").as_str());
                let ghost traced = logger@.output;
                match frame.lookup(name) {
                    Value::Func(func, argc) => {
                        if argc != rc_exprs.len() {
                            return Err(RuntimeError::ArityMismatch(name.clone()));
                        }
                        let mut arguments: Vec<Value> = Vec::new();
                        let mut i: usize = 0;
                        assert(value_views(arguments@) =~= Seq::empty());
                        while i < rc_exprs.len()
                            invariant
                                i <= rc_exprs.len(),
                                arguments.len() == i,
                                expr is Call,
                                expr->Call_1 == *rc_exprs,
                                expr@ == ExprView::Call(name@, views),
                                views.len() == rc_exprs.len(),
                                argc == rc_exprs.len(),
                                frame@.lookup(name@) == ValueView::Func(
                                    func.name@,
                                    func.index,
                                    argc,
                                ),
                                traced == logged(
                                    old(logger)@.level,
                                    old(logger)@.output,
                                    Level::Debug,
                                    call_trace(name@),
                                ),
                                logger@.level == old(logger)@.level,
                                eval_args(
                                    program@,
                                    logger@.level,
                                    floats@,
                                    views,
                                    value_views(arguments@),
                                    frame@,
                                    logger@.output,
                                    fuel as nat,
                                ) == eval_args(
                                    program@,
                                    logger@.level,
                                    floats@,
                                    views,
                                    Seq::empty(),
                                    frame@,
                                    traced,
                                    fuel as nat,
                                ),
                            decreases rc_exprs.len() - i,
                        {
                            let ghost before = value_views(arguments@);
                            proof {
                                assert(decreases_to!(*rc_exprs => rc_exprs[i as int]));
                                assert(views[i as int] == rc_exprs[i as int]@);
                            }
                            let arg = match Self::evaluate(
                                program,
                                floats,
                                &rc_exprs[i],
                                frame,
                                logger,
                                fuel,
                            ) {
                                Ok(value) => value,
                                Err(failure) => {
                                    return Err(failure);
                                },
                            };
                            arguments.push(arg);
                            i = i + 1;
                            assert(value_views(arguments@) =~= before.push(arg@));
                        }
                        match frame.get_globals() {
                            Some(globals) => {
                                if func.index >= program.func_nodes.len() {
                                    Err(RuntimeError::FunctionNotFound(name.clone()))
                                } else if fuel == 0 {
                                    Err(RuntimeError::OutOfFuel)
                                } else {
                                    Executor::execute_function(
                                        program,
                                        floats,
                                        &program.func_nodes[func.index],
                                        globals,
                                        arguments,
                                        logger,
                                        fuel - 1,
                                    )
                                }
                            },
                            None => Err(RuntimeError::NoGlobals),
                        }
                    },
                    _ => Err(RuntimeError::FunctionNotFound(name.clone())),
                }
            },
            ExprNode::LessThan(expr_a, expr_b) => {
                let value_a = Self::evaluate(program, floats, expr_a, frame, logger, fuel)?;
                let value_b = Self::evaluate(program, floats, expr_b, frame, logger, fuel)?;
                Self::relational(value_a, value_b, RelationalOp::LessThan, floats)
            },
            ExprNode::GreaterThan(expr_a, expr_b) => {
                let value_a = Self::evaluate(program, floats, expr_a, frame, logger, fuel)?;
                let value_b = Self::evaluate(program, floats, expr_b, frame, logger, fuel)?;
                Self::relational(value_a, value_b, RelationalOp::GreaterThan, floats)
            },
            ExprNode::EqualTo(expr_a, expr_b) => {
                let value_a = Self::evaluate(program, floats, expr_a, frame, logger, fuel)?;
                let value_b = Self::evaluate(program, floats, expr_b, frame, logger, fuel)?;
                Self::equal_to(value_a, value_b, floats)
            },
            ExprNode::LessThanEq(expr_a, expr_b) => {
                let value_a = Self::evaluate(program, floats, expr_a, frame, logger, fuel)?;
                let value_b = Self::evaluate(program, floats, expr_b, frame, logger, fuel)?;
                Self::relational(value_a, value_b, RelationalOp::LessThanEqual, floats)
            },
            ExprNode::GreaterThanEq(expr_a, expr_b) => {
                let value_a = Self::evaluate(program, floats, expr_a, frame, logger, fuel)?;
                let value_b = Self::evaluate(program, floats, expr_b, frame, logger, fuel)?;
                Self::relational(value_a, value_b, RelationalOp::GreaterThanEqual, floats)
            },
            ExprNode::NotEqualTo(expr_a, expr_b) => {
                let value_a = Self::evaluate(program, floats, expr_a, frame, logger, fuel)?;
                let value_b = Self::evaluate(program, floats, expr_b, frame, logger, fuel)?;
                Self::relational(value_a, value_b, RelationalOp::NotEqual, floats)
            },
        }
    }

    /// The result of an operator on numbers of which one at least is of
    /// single precision: see [`asked`](crate::semantics::asked).
    pub fn ask(floats: &Floats, op: BinaryOp, a: Value, b: Value) -> (r: Result<
        Value,
        RuntimeError,
    >)
        ensures
            value_result(r) == asked(floats@, op, a@, b@),
    {
        match floats.find(op, &a, &b) {
            Some(result) => Ok(result),
            None => Err(RuntimeError::FloatPending(op, a, b)),
        }
    }

    /// The result of an arithmetic operator on two 32-bit integers.
    pub fn integer_arithmetic(a: i32, b: i32, op: ArithmeticOp) -> (r: Result<Value, RuntimeError>)
        ensures
            value_result(r) == integer_arithmetic(a, b, op),
    {
        let x: i64 = a as i64;
        let y: i64 = b as i64;
        let exact: i64 = match op {
            ArithmeticOp::Add => x + y,
            ArithmeticOp::Sub => x - y,
            ArithmeticOp::Mul => {
                assert(-0x8000_0000 * 0x8000_0000 <= x * y <= 0x8000_0000 * 0x8000_0000)
                    by (nonlinear_arith)
                    requires
                        -0x8000_0000 <= x <= 0x7fff_ffff,
                        -0x8000_0000 <= y <= 0x7fff_ffff,
                ;
                x * y
            },
            ArithmeticOp::Div => {
                if b == 0 {
                    return Err(RuntimeError::DivisionByZero);
                }
                let p: i64 = if x >= 0 {
                    x
                } else {
                    -x
                };
                let q: i64 = if y >= 0 {
                    y
                } else {
                    -y
                };
                if (x >= 0) == (y > 0) {
                    p / q
                } else {
                    -(p / q)
                }
            },
        };
        if exact < -0x8000_0000 || exact > 0x7fff_ffff {
            Err(RuntimeError::Overflow(op))
        } else {
            Ok(Value::I32(exact as i32))
        }
    }

    /// The result of an arithmetic operator: see
    /// [`arithmetic`](crate::semantics::arithmetic).
    pub fn arithmetic(value_a: Value, value_b: Value, op: ArithmeticOp, floats: &Floats) -> (r:
        Result<Value, RuntimeError>)
        ensures
            value_result(r) == arithmetic(value_a@, value_b@, op, floats@),
    {
        let operator = BinaryOp::Arithmetic(op);
        match value_a {
            Value::Nil => Err(RuntimeError::LeftOperand(operator, Kind::Nil)),
            Value::Bool(_) => Err(RuntimeError::LeftOperand(operator, Kind::Bool)),
            Value::Func(_, _) => Err(RuntimeError::LeftOperand(operator, Kind::Func)),
            Value::I32(a) => {
                match value_b {
                    Value::Nil => Err(RuntimeError::RightOperand(operator, Kind::Nil)),
                    Value::Bool(_) => Err(RuntimeError::RightOperand(operator, Kind::Bool)),
                    Value::Func(_, _) => Err(RuntimeError::RightOperand(operator, Kind::Func)),
                    Value::I32(b) => Self::integer_arithmetic(a, b, op),
                    Value::F32(b) => Self::ask(floats, operator, Value::I32(a), Value::F32(b)),
                    Value::Chars(b) => {
                        match op {
                            ArithmeticOp::Add => Ok(
                                joined(Value::I32(a).to_text().as_str(), b.as_str()),
                            ),
                            _ => Err(RuntimeError::CharsOperation(op)),
                        }
                    },
                }
            },
            Value::F32(a) => {
                match value_b {
                    Value::Nil => Err(RuntimeError::RightOperand(operator, Kind::Nil)),
                    Value::Bool(_) => Err(RuntimeError::RightOperand(operator, Kind::Bool)),
                    Value::Func(_, _) => Err(RuntimeError::RightOperand(operator, Kind::Func)),
                    Value::I32(b) => Self::ask(floats, operator, Value::F32(a), Value::I32(b)),
                    Value::F32(b) => Self::ask(floats, operator, Value::F32(a), Value::F32(b)),
                    Value::Chars(b) => {
                        match op {
                            ArithmeticOp::Add => Ok(joined(a.as_str(), b.as_str())),
                            _ => Err(RuntimeError::CharsOperation(op)),
                        }
                    },
                }
            },
            Value::Chars(a) => {
                match value_b {
                    Value::Nil => Err(RuntimeError::RightOperand(operator, Kind::Nil)),
                    Value::Func(_, _) => Err(RuntimeError::RightOperand(operator, Kind::Func)),
                    other => {
                        match op {
                            ArithmeticOp::Add => Ok(joined(a.as_str(), other.to_text().as_str())),
                            _ => Err(RuntimeError::CharsOperation(op)),
                        }
                    },
                }
            },
        }
    }

    /// The result of a relational operator: see
    /// [`relational`](crate::semantics::relational).
    pub fn relational(value_a: Value, value_b: Value, op: RelationalOp, floats: &Floats) -> (r:
        Result<Value, RuntimeError>)
        ensures
            value_result(r) == relational(value_a@, value_b@, op, floats@),
    {
        let operator = BinaryOp::Relational(op);
        match value_a {
            Value::Nil => Err(RuntimeError::LeftOperand(operator, Kind::Nil)),
            Value::Bool(_) => Err(RuntimeError::LeftOperand(operator, Kind::Bool)),
            Value::Func(_, _) => Err(RuntimeError::LeftOperand(operator, Kind::Func)),
            Value::I32(a) => {
                match value_b {
                    Value::Nil => Err(RuntimeError::RightOperand(operator, Kind::Nil)),
                    Value::Bool(_) => Err(RuntimeError::RightOperand(operator, Kind::Bool)),
                    Value::Func(_, _) => Err(RuntimeError::RightOperand(operator, Kind::Func)),
                    Value::I32(b) => Ok(Value::Bool(holds(op, order_i32(a, b)))),
                    Value::F32(b) => Self::ask(floats, operator, Value::I32(a), Value::F32(b)),
                    Value::Chars(_) => Err(RuntimeError::Mismatch(op)),
                }
            },
            Value::F32(a) => {
                match value_b {
                    Value::Nil => Err(RuntimeError::RightOperand(operator, Kind::Nil)),
                    Value::Bool(_) => Err(RuntimeError::RightOperand(operator, Kind::Bool)),
                    Value::Func(_, _) => Err(RuntimeError::RightOperand(operator, Kind::Func)),
                    Value::I32(b) => Self::ask(floats, operator, Value::F32(a), Value::I32(b)),
                    Value::F32(b) => Self::ask(floats, operator, Value::F32(a), Value::F32(b)),
                    Value::Chars(_) => Err(RuntimeError::Mismatch(op)),
                }
            },
            Value::Chars(a) => {
                match value_b {
                    Value::Nil => Err(RuntimeError::RightOperand(operator, Kind::Nil)),
                    Value::Bool(_) => Err(RuntimeError::RightOperand(operator, Kind::Bool)),
                    Value::Func(_, _) => Err(RuntimeError::RightOperand(operator, Kind::Func)),
                    Value::I32(_) => Err(RuntimeError::Mismatch(op)),
                    Value::F32(_) => Err(RuntimeError::Mismatch(op)),
                    Value::Chars(b) => Ok(
                        Value::Bool(holds(op, order_text(a.as_str(), b.as_str()))),
                    ),
                }
            },
        }
    }

    /// The result of the test for equality: see
    /// [`equal_to`](crate::semantics::equal_to).
    pub fn equal_to(value_a: Value, value_b: Value, floats: &Floats) -> (r: Result<
        Value,
        RuntimeError,
    >)
        ensures
            value_result(r) == equal_to(value_a@, value_b@, floats@),
    {
        let numbers = match (&value_a, &value_b) {
            (Value::F32(_), Value::F32(_)) => true,
            _ => false,
        };
        if numbers {
            Self::ask(floats, BinaryOp::EqualTo, value_a, value_b)
        } else {
            Ok(Value::Bool(value_a == value_b))
        }
    }
}

} // verus!
