//! What a program means: the value of an expression and the effect of a
//! statement, of a block and of a call, as functions of the program, of the
//! frame and of the output written so far.
//!
//! A run is given fuel, a natural number. Every call passes one unit less
//! than it has to the body that it runs, and a loop has one unit less after
//! each round; a call or a round for which no fuel is left fails. So every
//! run ends, and a run that does not fail for want of fuel is the same with
//! any greater amount of it ([`lemma_fuel_program`]).

use vstd::prelude::*;
use crate::error::{Kind, RuntimeError, RuntimeErrorView};
use crate::floats::{answer, answer_from, answers_to, AnswerView};
use crate::frame::{bound, FrameView};
use crate::logger::{logged, Level};
use crate::symbols::values_of;
use crate::text::{decimal, int_order, text_order, Order};
use crate::tree::{
    ArithmeticOp,
    BinaryOp,
    BlockView,
    ExprView,
    FuncView,
    ProgramView,
    RelationalOp,
    StmtView,
};
use crate::value::{Value, ValueView};

verus! {

/// How a statement ends: the next statement follows, or the function
/// returns.
#[derive(Debug, Clone, Copy, PartialEq, Eq, Structural)]
pub enum Control {
    Next,
    Return,
}

/// The outcome of the evaluation of an expression: the output after it, and
/// its value or the failure that ended it.
pub struct Evaluation {
    pub output: Seq<Seq<char>>,
    pub result: Result<ValueView, RuntimeErrorView>,
}

/// The outcome of the evaluation of the arguments of a call.
pub struct Arguments {
    pub output: Seq<Seq<char>>,
    pub result: Result<Seq<ValueView>, RuntimeErrorView>,
}

/// The outcome of the execution of statements: the frame and the output
/// after it, and how it ended, with the value that a `return` gave.
pub struct Execution {
    pub frame: FrameView,
    pub output: Seq<Seq<char>>,
    pub result: Result<(Control, ValueView), RuntimeErrorView>,
}

/// The model of the outcome of an evaluation.
pub open spec fn value_result(r: Result<Value, RuntimeError>) -> Result<
    ValueView,
    RuntimeErrorView,
> {
    match r {
        Ok(value) => Ok(value@),
        Err(failure) => Err(failure@),
    }
}

/// The model of the outcome of an execution.
pub open spec fn control_result(r: Result<(Control, Value), RuntimeError>) -> Result<
    (Control, ValueView),
    RuntimeErrorView,
> {
    match r {
        Ok((control, value)) => Ok((control, value@)),
        Err(failure) => Err(failure@),
    }
}

/// The kind of a value that no binary operator takes.
pub open spec fn refused(v: ValueView) -> Option<Kind> {
    match v {
        ValueView::Nil => Some(Kind::Nil),
        ValueView::Bool(_) => Some(Kind::Bool),
        ValueView::Func(_, _, _) => Some(Kind::Func),
        _ => None,
    }
}

/// The result of an operator on numbers of which one at least is of single
/// precision: the answer that the run was given, and `FloatPending` where
/// it was given none.
pub open spec fn asked(floats: Seq<AnswerView>, op: BinaryOp, a: ValueView, b: ValueView)
    -> Result<ValueView, RuntimeErrorView> {
    match answer(floats, op, a, b) {
        Some(result) => Ok(result),
        None => Err(RuntimeErrorView::FloatPending(op, a, b)),
    }
}

/// The quotient of two integers, rounded toward zero.
pub open spec fn quotient(a: int, b: int) -> int
    recommends
        b != 0,
{
    if (a >= 0) == (b > 0) {
        (if a >= 0 { a } else { -a }) / (if b >= 0 { b } else { -b })
    } else {
        -((if a >= 0 { a } else { -a }) / (if b >= 0 { b } else { -b }))
    }
}

/// The result of an arithmetic operator on two 32-bit integers: the exact
/// result, where a 32-bit integer holds it.
pub open spec fn integer_arithmetic(a: i32, b: i32, op: ArithmeticOp) -> Result<
    ValueView,
    RuntimeErrorView,
> {
    if op == ArithmeticOp::Div && b == 0 {
        Err(RuntimeErrorView::DivisionByZero)
    } else {
        let exact = match op {
            ArithmeticOp::Add => a + b,
            ArithmeticOp::Sub => a - b,
            ArithmeticOp::Mul => a * b,
            ArithmeticOp::Div => quotient(a as int, b as int),
        };
        if i32::MIN <= exact <= i32::MAX {
            Ok(ValueView::I32(exact as i32))
        } else {
            Err(RuntimeErrorView::Overflow(op))
        }
    }
}

/// The result of an arithmetic operator.
///
/// Two integers give an integer. A string and a boolean, a number or a
/// string, as well as a number and a string, are joined by `Add` into one
/// string, each operand in its textual form, and refused by the other
/// operators. A single-precision number with a number gives the
/// single-precision number that the answers hold for them: see [`asked`].
/// `Nil`, a function, a boolean on the left and a boolean beside a number
/// are refused: the left operand is judged first.
pub open spec fn arithmetic(
    a: ValueView,
    b: ValueView,
    op: ArithmeticOp,
    floats: Seq<AnswerView>,
) -> Result<
    ValueView,
    RuntimeErrorView,
> {
    let operator = BinaryOp::Arithmetic(op);
    if refused(a) is Some {
        Err(RuntimeErrorView::LeftOperand(operator, refused(a)->0))
    } else if refused(b) is Some && !(a is Chars && b is Bool) {
        Err(RuntimeErrorView::RightOperand(operator, refused(b)->0))
    } else if a is Chars || b is Chars {
        if op == ArithmeticOp::Add {
            Ok(ValueView::Chars(a.text() + b.text()))
        } else {
            Err(RuntimeErrorView::CharsOperation(op))
        }
    } else if a is F32 || b is F32 {
        asked(floats, operator, a, b)
    } else {
        integer_arithmetic(a->I32_0, b->I32_0, op)
    }
}

impl RelationalOp {
    /// Whether the operator holds of two things that stand in the given
    /// order.
    pub open spec fn holds(self, order: Order) -> bool {
        match self {
            RelationalOp::Equal => order == Order::Equal,
            RelationalOp::LessThan => order == Order::Less,
            RelationalOp::GreaterThan => order == Order::Greater,
            RelationalOp::NotEqual => order != Order::Equal,
            RelationalOp::LessThanEqual => order != Order::Greater,
            RelationalOp::GreaterThanEqual => order != Order::Less,
        }
    }
}

/// The result of a relational operator.
///
/// Two integers are compared as numbers and two strings in lexicographic
/// order. A single-precision number with a number gives the boolean that
/// the answers hold for them: see [`asked`]. A number with a string is a
/// `Mismatch`. `Nil`, a boolean and a function
/// are refused: the left operand is judged first.
pub open spec fn relational(
    a: ValueView,
    b: ValueView,
    op: RelationalOp,
    floats: Seq<AnswerView>,
) -> Result<
    ValueView,
    RuntimeErrorView,
> {
    let operator = BinaryOp::Relational(op);
    if refused(a) is Some {
        Err(RuntimeErrorView::LeftOperand(operator, refused(a)->0))
    } else if refused(b) is Some {
        Err(RuntimeErrorView::RightOperand(operator, refused(b)->0))
    } else if a is Chars && b is Chars {
        Ok(ValueView::Bool(op.holds(text_order(a->Chars_0, b->Chars_0))))
    } else if a is Chars || b is Chars {
        Err(RuntimeErrorView::Mismatch(op))
    } else if a is F32 || b is F32 {
        asked(floats, operator, a, b)
    } else {
        Ok(ValueView::Bool(op.holds(int_order(a->I32_0 as int, b->I32_0 as int))))
    }
}

/// The result of the test for equality: whether the values are equal, in
/// the sense of [`ValueView::equals`]; values of different variants are not.
/// Two single-precision numbers give the boolean that the answers hold for
/// them: see [`asked`].
pub open spec fn equal_to(a: ValueView, b: ValueView, floats: Seq<AnswerView>) -> Result<
    ValueView,
    RuntimeErrorView,
> {
    if a is F32 && b is F32 {
        asked(floats, BinaryOp::EqualTo, a, b)
    } else {
        Ok(ValueView::Bool(a.equals(b)))
    }
}

/// The result of a binary operator.
pub open spec fn binary(
    op: BinaryOp,
    a: ValueView,
    b: ValueView,
    floats: Seq<AnswerView>,
) -> Result<
    ValueView,
    RuntimeErrorView,
> {
    match op {
        BinaryOp::Arithmetic(op) => arithmetic(a, b, op, floats),
        BinaryOp::Relational(op) => relational(a, b, op, floats),
        BinaryOp::EqualTo => equal_to(a, b, floats),
    }
}

/// The trace of the evaluation of a call.
pub open spec fn call_trace(name: Seq<char>) -> Seq<char> {
    "evaluating call '"@ + name + "'"@
}

/// The trace of the entry into a function.
pub open spec fn entry_trace(name: Seq<char>) -> Seq<char> {
    "calling function '"@ + name + "'."@
}

/// The value of the expression `e` in the frame `frame`.
///
/// A variable has the value that the frame gives it, and none where that is
/// `Nil`. The operands of a binary operator are evaluated from left to
/// right. A call looks up the function in the frame, checks the number of
/// the arguments against the arity that the value of the function holds,
/// evaluates the arguments from left to right in the frame of the caller,
/// and runs the function with the global frame of the caller.
pub open spec fn eval_expr(
    p: ProgramView,
    level: Level,
    floats: Seq<AnswerView>,
    e: ExprView,
    frame: FrameView,
    out: Seq<Seq<char>>,
    fuel: nat,
) -> Evaluation
    decreases fuel, 0int, e, 0int,
{
    match e {
        ExprView::Var(name) => Evaluation {
            output: out,
            result: if frame.lookup(name) is Nil {
                Err(RuntimeErrorView::VariableNotFound(name))
            } else {
                Ok(frame.lookup(name))
            },
        },
        ExprView::Val(value) => Evaluation { output: out, result: Ok(value) },
        ExprView::Text(text) => Evaluation { output: out, result: Ok(ValueView::Chars(text)) },
        ExprView::Binary(op, a, b) => {
            let left = eval_expr(p, level, floats, *a, frame, out, fuel);
            match left.result {
                Err(_) => left,
                Ok(x) => {
                    let right = eval_expr(p, level, floats, *b, frame, left.output, fuel);
                    match right.result {
                        Err(_) => right,
                        Ok(
                            y,
                        ) => Evaluation { output: right.output, result: binary(op, x, y, floats) },
                    }
                },
            }
        },
        ExprView::Call(name, args) => {
            let traced = logged(level, out, Level::Debug, call_trace(name));
            match frame.lookup(name) {
                ValueView::Func(_, index, arity) => {
                    if arity != args.len() {
                        Evaluation {
                            output: traced,
                            result: Err(RuntimeErrorView::ArityMismatch(name)),
                        }
                    } else {
                        let given = eval_args(
                            p,
                            level,
                            floats,
                            args,
                            Seq::empty(),
                            frame,
                            traced,
                            fuel,
                        );
                        match given.result {
                            Err(failure) => Evaluation {
                                output: given.output,
                                result: Err(failure),
                            },
                            Ok(values) => match frame.globals {
                                None => Evaluation {
                                    output: given.output,
                                    result: Err(RuntimeErrorView::NoGlobals),
                                },
                                Some(globals) => {
                                    if index >= p.funcs.len() {
                                        Evaluation {
                                            output: given.output,
                                            result: Err(RuntimeErrorView::FunctionNotFound(name)),
                                        }
                                    } else if fuel == 0 {
                                        Evaluation {
                                            output: given.output,
                                            result: Err(RuntimeErrorView::OutOfFuel),
                                        }
                                    } else {
                                        call_function(
                                            p,
                                            level,
                                            floats,
                                            p.funcs[index as int],
                                            *globals,
                                            values,
                                            given.output,
                                            (fuel - 1) as nat,
                                        )
                                    }
                                },
                            },
                        }
                    }
                },
                _ => Evaluation {
                    output: traced,
                    result: Err(RuntimeErrorView::FunctionNotFound(name)),
                },
            }
        },
    }
}

/// The values of the arguments `args` of a call, of which those in `done`
/// have been evaluated already.
pub open spec fn eval_args(
    p: ProgramView,
    level: Level,
    floats: Seq<AnswerView>,
    args: Seq<ExprView>,
    done: Seq<ValueView>,
    frame: FrameView,
    out: Seq<Seq<char>>,
    fuel: nat,
) -> Arguments
    decreases fuel, 0int, args, args.len() - done.len(),
{
    if done.len() >= args.len() {
        Arguments { output: out, result: Ok(done) }
    } else {
        let one = eval_expr(p, level, floats, args[done.len() as int], frame, out, fuel);
        match one.result {
            Err(failure) => Arguments { output: one.output, result: Err(failure) },
            Ok(
                value,
            ) => eval_args(p, level, floats, args, done.push(value), frame, one.output, fuel),
        }
    }
}

/// The value of a call of the function `func` with the given arguments.
///
/// The number of the arguments is checked against the parameters. The body
/// runs in a new frame, which is linked to the global frame and binds the
/// parameters to the arguments in order. The value is the one that a
/// `return` gives, and `Nil` where the body ends without one.
pub open spec fn call_function(
    p: ProgramView,
    level: Level,
    floats: Seq<AnswerView>,
    func: FuncView,
    globals: FrameView,
    arguments: Seq<ValueView>,
    out: Seq<Seq<char>>,
    fuel: nat,
) -> Evaluation
    decreases fuel, 2int,
{
    let traced = logged(level, out, Level::Debug, entry_trace(func.name));
    if func.parameters.len() > arguments.len() {
        Evaluation { output: traced, result: Err(RuntimeErrorView::NotEnoughArguments(func.name)) }
    } else if func.parameters.len() < arguments.len() {
        Evaluation { output: traced, result: Err(RuntimeErrorView::TooManyArguments(func.name)) }
    } else {
        let locals = FrameView {
            globals: Some(Box::new(globals)),
            values: bound(
                Map::empty(),
                func.parameters,
                arguments,
                func.parameters.len() as int,
            ),
            parent: None,
        };
        let run = exec_block(p, level, floats, func.body.statements, 0, locals, traced, fuel);
        Evaluation {
            output: run.output,
            result: match run.result {
                Err(failure) => Err(failure),
                Ok((_, value)) => Ok(value),
            },
        }
    }
}

/// The effect of the statements of a block from the one at position `i` on:
/// they run in order, up to the first that returns or fails.
pub open spec fn exec_block(
    p: ProgramView,
    level: Level,
    floats: Seq<AnswerView>,
    statements: Seq<StmtView>,
    i: int,
    frame: FrameView,
    out: Seq<Seq<char>>,
    fuel: nat,
) -> Execution
    decreases fuel, 1int, statements, statements.len() - i,
{
    if !(0 <= i < statements.len()) {
        Execution { frame, output: out, result: Ok((Control::Next, ValueView::Nil)) }
    } else {
        let one = exec_stmt(p, level, floats, statements[i], frame, out, fuel);
        match one.result {
            Ok((Control::Next, _)) => exec_block(
                p,
                level,
                floats,
                statements,
                i + 1,
                one.frame,
                one.output,
                fuel,
            ),
            _ => one,
        }
    }
}

/// The effect of a statement.
///
/// A declaration does nothing. An assignment gives the variable the value
/// of the expression, in the frame of the call. `return` ends the function
/// with the value. `print` writes the textual form of the value as one line.
/// `while`: see [`exec_while`]. `if` takes a boolean: where it is true the
/// first block runs, else the second, if there is one; how the block ends
/// is how the statement ends.
pub open spec fn exec_stmt(
    p: ProgramView,
    level: Level,
    floats: Seq<AnswerView>,
    stmt: StmtView,
    frame: FrameView,
    out: Seq<Seq<char>>,
    fuel: nat,
) -> Execution
    decreases fuel, 1int, stmt, 1int,
{
    match stmt {
        StmtView::Let(_, _) => Execution {
            frame,
            output: logged(level, out, Level::Debug, "ignoring let statement"@),
            result: Ok((Control::Next, ValueView::Nil)),
        },
        StmtView::Assign(name, e) => {
            let traced = logged(level, out, Level::Debug, "executing assign statement"@);
            let value = eval_expr(p, level, floats, e, frame, traced, fuel);
            match value.result {
                Err(failure) => Execution { frame, output: value.output, result: Err(failure) },
                Ok(v) => Execution {
                    frame: frame.assign(name, v),
                    output: value.output,
                    result: Ok((Control::Next, ValueView::Nil)),
                },
            }
        },
        StmtView::Return(e) => {
            let traced = logged(level, out, Level::Debug, "executing return statement"@);
            let value = eval_expr(p, level, floats, e, frame, traced, fuel);
            match value.result {
                Err(failure) => Execution { frame, output: value.output, result: Err(failure) },
                Ok(v) => Execution {
                    frame,
                    output: value.output,
                    result: Ok((Control::Return, v)),
                },
            }
        },
        StmtView::Print(e) => {
            let traced = logged(level, out, Level::Debug, "executing print statement"@);
            let value = eval_expr(p, level, floats, e, frame, traced, fuel);
            match value.result {
                Err(failure) => Execution { frame, output: value.output, result: Err(failure) },
                Ok(v) => Execution {
                    frame,
                    output: value.output.push(v.text()),
                    result: Ok((Control::Next, ValueView::Nil)),
                },
            }
        },
        StmtView::While(_, _) => exec_while(
            p,
            level,
            floats,
            stmt,
            frame,
            logged(level, out, Level::Debug, "executing while statement"@),
            fuel,
        ),
        StmtView::IfElse(condition, first, second) => {
            let traced = logged(level, out, Level::Debug, "executing if else statement"@);
            let value = eval_expr(p, level, floats, condition, frame, traced, fuel);
            match value.result {
                Err(failure) => Execution { frame, output: value.output, result: Err(failure) },
                Ok(ValueView::Bool(true)) => exec_block(
                    p,
                    level,
                    floats,
                    first.statements,
                    0,
                    frame,
                    logged(level, value.output, Level::Debug, "executing if body"@),
                    fuel,
                ),
                Ok(ValueView::Bool(false)) => match second {
                    Some(block) => exec_block(
                        p,
                        level,
                        floats,
                        block.statements,
                        0,
                        frame,
                        logged(level, value.output, Level::Debug, "executing else body"@),
                        fuel,
                    ),
                    None => Execution {
                        frame,
                        output: value.output,
                        result: Ok((Control::Next, ValueView::Nil)),
                    },
                },
                Ok(_) => Execution {
                    frame,
                    output: value.output,
                    result: Err(RuntimeErrorView::ConditionNotBool),
                },
            }
        },
    }
}

/// The effect of the rounds of the loop `stmt`: as long as the condition
/// evaluates to `true`, the body runs; the loop ends when the condition
/// evaluates to something else, and a `return` in the body ends the loop
/// and the function.
pub open spec fn exec_while(
    p: ProgramView,
    level: Level,
    floats: Seq<AnswerView>,
    stmt: StmtView,
    frame: FrameView,
    out: Seq<Seq<char>>,
    fuel: nat,
) -> Execution
    decreases fuel, 1int, stmt, 0int,
{
    match stmt {
        StmtView::While(condition, body) => {
            let value = eval_expr(p, level, floats, condition, frame, out, fuel);
            match value.result {
                Err(failure) => Execution { frame, output: value.output, result: Err(failure) },
                Ok(ValueView::Bool(true)) => {
                    if fuel == 0 {
                        Execution {
                            frame,
                            output: value.output,
                            result: Err(RuntimeErrorView::OutOfFuel),
                        }
                    } else {
                        let round = exec_block(
                            p,
                            level,
                            floats,
                            body.statements,
                            0,
                            frame,
                            value.output,
                            fuel,
                        );
                        match round.result {
                            Ok((Control::Next, _)) => exec_while(
                                p,
                                level,
                                floats,
                                stmt,
                                round.frame,
                                round.output,
                                (fuel - 1) as nat,
                            ),
                            _ => round,
                        }
                    }
                },
                Ok(_) => Execution {
                    frame,
                    output: value.output,
                    result: Ok((Control::Next, ValueView::Nil)),
                },
            }
        },
        _ => Execution { frame, output: out, result: Ok((Control::Next, ValueView::Nil)) },
    }
}

/// The run of a program: the function that the symbol `main` of the program
/// names is called with the one argument `I32(1)`, in a global frame that
/// holds the value of every symbol of the program.
pub open spec fn run_program(
    p: ProgramView,
    level: Level,
    floats: Seq<AnswerView>,
    out: Seq<Seq<char>>,
    fuel: nat,
)
    -> Evaluation {
    run_entry(p, level, floats, logged(level, out, Level::Info, "Execute."@), fuel)
}

/// The run of a program, after its start was logged.
pub open spec fn run_entry(
    p: ProgramView,
    level: Level,
    floats: Seq<AnswerView>,
    out: Seq<Seq<char>>,
    fuel: nat,
)
    -> Evaluation {
    let started = logged(level, out, Level::Info, "Execute Program."@);
    let table = values_of(p.symbols.entries, p.symbols.entries.len() as int);
    if !table.contains_key("main"@) {
        Evaluation { output: started, result: Err(RuntimeErrorView::NoMain) }
    } else {
        match table["main"@] {
            ValueView::Func(_, index, _) => {
                if index >= p.funcs.len() {
                    Evaluation { output: started, result: Err(RuntimeErrorView::MainNotFunction) }
                } else {
                    let globals = FrameView { globals: None, values: table, parent: None };
                    let run = call_function(
                        p,
                        level,
                        floats,
                        p.funcs[index as int],
                        globals,
                        seq![ValueView::I32(1)],
                        started,
                        fuel,
                    );
                    match run.result {
                        Err(_) => run,
                        Ok(_) => Evaluation {
                            output: logged(level, run.output, Level::Info, "Program finished."@),
                            result: run.result,
                        },
                    }
                }
            },
            _ => Evaluation { output: started, result: Err(RuntimeErrorView::MainNotFunction) },
        }
    }
}

/// Whether a result is the failure for want of fuel.
pub open spec fn starved<T>(result: Result<T, RuntimeErrorView>) -> bool {
    result is Err && result->Err_0 is OutOfFuel
}

/// More fuel changes nothing: an evaluation that does not fail for want of
/// fuel has the same outcome with any greater amount of fuel.
pub proof fn lemma_fuel_expr(
    p: ProgramView,
    level: Level,
    floats: Seq<AnswerView>,
    e: ExprView,
    frame: FrameView,
    out: Seq<Seq<char>>,
    fuel: nat,
    more: nat,
)
    requires
        fuel <= more,
        !starved(eval_expr(p, level, floats, e, frame, out, fuel).result),
    ensures
        eval_expr(
            p,
            level,
            floats,
            e,
            frame,
            out,
            more,
        ) == eval_expr(p, level, floats, e, frame, out, fuel),
    decreases fuel, 0int, e, 0int,
{
    match e {
        ExprView::Binary(op, a, b) => {
            lemma_fuel_expr(p, level, floats, *a, frame, out, fuel, more);
            let left = eval_expr(p, level, floats, *a, frame, out, fuel);
            if left.result is Ok {
                lemma_fuel_expr(p, level, floats, *b, frame, left.output, fuel, more);
            }
        },
        ExprView::Call(name, args) => {
            let traced = logged(level, out, Level::Debug, call_trace(name));
            match frame.lookup(name) {
                ValueView::Func(_, index, arity) => {
                    if arity == args.len() {
                        lemma_fuel_args(
                            p,
                            level,
                            floats,
                            args,
                            Seq::empty(),
                            frame,
                            traced,
                            fuel,
                            more,
                        );
                        let given = eval_args(
                            p,
                            level,
                            floats,
                            args,
                            Seq::empty(),
                            frame,
                            traced,
                            fuel,
                        );
                        if given.result is Ok && frame.globals is Some && index < p.funcs.len() {
                            lemma_fuel_call(
                                p,
                                level,
                                floats,
                                p.funcs[index as int],
                                *frame.globals->Some_0,
                                given.result->Ok_0,
                                given.output,
                                (fuel - 1) as nat,
                                (more - 1) as nat,
                            );
                        }
                    }
                },
                _ => {},
            }
        },
        _ => {},
    }
}

/// See [`lemma_fuel_expr`].
pub proof fn lemma_fuel_args(
    p: ProgramView,
    level: Level,
    floats: Seq<AnswerView>,
    args: Seq<ExprView>,
    done: Seq<ValueView>,
    frame: FrameView,
    out: Seq<Seq<char>>,
    fuel: nat,
    more: nat,
)
    requires
        fuel <= more,
        !starved(eval_args(p, level, floats, args, done, frame, out, fuel).result),
    ensures
        eval_args(p, level, floats, args, done, frame, out, more) == eval_args(
            p,
            level,
            floats,
            args,
            done,
            frame,
            out,
            fuel,
        ),
    decreases fuel, 0int, args, args.len() - done.len(),
{
    if done.len() < args.len() {
        lemma_fuel_expr(p, level, floats, args[done.len() as int], frame, out, fuel, more);
        let one = eval_expr(p, level, floats, args[done.len() as int], frame, out, fuel);
        if one.result is Ok {
            lemma_fuel_args(
                p,
                level,
                floats,
                args,
                done.push(one.result->Ok_0),
                frame,
                one.output,
                fuel,
                more,
            );
        }
    }
}

/// See [`lemma_fuel_expr`].
pub proof fn lemma_fuel_call(
    p: ProgramView,
    level: Level,
    floats: Seq<AnswerView>,
    func: FuncView,
    globals: FrameView,
    arguments: Seq<ValueView>,
    out: Seq<Seq<char>>,
    fuel: nat,
    more: nat,
)
    requires
        fuel <= more,
        !starved(call_function(p, level, floats, func, globals, arguments, out, fuel).result),
    ensures
        call_function(p, level, floats, func, globals, arguments, out, more) == call_function(
            p,
            level,
            floats,
            func,
            globals,
            arguments,
            out,
            fuel,
        ),
    decreases fuel, 2int,
{
    if func.parameters.len() == arguments.len() {
        let locals = FrameView {
            globals: Some(Box::new(globals)),
            values: bound(
                Map::empty(),
                func.parameters,
                arguments,
                func.parameters.len() as int,
            ),
            parent: None,
        };
        lemma_fuel_block(
            p,
            level,
            floats,
            func.body.statements,
            0,
            locals,
            logged(level, out, Level::Debug, entry_trace(func.name)),
            fuel,
            more,
        );
    }
}

/// See [`lemma_fuel_expr`].
pub proof fn lemma_fuel_block(
    p: ProgramView,
    level: Level,
    floats: Seq<AnswerView>,
    statements: Seq<StmtView>,
    i: int,
    frame: FrameView,
    out: Seq<Seq<char>>,
    fuel: nat,
    more: nat,
)
    requires
        fuel <= more,
        !starved(exec_block(p, level, floats, statements, i, frame, out, fuel).result),
    ensures
        exec_block(p, level, floats, statements, i, frame, out, more) == exec_block(
            p,
            level,
            floats,
            statements,
            i,
            frame,
            out,
            fuel,
        ),
    decreases fuel, 1int, statements, statements.len() - i,
{
    if 0 <= i < statements.len() {
        lemma_fuel_stmt(p, level, floats, statements[i], frame, out, fuel, more);
        let one = exec_stmt(p, level, floats, statements[i], frame, out, fuel);
        if one.result is Ok && one.result->Ok_0.0 == Control::Next {
            lemma_fuel_block(
                p,
                level,
                floats,
                statements,
                i + 1,
                one.frame,
                one.output,
                fuel,
                more,
            );
        }
    }
}

/// See [`lemma_fuel_expr`].
pub proof fn lemma_fuel_stmt(
    p: ProgramView,
    level: Level,
    floats: Seq<AnswerView>,
    stmt: StmtView,
    frame: FrameView,
    out: Seq<Seq<char>>,
    fuel: nat,
    more: nat,
)
    requires
        fuel <= more,
        !starved(exec_stmt(p, level, floats, stmt, frame, out, fuel).result),
    ensures
        exec_stmt(
            p,
            level,
            floats,
            stmt,
            frame,
            out,
            more,
        ) == exec_stmt(p, level, floats, stmt, frame, out, fuel),
    decreases fuel, 1int, stmt, 1int,
{
    match stmt {
        StmtView::Let(_, _) => {},
        StmtView::Assign(_, e) => {
            let traced = logged(level, out, Level::Debug, "executing assign statement"@);
            lemma_fuel_expr(p, level, floats, e, frame, traced, fuel, more);
        },
        StmtView::Return(e) => {
            let traced = logged(level, out, Level::Debug, "executing return statement"@);
            lemma_fuel_expr(p, level, floats, e, frame, traced, fuel, more);
        },
        StmtView::Print(e) => {
            let traced = logged(level, out, Level::Debug, "executing print statement"@);
            lemma_fuel_expr(p, level, floats, e, frame, traced, fuel, more);
        },
        StmtView::While(_, _) => {
            let traced = logged(level, out, Level::Debug, "executing while statement"@);
            lemma_fuel_while(p, level, floats, stmt, frame, traced, fuel, more);
        },
        StmtView::IfElse(condition, first, second) => {
            let traced = logged(level, out, Level::Debug, "executing if else statement"@);
            lemma_fuel_expr(p, level, floats, condition, frame, traced, fuel, more);
            let value = eval_expr(p, level, floats, condition, frame, traced, fuel);
            if value.result == Ok::<ValueView, RuntimeErrorView>(ValueView::Bool(true)) {
                lemma_fuel_block(
                    p,
                    level,
                    floats,
                    first.statements,
                    0,
                    frame,
                    logged(level, value.output, Level::Debug, "executing if body"@),
                    fuel,
                    more,
                );
            } else if value.result == Ok::<ValueView, RuntimeErrorView>(ValueView::Bool(false))
                && second is Some {
                lemma_fuel_block(
                    p,
                    level,
                    floats,
                    second->Some_0.statements,
                    0,
                    frame,
                    logged(level, value.output, Level::Debug, "executing else body"@),
                    fuel,
                    more,
                );
            }
        },
    }
}

/// See [`lemma_fuel_expr`].
pub proof fn lemma_fuel_while(
    p: ProgramView,
    level: Level,
    floats: Seq<AnswerView>,
    stmt: StmtView,
    frame: FrameView,
    out: Seq<Seq<char>>,
    fuel: nat,
    more: nat,
)
    requires
        fuel <= more,
        !starved(exec_while(p, level, floats, stmt, frame, out, fuel).result),
    ensures
        exec_while(
            p,
            level,
            floats,
            stmt,
            frame,
            out,
            more,
        ) == exec_while(p, level, floats, stmt, frame, out, fuel),
    decreases fuel, 1int, stmt, 0int,
{
    match stmt {
        StmtView::While(condition, body) => {
            lemma_fuel_expr(p, level, floats, condition, frame, out, fuel, more);
            let value = eval_expr(p, level, floats, condition, frame, out, fuel);
            if value.result == Ok::<ValueView, RuntimeErrorView>(ValueView::Bool(true)) {
                lemma_fuel_block(
                    p,
                    level,
                    floats,
                    body.statements,
                    0,
                    frame,
                    value.output,
                    fuel,
                    more,
                );
                let round = exec_block(
                    p,
                    level,
                    floats,
                    body.statements,
                    0,
                    frame,
                    value.output,
                    fuel,
                );
                if round.result is Ok && round.result->Ok_0.0 == Control::Next {
                    lemma_fuel_while(
                        p,
                        level,
                        floats,
                        stmt,
                        round.frame,
                        round.output,
                        (fuel - 1) as nat,
                        (more - 1) as nat,
                    );
                }
            }
        },
        _ => {},
    }
}

/// More fuel changes nothing: a run of a program that does not fail for
/// want of fuel has the same outcome with any greater amount of fuel.
pub proof fn lemma_fuel_program(
    p: ProgramView,
    level: Level,
    floats: Seq<AnswerView>,
    out: Seq<Seq<char>>,
    fuel: nat,
    more: nat,
)
    requires
        fuel <= more,
        !starved(run_program(p, level, floats, out, fuel).result),
    ensures
        run_program(p, level, floats, out, more) == run_program(p, level, floats, out, fuel),
{
    let started = logged(
        level,
        logged(level, out, Level::Info, "Execute."@),
        Level::Info,
        "Execute Program."@,
    );
    let table = values_of(p.symbols.entries, p.symbols.entries.len() as int);
    if table.contains_key("main"@) {
        match table["main"@] {
            ValueView::Func(_, index, _) => {
                if index < p.funcs.len() {
                    lemma_fuel_call(
                        p,
                        level,
                        floats,
                        p.funcs[index as int],
                        FrameView { globals: None, values: table, parent: None },
                        seq![ValueView::I32(1)],
                        started,
                        fuel,
                        more,
                    );
                }
            },
            _ => {},
        }
    }
}

/// Whether a result is the failure for want of an answer.
pub open spec fn pending<T>(result: Result<T, RuntimeErrorView>) -> bool {
    result is Err && result->Err_0 is FloatPending
}

/// Whether the answers `longer` give every answer that `floats` give.
pub open spec fn extends(floats: Seq<AnswerView>, longer: Seq<AnswerView>) -> bool {
    forall|op: BinaryOp, left: ValueView, right: ValueView|
        (#[trigger] answer(floats, op, left, right)) is Some ==> answer(longer, op, left, right)
            == answer(floats, op, left, right)
}

/// An answer that is recorded behind others changes none of them.
pub proof fn lemma_record_extends(floats: Seq<AnswerView>, one: AnswerView)
    ensures
        extends(floats, floats.push(one)),
{
    assert forall|op: BinaryOp, left: ValueView, right: ValueView|
        (#[trigger] answer(floats, op, left, right)) is Some implies answer(
        floats.push(one),
        op,
        left,
        right,
    ) == answer(floats, op, left, right) by {
        lemma_answer_kept(floats, one, 0, op, left, right);
    }
}

/// See [`lemma_record_extends`].
proof fn lemma_answer_kept(
    floats: Seq<AnswerView>,
    one: AnswerView,
    from: int,
    op: BinaryOp,
    left: ValueView,
    right: ValueView,
)
    requires
        0 <= from,
        answer_from(floats, from, op, left, right) is Some,
    ensures
        answer_from(floats.push(one), from, op, left, right) == answer_from(
            floats,
            from,
            op,
            left,
            right,
        ),
    decreases floats.len() - from,
{
    if from < floats.len() {
        assert(floats.push(one)[from] == floats[from]);
        if !answers_to(floats[from], op, left, right) {
            lemma_answer_kept(floats, one, from + 1, op, left, right);
        }
    }
}

/// More answers change nothing: an evaluation that does not fail for want
/// of an answer has the same outcome with any answers that extend those
/// that it was given.
pub proof fn lemma_answers_expr(
    p: ProgramView,
    level: Level,
    floats: Seq<AnswerView>,
    longer: Seq<AnswerView>,
    e: ExprView,
    frame: FrameView,
    out: Seq<Seq<char>>,
    fuel: nat,
)
    requires
        extends(floats, longer),
        !pending(eval_expr(p, level, floats, e, frame, out, fuel).result),
    ensures
        eval_expr(
            p,
            level,
            longer,
            e,
            frame,
            out,
            fuel,
        ) == eval_expr(p, level, floats, e, frame, out, fuel),
    decreases fuel, 0int, e, 0int,
{
    match e {
        ExprView::Binary(op, a, b) => {
            lemma_answers_expr(p, level, floats, longer, *a, frame, out, fuel);
            let left = eval_expr(p, level, floats, *a, frame, out, fuel);
            if left.result is Ok {
                lemma_answers_expr(p, level, floats, longer, *b, frame, left.output, fuel);
            }
        },
        ExprView::Call(name, args) => {
            let traced = logged(level, out, Level::Debug, call_trace(name));
            match frame.lookup(name) {
                ValueView::Func(_, index, arity) => {
                    if arity == args.len() {
                        lemma_answers_args(
                            p,
                            level,
                            floats,
                            longer,
                            args,
                            Seq::empty(),
                            frame,
                            traced,
                            fuel,
                        );
                        let given = eval_args(
                            p,
                            level,
                            floats,
                            args,
                            Seq::empty(),
                            frame,
                            traced,
                            fuel,
                        );
                        if given.result is Ok && frame.globals is Some && index < p.funcs.len()
                            && fuel > 0 {
                            lemma_answers_call(
                                p,
                                level,
                                floats,
                                longer,
                                p.funcs[index as int],
                                *frame.globals->Some_0,
                                given.result->Ok_0,
                                given.output,
                                (fuel - 1) as nat,
                            );
                        }
                    }
                },
                _ => {},
            }
        },
        _ => {},
    }
}

/// See [`lemma_answers_expr`].
pub proof fn lemma_answers_args(
    p: ProgramView,
    level: Level,
    floats: Seq<AnswerView>,
    longer: Seq<AnswerView>,
    args: Seq<ExprView>,
    done: Seq<ValueView>,
    frame: FrameView,
    out: Seq<Seq<char>>,
    fuel: nat,
)
    requires
        extends(floats, longer),
        !pending(eval_args(p, level, floats, args, done, frame, out, fuel).result),
    ensures
        eval_args(p, level, longer, args, done, frame, out, fuel) == eval_args(
            p,
            level,
            floats,
            args,
            done,
            frame,
            out,
            fuel,
        ),
    decreases fuel, 0int, args, args.len() - done.len(),
{
    if done.len() < args.len() {
        lemma_answers_expr(p, level, floats, longer, args[done.len() as int], frame, out, fuel);
        let one = eval_expr(p, level, floats, args[done.len() as int], frame, out, fuel);
        if one.result is Ok {
            lemma_answers_args(
                p,
                level,
                floats,
                longer,
                args,
                done.push(one.result->Ok_0),
                frame,
                one.output,
                fuel,
            );
        }
    }
}

/// See [`lemma_answers_expr`].
pub proof fn lemma_answers_call(
    p: ProgramView,
    level: Level,
    floats: Seq<AnswerView>,
    longer: Seq<AnswerView>,
    func: FuncView,
    globals: FrameView,
    arguments: Seq<ValueView>,
    out: Seq<Seq<char>>,
    fuel: nat,
)
    requires
        extends(floats, longer),
        !pending(call_function(p, level, floats, func, globals, arguments, out, fuel).result),
    ensures
        call_function(p, level, longer, func, globals, arguments, out, fuel) == call_function(
            p,
            level,
            floats,
            func,
            globals,
            arguments,
            out,
            fuel,
        ),
    decreases fuel, 2int,
{
    if func.parameters.len() == arguments.len() {
        let locals = FrameView {
            globals: Some(Box::new(globals)),
            values: bound(
                Map::empty(),
                func.parameters,
                arguments,
                func.parameters.len() as int,
            ),
            parent: None,
        };
        lemma_answers_block(
            p,
            level,
            floats,
            longer,
            func.body.statements,
            0,
            locals,
            logged(level, out, Level::Debug, entry_trace(func.name)),
            fuel,
        );
    }
}

/// See [`lemma_answers_expr`].
pub proof fn lemma_answers_block(
    p: ProgramView,
    level: Level,
    floats: Seq<AnswerView>,
    longer: Seq<AnswerView>,
    statements: Seq<StmtView>,
    i: int,
    frame: FrameView,
    out: Seq<Seq<char>>,
    fuel: nat,
)
    requires
        extends(floats, longer),
        !pending(exec_block(p, level, floats, statements, i, frame, out, fuel).result),
    ensures
        exec_block(p, level, longer, statements, i, frame, out, fuel) == exec_block(
            p,
            level,
            floats,
            statements,
            i,
            frame,
            out,
            fuel,
        ),
    decreases fuel, 1int, statements, statements.len() - i,
{
    if 0 <= i < statements.len() {
        lemma_answers_stmt(p, level, floats, longer, statements[i], frame, out, fuel);
        let one = exec_stmt(p, level, floats, statements[i], frame, out, fuel);
        if one.result is Ok && one.result->Ok_0.0 == Control::Next {
            lemma_answers_block(
                p,
                level,
                floats,
                longer,
                statements,
                i + 1,
                one.frame,
                one.output,
                fuel,
            );
        }
    }
}

/// See [`lemma_answers_expr`].
pub proof fn lemma_answers_stmt(
    p: ProgramView,
    level: Level,
    floats: Seq<AnswerView>,
    longer: Seq<AnswerView>,
    stmt: StmtView,
    frame: FrameView,
    out: Seq<Seq<char>>,
    fuel: nat,
)
    requires
        extends(floats, longer),
        !pending(exec_stmt(p, level, floats, stmt, frame, out, fuel).result),
    ensures
        exec_stmt(
            p,
            level,
            longer,
            stmt,
            frame,
            out,
            fuel,
        ) == exec_stmt(p, level, floats, stmt, frame, out, fuel),
    decreases fuel, 1int, stmt, 1int,
{
    match stmt {
        StmtView::Let(_, _) => {},
        StmtView::Assign(_, e) => {
            let traced = logged(level, out, Level::Debug, "executing assign statement"@);
            lemma_answers_expr(p, level, floats, longer, e, frame, traced, fuel);
        },
        StmtView::Return(e) => {
            let traced = logged(level, out, Level::Debug, "executing return statement"@);
            lemma_answers_expr(p, level, floats, longer, e, frame, traced, fuel);
        },
        StmtView::Print(e) => {
            let traced = logged(level, out, Level::Debug, "executing print statement"@);
            lemma_answers_expr(p, level, floats, longer, e, frame, traced, fuel);
        },
        StmtView::While(_, _) => {
            let traced = logged(level, out, Level::Debug, "executing while statement"@);
            lemma_answers_while(p, level, floats, longer, stmt, frame, traced, fuel);
        },
        StmtView::IfElse(condition, first, second) => {
            let traced = logged(level, out, Level::Debug, "executing if else statement"@);
            lemma_answers_expr(p, level, floats, longer, condition, frame, traced, fuel);
            let value = eval_expr(p, level, floats, condition, frame, traced, fuel);
            if value.result == Ok::<ValueView, RuntimeErrorView>(ValueView::Bool(true)) {
                lemma_answers_block(
                    p,
                    level,
                    floats,
                    longer,
                    first.statements,
                    0,
                    frame,
                    logged(level, value.output, Level::Debug, "executing if body"@),
                    fuel,
                );
            } else if value.result == Ok::<ValueView, RuntimeErrorView>(ValueView::Bool(false))
                && second is Some {
                lemma_answers_block(
                    p,
                    level,
                    floats,
                    longer,
                    second->Some_0.statements,
                    0,
                    frame,
                    logged(level, value.output, Level::Debug, "executing else body"@),
                    fuel,
                );
            }
        },
    }
}

/// See [`lemma_answers_expr`].
pub proof fn lemma_answers_while(
    p: ProgramView,
    level: Level,
    floats: Seq<AnswerView>,
    longer: Seq<AnswerView>,
    stmt: StmtView,
    frame: FrameView,
    out: Seq<Seq<char>>,
    fuel: nat,
)
    requires
        extends(floats, longer),
        !pending(exec_while(p, level, floats, stmt, frame, out, fuel).result),
    ensures
        exec_while(
            p,
            level,
            longer,
            stmt,
            frame,
            out,
            fuel,
        ) == exec_while(p, level, floats, stmt, frame, out, fuel),
    decreases fuel, 1int, stmt, 0int,
{
    match stmt {
        StmtView::While(condition, body) => {
            lemma_answers_expr(p, level, floats, longer, condition, frame, out, fuel);
            let value = eval_expr(p, level, floats, condition, frame, out, fuel);
            if value.result == Ok::<ValueView, RuntimeErrorView>(
                ValueView::Bool(true),
            ) && fuel > 0 {
                lemma_answers_block(
                    p,
                    level,
                    floats,
                    longer,
                    body.statements,
                    0,
                    frame,
                    value.output,
                    fuel,
                );
                let round = exec_block(
                    p,
                    level,
                    floats,
                    body.statements,
                    0,
                    frame,
                    value.output,
                    fuel,
                );
                if round.result is Ok && round.result->Ok_0.0 == Control::Next {
                    lemma_answers_while(
                        p,
                        level,
                        floats,
                        longer,
                        stmt,
                        round.frame,
                        round.output,
                        (fuel - 1) as nat,
                    );
                }
            }
        },
        _ => {},
    }
}

/// More answers change nothing: a run of a program that does not fail for
/// want of an answer has the same outcome with any answers that extend
/// those that it was given.
pub proof fn lemma_answers_program(
    p: ProgramView,
    level: Level,
    floats: Seq<AnswerView>,
    longer: Seq<AnswerView>,
    out: Seq<Seq<char>>,
    fuel: nat,
)
    requires
        extends(floats, longer),
        !pending(run_program(p, level, floats, out, fuel).result),
    ensures
        run_program(p, level, longer, out, fuel) == run_program(p, level, floats, out, fuel),
{
    let started = logged(
        level,
        logged(level, out, Level::Info, "Execute."@),
        Level::Info,
        "Execute Program."@,
    );
    let table = values_of(p.symbols.entries, p.symbols.entries.len() as int);
    if table.contains_key("main"@) {
        match table["main"@] {
            ValueView::Func(_, index, _) => {
                if index < p.funcs.len() {
                    lemma_answers_call(
                        p,
                        level,
                        floats,
                        longer,
                        p.funcs[index as int],
                        FrameView { globals: None, values: table, parent: None },
                        seq![ValueView::I32(1)],
                        started,
                        fuel,
                    );
                }
            },
            _ => {},
        }
    }
}

/// A function with an empty body returns `Nil`, whatever it is given, as
/// long as it is given as many arguments as it has parameters.
pub proof fn lemma_empty_body_returns_nil(
    p: ProgramView,
    level: Level,
    floats: Seq<AnswerView>,
    func: FuncView,
    globals: FrameView,
    arguments: Seq<ValueView>,
    out: Seq<Seq<char>>,
    fuel: nat,
)
    requires
        func.body.statements.len() == 0,
        func.parameters.len() == arguments.len(),
    ensures
        call_function(p, level, floats, func, globals, arguments, out, fuel).result == Ok::<
            ValueView,
            RuntimeErrorView,
        >(ValueView::Nil),
        call_function(p, level, floats, func, globals, arguments, out, fuel).output == logged(
            level,
            out,
            Level::Debug,
            entry_trace(func.name),
        ),
{
}

/// A function without parameters that is called without arguments runs its
/// body: the call ends as the body ends, in a frame without values.
pub proof fn lemma_no_parameters_no_arguments(
    p: ProgramView,
    level: Level,
    floats: Seq<AnswerView>,
    func: FuncView,
    globals: FrameView,
    out: Seq<Seq<char>>,
    fuel: nat,
)
    requires
        func.parameters.len() == 0,
    ensures
        ({
            let run = exec_block(
                p,
                level,
                floats,
                func.body.statements,
                0,
                FrameView { globals: Some(Box::new(globals)), values: Map::empty(), parent: None },
                logged(level, out, Level::Debug, entry_trace(func.name)),
                fuel,
            );
            let call = call_function(p, level, floats, func, globals, Seq::empty(), out, fuel);
            &&& call.output == run.output
            &&& run.result is Err ==> call.result is Err && call.result->Err_0 == run.result->Err_0
            &&& run.result is Ok ==> call.result is Ok && call.result->Ok_0 == run.result->Ok_0.1
        }),
{
}

/// A call with more or with fewer arguments than the function has
/// parameters fails, and the body does not run.
pub proof fn lemma_wrong_arity_is_fatal(
    p: ProgramView,
    level: Level,
    floats: Seq<AnswerView>,
    func: FuncView,
    globals: FrameView,
    arguments: Seq<ValueView>,
    out: Seq<Seq<char>>,
    fuel: nat,
)
    requires
        func.parameters.len() != arguments.len(),
    ensures
        call_function(p, level, floats, func, globals, arguments, out, fuel).result == Err::<
            ValueView,
            RuntimeErrorView,
        >(
            if func.parameters.len() > arguments.len() {
                RuntimeErrorView::NotEnoughArguments(func.name)
            } else {
                RuntimeErrorView::TooManyArguments(func.name)
            },
        ),
        call_function(p, level, floats, func, globals, arguments, out, fuel).output == logged(
            level,
            out,
            Level::Debug,
            entry_trace(func.name),
        ),
{
}

/// A call expression with another number of arguments than the value of
/// the function says that it takes fails, and no argument is evaluated.
pub proof fn lemma_call_with_wrong_arity_is_fatal(
    p: ProgramView,
    level: Level,
    floats: Seq<AnswerView>,
    name: Seq<char>,
    args: Seq<ExprView>,
    frame: FrameView,
    out: Seq<Seq<char>>,
    fuel: nat,
)
    requires
        frame.lookup(name) is Func,
        frame.lookup(name)->Func_2 != args.len(),
    ensures
        eval_expr(p, level, floats, ExprView::Call(name, args), frame, out, fuel).result == Err::<
            ValueView,
            RuntimeErrorView,
        >(RuntimeErrorView::ArityMismatch(name)),
        eval_expr(p, level, floats, ExprView::Call(name, args), frame, out, fuel).output == logged(
            level,
            out,
            Level::Debug,
            call_trace(name),
        ),
{
}

/// An `if` without `else` whose condition is false does nothing: the frame
/// stays as it is, nothing is written but what the condition writes, and
/// the next statement follows.
pub proof fn lemma_if_false_does_nothing(
    p: ProgramView,
    level: Level,
    floats: Seq<AnswerView>,
    condition: ExprView,
    first: BlockView,
    frame: FrameView,
    out: Seq<Seq<char>>,
    fuel: nat,
)
    requires
        eval_expr(
            p,
            level,
            floats,
            condition,
            frame,
            logged(level, out, Level::Debug, "executing if else statement"@),
            fuel,
        ).result == Ok::<ValueView, RuntimeErrorView>(ValueView::Bool(false)),
    ensures
        exec_stmt(p, level, floats, StmtView::IfElse(condition, first, None), frame, out, fuel) == (
        Execution {
            frame,
            output: eval_expr(
                p,
                level,
                floats,
                condition,
                frame,
                logged(level, out, Level::Debug, "executing if else statement"@),
                fuel,
            ).output,
            result: Ok((Control::Next, ValueView::Nil)),
        }),
{
}

/// A loop whose condition is not true at first never runs its body: the
/// frame stays as it is, nothing is written but what the condition writes,
/// and the next statement follows.
pub proof fn lemma_while_false_never_runs(
    p: ProgramView,
    level: Level,
    floats: Seq<AnswerView>,
    condition: ExprView,
    body: BlockView,
    frame: FrameView,
    out: Seq<Seq<char>>,
    fuel: nat,
)
    requires
        eval_expr(
            p,
            level,
            floats,
            condition,
            frame,
            logged(level, out, Level::Debug, "executing while statement"@),
            fuel,
        ).result is Ok,
        eval_expr(
            p,
            level,
            floats,
            condition,
            frame,
            logged(level, out, Level::Debug, "executing while statement"@),
            fuel,
        ).result->Ok_0 != ValueView::Bool(true),
    ensures
        exec_stmt(
            p,
            level,
            floats,
            StmtView::While(condition, body),
            frame,
            out,
            fuel,
        ) == (Execution {
            frame,
            output: eval_expr(
                p,
                level,
                floats,
                condition,
                frame,
                logged(level, out, Level::Debug, "executing while statement"@),
                fuel,
            ).output,
            result: Ok((Control::Next, ValueView::Nil)),
        }),
{
}

/// A string and an integer are joined by `Add` into the string followed by
/// the decimal notation of the integer.
pub proof fn lemma_string_plus_integer(text: Seq<char>, i: i32, floats: Seq<AnswerView>)
    ensures
        arithmetic(ValueView::Chars(text), ValueView::I32(i), ArithmeticOp::Add, floats) == Ok::<
            ValueView,
            RuntimeErrorView,
        >(ValueView::Chars(text + decimal(i as int))),
{
}

} // verus!
