//! The failures of a run. Each of them ends the run; none is recovered from.

use vstd::prelude::*;
use vstd::string::StringExecFns;
use crate::text::{join3, join5};
use crate::token::{Category, Token, TokenView};
use crate::tree::{ArithmeticOp, BinaryOp, RelationalOp};
use crate::value::{Value, ValueView};

verus! {

/// A failure of the parser: the tokens are not a program of the language.
/// Each variant holds the token that was found.
#[derive(Debug)]
pub enum ParseError {
    /// A token of the given category was expected.
    Expected(Category, Token),
    /// The token starts neither a function nor a declaration.
    UnexpectedInProgram(Token),
    /// The token starts no statement.
    UnexpectedInBlock(Token),
    /// A value or an operator was expected.
    ExpectedValue(Token),
}

/// The model of a failure of the parser.
pub enum ParseErrorView {
    Expected(Category, TokenView),
    UnexpectedInProgram(TokenView),
    UnexpectedInBlock(TokenView),
    ExpectedValue(TokenView),
}

impl View for ParseError {
    type V = ParseErrorView;

    open spec fn view(&self) -> ParseErrorView {
        match self {
            ParseError::Expected(category, found) => ParseErrorView::Expected(*category, found@),
            ParseError::UnexpectedInProgram(found) => ParseErrorView::UnexpectedInProgram(found@),
            ParseError::UnexpectedInBlock(found) => ParseErrorView::UnexpectedInBlock(found@),
            ParseError::ExpectedValue(found) => ParseErrorView::ExpectedValue(found@),
        }
    }
}

impl ParseErrorView {
    /// The message of the failure.
    pub open spec fn message(self) -> Seq<char> {
        match self {
            ParseErrorView::Expected(category, found) => "Expected '"@ + category.name()
                + "' but found '"@ + found.text() + "'"@,
            ParseErrorView::UnexpectedInProgram(found) => "Unexpected token `"@ + found.text()
                + "` while parsing program."@,
            ParseErrorView::UnexpectedInBlock(found) => "Unexpected token in block: '"@
                + found.text() + "'"@,
            ParseErrorView::ExpectedValue(found) => "Expected value but found '"@ + found.text()
                + "'"@,
        }
    }
}

/// A failure of the analysis of a program.
#[derive(Debug)]
pub enum AnalysisError {
    /// Two declarations of the program have the given name.
    DuplicateIdentifier(String),
    /// Two parameters or variables of a function have one name: the name,
    /// and the name of the function.
    DuplicateInFunction(String, String),
    /// A variable is declared or assigned to that the table of the function
    /// does not hold: the name, and the name of the function.
    Undeclared(String, String),
}

/// The model of a failure of the analysis.
pub enum AnalysisErrorView {
    DuplicateIdentifier(Seq<char>),
    DuplicateInFunction(Seq<char>, Seq<char>),
    Undeclared(Seq<char>, Seq<char>),
}

impl View for AnalysisError {
    type V = AnalysisErrorView;

    open spec fn view(&self) -> AnalysisErrorView {
        match self {
            AnalysisError::DuplicateIdentifier(name) => AnalysisErrorView::DuplicateIdentifier(
                name@,
            ),
            AnalysisError::DuplicateInFunction(name, function) =>
                AnalysisErrorView::DuplicateInFunction(name@, function@),
            AnalysisError::Undeclared(name, function) => AnalysisErrorView::Undeclared(
                name@,
                function@,
            ),
        }
    }
}

impl AnalysisErrorView {
    /// The message of the failure.
    pub open spec fn message(self) -> Seq<char> {
        match self {
            AnalysisErrorView::DuplicateIdentifier(name) => "Duplicate identifier '"@ + name
                + "'!"@,
            AnalysisErrorView::DuplicateInFunction(name, function) =>
                "Duplicate parameter name '"@ + name + "' in function "@ + function + "!"@,
            AnalysisErrorView::Undeclared(name, function) => "Variable '"@ + name
                + "' used before declaration in function "@ + function + "!"@,
        }
    }
}

/// The kinds of value that no binary operator takes.
#[derive(Debug, Clone, Copy, PartialEq, Eq, Structural)]
pub enum Kind {
    Nil,
    Bool,
    Func,
}

impl Kind {
    /// The name of the kind.
    pub open spec fn name(self) -> Seq<char> {
        match self {
            Kind::Nil => "Nil"@,
            Kind::Bool => "Bool"@,
            Kind::Func => "Func"@,
        }
    }

    /// The name of the kind, as a string.
    pub fn to_text(self) -> (r: &'static str)
        ensures
            r@ == self.name(),
    {
        match self {
            Kind::Nil => "Nil",
            Kind::Bool => "Bool",
            Kind::Func => "Func",
        }
    }
}

/// A failure of the execution of a program.
#[derive(Debug)]
pub enum RuntimeError {
    /// The program has no symbol `main`.
    NoMain,
    /// The symbol `main` is not a function.
    MainNotFunction,
    /// A call was made from a frame without a link to the global frame.
    NoGlobals,
    /// The named function was given fewer arguments than it has parameters.
    NotEnoughArguments(String),
    /// The named function was given more arguments than it has parameters.
    TooManyArguments(String),
    /// A call of the named function has not as many arguments as the value
    /// of the function says that it takes.
    ArityMismatch(String),
    /// The named variable has no value.
    VariableNotFound(String),
    /// The name that a call gives does not stand for a function.
    FunctionNotFound(String),
    /// The left operand of the operator is of a kind that it does not take.
    LeftOperand(BinaryOp, Kind),
    /// The right operand of the operator is of a kind that it does not take.
    RightOperand(BinaryOp, Kind),
    /// An arithmetic operator other than addition was given a string.
    CharsOperation(ArithmeticOp),
    /// The operands of a comparison are of different types.
    Mismatch(RelationalOp),
    /// The condition of an `if` is not a boolean.
    ConditionNotBool,
    /// The operation is one on single-precision numbers to which the run
    /// was given no answer: the operator and the two operands.
    FloatPending(BinaryOp, Value, Value),
    /// The result of the operation is more than a 32-bit integer holds.
    Overflow(ArithmeticOp),
    /// A division by zero.
    DivisionByZero,
    /// The run has used up the fuel that it was given.
    OutOfFuel,
}

/// The model of a failure of the execution.
pub enum RuntimeErrorView {
    NoMain,
    MainNotFunction,
    NoGlobals,
    NotEnoughArguments(Seq<char>),
    TooManyArguments(Seq<char>),
    ArityMismatch(Seq<char>),
    VariableNotFound(Seq<char>),
    FunctionNotFound(Seq<char>),
    LeftOperand(BinaryOp, Kind),
    RightOperand(BinaryOp, Kind),
    CharsOperation(ArithmeticOp),
    Mismatch(RelationalOp),
    ConditionNotBool,
    FloatPending(BinaryOp, ValueView, ValueView),
    Overflow(ArithmeticOp),
    DivisionByZero,
    OutOfFuel,
}

impl View for RuntimeError {
    type V = RuntimeErrorView;

    open spec fn view(&self) -> RuntimeErrorView {
        match self {
            RuntimeError::NoMain => RuntimeErrorView::NoMain,
            RuntimeError::MainNotFunction => RuntimeErrorView::MainNotFunction,
            RuntimeError::NoGlobals => RuntimeErrorView::NoGlobals,
            RuntimeError::NotEnoughArguments(name) => RuntimeErrorView::NotEnoughArguments(name@),
            RuntimeError::TooManyArguments(name) => RuntimeErrorView::TooManyArguments(name@),
            RuntimeError::ArityMismatch(name) => RuntimeErrorView::ArityMismatch(name@),
            RuntimeError::VariableNotFound(name) => RuntimeErrorView::VariableNotFound(name@),
            RuntimeError::FunctionNotFound(name) => RuntimeErrorView::FunctionNotFound(name@),
            RuntimeError::LeftOperand(op, kind) => RuntimeErrorView::LeftOperand(*op, *kind),
            RuntimeError::RightOperand(op, kind) => RuntimeErrorView::RightOperand(*op, *kind),
            RuntimeError::CharsOperation(op) => RuntimeErrorView::CharsOperation(*op),
            RuntimeError::Mismatch(op) => RuntimeErrorView::Mismatch(*op),
            RuntimeError::ConditionNotBool => RuntimeErrorView::ConditionNotBool,
            RuntimeError::FloatPending(op, a, b) => RuntimeErrorView::FloatPending(*op, a@, b@),
            RuntimeError::Overflow(op) => RuntimeErrorView::Overflow(*op),
            RuntimeError::DivisionByZero => RuntimeErrorView::DivisionByZero,
            RuntimeError::OutOfFuel => RuntimeErrorView::OutOfFuel,
        }
    }
}

impl RuntimeErrorView {
    /// The message of the failure.
    pub open spec fn message(self) -> Seq<char> {
        match self {
            RuntimeErrorView::NoMain => "Cannot find 'main' symbol!"@,
            RuntimeErrorView::MainNotFunction => "Symbol 'main' is not a function!"@,
            RuntimeErrorView::NoGlobals => "Can't find globals in current frame!"@,
            RuntimeErrorView::NotEnoughArguments(name) => "Not enough arguments for function "@
                + name + "!"@,
            RuntimeErrorView::TooManyArguments(name) => "Too many arguments for function "@ + name
                + "!"@,
            RuntimeErrorView::ArityMismatch(name) => "Wrong number of arguments in a call of '"@
                + name + "'!"@,
            RuntimeErrorView::VariableNotFound(name) => "Can't find variable '"@ + name + "'!"@,
            RuntimeErrorView::FunctionNotFound(name) => "Can't find function '"@ + name
                + "' in globals!"@,
            RuntimeErrorView::LeftOperand(op, kind) => "Left operand of '"@ + op.name() + "' is "@
                + kind.name() + "!"@,
            RuntimeErrorView::RightOperand(op, kind) => "Right operand of '"@ + op.name()
                + "' is "@ + kind.name() + "!"@,
            RuntimeErrorView::CharsOperation(op) => "Can't perform '"@ + op.name()
                + "' on Chars!"@,
            RuntimeErrorView::Mismatch(op) => "Operands of '"@ + op.name()
                + "' are of different types!"@,
            RuntimeErrorView::ConditionNotBool =>
                "If-then-else statement condition must be of type boolean!"@,
            RuntimeErrorView::FloatPending(op, a, b) => "Can't perform '"@ + op.name() + "' on "@
                + a.text() + " and "@ + b.text() + ": the answer is pending!"@,
            RuntimeErrorView::Overflow(op) => "Result of '"@ + op.name() + "' is out of range!"@,
            RuntimeErrorView::DivisionByZero => "Division by zero!"@,
            RuntimeErrorView::OutOfFuel => "The run has used up its fuel!"@,
        }
    }
}

/// A failure of a run, from whichever stage of the pipeline.
#[derive(Debug)]
pub enum Fault {
    Parse(ParseError),
    Analysis(AnalysisError),
    Runtime(RuntimeError),
}

/// The model of a failure of a run.
pub enum FaultView {
    Parse(ParseErrorView),
    Analysis(AnalysisErrorView),
    Runtime(RuntimeErrorView),
}

impl View for Fault {
    type V = FaultView;

    open spec fn view(&self) -> FaultView {
        match self {
            Fault::Parse(failure) => FaultView::Parse(failure@),
            Fault::Analysis(failure) => FaultView::Analysis(failure@),
            Fault::Runtime(failure) => FaultView::Runtime(failure@),
        }
    }
}

impl FaultView {
    /// The message of the failure.
    pub open spec fn message(self) -> Seq<char> {
        match self {
            FaultView::Parse(failure) => failure.message(),
            FaultView::Analysis(failure) => failure.message(),
            FaultView::Runtime(failure) => failure.message(),
        }
    }
}

impl Fault {
    /// The message of the failure.
    pub fn message(&self) -> (r: String)
        ensures
            r@ == self@.message(),
    {
        match self {
            Fault::Parse(failure) => failure.message(),
            Fault::Analysis(failure) => failure.message(),
            Fault::Runtime(failure) => failure.message(),
        }
    }
}

impl ParseError {
    /// The message of the failure.
    pub fn message(&self) -> (r: String)
        ensures
            r@ == self@.message(),
    {
        match self {
            ParseError::Expected(category, found) => join5(
                "Expected '",
                category.to_text(),
                "' but found '",
                found.to_text().as_str(),
                "'",
            ),
            ParseError::UnexpectedInProgram(found) => join3(
                "Unexpected token `",
                found.to_text().as_str(),
                "` while parsing program.",
            ),
            ParseError::UnexpectedInBlock(found) => join3(
                "Unexpected token in block: '",
                found.to_text().as_str(),
                "'",
            ),
            ParseError::ExpectedValue(found) => join3(
                "Expected value but found '",
                found.to_text().as_str(),
                "'",
            ),
        }
    }
}

impl AnalysisError {
    /// The message of the failure.
    pub fn message(&self) -> (r: String)
        ensures
            r@ == self@.message(),
    {
        match self {
            AnalysisError::DuplicateIdentifier(name) => join3(
                "Duplicate identifier '",
                name.as_str(),
                "'!",
            ),
            AnalysisError::DuplicateInFunction(name, function) => join5(
                "Duplicate parameter name '",
                name.as_str(),
                "' in function ",
                function.as_str(),
                "!",
            ),
            AnalysisError::Undeclared(name, function) => join5(
                "Variable '",
                name.as_str(),
                "' used before declaration in function ",
                function.as_str(),
                "!",
            ),
        }
    }
}

impl RuntimeError {
    /// The message of the failure.
    pub fn message(&self) -> (r: String)
        ensures
            r@ == self@.message(),
    {
        match self {
            RuntimeError::NoMain => "Cannot find 'main' symbol!".to_owned(),
            RuntimeError::MainNotFunction => "Symbol 'main' is not a function!".to_owned(),
            RuntimeError::NoGlobals => "Can't find globals in current frame!".to_owned(),
            RuntimeError::NotEnoughArguments(name) => join3(
                "Not enough arguments for function ",
                name.as_str(),
                "!",
            ),
            RuntimeError::TooManyArguments(name) => join3(
                "Too many arguments for function ",
                name.as_str(),
                "!",
            ),
            RuntimeError::ArityMismatch(name) => join3(
                "Wrong number of arguments in a call of '",
                name.as_str(),
                "'!",
            ),
            RuntimeError::VariableNotFound(name) => join3(
                "Can't find variable '",
                name.as_str(),
                "'!",
            ),
            RuntimeError::FunctionNotFound(name) => join3(
                "Can't find function '",
                name.as_str(),
                "' in globals!",
            ),
            RuntimeError::LeftOperand(op, kind) => join5(
                "Left operand of '",
                op.to_text(),
                "' is ",
                kind.to_text(),
                "!",
            ),
            RuntimeError::RightOperand(op, kind) => join5(
                "Right operand of '",
                op.to_text(),
                "' is ",
                kind.to_text(),
                "!",
            ),
            RuntimeError::CharsOperation(op) => join3(
                "Can't perform '",
                op.to_text(),
                "' on Chars!",
            ),
            RuntimeError::Mismatch(op) => join3(
                "Operands of '",
                op.to_text(),
                "' are of different types!",
            ),
            RuntimeError::ConditionNotBool =>
                "If-then-else statement condition must be of type boolean!".to_owned(),
            RuntimeError::FloatPending(op, a, b) => {
                let mut out = join5(
                    "Can't perform '",
                    op.to_text(),
                    "' on ",
                    a.to_text().as_str(),
                    " and ",
                );
                out.append(b.to_text().as_str());
                out.append(": the answer is pending!");
                out
            },
            RuntimeError::Overflow(op) => join3(
                "Result of '",
                op.to_text(),
                "' is out of range!",
            ),
            RuntimeError::DivisionByZero => "Division by zero!".to_owned(),
            RuntimeError::OutOfFuel => "The run has used up its fuel!".to_owned(),
        }
    }
}

} // verus!
