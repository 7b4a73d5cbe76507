//! The abstract syntax tree: what the parser builds, the analyzer decorates
//! with symbol tables, and the executor walks.

#![allow(non_snake_case)]

use std::rc::Rc;
use vstd::prelude::*;
use crate::symbols::{Symbols, SymbolsView};
use crate::value::{Value, ValueView};

verus! {

/// An arithmetic operator.
#[derive(Debug, Clone, Copy, PartialEq, Eq, Structural)]
pub enum ArithmeticOp {
    Add,
    Sub,
    Mul,
    Div,
}

/// A relational operator.
#[derive(Debug, Clone, Copy, PartialEq, Eq, Structural)]
pub enum RelationalOp {
    Equal,
    LessThan,
    GreaterThan,
    NotEqual,
    LessThanEqual,
    GreaterThanEqual,
}

impl ArithmeticOp {
    /// The name of the operator.
    pub open spec fn name(self) -> Seq<char> {
        match self {
            ArithmeticOp::Add => "Add"@,
            ArithmeticOp::Sub => "Sub"@,
            ArithmeticOp::Mul => "Mul"@,
            ArithmeticOp::Div => "Div"@,
        }
    }

    /// The name of the operator, as a string.
    pub fn to_text(self) -> (r: &'static str)
        ensures
            r@ == self.name(),
    {
        match self {
            ArithmeticOp::Add => "Add",
            ArithmeticOp::Sub => "Sub",
            ArithmeticOp::Mul => "Mul",
            ArithmeticOp::Div => "Div",
        }
    }
}

impl RelationalOp {
    /// The name of the operator.
    pub open spec fn name(self) -> Seq<char> {
        match self {
            RelationalOp::Equal => "Equal"@,
            RelationalOp::LessThan => "LessThan"@,
            RelationalOp::GreaterThan => "GreaterThan"@,
            RelationalOp::NotEqual => "NotEqual"@,
            RelationalOp::LessThanEqual => "LessThanEqual"@,
            RelationalOp::GreaterThanEqual => "GreaterThanEqual"@,
        }
    }

    /// The name of the operator, as a string.
    pub fn to_text(self) -> (r: &'static str)
        ensures
            r@ == self.name(),
    {
        match self {
            RelationalOp::Equal => "Equal",
            RelationalOp::LessThan => "LessThan",
            RelationalOp::GreaterThan => "GreaterThan",
            RelationalOp::NotEqual => "NotEqual",
            RelationalOp::LessThanEqual => "LessThanEqual",
            RelationalOp::GreaterThanEqual => "GreaterThanEqual",
        }
    }
}

/// A binary operator: an arithmetic one, a relational one, which orders its
/// operands, or the test for equality.
#[derive(Debug, Clone, Copy, PartialEq, Eq, Structural)]
pub enum BinaryOp {
    Arithmetic(ArithmeticOp),
    Relational(RelationalOp),
    EqualTo,
}

impl BinaryOp {
    /// The name of the operator.
    pub open spec fn name(self) -> Seq<char> {
        match self {
            BinaryOp::Arithmetic(op) => op.name(),
            BinaryOp::Relational(op) => op.name(),
            BinaryOp::EqualTo => "EqualTo"@,
        }
    }

    /// The name of the operator, as a string.
    pub fn to_text(self) -> (r: &'static str)
        ensures
            r@ == self.name(),
    {
        match self {
            BinaryOp::Arithmetic(op) => op.to_text(),
            BinaryOp::Relational(op) => op.to_text(),
            BinaryOp::EqualTo => "EqualTo",
        }
    }
}

/// An expression.
#[derive(Debug)]
pub enum ExprNode {
    Var(String),
    Val(Value),
    String(String),
    Add(Rc<ExprNode>, Rc<ExprNode>),
    Sub(Rc<ExprNode>, Rc<ExprNode>),
    Mul(Rc<ExprNode>, Rc<ExprNode>),
    Call(String, Vec<Rc<ExprNode>>),
    LessThan(Rc<ExprNode>, Rc<ExprNode>),
    GreaterThan(Rc<ExprNode>, Rc<ExprNode>),
    EqualTo(Rc<ExprNode>, Rc<ExprNode>),
    LessThanEq(Rc<ExprNode>, Rc<ExprNode>),
    GreaterThanEq(Rc<ExprNode>, Rc<ExprNode>),
    NotEqualTo(Rc<ExprNode>, Rc<ExprNode>),
}

/// The model of an expression. The expressions with two operands are
/// gathered in one variant, which names the operator.
pub enum ExprView {
    Var(Seq<char>),
    Val(ValueView),
    Text(Seq<char>),
    Binary(BinaryOp, Box<ExprView>, Box<ExprView>),
    Call(Seq<char>, Seq<ExprView>),
}

impl ExprNode {
    /// The operator and the operands of an expression with two operands.
    pub open spec fn parts(&self) -> Option<(BinaryOp, &ExprNode, &ExprNode)> {
        match self {
            ExprNode::Add(a, b) => Some((BinaryOp::Arithmetic(ArithmeticOp::Add), &**a, &**b)),
            ExprNode::Sub(a, b) => Some((BinaryOp::Arithmetic(ArithmeticOp::Sub), &**a, &**b)),
            ExprNode::Mul(a, b) => Some((BinaryOp::Arithmetic(ArithmeticOp::Mul), &**a, &**b)),
            ExprNode::LessThan(a, b) => Some(
                (BinaryOp::Relational(RelationalOp::LessThan), &**a, &**b),
            ),
            ExprNode::GreaterThan(a, b) => Some(
                (BinaryOp::Relational(RelationalOp::GreaterThan), &**a, &**b),
            ),
            ExprNode::EqualTo(a, b) => Some((BinaryOp::EqualTo, &**a, &**b)),
            ExprNode::LessThanEq(a, b) => Some(
                (BinaryOp::Relational(RelationalOp::LessThanEqual), &**a, &**b),
            ),
            ExprNode::GreaterThanEq(a, b) => Some(
                (BinaryOp::Relational(RelationalOp::GreaterThanEqual), &**a, &**b),
            ),
            ExprNode::NotEqualTo(a, b) => Some(
                (BinaryOp::Relational(RelationalOp::NotEqual), &**a, &**b),
            ),
            _ => None,
        }
    }
}

/// The model of an expression.
pub open spec fn expr_view(e: &ExprNode) -> ExprView
    decreases e,
{
    match e {
        ExprNode::Var(name) => ExprView::Var(name@),
        ExprNode::Val(value) => ExprView::Val(value@),
        ExprNode::String(text) => ExprView::Text(text@),
        ExprNode::Call(name, args) => ExprView::Call(
            name@,
            Seq::new(
                args@.len(),
                |i: int|
                    if 0 <= i < args@.len() {
                        expr_view(&args@[i])
                    } else {
                        arbitrary()
                    },
            ),
        ),
        _ => match e.parts() {
            Some(
                (op, a, b),
            ) => ExprView::Binary(op, Box::new(expr_view(a)), Box::new(expr_view(b))),
            None => arbitrary(),
        },
    }
}

impl View for ExprNode {
    type V = ExprView;

    open spec fn view(&self) -> ExprView {
        expr_view(self)
    }
}

/// A parameter of a function.
#[derive(Debug)]
pub struct Parameter {
    pub name: String,
}

impl View for Parameter {
    type V = Seq<char>;

    open spec fn view(&self) -> Seq<char> {
        self.name@
    }
}

impl Parameter {
    /// The parameter of that name.
    pub fn new(name: String) -> (r: Parameter)
        ensures
            r@ == name@,
    {
        Parameter { name }
    }
}

/// The names of a list of parameters.
pub open spec fn parameter_names(parameters: Seq<Parameter>) -> Seq<Seq<char>> {
    Seq::new(parameters.len(), |i: int| parameters[i]@)
}

/// The declaration of a variable, with the value that it names.
#[derive(Debug)]
pub struct LetNode {
    pub name: String,
    pub value: Value,
}

/// The model of a declaration of a variable.
pub struct LetView {
    pub name: Seq<char>,
    pub value: ValueView,
}

impl View for LetNode {
    type V = LetView;

    open spec fn view(&self) -> LetView {
        LetView { name: self.name@, value: self.value@ }
    }
}

impl LetNode {
    /// The declaration of the variable `name`, which names `value`.
    pub fn new(name: String, value: Value) -> (r: LetNode)
        ensures
            r@ == (LetView { name: name@, value: value@ }),
    {
        LetNode { name, value }
    }
}

/// An assignment to a variable.
#[derive(Debug)]
pub struct AssignNode {
    pub name: String,
    pub expr: Rc<ExprNode>,
}

impl AssignNode {
    /// The assignment of `expr` to the variable `name`.
    pub fn new(name: String, expr: ExprNode) -> (r: AssignNode)
        ensures
            r.name@ == name@,
            r.expr@ == expr@,
    {
        AssignNode { name, expr: Rc::new(expr) }
    }
}

/// A `return` statement.
#[derive(Debug)]
pub struct ReturnNode {
    pub expr: Rc<ExprNode>,
}

impl ReturnNode {
    /// The statement that returns `expr`.
    pub fn new(expr: ExprNode) -> (r: ReturnNode)
        ensures
            r.expr@ == expr@,
    {
        ReturnNode { expr: Rc::new(expr) }
    }
}

/// A `print` statement.
#[derive(Debug)]
pub struct PrintNode {
    pub expr: Rc<ExprNode>,
}

impl PrintNode {
    /// The statement that prints `expr`.
    pub fn new(expr: ExprNode) -> (r: PrintNode)
        ensures
            r.expr@ == expr@,
    {
        PrintNode { expr: Rc::new(expr) }
    }
}

/// A `while` statement.
#[derive(Debug)]
pub struct WhileNode {
    pub condition: Rc<ExprNode>,
    pub body: Rc<BlockNode>,
}

/// An `if` statement, with or without an `else`.
#[derive(Debug)]
pub struct IfElseNode {
    pub condition: Rc<ExprNode>,
    pub ifBody: Rc<BlockNode>,
    pub elseBody: Option<Rc<BlockNode>>,
}

/// A statement.
#[derive(Debug)]
pub enum StmtNode {
    Let(LetNode),
    Assign(AssignNode),
    Return(ReturnNode),
    Print(PrintNode),
    While(WhileNode),
    IfElse(IfElseNode),
}

/// A block: its symbol table and its statements.
#[derive(Debug)]
pub struct BlockNode {
    pub symbols: Symbols,
    pub statements: Vec<Rc<StmtNode>>,
}

/// The model of a statement.
pub enum StmtView {
    Let(Seq<char>, ValueView),
    Assign(Seq<char>, ExprView),
    Return(ExprView),
    Print(ExprView),
    While(ExprView, BlockView),
    IfElse(ExprView, BlockView, Option<BlockView>),
}

/// The model of a block.
pub struct BlockView {
    pub symbols: SymbolsView,
    pub statements: Seq<StmtView>,
}

/// The model of a statement.
pub open spec fn stmt_view(s: &StmtNode) -> StmtView
    decreases s,
{
    match s {
        StmtNode::Let(node) => StmtView::Let(node.name@, node.value@),
        StmtNode::Assign(node) => StmtView::Assign(node.name@, node.expr@),
        StmtNode::Return(node) => StmtView::Return(node.expr@),
        StmtNode::Print(node) => StmtView::Print(node.expr@),
        StmtNode::While(node) => StmtView::While(node.condition@, block_view(&node.body)),
        StmtNode::IfElse(node) => StmtView::IfElse(
            node.condition@,
            block_view(&node.ifBody),
            match node.elseBody {
                Some(block) => Some(block_view(&block)),
                None => None,
            },
        ),
    }
}

/// The model of a block.
pub open spec fn block_view(b: &BlockNode) -> BlockView
    decreases b,
{
    BlockView {
        symbols: b.symbols@,
        statements: Seq::new(
            b.statements@.len(),
            |i: int|
                if 0 <= i < b.statements@.len() {
                    stmt_view(&b.statements@[i])
                } else {
                    arbitrary()
                },
        ),
    }
}

impl View for StmtNode {
    type V = StmtView;

    open spec fn view(&self) -> StmtView {
        stmt_view(self)
    }
}

impl View for BlockNode {
    type V = BlockView;

    open spec fn view(&self) -> BlockView {
        block_view(self)
    }
}

impl BlockNode {
    /// A block without statements.
    pub fn new() -> (r: BlockNode)
        ensures
            r@ == (BlockView { symbols: SymbolsView::empty(), statements: Seq::empty() }),
    {
        let r = BlockNode { symbols: Symbols::new(None), statements: Vec::new() };
        assert(r@.statements =~= Seq::empty());
        r
    }
}

impl WhileNode {
    /// The loop that runs `body` while `condition` is true.
    pub fn new(condition: ExprNode, body: BlockNode) -> (r: WhileNode)
        ensures
            r.condition@ == condition@,
            r.body@ == body@,
    {
        WhileNode { condition: Rc::new(condition), body: Rc::new(body) }
    }
}

impl IfElseNode {
    /// The statement that runs `ifBody` where `condition` is true, and
    /// `elseBody`, if there is one, where it is false.
    pub fn new(condition: ExprNode, ifBody: BlockNode, elseBody: Option<BlockNode>) -> (r:
        IfElseNode)
        ensures
            r.condition@ == condition@,
            r.ifBody@ == ifBody@,
            match (r.elseBody, elseBody) {
                (Some(a), Some(b)) => a@ == b@,
                (None, None) => true,
                _ => false,
            },
    {
        IfElseNode {
            condition: Rc::new(condition),
            ifBody: Rc::new(ifBody),
            elseBody: match elseBody {
                Some(block) => Some(Rc::new(block)),
                None => None,
            },
        }
    }
}

/// The declaration of a function.
#[derive(Debug)]
pub struct FuncNode {
    pub name: String,
    pub parameters: Vec<Parameter>,
    pub block_node: BlockNode,
}

/// The model of the declaration of a function.
pub struct FuncView {
    pub name: Seq<char>,
    pub parameters: Seq<Seq<char>>,
    pub body: BlockView,
}

impl View for FuncNode {
    type V = FuncView;

    open spec fn view(&self) -> FuncView {
        FuncView {
            name: self.name@,
            parameters: parameter_names(self.parameters@),
            body: self.block_node@,
        }
    }
}

impl FuncNode {
    /// The function `name` with the given parameters and body.
    pub fn new(name: String, parameters: Vec<Parameter>, block_node: BlockNode) -> (r: FuncNode)
        ensures
            r.name == name,
            r.parameters == parameters,
            r.block_node == block_node,
    {
        FuncNode { name, parameters, block_node }
    }

    /// The arity of the function: the number of its parameters.
    pub fn numParameters(&self) -> (r: usize)
        ensures
            r == self@.parameters.len(),
    {
        self.parameters.len()
    }
}

/// A program: its symbol table, the variables declared at the top level,
/// and its functions.
#[derive(Debug)]
pub struct ProgramNode {
    pub symbols: Symbols,
    pub let_nodes: Vec<Rc<LetNode>>,
    pub func_nodes: Vec<FuncNode>,
}

/// The model of a program.
pub struct ProgramView {
    pub symbols: SymbolsView,
    pub lets: Seq<LetView>,
    pub funcs: Seq<FuncView>,
}

impl View for ProgramNode {
    type V = ProgramView;

    open spec fn view(&self) -> ProgramView {
        ProgramView {
            symbols: self.symbols@,
            lets: Seq::new(self.let_nodes@.len(), |i: int| self.let_nodes@[i]@),
            funcs: Seq::new(self.func_nodes@.len(), |i: int| self.func_nodes@[i]@),
        }
    }
}

impl ProgramView {
    /// The program without declarations.
    pub open spec fn empty() -> ProgramView {
        ProgramView { symbols: SymbolsView::empty(), lets: Seq::empty(), funcs: Seq::empty() }
    }
}

impl ProgramNode {
    /// A program without declarations.
    pub fn new() -> (r: ProgramNode)
        ensures
            r@ == ProgramView::empty(),
    {
        let r = ProgramNode {
            symbols: Symbols::new(None),
            let_nodes: Vec::new(),
            func_nodes: Vec::new(),
        };
        assert(r@.lets =~= Seq::empty());
        assert(r@.funcs =~= Seq::empty());
        r
    }
}

} // verus!
