//! The parser: a recursive descent over the tokens of the lexer, which
//! builds the abstract syntax tree of a program.
//!
//! The grammar:
//!
//! ```text
//! program   = { func | let } EOI
//! func      = 'func' ID '(' [ ID { ',' ID } ] ')' block
//! let       = 'let' ID [ '=' expr ] ';'
//! block     = '[' { statement } ']'
//! statement = let | assign | return | print | while | ifelse
//! assign    = ID '=' expr ';'
//! return    = 'return' expr ';'
//! print     = 'print' expr ';'
//! while     = 'while' expr block
//! ifelse    = 'if' expr block [ 'else' block ]
//! expr      = atom [ binop expr ]
//! atom      = ID [ '(' [ expr { ',' expr } ] ')' ] | literal
//! binop     = '+' | '-' | '*' | '<' | '>' | '==' | '!=' | '>=' | '<='
//! ```
//!
//! An expression ends before `[`, `;`, `,` or `)`. The right operand of an
//! operator is the whole rest of the expression, so all operators have one
//! precedence and group to the right. The value that a `let` names must be
//! a literal.
//!
//! The functions `parse_...` below state what the parser builds, as
//! functions of the sequence of tokens and of a position in it.

use std::rc::Rc;
use vstd::prelude::*;
use crate::error::{ParseError, ParseErrorView};
use crate::lexer::{lemma_scan_bounds, lemma_tokens_end_with_one_eoi, scan, tokens_from, Lexer};
use crate::logger::{logged, Level, Logger};
use crate::symbols::SymbolsView;
use crate::text::join3;
use crate::token::{Category, Token, TokenView};
use crate::tree::{
    parameter_names,
    ArithmeticOp,
    AssignNode,
    BinaryOp,
    BlockNode,
    BlockView,
    ExprNode,
    ExprView,
    FuncNode,
    FuncView,
    IfElseNode,
    LetNode,
    LetView,
    Parameter,
    PrintNode,
    ProgramNode,
    ProgramView,
    RelationalOp,
    ReturnNode,
    StmtNode,
    StmtView,
    WhileNode,
};
use crate::value::{Value, ValueView};

verus! {

/// A failure of the grammar: what failed, and the position of the token at
/// which it failed.
pub struct Failed {
    pub error: ParseErrorView,
    pub at: int,
}

/// What was parsed, and the position of the token behind it.
pub struct Parsed<T> {
    pub node: T,
    pub next: int,
}

/// The trace of a token that the parser takes.
pub open spec fn token_trace(t: TokenView) -> Seq<char> {
    "expect("@ + t.text() + ")"@
}

/// The output after the parser took the tokens from position `from` up to
/// position `to`: the trace of each of them, in order.
pub open spec fn traced(
    level: Level,
    out: Seq<Seq<char>>,
    ts: Seq<TokenView>,
    from: int,
    to: int,
) -> Seq<Seq<char>>
    decreases to - from,
{
    if to <= from {
        out
    } else {
        logged(
            level,
            traced(level, out, ts, from, to - 1),
            Level::Debug,
            token_trace(at(ts, to - 1)),
        )
    }
}

/// The position at which the parser stops: behind the program, or at the
/// token at which it fails.
pub open spec fn stop<T>(grammar: Result<Parsed<T>, Failed>) -> int {
    match grammar {
        Ok(parsed) => parsed.next,
        Err(failed) => failed.at,
    }
}

/// The token at position `k`; behind the last token there is `EOI` forever.
pub open spec fn at(ts: Seq<TokenView>, k: int) -> TokenView {
    if 0 <= k < ts.len() {
        ts[k]
    } else {
        TokenView::EOI
    }
}

/// The number of tokens from position `k` on.
pub open spec fn left(ts: Seq<TokenView>, k: int) -> nat {
    if k < ts.len() {
        (ts.len() - k) as nat
    } else {
        0
    }
}

/// The position `next`, which lies behind `k`. Every construct of the
/// grammar holds a token at least, so what follows a construct that began at
/// `k` lies behind `k` (see the lemmas `lemma_..._advances`); this function
/// only serves to show that the definitions below end.
pub open spec fn past(k: int, next: int) -> int {
    if next > k {
        next
    } else {
        k + 1
    }
}

/// The position behind a token of the given category at position `k`.
pub open spec fn expect(ts: Seq<TokenView>, k: int, category: Category) -> Result<
    int,
    Failed,
> {
    if at(ts, k).category() == category {
        Ok(k + 1)
    } else {
        Err(Failed { error: ParseErrorView::Expected(category, at(ts, k)), at: k })
    }
}

/// Whether an expression ends before this token.
pub open spec fn ends_expr(t: TokenView) -> bool {
    t is BRACKET_L || t is SEMICOLON || t is COMMA || t is PARENS_R
}

/// The binary operator that the token stands for.
pub open spec fn binary_operator(t: TokenView) -> Option<BinaryOp> {
    match t {
        TokenView::OP_ADD => Some(BinaryOp::Arithmetic(ArithmeticOp::Add)),
        TokenView::OP_MUL => Some(BinaryOp::Arithmetic(ArithmeticOp::Mul)),
        TokenView::OP_SUB => Some(BinaryOp::Arithmetic(ArithmeticOp::Sub)),
        TokenView::OP_LT => Some(BinaryOp::Relational(RelationalOp::LessThan)),
        TokenView::OP_GT => Some(BinaryOp::Relational(RelationalOp::GreaterThan)),
        TokenView::OP_EQ => Some(BinaryOp::EqualTo),
        TokenView::OP_NGT => Some(BinaryOp::Relational(RelationalOp::LessThanEqual)),
        TokenView::OP_NLT => Some(BinaryOp::Relational(RelationalOp::GreaterThanEqual)),
        TokenView::OP_NEQ => Some(BinaryOp::Relational(RelationalOp::NotEqual)),
        _ => None,
    }
}

/// The value of a literal.
pub open spec fn literal(t: TokenView) -> Option<ValueView> {
    match t {
        TokenView::LIT_INT32(i) => Some(ValueView::I32(i)),
        TokenView::LIT_FLT32(numeral) => Some(ValueView::F32(numeral)),
        TokenView::LIT_CHAR(c) => Some(ValueView::Chars(seq![c])),
        TokenView::LIT_STRING(s) => Some(ValueView::Chars(s)),
        TokenView::LIT_BOOL(b) => Some(ValueView::Bool(b)),
        _ => None,
    }
}

/// `atom`: a variable, a call or a literal.
pub open spec fn parse_atom(ts: Seq<TokenView>, k: int) -> Result<Parsed<ExprView>, Failed>
    decreases left(ts, k), 0int,
{
    match at(ts, k) {
        TokenView::ID(name) => {
            if at(ts, k + 1) is PARENS_L {
                parse_call(ts, k + 1, name)
            } else {
                Ok(Parsed { node: ExprView::Var(name), next: k + 1 })
            }
        },
        other => match literal(other) {
            Some(value) => Ok(Parsed { node: ExprView::Val(value), next: k + 1 }),
            None => Err(Failed { error: ParseErrorView::ExpectedValue(other), at: k }),
        },
    }
}

/// The call of the function `name`, of which the `(` stands at position
/// `k`.
pub open spec fn parse_call(ts: Seq<TokenView>, k: int, name: Seq<char>) -> Result<
    Parsed<ExprView>,
    Failed,
>
    decreases left(ts, k), 0int,
{
    if !(at(ts, k) is PARENS_L) {
        Err(Failed { error: ParseErrorView::Expected(Category::PARENS_L, at(ts, k)), at: k })
    } else if at(ts, k + 1) is PARENS_R {
        Ok(Parsed { node: ExprView::Call(name, Seq::empty()), next: k + 2 })
    } else {
        match parse_args(ts, k + 1, Seq::empty()) {
            Err(failure) => Err(failure),
            Ok(args) => match expect(ts, args.next, Category::PARENS_R) {
                Err(failure) => Err(failure),
                Ok(next) => Ok(Parsed { node: ExprView::Call(name, args.node), next }),
            },
        }
    }
}

/// `expr`: an atom, or an atom, an operator and an expression.
pub open spec fn parse_expr(ts: Seq<TokenView>, k: int) -> Result<Parsed<ExprView>, Failed>
    decreases left(ts, k), 1int,
{
    match parse_atom(ts, k) {
        Err(failure) => Err(failure),
        Ok(atom) => {
            if ends_expr(at(ts, atom.next)) {
                Ok(atom)
            } else {
                parse_tail(ts, past(k, atom.next), atom.node)
            }
        },
    }
}

/// The rest of an expression, of which the first operand has been read: an
/// operator at position `k`, and an expression.
pub open spec fn parse_tail(ts: Seq<TokenView>, k: int, first: ExprView) -> Result<
    Parsed<ExprView>,
    Failed,
>
    decreases left(ts, k), 0int,
{
    match binary_operator(at(ts, k)) {
        None => Err(Failed { error: ParseErrorView::ExpectedValue(at(ts, k)), at: k }),
        Some(op) => match parse_expr(ts, k + 1) {
            Err(failure) => Err(failure),
            Ok(second) => Ok(
                Parsed {
                    node: ExprView::Binary(op, Box::new(first), Box::new(second.node)),
                    next: second.next,
                },
            ),
        },
    }
}

/// The arguments of a call from position `k` on, after those in `done`:
/// expressions with a comma between them.
pub open spec fn parse_args(ts: Seq<TokenView>, k: int, done: Seq<ExprView>) -> Result<
    Parsed<Seq<ExprView>>,
    Failed,
>
    decreases left(ts, k), 2int,
{
    match parse_expr(ts, k) {
        Err(failure) => Err(failure),
        Ok(arg) => {
            let k1 = past(k, arg.next);
            if at(ts, k1) is COMMA {
                parse_args(ts, k1 + 1, done.push(arg.node))
            } else {
                Ok(Parsed { node: done.push(arg.node), next: k1 })
            }
        },
    }
}

/// `let`: the declaration of a variable, with the literal that it names, if
/// there is one, and `Nil` else.
pub open spec fn parse_let(ts: Seq<TokenView>, k: int) -> Result<Parsed<LetView>, Failed> {
    if !(at(ts, k) is KW_LET) {
        Err(Failed { error: ParseErrorView::Expected(Category::KW_LET, at(ts, k)), at: k })
    } else {
        match at(ts, k + 1) {
            TokenView::ID(name) => {
                if at(ts, k + 2) is OP_ASSIGN {
                    match parse_expr(ts, k + 3) {
                        Err(failure) => Err(failure),
                        Ok(init) => match init.node {
                            ExprView::Val(value) => match expect(
                                ts,
                                init.next,
                                Category::SEMICOLON,
                            ) {
                                Err(failure) => Err(failure),
                                Ok(next) => Ok(Parsed { node: LetView { name, value }, next }),
                            },
                            _ => Err(
                                Failed {
                                    error: ParseErrorView::ExpectedValue(at(ts, init.next)),
                                    at: init.next,
                                },
                            ),
                        },
                    }
                } else {
                    match expect(ts, k + 2, Category::SEMICOLON) {
                        Err(failure) => Err(failure),
                        Ok(next) => Ok(
                            Parsed { node: LetView { name, value: ValueView::Nil }, next },
                        ),
                    }
                }
            },
            other => Err(
                Failed { error: ParseErrorView::Expected(Category::ID, other), at: k + 1 },
            ),
        }
    }
}

/// An expression and the semicolon behind it.
pub open spec fn parse_expr_semicolon(ts: Seq<TokenView>, k: int) -> Result<
    Parsed<ExprView>,
    Failed,
> {
    match parse_expr(ts, k) {
        Err(failure) => Err(failure),
        Ok(e) => match expect(ts, e.next, Category::SEMICOLON) {
            Err(failure) => Err(failure),
            Ok(next) => Ok(Parsed { node: e.node, next }),
        },
    }
}

/// `statement`.
pub open spec fn parse_stmt(ts: Seq<TokenView>, k: int) -> Result<Parsed<StmtView>, Failed>
    decreases left(ts, k), 1int,
{
    match at(ts, k) {
        TokenView::KW_LET => match parse_let(ts, k) {
            Err(failure) => Err(failure),
            Ok(l) => Ok(Parsed { node: StmtView::Let(l.node.name, l.node.value), next: l.next }),
        },
        TokenView::KW_IF => match parse_expr(ts, k + 1) {
            Err(failure) => Err(failure),
            Ok(condition) => {
                let k1 = past(k, condition.next);
                match parse_block(ts, k1) {
                    Err(failure) => Err(failure),
                    Ok(first) => {
                        let k2 = past(k1, first.next);
                        if at(ts, k2) is KW_ELSE {
                            match parse_block(ts, k2 + 1) {
                                Err(failure) => Err(failure),
                                Ok(second) => Ok(
                                    Parsed {
                                        node: StmtView::IfElse(
                                            condition.node,
                                            first.node,
                                            Some(second.node),
                                        ),
                                        next: second.next,
                                    },
                                ),
                            }
                        } else {
                            Ok(
                                Parsed {
                                    node: StmtView::IfElse(condition.node, first.node, None),
                                    next: k2,
                                },
                            )
                        }
                    },
                }
            },
        },
        TokenView::KW_RETURN => match parse_expr_semicolon(ts, k + 1) {
            Err(failure) => Err(failure),
            Ok(e) => Ok(Parsed { node: StmtView::Return(e.node), next: e.next }),
        },
        TokenView::KW_WHILE => match parse_expr(ts, k + 1) {
            Err(failure) => Err(failure),
            Ok(condition) => match parse_block(ts, past(k, condition.next)) {
                Err(failure) => Err(failure),
                Ok(body) => Ok(
                    Parsed { node: StmtView::While(condition.node, body.node), next: body.next },
                ),
            },
        },
        TokenView::KW_PRINT => match parse_expr_semicolon(ts, k + 1) {
            Err(failure) => Err(failure),
            Ok(e) => Ok(Parsed { node: StmtView::Print(e.node), next: e.next }),
        },
        TokenView::ID(name) => match expect(ts, k + 1, Category::OP_ASSIGN) {
            Err(failure) => Err(failure),
            Ok(_) => match parse_expr_semicolon(ts, k + 2) {
                Err(failure) => Err(failure),
                Ok(e) => Ok(Parsed { node: StmtView::Assign(name, e.node), next: e.next }),
            },
        },
        other => Err(Failed { error: ParseErrorView::UnexpectedInBlock(other), at: k }),
    }
}

/// The statements of a block from position `k` on, after those in `done`,
/// up to the `]` that closes the block.
pub open spec fn parse_stmts(ts: Seq<TokenView>, k: int, done: Seq<StmtView>) -> Result<
    Parsed<Seq<StmtView>>,
    Failed,
>
    decreases left(ts, k), 2int,
{
    if at(ts, k) is BRACKET_R {
        Ok(Parsed { node: done, next: k })
    } else if at(ts, k) is EOI {
        Err(Failed { error: ParseErrorView::UnexpectedInBlock(TokenView::EOI), at: k })
    } else {
        match parse_stmt(ts, k) {
            Err(failure) => Err(failure),
            Ok(stmt) => parse_stmts(ts, past(k, stmt.next), done.push(stmt.node)),
        }
    }
}

/// `block`: statements between `[` and `]`. Its symbol table is empty.
pub open spec fn parse_block(
    ts: Seq<TokenView>,
    k: int,
) -> Result<Parsed<BlockView>, Failed>
    decreases left(ts, k), 0int,
{
    if !(at(ts, k) is BRACKET_L) {
        Err(Failed { error: ParseErrorView::Expected(Category::BRACKET_L, at(ts, k)), at: k })
    } else {
        match parse_stmts(ts, k + 1, Seq::empty()) {
            Err(failure) => Err(failure),
            Ok(stmts) => match expect(ts, stmts.next, Category::BRACKET_R) {
                Err(failure) => Err(failure),
                Ok(next) => Ok(
                    Parsed {
                        node: BlockView { symbols: SymbolsView::empty(), statements: stmts.node },
                        next,
                    },
                ),
            },
        }
    }
}

/// The parameters of a function from position `k` on, after those in
/// `done`: names with a comma between them.
pub open spec fn parse_params(ts: Seq<TokenView>, k: int, done: Seq<Seq<char>>) -> Result<
    Parsed<Seq<Seq<char>>>,
    Failed,
>
    decreases left(ts, k),
{
    match at(ts, k) {
        TokenView::ID(name) => {
            if at(ts, k + 1) is COMMA {
                parse_params(ts, k + 2, done.push(name))
            } else {
                Ok(Parsed { node: done.push(name), next: k + 1 })
            }
        },
        other => Err(Failed { error: ParseErrorView::Expected(Category::ID, other), at: k }),
    }
}

/// The list of the parameters of a function, between `(` and `)`.
pub open spec fn parse_parameter_list(ts: Seq<TokenView>, k: int) -> Result<
    Parsed<Seq<Seq<char>>>,
    Failed,
> {
    if !(at(ts, k) is PARENS_L) {
        Err(Failed { error: ParseErrorView::Expected(Category::PARENS_L, at(ts, k)), at: k })
    } else if at(ts, k + 1) is PARENS_R {
        Ok(Parsed { node: Seq::empty(), next: k + 2 })
    } else {
        match parse_params(ts, k + 1, Seq::empty()) {
            Err(failure) => Err(failure),
            Ok(params) => match expect(ts, params.next, Category::PARENS_R) {
                Err(failure) => Err(failure),
                Ok(next) => Ok(Parsed { node: params.node, next }),
            },
        }
    }
}

/// `func`: the declaration of a function.
pub open spec fn parse_func(
    ts: Seq<TokenView>,
    k: int,
) -> Result<Parsed<FuncView>, Failed> {
    if !(at(ts, k) is KW_FUNC) {
        Err(Failed { error: ParseErrorView::Expected(Category::KW_FUNC, at(ts, k)), at: k })
    } else {
        match at(ts, k + 1) {
            TokenView::ID(name) => match parse_parameter_list(ts, k + 2) {
                Err(failure) => Err(failure),
                Ok(parameters) => match parse_block(ts, parameters.next) {
                    Err(failure) => Err(failure),
                    Ok(body) => Ok(
                        Parsed {
                            node: FuncView { name, parameters: parameters.node, body: body.node },
                            next: body.next,
                        },
                    ),
                },
            },
            other => Err(
                Failed { error: ParseErrorView::Expected(Category::ID, other), at: k + 1 },
            ),
        }
    }
}

/// The declarations of a program from position `k` on, after those in
/// `lets` and `funcs`, up to `EOI`. The symbol table of the program is
/// empty.
pub open spec fn parse_decls(
    ts: Seq<TokenView>,
    k: int,
    lets: Seq<LetView>,
    funcs: Seq<FuncView>,
) -> Result<Parsed<ProgramView>, Failed>
    decreases left(ts, k),
{
    match at(ts, k) {
        TokenView::EOI => Ok(
            Parsed { node: ProgramView { symbols: SymbolsView::empty(), lets, funcs }, next: k },
        ),
        TokenView::KW_FUNC => match parse_func(ts, k) {
            Err(failure) => Err(failure),
            Ok(func) => parse_decls(ts, past(k, func.next), lets, funcs.push(func.node)),
        },
        TokenView::KW_LET => match parse_let(ts, k) {
            Err(failure) => Err(failure),
            Ok(l) => parse_decls(ts, past(k, l.next), lets.push(l.node), funcs),
        },
        other => Err(Failed { error: ParseErrorView::UnexpectedInProgram(other), at: k }),
    }
}

/// `program`: the program that the tokens `ts` are, with the position of the
/// `EOI` that ends it, or the first failure.
pub open spec fn parse_program(ts: Seq<TokenView>) -> Result<Parsed<ProgramView>, Failed> {
    parse_decls(ts, 0, Seq::empty(), Seq::empty())
}

/// An atom, an expression and a list of arguments each hold a token at
/// least: what follows them lies behind the position at which they began.
pub proof fn lemma_expr_advances(ts: Seq<TokenView>, k: int)
    ensures
        parse_atom(ts, k) is Ok ==> parse_atom(ts, k)->Ok_0.next > k,
        parse_expr(ts, k) is Ok ==> parse_expr(ts, k)->Ok_0.next > k,
    decreases left(ts, k), 1int,
{
    if at(ts, k) is ID && at(ts, k + 1) is PARENS_L && !(at(ts, k + 2) is PARENS_R) {
        lemma_args_advance(ts, k + 2, Seq::empty());
    }
    if parse_atom(ts, k) is Ok {
        let k1 = parse_atom(ts, k)->Ok_0.next;
        if !ends_expr(at(ts, k1)) && binary_operator(at(ts, k1)) is Some {
            lemma_expr_advances(ts, k1 + 1);
        }
    }
}

/// See [`lemma_expr_advances`].
pub proof fn lemma_args_advance(ts: Seq<TokenView>, k: int, done: Seq<ExprView>)
    ensures
        parse_args(ts, k, done) is Ok ==> parse_args(ts, k, done)->Ok_0.next > k,
    decreases left(ts, k), 2int,
{
    lemma_expr_advances(ts, k);
    if parse_expr(ts, k) is Ok {
        let arg = parse_expr(ts, k)->Ok_0;
        if at(ts, arg.next) is COMMA {
            lemma_args_advance(ts, arg.next + 1, done.push(arg.node));
        }
    }
}

/// A declaration of a variable holds a token at least.
pub proof fn lemma_let_advances(ts: Seq<TokenView>, k: int)
    ensures
        parse_let(ts, k) is Ok ==> parse_let(ts, k)->Ok_0.next > k,
{
    lemma_expr_advances(ts, k + 3);
}

/// A statement and a block each hold a token at least.
pub proof fn lemma_stmt_advances(ts: Seq<TokenView>, k: int)
    ensures
        parse_stmt(ts, k) is Ok ==> parse_stmt(ts, k)->Ok_0.next > k,
        parse_block(ts, k) is Ok ==> parse_block(ts, k)->Ok_0.next > k,
    decreases left(ts, k), 1int,
{
    lemma_let_advances(ts, k);
    lemma_expr_advances(ts, k + 1);
    lemma_expr_advances(ts, k + 2);
    if at(ts, k) is BRACKET_L {
        lemma_stmts_advance(ts, k + 1, Seq::empty());
    }
    if (at(ts, k) is KW_IF || at(ts, k) is KW_WHILE) && parse_expr(ts, k + 1) is Ok {
        let k1 = parse_expr(ts, k + 1)->Ok_0.next;
        lemma_stmt_advances(ts, k1);
        if parse_block(ts, k1) is Ok {
            let k2 = parse_block(ts, k1)->Ok_0.next;
            if at(ts, k2) is KW_ELSE {
                lemma_stmt_advances(ts, k2 + 1);
            }
        }
    }
}

/// The statements of a block end at or behind the position at which they
/// began.
pub proof fn lemma_stmts_advance(ts: Seq<TokenView>, k: int, done: Seq<StmtView>)
    ensures
        parse_stmts(ts, k, done) is Ok ==> parse_stmts(ts, k, done)->Ok_0.next >= k,
    decreases left(ts, k), 2int,
{
    if !(at(ts, k) is BRACKET_R) && !(at(ts, k) is EOI) {
        lemma_stmt_advances(ts, k);
        if parse_stmt(ts, k) is Ok {
            let stmt = parse_stmt(ts, k)->Ok_0;
            lemma_stmts_advance(ts, stmt.next, done.push(stmt.node));
        }
    }
}

/// The parameters of a function end behind the position at which they
/// began.
pub proof fn lemma_params_advance(ts: Seq<TokenView>, k: int, done: Seq<Seq<char>>)
    ensures
        parse_params(ts, k, done) is Ok ==> parse_params(ts, k, done)->Ok_0.next > k,
    decreases left(ts, k),
{
    if at(ts, k) is ID && at(ts, k + 1) is COMMA {
        lemma_params_advance(ts, k + 2, done.push(at(ts, k)->ID_0));
    }
}

/// The declaration of a function holds a token at least.
pub proof fn lemma_func_advances(ts: Seq<TokenView>, k: int)
    ensures
        parse_func(ts, k) is Ok ==> parse_func(ts, k)->Ok_0.next > k,
{
    lemma_params_advance(ts, k + 3, Seq::empty());
    if parse_parameter_list(ts, k + 2) is Ok {
        lemma_stmt_advances(ts, parse_parameter_list(ts, k + 2)->Ok_0.next);
    }
}

/// A sequence of tokens that ends with `EOI` and holds no other `EOI`.
pub open spec fn ends_once(ts: Seq<TokenView>) -> bool {
    &&& ts.len() >= 1
    &&& ts.last() is EOI
    &&& forall|i: int| 0 <= i < ts.len() - 1 ==> !(#[trigger] ts[i] is EOI)
}

/// The tokens from position `k` on; behind the last token there is `EOI`.
pub open spec fn rest(ts: Seq<TokenView>, k: int) -> Seq<TokenView> {
    if 0 <= k < ts.len() {
        ts.skip(k)
    } else {
        seq![TokenView::EOI]
    }
}

/// Where the lexer at position `pos` of the text `s` is about to read the
/// tokens of `ts` from position `k + 1` on, the token that it reads next is
/// the one at `k + 1`, and it is then about to read those from `k + 2` on.
proof fn lemma_stream_step(s: Seq<char>, pos: int, ts: Seq<TokenView>, k: int)
    requires
        0 <= pos <= s.len(),
        -1 <= k,
        ends_once(ts),
        tokens_from(s, pos) == rest(ts, k + 1),
    ensures
        scan(s, pos).token == at(ts, k + 1),
        0 <= scan(s, pos).next <= s.len(),
        scan(s, pos).token is EOI ==> scan(s, pos).next == s.len(),
        tokens_from(s, scan(s, pos).next) == rest(ts, k + 2),
{
    let lexeme = scan(s, pos);
    lemma_scan_bounds(s, pos);
    let end = s.len() as int;
    assert(tokens_from(s, end) =~= seq![TokenView::EOI]) by {
        lemma_scan_bounds(s, end);
        lemma_tokens_end_with_one_eoi(s, end);
        assert(scan(s, end).token is EOI);
    }
    assert(tokens_from(s, pos)[0] == lexeme.token);
    if k + 1 < ts.len() {
        assert(ts.skip(k + 1)[0] == ts[k + 1]);
        if !(lexeme.token is EOI) {
            assert(tokens_from(s, pos) =~= seq![lexeme.token] + tokens_from(s, lexeme.next));
            assert(tokens_from(s, lexeme.next) =~= tokens_from(s, pos).skip(1));
            assert(ts.skip(k + 1).skip(1) =~= ts.skip(k + 2));
        }
    }
}

/// Whether the outcome `r` of a function of the parser, which left the
/// parser at the position `cursor`, is what the grammar gives.
pub open spec fn agrees<N: View>(
    r: Result<N, ParseError>,
    cursor: int,
    grammar: Result<Parsed<N::V>, Failed>,
) -> bool {
    match r {
        Ok(node) => grammar is Ok && grammar->Ok_0.node == node@ && grammar->Ok_0.next == cursor,
        Err(failure) => grammar is Err && grammar->Err_0.error == failure@ && grammar->Err_0.at
            == cursor,
    }
}

/// The models of a list of expressions.
pub open spec fn expr_views(list: Seq<Rc<ExprNode>>) -> Seq<ExprView> {
    Seq::new(list.len(), |i: int| list[i]@)
}

/// The models of a list of statements.
pub open spec fn stmt_views(list: Seq<Rc<StmtNode>>) -> Seq<StmtView> {
    Seq::new(list.len(), |i: int| list[i]@)
}

/// The parser: the lexer from which it takes its tokens. The ghost fields
/// hold the tokens that the lexer had still to give when the parser began,
/// the position of the current token among them, and the output before the
/// parser began.
pub struct DescentParser {
    pub lexer: Lexer,
    pub tokens: Ghost<Seq<TokenView>>,
    pub cursor: Ghost<int>,
    pub base: Ghost<Seq<Seq<char>>>,
}

impl DescentParser {
    /// The current token of the lexer is the one at the cursor, and the
    /// lexer is about to read the tokens behind it.
    pub open spec fn wf(&self) -> bool {
        &&& self.lexer.wf()
        &&& 0 <= self.cursor@
        &&& ends_once(self.tokens@)
        &&& self.lexer.current_token@ == at(self.tokens@, self.cursor@)
        &&& self.lexer.current_token@ is EOI ==> self.lexer.input_position
            == self.lexer.input_string.len()
        &&& tokens_from(self.lexer.input_string@, self.lexer.input_position as int) == rest(
            self.tokens@,
            self.cursor@ + 1,
        )
    }

    /// The parser has the same tokens as before and is at the position `k`.
    pub open spec fn moved(&self, before: &DescentParser, k: int) -> bool {
        &&& self.wf()
        &&& self.tokens@ == before.tokens@
        &&& self.base@ == before.base@
        &&& self.lexer.input_string == before.lexer.input_string
        &&& self.cursor@ == k
    }

    /// The parser has the same tokens as before.
    pub open spec fn follows(&self, before: &DescentParser) -> bool {
        &&& self.wf()
        &&& self.tokens@ == before.tokens@
        &&& self.base@ == before.base@
        &&& self.lexer.input_string == before.lexer.input_string
    }

    /// The output holds the trace of every token that the parser has
    /// taken.
    pub open spec fn tracing(&self, logger: &Logger) -> bool {
        logger@.output == traced(logger@.level, self.base@, self.tokens@, 0, self.cursor@)
    }

    /// A parser that takes its tokens from the given lexer.
    pub fn new(lexer: Lexer) -> (r: DescentParser)
        ensures
            r.lexer == lexer,
    {
        DescentParser {
            lexer,
            tokens: Ghost(Seq::empty()),
            cursor: Ghost(0),
            base: Ghost(Seq::empty()),
        }
    }

    /// The current token.
    fn curr(&self) -> (r: Token)
        requires
            self.wf(),
        ensures
            r@ == at(self.tokens@, self.cursor@),
    {
        self.lexer.current()
    }

    /// Takes the current token, writes its trace, and moves to the next.
    fn advance(&mut self, logger: &mut Logger)
        requires
            old(self).wf(),
            old(self).tracing(old(logger)),
        ensures
            final(self).moved(old(self), old(self).cursor@ + 1),
            final(self).tracing(final(logger)),
            final(logger)@.level == old(logger)@.level,
    {
        proof {
            lemma_stream_step(
                self.lexer.input_string@,
                self.lexer.input_position as int,
                self.tokens@,
                self.cursor@,
            );
        }
        logger.debug(join3("expect(", self.lexer.current_token.to_text().as_str(), ")").as_str());
        self.lexer.advance();
        proof {
            self.cursor@ = self.cursor@ + 1;
        }
    }

    /// Whether the current token is of the category of `symbol`.
    fn peek(&self, symbol: Token) -> (r: bool)
        requires
            self.wf(),
        ensures
            r == (at(self.tokens@, self.cursor@).category() == symbol@.category()),
    {
        self.lexer.current_token == symbol
    }

    /// Takes the current token, which must be of the category of
    /// `expected`, and moves to the next.
    fn expect(&mut self, expected: Token, logger: &mut Logger) -> (r: Result<Token, ParseError>)
        requires
            old(self).wf(),
            old(self).tracing(old(logger)),
        ensures
            final(self).follows(old(self)),
            final(self).tracing(final(logger)),
            final(logger)@.level == old(logger)@.level,
            match r {
                Ok(token) => {
                    &&& token@ == at(old(self).tokens@, old(self).cursor@)
                    &&& token@.category() == expected@.category()
                    &&& final(self).cursor@ == old(self).cursor@ + 1
                },
                Err(failure) => {
                    &&& at(old(self).tokens@, old(self).cursor@).category() != expected@.category()
                    &&& failure@ == ParseErrorView::Expected(
                        expected@.category(),
                        at(old(self).tokens@, old(self).cursor@),
                    )
                    &&& final(self).cursor@ == old(self).cursor@
                },
            },
    {
        if self.lexer.current_token == expected {
            let curr = self.curr();
            self.advance(logger);
            Ok(curr)
        } else {
            Err(ParseError::Expected(expected.category(), self.curr()))
        }
    }

    /// Where the current token is of the category of `symbol`: takes it and
    /// moves to the next.
    fn accept(&mut self, symbol: Token, logger: &mut Logger) -> (r: bool)
        requires
            old(self).wf(),
            old(self).tracing(old(logger)),
        ensures
            r == (at(old(self).tokens@, old(self).cursor@).category() == symbol@.category()),
            final(self).moved(
                old(self),
                if r {
                    old(self).cursor@ + 1
                } else {
                    old(self).cursor@
                },
            ),
            final(self).tracing(final(logger)),
            final(logger)@.level == old(logger)@.level,
    {
        if self.lexer.current_token == symbol {
            self.advance(logger);
            true
        } else {
            false
        }
    }

    /// Parses a program: see [`parse_program`]. The tokens are those that
    /// the lexer has still to give. Where they are a program, the lexer has
    /// read its text to the end. The trace of every token that the parser
    /// takes is written to the output.
    pub fn analyze(&mut self, logger: &mut Logger) -> (r: Result<ProgramNode, ParseError>)
        requires
            old(self).lexer.wf(),
        ensures
            ({
                let ts = tokens_from(
                    old(self).lexer.input_string@,
                    old(self).lexer.input_position as int,
                );
                let grammar = parse_program(ts);
                &&& match r {
                    Ok(program) => grammar is Ok && grammar->Ok_0.node == program@,
                    Err(failure) => grammar is Err && grammar->Err_0.error == failure@,
                }
                &&& final(logger)@.level == old(logger)@.level
                &&& final(logger)@.output == traced(
                    old(logger)@.level,
                    old(logger)@.output,
                    ts,
                    0,
                    stop(grammar),
                )
                &&& final(self).lexer.input_string == old(self).lexer.input_string
                &&& r is Ok ==> final(self).lexer.current_token@ is EOI
                    && final(self).lexer.input_position == final(self).lexer.input_string.len()
            }),
    {
        let ghost s = self.lexer.input_string@;
        let ghost ts = tokens_from(s, self.lexer.input_position as int);
        proof {
            lemma_tokens_end_with_one_eoi(s, self.lexer.input_position as int);
            assert(rest(ts, 0) =~= ts);
            lemma_stream_step(s, self.lexer.input_position as int, ts, -1);
        }
        self.lexer.advance();
        self.tokens = Ghost(ts);
        self.cursor = Ghost(0);
        self.base = Ghost(logger@.output);
        let mut program = ProgramNode::new();
        loop
            invariant
                self.wf(),
                self.tracing(logger),
                logger@.level == old(logger)@.level,
                self.base@ == old(logger)@.output,
                self.tokens@ == ts,
                ts == tokens_from(
                    old(self).lexer.input_string@,
                    old(self).lexer.input_position as int,
                ),
                self.lexer.input_string == old(self).lexer.input_string,
                program@.symbols == SymbolsView::empty(),
                parse_decls(ts, self.cursor@, program@.lets, program@.funcs) == parse_program(ts),
            decreases left(ts, self.cursor@),
        {
            let ghost k = self.cursor@;
            let ghost before = program@;
            match self.curr() {
                Token::EOI => {
                    return Ok(program);
                },
                Token::KW_FUNC => {
                    proof {
                        lemma_func_advances(ts, k);
                    }
                    let func_node = self.parse_func(logger)?;
                    program.func_nodes.push(func_node);
                    assert(program@.funcs =~= before.funcs.push(func_node@));
                    assert(program@.lets =~= before.lets);
                },
                Token::KW_LET => {
                    proof {
                        lemma_let_advances(ts, k);
                    }
                    let let_node = self.parse_let(logger)?;
                    program.let_nodes.push(Rc::new(let_node));
                    assert(program@.lets =~= before.lets.push(let_node@));
                    assert(program@.funcs =~= before.funcs);
                },
                other => {
                    return Err(ParseError::UnexpectedInProgram(other));
                },
            }
        }
    }

    /// `func`: see [`parse_func`].
    fn parse_func(&mut self, logger: &mut Logger) -> (r: Result<FuncNode, ParseError>)
        requires
            old(self).wf(),
            old(self).tracing(old(logger)),
        ensures
            final(self).follows(old(self)),
            final(self).tracing(final(logger)),
            final(logger)@.level == old(logger)@.level,
            agrees(r, final(self).cursor@, parse_func(old(self).tokens@, old(self).cursor@)),
    {
        self.expect(Token::KW_FUNC, logger)?;
        let func_name = self.expect(Token::id(), logger)?;
        let params_node = self.parse_parameter_list(logger)?;
        let block_node = self.parse_block_nest(logger)?;
        Ok(FuncNode::new(func_name.get_id_name(), params_node, block_node))
    }

    /// The list of the parameters of a function: see
    /// [`parse_parameter_list`].
    fn parse_parameter_list(
        &mut self,
        logger: &mut Logger,
    ) -> (r: Result<Vec<Parameter>, ParseError>)
        requires
            old(self).wf(),
            old(self).tracing(old(logger)),
        ensures
            final(self).follows(old(self)),
            final(self).tracing(final(logger)),
            final(logger)@.level == old(logger)@.level,
            match r {
                Ok(params) => parse_parameter_list(old(self).tokens@, old(self).cursor@) == Ok::<
                    Parsed<Seq<Seq<char>>>,
                    Failed,
                >(Parsed { node: parameter_names(params@), next: final(self).cursor@ }),
                Err(failure) => parse_parameter_list(old(self).tokens@, old(self).cursor@) == Err::<
                    Parsed<Seq<Seq<char>>>,
                    Failed,
                >(Failed { error: failure@, at: final(self).cursor@ }),
            },
    {
        let ghost ts = self.tokens@;
        let ghost k = self.cursor@;
        let mut params: Vec<Parameter> = Vec::new();
        self.expect(Token::PARENS_L, logger)?;
        assert(parameter_names(params@) =~= Seq::empty());
        if self.accept(Token::PARENS_R, logger) {
            return Ok(params);
        }
        let mut more = true;
        while more
            invariant
                self.follows(old(self)),
                self.tracing(logger),
                logger@.level == old(logger)@.level,
                ts == old(self).tokens@,
                k == old(self).cursor@,
                at(ts, k) is PARENS_L,
                !(at(ts, k + 1) is PARENS_R),
                more ==> parse_params(ts, self.cursor@, parameter_names(params@)) == parse_params(
                    ts,
                    k + 1,
                    Seq::empty(),
                ),
                !more ==> parse_params(ts, k + 1, Seq::empty()) == Ok::<
                    Parsed<Seq<Seq<char>>>,
                    Failed,
                >(Parsed { node: parameter_names(params@), next: self.cursor@ }),
            decreases left(ts, self.cursor@) + (if more { 1nat } else { 0nat }),
        {
            let ghost names = parameter_names(params@);
            let parameter = self.parse_parameter(logger)?;
            params.push(parameter);
            assert(parameter_names(params@) =~= names.push(parameter@));
            if !self.accept(Token::COMMA, logger) {
                more = false;
            }
        }
        self.expect(Token::PARENS_R, logger)?;
        Ok(params)
    }

    /// A parameter: an identifier.
    fn parse_parameter(&mut self, logger: &mut Logger) -> (r: Result<Parameter, ParseError>)
        requires
            old(self).wf(),
            old(self).tracing(old(logger)),
        ensures
            final(self).follows(old(self)),
            final(self).tracing(final(logger)),
            final(logger)@.level == old(logger)@.level,
            match r {
                Ok(parameter) => at(old(self).tokens@, old(self).cursor@) == TokenView::ID(
                    parameter@,
                ) && final(self).cursor@ == old(self).cursor@ + 1,
                Err(failure) => !(at(old(self).tokens@, old(self).cursor@) is ID) && failure@
                    == ParseErrorView::Expected(
                    Category::ID,
                    at(old(self).tokens@, old(self).cursor@),
                ) && final(self).cursor@ == old(self).cursor@,
            },
    {
        let param_name = self.expect(Token::id(), logger)?;
        Ok(Parameter::new(param_name.get_id_name()))
    }

    /// `block`: see [`parse_block`].
    fn parse_block_nest(&mut self, logger: &mut Logger) -> (r: Result<BlockNode, ParseError>)
        requires
            old(self).wf(),
            old(self).tracing(old(logger)),
        ensures
            final(self).follows(old(self)),
            final(self).tracing(final(logger)),
            final(logger)@.level == old(logger)@.level,
            agrees(r, final(self).cursor@, parse_block(old(self).tokens@, old(self).cursor@)),
        decreases left(old(self).tokens@, old(self).cursor@), 0int,
    {
        let ghost ts = self.tokens@;
        let ghost k = self.cursor@;
        let mut block_node = BlockNode::new();
        self.expect(Token::BRACKET_L, logger)?;
        assert(stmt_views(block_node.statements@) =~= Seq::empty());
        while !self.peek(Token::BRACKET_R)
            invariant
                self.follows(old(self)),
                self.tracing(logger),
                logger@.level == old(logger)@.level,
                ts == old(self).tokens@,
                k == old(self).cursor@,
                at(ts, k) is BRACKET_L,
                self.cursor@ > k,
                block_node.symbols@ == SymbolsView::empty(),
                parse_stmts(ts, self.cursor@, stmt_views(block_node.statements@)) == parse_stmts(
                    ts,
                    k + 1,
                    Seq::empty(),
                ),
            decreases left(ts, self.cursor@),
        {
            let ghost done = stmt_views(block_node.statements@);
            proof {
                lemma_stmt_advances(ts, self.cursor@);
            }
            let statement = self.parse_statement(logger)?;
            block_node.statements.push(Rc::new(statement));
            assert(stmt_views(block_node.statements@) =~= done.push(statement@));
        }
        self.expect(Token::BRACKET_R, logger)?;
        assert(block_node@.statements =~= stmt_views(block_node.statements@));
        Ok(block_node)
    }

    /// `statement`: see [`parse_stmt`].
    fn parse_statement(&mut self, logger: &mut Logger) -> (r: Result<StmtNode, ParseError>)
        requires
            old(self).wf(),
            old(self).tracing(old(logger)),
        ensures
            final(self).follows(old(self)),
            final(self).tracing(final(logger)),
            final(logger)@.level == old(logger)@.level,
            agrees(r, final(self).cursor@, parse_stmt(old(self).tokens@, old(self).cursor@)),
        decreases left(old(self).tokens@, old(self).cursor@), 2int,
    {
        match self.curr() {
            Token::KW_LET => {
                let let_node = self.parse_let(logger)?;
                Ok(StmtNode::Let(let_node))
            },
            Token::KW_IF => {
                let if_node = self.parse_if_then_else(logger)?;
                Ok(StmtNode::IfElse(if_node))
            },
            Token::KW_RETURN => {
                let return_node = self.parse_return(logger)?;
                Ok(StmtNode::Return(return_node))
            },
            Token::KW_WHILE => {
                let while_node = self.parse_while(logger)?;
                Ok(StmtNode::While(while_node))
            },
            Token::KW_PRINT => {
                let print_node = self.parse_print(logger)?;
                Ok(StmtNode::Print(print_node))
            },
            Token::ID(_) => {
                let assign_node = self.parse_assign(logger)?;
                Ok(StmtNode::Assign(assign_node))
            },
            other => Err(ParseError::UnexpectedInBlock(other)),
        }
    }

    /// `let`: see [`parse_let`].
    fn parse_let(&mut self, logger: &mut Logger) -> (r: Result<LetNode, ParseError>)
        requires
            old(self).wf(),
            old(self).tracing(old(logger)),
        ensures
            final(self).follows(old(self)),
            final(self).tracing(final(logger)),
            final(logger)@.level == old(logger)@.level,
            agrees(r, final(self).cursor@, parse_let(old(self).tokens@, old(self).cursor@)),
    {
        self.expect(Token::KW_LET, logger)?;
        let let_name = self.expect(Token::id(), logger)?;
        let mut val_node = Value::Nil;
        if self.accept(Token::OP_ASSIGN, logger) {
            let expr_node = self.parse_expr(logger)?;
            val_node = match expr_node {
                ExprNode::Val(val) => val,
                _ => {
                    return Err(ParseError::ExpectedValue(self.curr()));
                },
            };
        }
        self.expect(Token::SEMICOLON, logger)?;
        Ok(LetNode::new(let_name.get_id_name(), val_node))
    }

    /// `ifelse`: see [`parse_stmt`].
    fn parse_if_then_else(&mut self, logger: &mut Logger) -> (r: Result<IfElseNode, ParseError>)
        requires
            old(self).wf(),
            old(self).tracing(old(logger)),
            at(old(self).tokens@, old(self).cursor@) is KW_IF,
        ensures
            final(self).follows(old(self)),
            final(self).tracing(final(logger)),
            final(logger)@.level == old(logger)@.level,
            match r {
                Ok(node) => agrees(
                    Ok::<StmtNode, ParseError>(StmtNode::IfElse(node)),
                    final(self).cursor@,
                    parse_stmt(old(self).tokens@, old(self).cursor@),
                ),
                Err(failure) => parse_stmt(old(self).tokens@, old(self).cursor@) == Err::<
                    Parsed<StmtView>,
                    Failed,
                >(Failed { error: failure@, at: final(self).cursor@ }),
            },
        decreases left(old(self).tokens@, old(self).cursor@), 1int,
    {
        let ghost ts = self.tokens@;
        let ghost k = self.cursor@;
        self.expect(Token::KW_IF, logger)?;
        proof {
            lemma_expr_advances(ts, k + 1);
        }
        let condition_expr = self.parse_expr(logger)?;
        proof {
            lemma_stmt_advances(ts, self.cursor@);
        }
        let then_node_block = self.parse_block_nest(logger)?;
        let mut else_node_block: Option<BlockNode> = None;
        if self.accept(Token::KW_ELSE, logger) {
            else_node_block = Some(self.parse_block_nest(logger)?);
        }
        Ok(IfElseNode::new(condition_expr, then_node_block, else_node_block))
    }

    /// `return`: see [`parse_stmt`].
    fn parse_return(&mut self, logger: &mut Logger) -> (r: Result<ReturnNode, ParseError>)
        requires
            old(self).wf(),
            old(self).tracing(old(logger)),
            at(old(self).tokens@, old(self).cursor@) is KW_RETURN,
        ensures
            final(self).follows(old(self)),
            final(self).tracing(final(logger)),
            final(logger)@.level == old(logger)@.level,
            match r {
                Ok(node) => agrees(
                    Ok::<StmtNode, ParseError>(StmtNode::Return(node)),
                    final(self).cursor@,
                    parse_stmt(old(self).tokens@, old(self).cursor@),
                ),
                Err(failure) => parse_stmt(old(self).tokens@, old(self).cursor@) == Err::<
                    Parsed<StmtView>,
                    Failed,
                >(Failed { error: failure@, at: final(self).cursor@ }),
            },
    {
        self.expect(Token::KW_RETURN, logger)?;
        let expr_node = self.parse_expr(logger)?;
        self.expect(Token::SEMICOLON, logger)?;
        Ok(ReturnNode::new(expr_node))
    }

    /// `while`: see [`parse_stmt`].
    fn parse_while(&mut self, logger: &mut Logger) -> (r: Result<WhileNode, ParseError>)
        requires
            old(self).wf(),
            old(self).tracing(old(logger)),
            at(old(self).tokens@, old(self).cursor@) is KW_WHILE,
        ensures
            final(self).follows(old(self)),
            final(self).tracing(final(logger)),
            final(logger)@.level == old(logger)@.level,
            match r {
                Ok(node) => agrees(
                    Ok::<StmtNode, ParseError>(StmtNode::While(node)),
                    final(self).cursor@,
                    parse_stmt(old(self).tokens@, old(self).cursor@),
                ),
                Err(failure) => parse_stmt(old(self).tokens@, old(self).cursor@) == Err::<
                    Parsed<StmtView>,
                    Failed,
                >(Failed { error: failure@, at: final(self).cursor@ }),
            },
        decreases left(old(self).tokens@, old(self).cursor@), 1int,
    {
        let ghost ts = self.tokens@;
        let ghost k = self.cursor@;
        self.expect(Token::KW_WHILE, logger)?;
        proof {
            lemma_expr_advances(ts, k + 1);
        }
        let expr_node = self.parse_expr(logger)?;
        let block_node = self.parse_block_nest(logger)?;
        Ok(WhileNode::new(expr_node, block_node))
    }

    /// `print`: see [`parse_stmt`].
    fn parse_print(&mut self, logger: &mut Logger) -> (r: Result<PrintNode, ParseError>)
        requires
            old(self).wf(),
            old(self).tracing(old(logger)),
            at(old(self).tokens@, old(self).cursor@) is KW_PRINT,
        ensures
            final(self).follows(old(self)),
            final(self).tracing(final(logger)),
            final(logger)@.level == old(logger)@.level,
            match r {
                Ok(node) => agrees(
                    Ok::<StmtNode, ParseError>(StmtNode::Print(node)),
                    final(self).cursor@,
                    parse_stmt(old(self).tokens@, old(self).cursor@),
                ),
                Err(failure) => parse_stmt(old(self).tokens@, old(self).cursor@) == Err::<
                    Parsed<StmtView>,
                    Failed,
                >(Failed { error: failure@, at: final(self).cursor@ }),
            },
    {
        self.expect(Token::KW_PRINT, logger)?;
        let expr_node = self.parse_expr(logger)?;
        self.expect(Token::SEMICOLON, logger)?;
        Ok(PrintNode::new(expr_node))
    }

    /// `assign`: see [`parse_stmt`].
    fn parse_assign(&mut self, logger: &mut Logger) -> (r: Result<AssignNode, ParseError>)
        requires
            old(self).wf(),
            old(self).tracing(old(logger)),
            at(old(self).tokens@, old(self).cursor@) is ID,
        ensures
            final(self).follows(old(self)),
            final(self).tracing(final(logger)),
            final(logger)@.level == old(logger)@.level,
            match r {
                Ok(node) => agrees(
                    Ok::<StmtNode, ParseError>(StmtNode::Assign(node)),
                    final(self).cursor@,
                    parse_stmt(old(self).tokens@, old(self).cursor@),
                ),
                Err(failure) => parse_stmt(old(self).tokens@, old(self).cursor@) == Err::<
                    Parsed<StmtView>,
                    Failed,
                >(Failed { error: failure@, at: final(self).cursor@ }),
            },
    {
        let id_node = self.expect(Token::id(), logger)?;
        self.expect(Token::OP_ASSIGN, logger)?;
        let expr_node = self.parse_expr(logger)?;
        self.expect(Token::SEMICOLON, logger)?;
        Ok(AssignNode::new(id_node.get_id_name(), expr_node))
    }

    /// Whether an expression ends before the current token.
    fn is_end_of_expr(&self) -> (r: bool)
        requires
            self.wf(),
        ensures
            r == ends_expr(at(self.tokens@, self.cursor@)),
    {
        match self.lexer.current_token {
            Token::BRACKET_L => true,
            Token::SEMICOLON => true,
            Token::COMMA => true,
            Token::PARENS_R => true,
            _ => false,
        }
    }

    /// `expr`: see [`parse_expr`].
    fn parse_expr(&mut self, logger: &mut Logger) -> (r: Result<ExprNode, ParseError>)
        requires
            old(self).wf(),
            old(self).tracing(old(logger)),
        ensures
            final(self).follows(old(self)),
            final(self).tracing(final(logger)),
            final(logger)@.level == old(logger)@.level,
            agrees(r, final(self).cursor@, parse_expr(old(self).tokens@, old(self).cursor@)),
        decreases left(old(self).tokens@, old(self).cursor@), 1int,
    {
        let ghost ts = self.tokens@;
        let ghost k = self.cursor@;
        proof {
            lemma_expr_advances(ts, k);
        }
        let token = self.curr();
        let expr_node = match token {
            Token::ID(name) => {
                self.advance(logger);
                if self.peek(Token::PARENS_L) {
                    self.parse_func_call(name, logger)?
                } else {
                    ExprNode::Var(name)
                }
            },
            Token::LIT_INT32(value) => {
                self.advance(logger);
                ExprNode::Val(Value::I32(value))
            },
            Token::LIT_FLT32(numeral) => {
                self.advance(logger);
                ExprNode::Val(Value::F32(numeral))
            },
            Token::LIT_CHAR(c) => {
                self.advance(logger);
                let mut text = String::new();
                text.push(c);
                assert(text@ =~= seq![c]);
                ExprNode::Val(Value::Chars(text))
            },
            Token::LIT_STRING(text) => {
                self.advance(logger);
                ExprNode::Val(Value::Chars(text))
            },
            Token::LIT_BOOL(b) => {
                self.advance(logger);
                ExprNode::Val(Value::Bool(b))
            },
            other => {
                return Err(ParseError::ExpectedValue(other));
            },
        };
        if self.is_end_of_expr() {
            return Ok(expr_node);
        }
        self.parse_expr_tail(expr_node, logger)
    }

    /// The rest of an expression after its first operand: see
    /// [`parse_tail`].
    fn parse_expr_tail(&mut self, left_denotation: ExprNode, logger: &mut Logger) -> (r: Result<
        ExprNode,
        ParseError,
    >)
        requires
            old(self).wf(),
            old(self).tracing(old(logger)),
        ensures
            final(self).follows(old(self)),
            final(self).tracing(final(logger)),
            final(logger)@.level == old(logger)@.level,
            agrees(
                r,
                final(self).cursor@,
                parse_tail(old(self).tokens@, old(self).cursor@, left_denotation@),
            ),
        decreases left(old(self).tokens@, old(self).cursor@), 0int,
    {
        let token = self.curr();
        match token {
            Token::OP_ADD => {
                self.advance(logger);
                let right_denotation = self.parse_expr(logger)?;
                Ok(ExprNode::Add(Rc::new(left_denotation), Rc::new(right_denotation)))
            },
            Token::OP_MUL => {
                self.advance(logger);
                let right_denotation = self.parse_expr(logger)?;
                Ok(ExprNode::Mul(Rc::new(left_denotation), Rc::new(right_denotation)))
            },
            Token::OP_SUB => {
                self.advance(logger);
                let right_denotation = self.parse_expr(logger)?;
                Ok(ExprNode::Sub(Rc::new(left_denotation), Rc::new(right_denotation)))
            },
            Token::OP_LT => {
                self.advance(logger);
                let right_denotation = self.parse_expr(logger)?;
                Ok(ExprNode::LessThan(Rc::new(left_denotation), Rc::new(right_denotation)))
            },
            Token::OP_GT => {
                self.advance(logger);
                let right_denotation = self.parse_expr(logger)?;
                Ok(ExprNode::GreaterThan(Rc::new(left_denotation), Rc::new(right_denotation)))
            },
            Token::OP_EQ => {
                self.advance(logger);
                let right_denotation = self.parse_expr(logger)?;
                Ok(ExprNode::EqualTo(Rc::new(left_denotation), Rc::new(right_denotation)))
            },
            Token::OP_NGT => {
                self.advance(logger);
                let right_denotation = self.parse_expr(logger)?;
                Ok(ExprNode::LessThanEq(Rc::new(left_denotation), Rc::new(right_denotation)))
            },
            Token::OP_NLT => {
                self.advance(logger);
                let right_denotation = self.parse_expr(logger)?;
                Ok(ExprNode::GreaterThanEq(Rc::new(left_denotation), Rc::new(right_denotation)))
            },
            Token::OP_NEQ => {
                self.advance(logger);
                let right_denotation = self.parse_expr(logger)?;
                Ok(ExprNode::NotEqualTo(Rc::new(left_denotation), Rc::new(right_denotation)))
            },
            other => Err(ParseError::ExpectedValue(other)),
        }
    }

    /// The call of the function `func_name`, at the `(` of its arguments:
    /// see [`parse_call`].
    fn parse_func_call(
        &mut self,
        func_name: String,
        logger: &mut Logger,
    ) -> (r: Result<ExprNode, ParseError>)
        requires
            old(self).wf(),
            old(self).tracing(old(logger)),
        ensures
            final(self).follows(old(self)),
            final(self).tracing(final(logger)),
            final(logger)@.level == old(logger)@.level,
            agrees(
                r,
                final(self).cursor@,
                parse_call(old(self).tokens@, old(self).cursor@, func_name@),
            ),
        decreases left(old(self).tokens@, old(self).cursor@), 0int,
    {
        let ghost ts = self.tokens@;
        let ghost k = self.cursor@;
        self.expect(Token::PARENS_L, logger)?;
        let mut args: Vec<Rc<ExprNode>> = Vec::new();
        assert(expr_views(args@) =~= Seq::empty());
        if self.accept(Token::PARENS_R, logger) {
            let call = ExprNode::Call(func_name, args);
            assert(call@->Call_1 =~= Seq::empty());
            return Ok(call);
        }
        let mut more = true;
        while more
            invariant
                self.follows(old(self)),
                self.tracing(logger),
                logger@.level == old(logger)@.level,
                ts == old(self).tokens@,
                k == old(self).cursor@,
                at(ts, k) is PARENS_L,
                !(at(ts, k + 1) is PARENS_R),
                self.cursor@ > k,
                more ==> parse_args(ts, self.cursor@, expr_views(args@)) == parse_args(
                    ts,
                    k + 1,
                    Seq::empty(),
                ),
                !more ==> parse_args(ts, k + 1, Seq::empty()) == Ok::<
                    Parsed<Seq<ExprView>>,
                    Failed,
                >(Parsed { node: expr_views(args@), next: self.cursor@ }),
            decreases left(ts, self.cursor@) + (if more { 1nat } else { 0nat }),
        {
            let ghost done = expr_views(args@);
            proof {
                lemma_expr_advances(ts, self.cursor@);
            }
            let arg = self.parse_expr(logger)?;
            args.push(Rc::new(arg));
            assert(expr_views(args@) =~= done.push(arg@));
            if !self.accept(Token::COMMA, logger) {
                more = false;
            }
        }
        self.expect(Token::PARENS_R, logger)?;
        let call = ExprNode::Call(func_name, args);
        assert(call@->Call_1 =~= expr_views(args@));
        Ok(call)
    }
}

} // verus!
