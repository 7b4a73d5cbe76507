//! The analyzer: collects the symbols of a program into its symbol tables,
//! resolves the references to them, and warns of the symbols that nothing
//! refers to.
//!
//! The first pass declares every function and every variable of the top
//! level in the table of the program, and every parameter and every variable
//! that the body of a function declares directly in the table of that body.
//! The second pass walks the statements of the body of each function and
//! marks the symbols of its table that they refer to. The third pass
//! warns of each symbol of such a table that is not marked.

use std::rc::Rc;
use vstd::prelude::*;
use crate::error::{AnalysisError, AnalysisErrorView};
use crate::text::{join3, join5};
use crate::logger::{logged, Level, Logger};
use crate::symbols::{Scope, Symbol, SymbolView, Symbols, SymbolsView};
use crate::tree::{
    BlockView,
    ExprNode,
    ExprView,
    FuncNode,
    FuncView,
    ProgramNode,
    ProgramView,
    StmtNode,
    StmtView,
};
use crate::value::{FuncRef, Value, ValueView};

verus! {

/// The symbol of a variable or of a parameter.
pub open spec fn variable(name: Seq<char>) -> SymbolView {
    SymbolView { name, value: ValueView::Nil, signature: 0, is_used: false }
}

/// The symbol of the function at position `index` of the program.
pub open spec fn function(f: FuncView, index: int) -> SymbolView {
    SymbolView {
        name: f.name,
        value: ValueView::Func(f.name, index as usize, f.parameters.len() as usize),
        signature: f.parameters.len() as usize,
        is_used: false,
    }
}

/// A symbol table after a pass over a function, and how the pass ended.
pub struct Tabled {
    pub table: SymbolsView,
    pub result: Result<(), AnalysisErrorView>,
}

/// A function after a pass over it, and how the pass ended.
pub struct Passed {
    pub func: FuncView,
    pub result: Result<(), AnalysisErrorView>,
}

/// A program after a pass over it, the output after the pass, and how the
/// pass ended.
pub struct Analysis {
    pub program: ProgramView,
    pub output: Seq<Seq<char>>,
    pub result: Result<(), AnalysisErrorView>,
}

impl FuncView {
    /// The function with another symbol table of its body.
    pub open spec fn with_table(self, table: SymbolsView) -> FuncView {
        FuncView { body: BlockView { symbols: table, ..self.body }, ..self }
    }
}

/// The table after the parameters from position `i` on were declared in it,
/// up to the first whose name the table holds already.
pub open spec fn declare_params(
    table: SymbolsView,
    params: Seq<Seq<char>>,
    i: int,
    function: Seq<char>,
) -> Tabled
    decreases params.len() - i,
{
    if !(0 <= i < params.len()) {
        Tabled { table, result: Ok(()) }
    } else if table.contains(params[i]) {
        Tabled { table, result: Err(AnalysisErrorView::DuplicateInFunction(params[i], function)) }
    } else {
        declare_params(table.declare(variable(params[i])), params, i + 1, function)
    }
}

/// The table after the variables that the statements from position `i` on
/// declare were declared in it, up to the first whose name the table holds
/// already. Only the statements of the list itself count, not those of the
/// blocks within them.
pub open spec fn declare_lets(
    table: SymbolsView,
    statements: Seq<StmtView>,
    i: int,
    function: Seq<char>,
) -> Tabled
    decreases statements.len() - i,
{
    if !(0 <= i < statements.len()) {
        Tabled { table, result: Ok(()) }
    } else {
        match statements[i] {
            StmtView::Let(name, _) => {
                if table.contains(name) {
                    Tabled {
                        table,
                        result: Err(AnalysisErrorView::DuplicateInFunction(name, function)),
                    }
                } else {
                    declare_lets(table.declare(variable(name)), statements, i + 1, function)
                }
            },
            _ => declare_lets(table, statements, i + 1, function),
        }
    }
}

/// The first pass over a function: the table of its body gets the table of
/// the program as its parent, then the parameters, then the variables that
/// the body declares.
pub open spec fn collect_function(f: FuncView) -> Passed {
    let linked = f.body.symbols.adopt(Some(Scope::Program));
    let params = declare_params(linked, f.parameters, 0, f.name);
    match params.result {
        Err(_) => Passed { func: f.with_table(params.table), result: params.result },
        Ok(_) => {
            let lets = declare_lets(params.table, f.body.statements, 0, f.name);
            Passed { func: f.with_table(lets.table), result: lets.result }
        },
    }
}

/// The first pass over the functions of a program from position `i` on:
/// each is declared in the table of the program, and then has its own pass.
pub open spec fn collect_funcs(p: ProgramView, i: int) -> Analysis
    decreases p.funcs.len() - i,
{
    if !(0 <= i < p.funcs.len()) {
        Analysis { program: p, output: Seq::empty(), result: Ok(()) }
    } else if p.symbols.contains(p.funcs[i].name) {
        Analysis {
            program: p,
            output: Seq::empty(),
            result: Err(AnalysisErrorView::DuplicateIdentifier(p.funcs[i].name)),
        }
    } else {
        let passed = collect_function(p.funcs[i]);
        let next = ProgramView {
            symbols: p.symbols.declare(function(p.funcs[i], i)),
            funcs: p.funcs.update(i, passed.func),
            ..p
        };
        match passed.result {
            Err(_) => Analysis { program: next, output: Seq::empty(), result: passed.result },
            Ok(_) => collect_funcs(next, i + 1),
        }
    }
}

/// The trace of the declaration of a variable of the top level.
pub open spec fn collecting_trace(name: Seq<char>) -> Seq<char> {
    "Collecting symbol '"@ + name + "'."@
}

/// The first pass over the variables of the top level from position `i` on.
pub open spec fn collect_lets(p: ProgramView, i: int, level: Level, out: Seq<Seq<char>>)
    -> Analysis
    decreases p.lets.len() - i,
{
    if !(0 <= i < p.lets.len()) {
        Analysis { program: p, output: out, result: Ok(()) }
    } else {
        let name = p.lets[i].name;
        let traced = logged(level, out, Level::Debug, collecting_trace(name));
        if p.symbols.contains(name) {
            Analysis {
                program: p,
                output: traced,
                result: Err(AnalysisErrorView::DuplicateIdentifier(name)),
            }
        } else {
            collect_lets(
                ProgramView { symbols: p.symbols.declare(variable(name)), ..p },
                i + 1,
                level,
                traced,
            )
        }
    }
}

/// The first pass: the functions, then the variables of the top level.
pub open spec fn collect_program(p: ProgramView, level: Level, out: Seq<Seq<char>>) -> Analysis {
    let funcs = collect_funcs(p, 0);
    match funcs.result {
        Err(_) => Analysis { program: funcs.program, output: out, result: funcs.result },
        Ok(_) => collect_lets(funcs.program, 0, level, out),
    }
}

/// The table after the names that an expression refers to were marked in
/// it: the variables and the functions that it calls. A name that the table
/// does not hold is passed over.
pub open spec fn resolve_expr(table: SymbolsView, e: ExprView) -> SymbolsView
    decreases e, 0int,
{
    match e {
        ExprView::Var(name) => table.mark(name),
        ExprView::Val(_) => table,
        ExprView::Text(_) => table,
        ExprView::Binary(_, a, b) => resolve_expr(resolve_expr(table, *a), *b),
        ExprView::Call(name, args) => resolve_args(table.mark(name), args, 0),
    }
}

/// The table after the names that the arguments from position `i` on refer
/// to were marked in it.
pub open spec fn resolve_args(table: SymbolsView, args: Seq<ExprView>, i: int) -> SymbolsView
    decreases args, args.len() - i,
{
    if !(0 <= i < args.len()) {
        table
    } else {
        resolve_args(resolve_expr(table, args[i]), args, i + 1)
    }
}

/// The second pass over one statement. A declaration and an assignment name
/// a variable that the table must hold. Of a loop and of an `if` the
/// condition is resolved, not the blocks.
pub open spec fn reference_stmt(table: SymbolsView, stmt: StmtView, function: Seq<char>)
    -> Tabled {
    match stmt {
        StmtView::Let(name, _) => Tabled {
            table,
            result: if table.contains(name) {
                Ok(())
            } else {
                Err(AnalysisErrorView::Undeclared(name, function))
            },
        },
        StmtView::Assign(name, e) => {
            if table.contains(name) {
                Tabled { table: resolve_expr(table.mark(name), e), result: Ok(()) }
            } else {
                Tabled { table, result: Err(AnalysisErrorView::Undeclared(name, function)) }
            }
        },
        StmtView::Return(e) => Tabled { table: resolve_expr(table, e), result: Ok(()) },
        StmtView::Print(e) => Tabled { table: resolve_expr(table, e), result: Ok(()) },
        StmtView::While(condition, _) => Tabled {
            table: resolve_expr(table, condition),
            result: Ok(()),
        },
        StmtView::IfElse(condition, _, _) => Tabled {
            table: resolve_expr(table, condition),
            result: Ok(()),
        },
    }
}

/// The second pass over the statements from position `i` on, up to the
/// first that fails.
pub open spec fn reference_stmts(
    table: SymbolsView,
    statements: Seq<StmtView>,
    i: int,
    function: Seq<char>,
) -> Tabled
    decreases statements.len() - i,
{
    if !(0 <= i < statements.len()) {
        Tabled { table, result: Ok(()) }
    } else {
        let one = reference_stmt(table, statements[i], function);
        match one.result {
            Err(_) => one,
            Ok(_) => reference_stmts(one.table, statements, i + 1, function),
        }
    }
}

/// The second pass over a function.
pub open spec fn reference_function(f: FuncView) -> Passed {
    let walked = reference_stmts(f.body.symbols, f.body.statements, 0, f.name);
    Passed { func: f.with_table(walked.table), result: walked.result }
}

/// The second pass over the functions of a program from position `i` on.
pub open spec fn reference_program(p: ProgramView, i: int) -> Analysis
    decreases p.funcs.len() - i,
{
    if !(0 <= i < p.funcs.len()) {
        Analysis { program: p, output: Seq::empty(), result: Ok(()) }
    } else {
        let passed = reference_function(p.funcs[i]);
        let next = ProgramView { funcs: p.funcs.update(i, passed.func), ..p };
        match passed.result {
            Err(_) => Analysis { program: next, output: Seq::empty(), result: passed.result },
            Ok(_) => reference_program(next, i + 1),
        }
    }
}

/// The warning of a symbol that nothing refers to.
pub open spec fn unused_warning(name: Seq<char>, function: Seq<char>) -> Seq<char> {
    "Warning: Variable '"@ + name + "' declared but not used in function "@ + function + "!"@
}

/// The output after the warnings of the symbols from position `i` on of the
/// table of a function, in the order of their declaration.
pub open spec fn warn_function(
    entries: Seq<SymbolView>,
    i: int,
    function: Seq<char>,
    level: Level,
    out: Seq<Seq<char>>,
) -> Seq<Seq<char>>
    decreases entries.len() - i,
{
    if !(0 <= i < entries.len()) {
        out
    } else if entries[i].is_used {
        warn_function(entries, i + 1, function, level, out)
    } else {
        warn_function(
            entries,
            i + 1,
            function,
            level,
            logged(level, out, Level::Warn, unused_warning(entries[i].name, function)),
        )
    }
}

/// The output after the warnings of the functions from position `i` on.
pub open spec fn warn_program(p: ProgramView, i: int, level: Level, out: Seq<Seq<char>>) -> Seq<
    Seq<char>,
>
    decreases p.funcs.len() - i,
{
    if !(0 <= i < p.funcs.len()) {
        out
    } else {
        warn_program(
            p,
            i + 1,
            level,
            warn_function(p.funcs[i].body.symbols.entries, 0, p.funcs[i].name, level, out),
        )
    }
}

/// The analysis of a program: the three passes, up to the first failure.
pub open spec fn analyze_program(p: ProgramView, level: Level, out: Seq<Seq<char>>) -> Analysis {
    let started = logged(level, out, Level::Info, "Analyze."@);
    let collected = collect_program(p, level, started);
    match collected.result {
        Err(_) => collected,
        Ok(_) => {
            let referenced = reference_program(collected.program, 0);
            match referenced.result {
                Err(_) => Analysis {
                    program: referenced.program,
                    output: collected.output,
                    result: referenced.result,
                },
                Ok(_) => Analysis {
                    program: referenced.program,
                    output: warn_program(referenced.program, 0, level, collected.output),
                    result: Ok(()),
                },
            }
        },
    }
}

/// A table holds the names that it held before a declaration, and the name
/// that was declared.
pub proof fn lemma_declare_contains(table: SymbolsView, symbol: SymbolView, name: Seq<char>)
    ensures
        table.declare(symbol).contains(name) <==> table.contains(name) || name == symbol.name,
{
    let declared = table.declare(symbol);
    if table.contains(name) {
        let i = choose|i: int| 0 <= i < table.entries.len() && table.entries[i].name == name;
        assert(declared.entries[i].name == name);
    }
    if name == symbol.name {
        assert(declared.entries[table.entries.len() as int].name == name);
    }
    if declared.contains(name) {
        let i = choose|i: int| 0 <= i < declared.entries.len() && declared.entries[i].name == name;
        if i < table.entries.len() {
            assert(table.entries[i].name == name);
        }
    }
}

/// Where the first pass over the functions from position `i` on succeeds,
/// it leaves the variables of the top level and the names of the functions
/// as they were, and the table of the program holds what it held before and
/// the names of those functions.
pub proof fn lemma_collect_funcs_declares(p: ProgramView, i: int)
    requires
        0 <= i <= p.funcs.len(),
        collect_funcs(p, i).result is Ok,
    ensures
        collect_funcs(p, i).program.lets == p.lets,
        collect_funcs(p, i).program.funcs.len() == p.funcs.len(),
        forall|j: int|
            0 <= j < p.funcs.len() ==> (#[trigger] collect_funcs(p, i).program.funcs[j]).name
                == p.funcs[j].name,
        forall|name: Seq<char>|
            p.symbols.contains(name) ==> #[trigger] collect_funcs(p, i).program.symbols.contains(
                name,
            ),
        forall|j: int|
            i <= j < p.funcs.len() ==> collect_funcs(p, i).program.symbols.contains(
                #[trigger] p.funcs[j].name,
            ),
    decreases p.funcs.len() - i,
{
    if i < p.funcs.len() {
        let passed = collect_function(p.funcs[i]);
        let next = ProgramView {
            symbols: p.symbols.declare(function(p.funcs[i], i)),
            funcs: p.funcs.update(i, passed.func),
            ..p
        };
        lemma_collect_funcs_declares(next, i + 1);
        let done = collect_funcs(p, i).program;
        assert forall|name: Seq<char>| p.symbols.contains(
            name,
        ) implies #[trigger] done.symbols.contains(
            name,
        ) by {
            lemma_declare_contains(p.symbols, function(p.funcs[i], i), name);
        }
        assert forall|j: int| i <= j < p.funcs.len() implies done.symbols.contains(
            #[trigger] p.funcs[j].name,
        ) by {
            if j == i {
                lemma_declare_contains(p.symbols, function(p.funcs[i], i), p.funcs[i].name);
            } else {
                assert(next.funcs[j].name == p.funcs[j].name);
            }
        }
        assert forall|j: int| 0 <= j < p.funcs.len() implies (#[trigger] done.funcs[j]).name
            == p.funcs[j].name by {
            assert(next.funcs[j].name == p.funcs[j].name);
        }
    }
}

/// Where the first pass over the variables of the top level from position
/// `i` on succeeds, it leaves the declarations as they were, and the table
/// of the program holds what it held before and the names of those
/// variables.
pub proof fn lemma_collect_lets_declares(p: ProgramView, i: int, level: Level, out: Seq<Seq<char>>)
    requires
        0 <= i <= p.lets.len(),
        collect_lets(p, i, level, out).result is Ok,
    ensures
        collect_lets(p, i, level, out).program.lets == p.lets,
        collect_lets(p, i, level, out).program.funcs == p.funcs,
        forall|name: Seq<char>|
            p.symbols.contains(name) ==> #[trigger] collect_lets(
                p,
                i,
                level,
                out,
            ).program.symbols.contains(name),
        forall|j: int|
            i <= j < p.lets.len() ==> collect_lets(p, i, level, out).program.symbols.contains(
                #[trigger] p.lets[j].name,
            ),
    decreases p.lets.len() - i,
{
    if i < p.lets.len() {
        let name = p.lets[i].name;
        let traced = logged(level, out, Level::Debug, collecting_trace(name));
        let next = ProgramView { symbols: p.symbols.declare(variable(name)), ..p };
        lemma_collect_lets_declares(next, i + 1, level, traced);
        let done = collect_lets(p, i, level, out).program;
        assert forall|other: Seq<char>| p.symbols.contains(
            other,
        ) implies #[trigger] done.symbols.contains(
            other,
        ) by {
            lemma_declare_contains(p.symbols, variable(name), other);
        }
        assert forall|j: int| i <= j < p.lets.len() implies done.symbols.contains(
            #[trigger] p.lets[j].name,
        ) by {
            if j == i {
                lemma_declare_contains(p.symbols, variable(name), name);
            }
        }
    }
}

/// The first pass is not idempotent: on a program with a declaration at
/// least, on which it has succeeded, it fails when it runs again, with a
/// duplicate identifier. What the first run declared is a duplicate in the
/// second.
pub proof fn lemma_collect_twice_fails(
    p: ProgramView,
    level: Level,
    out: Seq<Seq<char>>,
    again: Seq<Seq<char>>,
)
    requires
        p.funcs.len() + p.lets.len() > 0,
        collect_program(p, level, out).result is Ok,
    ensures
        collect_program(collect_program(p, level, out).program, level, again).result is Err,
        collect_program(
            collect_program(p, level, out).program,
            level,
            again,
        ).result->Err_0 is DuplicateIdentifier,
{
    let funcs = collect_funcs(p, 0);
    lemma_collect_funcs_declares(p, 0);
    lemma_collect_lets_declares(funcs.program, 0, level, out);
    let first = collect_program(p, level, out).program;
    if p.funcs.len() > 0 {
        assert(first.funcs == funcs.program.funcs);
        assert(funcs.program.funcs[0].name == p.funcs[0].name);
        assert(funcs.program.symbols.contains(p.funcs[0].name));
        assert(first.symbols.contains(first.funcs[0].name));
    } else {
        assert(first.funcs.len() == 0);
        assert(first.lets == p.lets);
        assert(first.symbols.contains(first.lets[0].name));
        assert(collect_funcs(first, 0).program == first);
    }
}

/// Every table of the program holds each name once.
pub open spec fn tables_unique(p: ProgramView) -> bool {
    &&& p.symbols.unique()
    &&& forall|i: int| 0 <= i < p.funcs.len() ==> (#[trigger] p.funcs[i]).body.symbols.unique()
}

/// The table of the program is the parent of the table of the body of
/// every function.
pub open spec fn tables_linked(p: ProgramView) -> bool {
    forall|i: int|
        0 <= i < p.funcs.len() ==> (#[trigger] p.funcs[i]).body.symbols.parent == Some(
            Scope::Program,
        )
}

/// A table that holds each name once still does after the declaration of a
/// name that it did not hold.
pub proof fn lemma_declare_unique(table: SymbolsView, symbol: SymbolView)
    requires
        table.unique(),
        !table.contains(symbol.name),
    ensures
        table.declare(symbol).unique(),
{
    let declared = table.declare(symbol);
    assert forall|i: int, j: int| 0 <= i < j < declared.entries.len() implies #[trigger] declared.entries[i].name
        != #[trigger] declared.entries[j].name by {
        if j == table.entries.len() {
            assert(table.entries[i].name != symbol.name);
        } else {
            assert(table.entries[i].name != table.entries[j].name);
        }
    }
}

/// The declaration of parameters keeps the parent of a table, and keeps
/// that the table holds each name once.
pub proof fn lemma_declare_params_keeps(
    table: SymbolsView,
    params: Seq<Seq<char>>,
    i: int,
    function: Seq<char>,
)
    requires
        table.unique(),
    ensures
        declare_params(table, params, i, function).table.unique(),
        declare_params(table, params, i, function).table.parent == table.parent,
    decreases params.len() - i,
{
    if 0 <= i < params.len() && !table.contains(params[i]) {
        lemma_declare_unique(table, variable(params[i]));
        lemma_declare_params_keeps(table.declare(variable(params[i])), params, i + 1, function);
    }
}

/// The declaration of the variables of a body keeps the parent of a table,
/// and keeps that the table holds each name once.
pub proof fn lemma_declare_lets_keeps(
    table: SymbolsView,
    statements: Seq<StmtView>,
    i: int,
    function: Seq<char>,
)
    requires
        table.unique(),
    ensures
        declare_lets(table, statements, i, function).table.unique(),
        declare_lets(table, statements, i, function).table.parent == table.parent,
    decreases statements.len() - i,
{
    if 0 <= i < statements.len() {
        match statements[i] {
            StmtView::Let(name, _) => {
                if !table.contains(name) {
                    lemma_declare_unique(table, variable(name));
                    lemma_declare_lets_keeps(
                        table.declare(variable(name)),
                        statements,
                        i + 1,
                        function,
                    );
                }
            },
            _ => {
                lemma_declare_lets_keeps(table, statements, i + 1, function);
            },
        }
    }
}

/// The first pass over the functions from position `i` on keeps that every
/// table holds each name once, leaves the functions before `i` as they
/// were, and, where it succeeds, links the tables of the bodies of the
/// others to the table of the program.
pub proof fn lemma_collect_funcs_keeps_tables(p: ProgramView, i: int)
    requires
        0 <= i <= p.funcs.len(),
        tables_unique(p),
    ensures
        tables_unique(collect_funcs(p, i).program),
        collect_funcs(p, i).program.funcs.len() == p.funcs.len(),
        forall|j: int| 0 <= j < i ==> #[trigger] collect_funcs(p, i).program.funcs[j] == p.funcs[j],
        collect_funcs(p, i).result is Ok ==> forall|j: int|
            i <= j < p.funcs.len() ==> (#[trigger] collect_funcs(
                p,
                i,
            ).program.funcs[j]).body.symbols.parent == Some(Scope::Program),
    decreases p.funcs.len() - i,
{
    if i < p.funcs.len() && !p.symbols.contains(p.funcs[i].name) {
        let f = p.funcs[i];
        let linked = f.body.symbols.adopt(Some(Scope::Program));
        assert(linked.unique()) by {
            assert(f.body.symbols.unique());
            assert(linked.entries == f.body.symbols.entries);
        }
        lemma_declare_params_keeps(linked, f.parameters, 0, f.name);
        lemma_declare_lets_keeps(
            declare_params(linked, f.parameters, 0, f.name).table,
            f.body.statements,
            0,
            f.name,
        );
        let passed = collect_function(f);
        lemma_declare_unique(p.symbols, function(f, i));
        let next = ProgramView {
            symbols: p.symbols.declare(function(f, i)),
            funcs: p.funcs.update(i, passed.func),
            ..p
        };
        assert(tables_unique(next)) by {
            assert forall|j: int|
                0 <= j < next.funcs.len() implies (#[trigger] next.funcs[j]).body.symbols.unique(
            ) by {
                if j != i {
                    assert(p.funcs[j].body.symbols.unique());
                }
            }
        }
        if passed.result is Ok {
            lemma_collect_funcs_keeps_tables(next, i + 1);
            let done = collect_funcs(p, i).program;
            assert forall|j: int| 0 <= j < i implies #[trigger] done.funcs[j] == p.funcs[j] by {
                assert(next.funcs[j] == p.funcs[j]);
            }
            if collect_funcs(p, i).result is Ok {
                assert forall|j: int| i <= j < p.funcs.len() implies (#[trigger] done.funcs[j])
                    .body.symbols.parent == Some(Scope::Program) by {
                    if j == i {
                        assert(done.funcs[i] == next.funcs[i]);
                    }
                }
            }
        }
    }
}

/// The first pass over the variables of the top level keeps the functions
/// as they are, and keeps that the table of the program holds each name
/// once.
pub proof fn lemma_collect_lets_keeps_tables(
    p: ProgramView,
    i: int,
    level: Level,
    out: Seq<Seq<char>>,
)
    requires
        p.symbols.unique(),
    ensures
        collect_lets(p, i, level, out).program.symbols.unique(),
        collect_lets(p, i, level, out).program.funcs == p.funcs,
    decreases p.lets.len() - i,
{
    if 0 <= i < p.lets.len() && !p.symbols.contains(p.lets[i].name) {
        let name = p.lets[i].name;
        lemma_declare_unique(p.symbols, variable(name));
        lemma_collect_lets_keeps_tables(
            ProgramView { symbols: p.symbols.declare(variable(name)), ..p },
            i + 1,
            level,
            logged(level, out, Level::Debug, collecting_trace(name)),
        );
    }
}

/// The invariants of the symbol tables. Where every table of a program
/// holds each name once before the first pass, as in a program from the
/// parser, whose tables are empty, every table does after it, however it
/// ends; and where the pass succeeds, the table of the program is the
/// parent of the table of the body of every function.
pub proof fn lemma_collect_keeps_tables(p: ProgramView, level: Level, out: Seq<Seq<char>>)
    requires
        tables_unique(p),
    ensures
        tables_unique(collect_program(p, level, out).program),
        collect_program(p, level, out).result is Ok ==> tables_linked(
            collect_program(p, level, out).program,
        ),
{
    lemma_collect_funcs_keeps_tables(p, 0);
    lemma_collect_lets_keeps_tables(collect_funcs(p, 0).program, 0, level, out);
}

/// The model of the outcome of a pass.
pub open spec fn pass_result(r: Result<(), AnalysisError>) -> Result<(), AnalysisErrorView> {
    match r {
        Ok(_) => Ok(()),
        Err(failure) => Err(failure@),
    }
}

/// The analyzer of a program.
pub struct Analyzer {
    pub program: ProgramNode,
}

impl Analyzer {
    /// The analyzer of the given program.
    pub fn new(program: ProgramNode) -> (r: Analyzer)
        ensures
            r.program == program,
    {
        Analyzer { program }
    }

    /// Analyzes the program: see [`analyze_program`].
    pub fn analyze(&mut self, logger: &mut Logger) -> (r: Result<(), AnalysisError>)
        ensures
            ({
                let outcome = analyze_program(
                    old(self).program@,
                    old(logger)@.level,
                    old(logger)@.output,
                );
                &&& final(logger)@.level == old(logger)@.level
                &&& final(self).program@ == outcome.program
                &&& final(logger)@.output == outcome.output
                &&& pass_result(r) == outcome.result
            }),
    {
        logger.info("Analyze.");
        self.collect_symbols_program(logger)?;
        self.reference_symbols_program()?;
        self.check_unused_variables_program(logger);
        Ok(())
    }

    /// The first pass: see [`collect_program`].
    pub fn collect_symbols_program(&mut self, logger: &mut Logger) -> (r: Result<
        (),
        AnalysisError,
    >)
        ensures
            ({
                let outcome = collect_program(
                    old(self).program@,
                    old(logger)@.level,
                    old(logger)@.output,
                );
                &&& final(logger)@.level == old(logger)@.level
                &&& final(self).program@ == outcome.program
                &&& final(logger)@.output == outcome.output
                &&& pass_result(r) == outcome.result
            }),
    {
        let mut i: usize = 0;
        while i < self.program.func_nodes.len()
            invariant
                i <= self.program.func_nodes.len(),
                *logger == *old(logger),
                collect_funcs(self.program@, i as int) == collect_funcs(old(self).program@, 0),
            decreases self.program.func_nodes.len() - i,
        {
            let ghost before = self.program@;
            let name = self.program.func_nodes[i].name.clone();
            let num_params = self.program.func_nodes[i].parameters.len();
            let symbol = Symbol::new(
                name.clone(),
                Value::Func(FuncRef { name: name.clone(), index: i }, num_params),
                num_params,
            );
            assert(symbol@ == function(before.funcs[i as int], i as int));
            if !self.program.symbols.insert(symbol) {
                assert(self.program@ == before);
                return Err(AnalysisError::DuplicateIdentifier(name));
            }
            let outcome = Self::collect_symbols_block_function(&mut self.program.func_nodes[i]);
            proof {
                let passed = collect_function(before.funcs[i as int]);
                assert(self.program@.funcs =~= before.funcs.update(i as int, passed.func));
                assert(self.program@.lets =~= before.lets);
            }
            match outcome {
                Ok(_) => {},
                Err(failure) => {
                    return Err(failure);
                },
            }
            i = i + 1;
        }
        let ghost collected = self.program@;
        let ghost start = logger@.output;
        let mut j: usize = 0;
        while j < self.program.let_nodes.len()
            invariant
                j <= self.program.let_nodes.len(),
                logger@.level == old(logger)@.level,
                start == old(logger)@.output,
                collect_funcs(old(self).program@, 0) == (Analysis {
                    program: collected,
                    output: Seq::empty(),
                    result: Ok(()),
                }),
                collect_lets(self.program@, j as int, logger@.level, logger@.output)
                    == collect_lets(collected, 0, logger@.level, start),
            decreases self.program.let_nodes.len() - j,
        {
            let ghost before = self.program@;
            let name = self.program.let_nodes[j].name.clone();
            let symbol = Symbol::new(name.clone(), Value::Nil, 0);
            logger.debug(join3("Collecting symbol '", name.as_str(), "'.").as_str());
            assert(symbol@ == variable(before.lets[j as int].name));
            if !self.program.symbols.insert(symbol) {
                assert(self.program@ == before);
                return Err(AnalysisError::DuplicateIdentifier(name));
            }
            proof {
                assert(self.program@.funcs =~= before.funcs);
                assert(self.program@.lets =~= before.lets);
            }
            j = j + 1;
        }
        Ok(())
    }

    /// The first pass over a function: see [`collect_function`].
    pub fn collect_symbols_block_function(func: &mut FuncNode) -> (r: Result<(), AnalysisError>)
        ensures
            final(func)@ == collect_function(old(func)@).func,
            pass_result(r) == collect_function(old(func)@).result,
    {
        let ghost f = func@;
        func.block_node.symbols.parent = Some(Scope::Program);
        let ghost linked = func.block_node.symbols@;
        assert(linked == f.body.symbols.adopt(Some(Scope::Program)));
        let mut i: usize = 0;
        while i < func.parameters.len()
            invariant
                i <= func.parameters.len(),
                func.name == old(func).name,
                func.parameters == old(func).parameters,
                func.block_node.statements == old(func).block_node.statements,
                f == old(func)@,
                linked == f.body.symbols.adopt(Some(Scope::Program)),
                declare_params(func.block_node.symbols@, f.parameters, i as int, f.name)
                    == declare_params(linked, f.parameters, 0, f.name),
            decreases func.parameters.len() - i,
        {
            let name = func.parameters[i].name.clone();
            let symbol = Symbol::new(name.clone(), Value::Nil, 0);
            assert(symbol@ == variable(f.parameters[i as int]));
            if !func.block_node.symbols.insert(symbol) {
                return Err(AnalysisError::DuplicateInFunction(name, func.name.clone()));
            }
            i = i + 1;
        }
        let ghost declared = func.block_node.symbols@;
        let mut j: usize = 0;
        while j < func.block_node.statements.len()
            invariant
                j <= func.block_node.statements.len(),
                func.name == old(func).name,
                func.parameters == old(func).parameters,
                func.block_node.statements == old(func).block_node.statements,
                f == old(func)@,
                linked == f.body.symbols.adopt(Some(Scope::Program)),
                declare_params(linked, f.parameters, 0, f.name) == (Tabled {
                    table: declared,
                    result: Ok(()),
                }),
                declare_lets(func.block_node.symbols@, f.body.statements, j as int, f.name)
                    == declare_lets(declared, f.body.statements, 0, f.name),
            decreases func.block_node.statements.len() - j,
        {
            assert(f.body.statements[j as int] == func.block_node.statements[j as int]@);
            let found = match &*func.block_node.statements[j] {
                StmtNode::Let(let_node) => Some(let_node.name.clone()),
                _ => None,
            };
            match found {
                Some(name) => {
                    let symbol = Symbol::new(name.clone(), Value::Nil, 0);
                    if !func.block_node.symbols.insert(symbol) {
                        return Err(AnalysisError::DuplicateInFunction(name, func.name.clone()));
                    }
                },
                None => {},
            }
            j = j + 1;
        }
        Ok(())
    }

    /// The second pass: see [`reference_program`].
    pub fn reference_symbols_program(&mut self) -> (r: Result<(), AnalysisError>)
        ensures
            final(self).program@ == reference_program(old(self).program@, 0).program,
            pass_result(r) == reference_program(old(self).program@, 0).result,
    {
        let mut i: usize = 0;
        while i < self.program.func_nodes.len()
            invariant
                i <= self.program.func_nodes.len(),
                reference_program(self.program@, i as int) == reference_program(
                    old(self).program@,
                    0,
                ),
            decreases self.program.func_nodes.len() - i,
        {
            let ghost before = self.program@;
            let outcome = Self::reference_symbols_block_function(&mut self.program.func_nodes[i]);
            proof {
                let passed = reference_function(before.funcs[i as int]);
                assert(self.program@.funcs =~= before.funcs.update(i as int, passed.func));
                assert(self.program@.lets =~= before.lets);
            }
            match outcome {
                Ok(_) => {},
                Err(failure) => {
                    return Err(failure);
                },
            }
            i = i + 1;
        }
        Ok(())
    }

    /// The second pass over a function: see [`reference_function`].
    pub fn reference_symbols_block_function(func: &mut FuncNode) -> (r: Result<
        (),
        AnalysisError,
    >)
        ensures
            final(func)@ == reference_function(old(func)@).func,
            pass_result(r) == reference_function(old(func)@).result,
    {
        let ghost f = func@;
        let mut i: usize = 0;
        while i < func.block_node.statements.len()
            invariant
                i <= func.block_node.statements.len(),
                func.name == old(func).name,
                func.parameters == old(func).parameters,
                func.block_node.statements == old(func).block_node.statements,
                f == old(func)@,
                reference_stmts(func.block_node.symbols@, f.body.statements, i as int, f.name)
                    == reference_stmts(f.body.symbols, f.body.statements, 0, f.name),
            decreases func.block_node.statements.len() - i,
        {
            assert(f.body.statements[i as int] == func.block_node.statements[i as int]@);
            let statement = Rc::clone(&func.block_node.statements[i]);
            match &*statement {
                StmtNode::Let(let_node) => {
                    if !func.block_node.symbols.contains(let_node.name.as_str()) {
                        return Err(
                            AnalysisError::Undeclared(let_node.name.clone(), func.name.clone()),
                        );
                    }
                },
                StmtNode::Assign(assign_node) => {
                    if !func.block_node.symbols.contains(assign_node.name.as_str()) {
                        return Err(
                            AnalysisError::Undeclared(assign_node.name.clone(), func.name.clone()),
                        );
                    }
                    func.block_node.symbols.mark_used(assign_node.name.as_str());
                    Self::reference_symbols_expression(
                        &assign_node.expr,
                        &mut func.block_node.symbols,
                    );
                },
                StmtNode::IfElse(if_node) => {
                    Self::reference_symbols_expression(
                        &if_node.condition,
                        &mut func.block_node.symbols,
                    );
                },
                StmtNode::Return(return_node) => {
                    Self::reference_symbols_expression(
                        &return_node.expr,
                        &mut func.block_node.symbols,
                    );
                },
                StmtNode::While(while_node) => {
                    Self::reference_symbols_expression(
                        &while_node.condition,
                        &mut func.block_node.symbols,
                    );
                },
                StmtNode::Print(print_node) => {
                    Self::reference_symbols_expression(
                        &print_node.expr,
                        &mut func.block_node.symbols,
                    );
                },
            }
            i = i + 1;
        }
        Ok(())
    }

    /// Marks the names that an expression refers to: see [`resolve_expr`].
    pub fn reference_symbols_expression(expr: &ExprNode, symbols: &mut Symbols)
        ensures
            final(symbols)@ == resolve_expr(old(symbols)@, expr@),
        decreases expr,
    {
        match expr {
            ExprNode::Var(var_node) => {
                symbols.mark_used(var_node.as_str());
            },
            ExprNode::Call(call_node, args) => {
                symbols.mark_used(call_node.as_str());
                let ghost marked = symbols@;
                let ghost views = expr@->Call_1;
                let mut i: usize = 0;
                while i < args.len()
                    invariant
                        i <= args.len(),
                        expr is Call,
                        expr->Call_1 == *args,
                        views == expr@->Call_1,
                        views.len() == args.len(),
                        resolve_args(symbols@, views, i as int) == resolve_args(marked, views, 0),
                    decreases args.len() - i,
                {
                    proof {
                        assert(decreases_to!(*args => args[i as int]));
                        assert(views[i as int] == args[i as int]@);
                    }
                    Self::reference_symbols_expression(&args[i], symbols);
                    i = i + 1;
                }
            },
            ExprNode::Add(expr1, expr2) => {
                Self::reference_symbols_expression(expr1, symbols);
                Self::reference_symbols_expression(expr2, symbols);
            },
            ExprNode::Sub(expr1, expr2) => {
                Self::reference_symbols_expression(expr1, symbols);
                Self::reference_symbols_expression(expr2, symbols);
            },
            ExprNode::Mul(expr1, expr2) => {
                Self::reference_symbols_expression(expr1, symbols);
                Self::reference_symbols_expression(expr2, symbols);
            },
            ExprNode::EqualTo(expr1, expr2) => {
                Self::reference_symbols_expression(expr1, symbols);
                Self::reference_symbols_expression(expr2, symbols);
            },
            ExprNode::NotEqualTo(expr1, expr2) => {
                Self::reference_symbols_expression(expr1, symbols);
                Self::reference_symbols_expression(expr2, symbols);
            },
            ExprNode::GreaterThan(expr1, expr2) => {
                Self::reference_symbols_expression(expr1, symbols);
                Self::reference_symbols_expression(expr2, symbols);
            },
            ExprNode::LessThan(expr1, expr2) => {
                Self::reference_symbols_expression(expr1, symbols);
                Self::reference_symbols_expression(expr2, symbols);
            },
            ExprNode::GreaterThanEq(expr1, expr2) => {
                Self::reference_symbols_expression(expr1, symbols);
                Self::reference_symbols_expression(expr2, symbols);
            },
            ExprNode::LessThanEq(expr1, expr2) => {
                Self::reference_symbols_expression(expr1, symbols);
                Self::reference_symbols_expression(expr2, symbols);
            },
            ExprNode::Val(_) => {},
            ExprNode::String(_) => {},
        }
    }

    /// The third pass: see [`warn_program`].
    pub fn check_unused_variables_program(&self, logger: &mut Logger)
        ensures
            final(logger)@.level == old(logger)@.level,
            final(logger)@.output == warn_program(
                self.program@,
                0,
                old(logger)@.level,
                old(logger)@.output,
            ),
    {
        let mut i: usize = 0;
        while i < self.program.func_nodes.len()
            invariant
                i <= self.program.func_nodes.len(),
                logger@.level == old(logger)@.level,
                warn_program(self.program@, i as int, logger@.level, logger@.output)
                    == warn_program(self.program@, 0, logger@.level, old(logger)@.output),
            decreases self.program.func_nodes.len() - i,
        {
            Self::check_unused_variables_block_function(&self.program.func_nodes[i], logger);
            i = i + 1;
        }
    }

    /// The third pass over a function: see [`warn_function`].
    pub fn check_unused_variables_block_function(func: &FuncNode, logger: &mut Logger)
        ensures
            final(logger)@.level == old(logger)@.level,
            final(logger)@.output == warn_function(
                func@.body.symbols.entries,
                0,
                func@.name,
                old(logger)@.level,
                old(logger)@.output,
            ),
    {
        let ghost entries = func@.body.symbols.entries;
        let mut i: usize = 0;
        while i < func.block_node.symbols.entries.len()
            invariant
                i <= func.block_node.symbols.entries.len(),
                entries == func@.body.symbols.entries,
                logger@.level == old(logger)@.level,
                warn_function(entries, i as int, func@.name, logger@.level, logger@.output)
                    == warn_function(entries, 0, func@.name, logger@.level, old(logger)@.output),
            decreases func.block_node.symbols.entries.len() - i,
        {
            let symbol = &func.block_node.symbols.entries[i];
            assert(entries[i as int] == symbol@);
            if !symbol.is_used {
                logger.warn(
                    join5(
                        "Warning: Variable '",
                        symbol.name.as_str(),
                        "' declared but not used in function ",
                        func.name.as_str(),
                        "!",
                    ).as_str(),
                );
            }
            i = i + 1;
        }
    }
}

} // verus!
