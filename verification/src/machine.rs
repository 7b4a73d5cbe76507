//! The machine: the pipeline from a program, or from its source text, to
//! the value that its `main` returns and to what it writes.

use vstd::prelude::*;
use crate::analyzer::{
    analyze_program,
    collect_funcs,
    collect_program,
    reference_program,
    warn_program,
    Analysis,
    Analyzer,
};
use crate::error::{Fault, FaultView, RuntimeErrorView};
use crate::executor::Executor;
use crate::floats::{AnswerView, Floats};
use crate::lexer::{run_end, tokens, Lexer, Run};
use crate::logger::{logged, Level, Logger};
use crate::parser::{parse_program, stop, traced, DescentParser, Failed, Parsed};
use crate::semantics::{extends, lemma_answers_program, lemma_fuel_program, run_program};
use crate::symbols::values_of;
use crate::token::TokenView;
use crate::tree::{ProgramNode, ProgramView};
use crate::value::{Value, ValueView};

verus! {

/// The outcome of a run: the output after it, and the value that `main`
/// returned or the failure that ended the run.
pub struct Outcome {
    pub output: Seq<Seq<char>>,
    pub result: Result<ValueView, FaultView>,
}

/// The run of a program: it is analyzed, and where the analysis finds no
/// fault, executed.
pub open spec fn run_machine(
    p: ProgramView,
    level: Level,
    floats: Seq<AnswerView>,
    out: Seq<Seq<char>>,
    fuel: nat,
) -> Outcome {
    let analysis = analyze_program(p, level, out);
    match analysis.result {
        Err(
            failure,
        ) => Outcome { output: analysis.output, result: Err(FaultView::Analysis(failure)) },
        Ok(_) => {
            let run = run_program(analysis.program, level, floats, analysis.output, fuel);
            Outcome {
                output: run.output,
                result: match run.result {
                    Ok(value) => Ok(value),
                    Err(failure) => Err(FaultView::Runtime(failure)),
                },
            }
        },
    }
}

/// The run of a source text: its tokens are parsed, which writes their
/// traces, and where they are a program, the program runs.
pub open spec fn interpret(
    source: Seq<char>,
    level: Level,
    floats: Seq<AnswerView>,
    out: Seq<Seq<char>>,
    fuel: nat,
) -> Outcome {
    let parsed = parse_program(tokens(source));
    let read = traced(level, out, tokens(source), 0, stop(parsed));
    match parsed {
        Err(failed) => Outcome { output: read, result: Err(FaultView::Parse(failed.error)) },
        Ok(program) => run_machine(program.node, level, floats, read, fuel),
    }
}

/// The model of the outcome of a run.
pub open spec fn run_result(r: Result<Value, Fault>) -> Result<ValueView, FaultView> {
    match r {
        Ok(value) => Ok(value@),
        Err(failure) => Err(failure@),
    }
}

/// Determinism of the parser: two texts with the same tokens are the same
/// program, or fail alike. The syntax tree depends on the text through its
/// tokens only.
pub proof fn lemma_same_tokens_same_tree(a: Seq<char>, b: Seq<char>)
    requires
        tokens(a) == tokens(b),
    ensures
        parse_program(tokens(a)) == parse_program(tokens(b)),
{
}

/// Determinism of the execution: the output of a run and its result are
/// determined by the source text, by the setting of the logger and the
/// output before the run, and by the fuel. Two runs of one text write the
/// same lines.
pub proof fn lemma_same_source_same_run(
    a: Seq<char>,
    b: Seq<char>,
    level: Level,
    floats: Seq<AnswerView>,
    out: Seq<Seq<char>>,
    fuel: nat,
)
    requires
        a == b,
    ensures
        interpret(
            a,
            level,
            floats,
            out,
            fuel,
        ).output == interpret(b, level, floats, out, fuel).output,
        interpret(
            a,
            level,
            floats,
            out,
            fuel,
        ).result == interpret(b, level, floats, out, fuel).result,
{
}

/// The empty program has no `main`: its run fails with `NoMain` and writes
/// the milestones up to there. The empty text is the empty program.
pub proof fn lemma_empty_program_has_no_main(
    level: Level,
    floats: Seq<AnswerView>,
    out: Seq<Seq<char>>,
    fuel: nat,
)
    ensures
        run_machine(
            ProgramView::empty(),
            level,
            floats,
            out,
            fuel,
        ).result == Err::<ValueView, FaultView>(
            FaultView::Runtime(RuntimeErrorView::NoMain),
        ),
        run_machine(ProgramView::empty(), level, floats, out, fuel).output == logged(
            level,
            logged(level, logged(level, out, Level::Info, "Analyze."@), Level::Info, "Execute."@),
            Level::Info,
            "Execute Program."@,
        ),
        interpret(Seq::empty(), level, floats, out, fuel) == run_machine(
            ProgramView::empty(),
            level,
            floats,
            out,
            fuel,
        ),
{
    let p = ProgramView::empty();
    let started = logged(level, out, Level::Info, "Analyze."@);
    assert(collect_funcs(p, 0).program == p);
    assert(collect_program(p, level, started).program == p);
    assert(reference_program(p, 0).program == p);
    assert(warn_program(p, 0, level, started) == started);
    assert(analyze_program(p, level, out) == (Analysis {
        program: p,
        output: started,
        result: Ok(()),
    }));
    assert(values_of(p.symbols.entries, 0) =~= Map::empty());
    let empty = Seq::<char>::empty();
    assert(run_end(empty, 0, Run::Space) == 0);
    assert(tokens(empty) =~= seq![TokenView::EOI]);
    assert(parse_program(tokens(empty)) == Ok::<Parsed<ProgramView>, Failed>(
        Parsed { node: p, next: 0 },
    ));
}

/// More fuel changes nothing: a run that does not fail for want of fuel
/// has the same outcome with any greater amount of fuel.
pub proof fn lemma_more_fuel_same_run(
    source: Seq<char>,
    level: Level,
    floats: Seq<AnswerView>,
    out: Seq<Seq<char>>,
    fuel: nat,
    more: nat,
)
    requires
        fuel <= more,
        interpret(source, level, floats, out, fuel).result != Err::<ValueView, FaultView>(
            FaultView::Runtime(RuntimeErrorView::OutOfFuel),
        ),
    ensures
        interpret(source, level, floats, out, more) == interpret(source, level, floats, out, fuel),
{
    match parse_program(tokens(source)) {
        Ok(program) => {
            let read = traced(level, out, tokens(source), 0, program.next);
            let analysis = analyze_program(program.node, level, read);
            if analysis.result is Ok {
                lemma_fuel_program(analysis.program, level, floats, analysis.output, fuel, more);
            }
        },
        Err(_) => {},
    }
}

/// More answers change nothing: a run that does not fail for want of an
/// answer has the same outcome with any answers that extend those that it
/// was given. So a run that is repeated with one answer more goes the way
/// that it went before, up to where the answer was wanted, and further.
pub proof fn lemma_more_answers_same_run(
    source: Seq<char>,
    level: Level,
    floats: Seq<AnswerView>,
    longer: Seq<AnswerView>,
    out: Seq<Seq<char>>,
    fuel: nat,
)
    requires
        extends(floats, longer),
        !(interpret(source, level, floats, out, fuel).result is Err && interpret(
            source,
            level,
            floats,
            out,
            fuel,
        ).result->Err_0 is Runtime && interpret(
            source,
            level,
            floats,
            out,
            fuel,
        ).result->Err_0->Runtime_0 is FloatPending),
    ensures
        interpret(source, level, longer, out, fuel) == interpret(source, level, floats, out, fuel),
{
    match parse_program(tokens(source)) {
        Ok(program) => {
            let read = traced(level, out, tokens(source), 0, program.next);
            let analysis = analyze_program(program.node, level, read);
            if analysis.result is Ok {
                lemma_answers_program(
                    analysis.program,
                    level,
                    floats,
                    longer,
                    analysis.output,
                    fuel,
                );
            }
        },
        Err(_) => {},
    }
}

/// The machine that runs a program.
pub struct Machine {
    pub program: ProgramNode,
}

impl Machine {
    /// The machine of the given program, as the parser built it.
    pub fn new(program: ProgramNode) -> (r: Machine)
        ensures
            r.program == program,
    {
        Machine { program }
    }

    /// Analyzes and executes the program: see [`run_machine`].
    pub fn run(self, floats: &Floats, logger: &mut Logger, fuel: u64) -> (r: Result<Value, Fault>)
        ensures
            ({
                let outcome = run_machine(
                    self.program@,
                    old(logger)@.level,
                    floats@,
                    old(logger)@.output,
                    fuel as nat,
                );
                &&& final(logger)@.level == old(logger)@.level
                &&& final(logger)@.output == outcome.output
                &&& run_result(r) == outcome.result
            }),
    {
        let mut analyzer = Analyzer::new(self.program);
        match analyzer.analyze(logger) {
            Ok(_) => {},
            Err(failure) => {
                return Err(Fault::Analysis(failure));
            },
        }
        let executor = Executor::new(analyzer.program);
        match executor.execute(floats, logger, fuel) {
            Ok(value) => Ok(value),
            Err(failure) => Err(Fault::Runtime(failure)),
        }
    }
}

/// Runs a source text: see [`interpret`].
pub fn run_main(input: String, floats: &Floats, logger: &mut Logger, fuel: u64) -> (r: Result<
    Value,
    Fault,
>)
    ensures
        ({
            let outcome = interpret(
                input@,
                old(logger)@.level,
                floats@,
                old(logger)@.output,
                fuel as nat,
            );
            &&& final(logger)@.level == old(logger)@.level
            &&& final(logger)@.output == outcome.output
            &&& run_result(r) == outcome.result
        }),
{
    let mut lexer = Lexer::new(String::new());
    lexer.set_input(input);
    let mut parser = DescentParser::new(lexer);
    let ast = match parser.analyze(logger) {
        Ok(program) => program,
        Err(failure) => {
            return Err(Fault::Parse(failure));
        },
    };
    let runtime = Machine::new(ast);
    runtime.run(floats, logger, fuel)
}

} // verus!
