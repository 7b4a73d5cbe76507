use std::rc::Rc;

use iron_oxide::analyzer::Analyzer;
use iron_oxide::error::{AnalysisError, Fault, RuntimeError};
use iron_oxide::executor::Executor;
use iron_oxide::floats::Floats;
use iron_oxide::frame::Frame;
use iron_oxide::lexer::Lexer;
use iron_oxide::logger::{Level, Logger};
use iron_oxide::machine::Machine;
use iron_oxide::parser::DescentParser;
use iron_oxide::semantics::Control;
use iron_oxide::symbols::{Scope, Symbols};
use iron_oxide::tree::{
    AssignNode, BlockNode, ExprNode, FuncNode, IfElseNode, LetNode, Parameter, PrintNode,
    ProgramNode, ReturnNode, StmtNode, WhileNode,
};
use iron_oxide::value::Value;

fn parsed(source: &str) -> ProgramNode {
    let mut parser = DescentParser::new(Lexer::new(source.to_string()));
    parser.analyze(&mut Logger::new(Level::Off)).unwrap()
}

fn analyzed(source: &str, level: Level) -> (Result<(), AnalysisError>, ProgramNode, Vec<String>) {
    let mut analyzer = Analyzer::new(parsed(source));
    let mut logger = Logger::new(level);
    let result = analyzer.analyze(&mut logger);
    (result, analyzer.program, logger.output)
}

fn table(symbols: &Symbols) -> Vec<String> {
    symbols
        .entries
        .iter()
        .map(|s| format!("{} {} {} {}", s.name, s.value.to_text(), s.signature, s.is_used))
        .collect()
}

#[test]
fn the_first_pass_fills_the_tables() {
    let source = "let g; func add(a, b) [ let t; t = a; while t [ let inner; ] return t; ] let h = 2; func main(argc) [ ]";
    let mut analyzer = Analyzer::new(parsed(source));
    let mut logger = Logger::new(Level::Debug);
    assert!(analyzer.collect_symbols_program(&mut logger).is_ok());
    let program = &analyzer.program;
    assert_eq!(
        table(&program.symbols),
        vec!["add <func add 2> 2 false", "main <func main 1> 1 false", "g nil 0 false", "h nil 0 false"]
    );
    assert_eq!(program.symbols.parent, None);
    let add = &program.func_nodes[0].block_node;
    assert_eq!(table(&add.symbols), vec!["a nil 0 false", "b nil 0 false", "t nil 0 false"]);
    assert_eq!(add.symbols.parent, Some(Scope::Program));
    assert_eq!(program.func_nodes[1].block_node.symbols.parent, Some(Scope::Program));
    assert_eq!(table(&program.func_nodes[1].block_node.symbols), vec!["argc nil 0 false"]);
    assert_eq!(logger.output, vec!["[DEBUG] Collecting symbol 'g'.", "[DEBUG] Collecting symbol 'h'."]);
    match &program.symbols.entries[1].value {
        Value::Func(handle, arity) => {
            assert_eq!(handle.name, "main");
            assert_eq!(handle.index, 1);
            assert_eq!(*arity, 1);
        },
        other => panic!("{:?}", other),
    }
}

#[test]
fn the_first_pass_fails_when_it_runs_again() {
    for source in ["func main(argc) [ ]", "let x;", "let x; func f() [ let y; ] func g(a) [ ]"] {
        let mut analyzer = Analyzer::new(parsed(source));
        let mut logger = Logger::new(Level::Off);
        assert!(analyzer.collect_symbols_program(&mut logger).is_ok());
        let again = analyzer.collect_symbols_program(&mut logger);
        assert!(matches!(again, Err(AnalysisError::DuplicateIdentifier(_))), "{:?}", again);
    }
    let mut analyzer = Analyzer::new(parsed(""));
    let mut logger = Logger::new(Level::Off);
    assert!(analyzer.collect_symbols_program(&mut logger).is_ok());
    assert!(analyzer.collect_symbols_program(&mut logger).is_ok());
}

#[test]
fn duplicates_are_fatal_in_every_scope() {
    let failure = |source: &str| analyzed(source, Level::Off).0.unwrap_err().message();
    assert_eq!(failure("let x; let x;"), "Duplicate identifier 'x'!");
    assert_eq!(failure("func f() [ ] func f(a) [ ]"), "Duplicate identifier 'f'!");
    assert_eq!(failure("let f; func f() [ ]"), "Duplicate identifier 'f'!");
    assert_eq!(failure("func f(a, a) [ ]"), "Duplicate parameter name 'a' in function f!");
    assert_eq!(failure("func f(a) [ let a; ]"), "Duplicate parameter name 'a' in function f!");
    assert_eq!(failure("func f() [ let a; let b; let a; ]"), "Duplicate parameter name 'a' in function f!");
    assert!(analyzed("let a; func f(a) [ let f; ] func g(a) [ ]", Level::Off).0.is_ok());
    assert!(analyzed("func f() [ let a; if true [ let a; ] ]", Level::Off).0.is_ok());
    match analyzed("func f(a, b, a) [ ]", Level::Off).0 {
        Err(AnalysisError::DuplicateInFunction(name, function)) => {
            assert_eq!(name, "a");
            assert_eq!(function, "f");
        },
        other => panic!("{:?}", other),
    }
}

#[test]
fn an_assignment_to_an_undeclared_name_is_fatal() {
    let (result, _, _) = analyzed("func f() [ x = 1; ]", Level::Off);
    assert_eq!(result.unwrap_err().message(), "Variable 'x' used before declaration in function f!");
    assert!(analyzed("func f() [ x = 1; let x; ]", Level::Off).0.is_ok());
    assert!(analyzed("func f() [ while true [ x = 1; ] ]", Level::Off).0.is_ok());
}

#[test]
fn the_second_pass_marks_what_is_referred_to() {
    let source = "func f(a, b, c, d, e, g, h, i, f) [
          let s; let t; let u; let v;
          s = a + b * 2;
          return c;
          print d < 1;
          while e == 1 [ t = 1; print u; ]
          if g(h, x) [ print v; ] else [ print v; ]
        ]";
    let (result, program, _) = analyzed(source, Level::Off);
    assert!(result.is_ok());
    assert_eq!(
        table(&program.func_nodes[0].block_node.symbols),
        vec![
            "a nil 0 true", "b nil 0 true", "c nil 0 true", "d nil 0 true", "e nil 0 true",
            "g nil 0 true", "h nil 0 true", "i nil 0 false", "f nil 0 false",
            "s nil 0 true", "t nil 0 false", "u nil 0 false", "v nil 0 false",
        ]
    );
    assert_eq!(table(&program.symbols), vec!["f <func f 9> 9 false"]);
}

#[test]
fn the_third_pass_warns_in_the_order_of_declaration() {
    let source = "func f(a, b) [ let c; return b; ] func g() [ let z; let y; y = 1; ]";
    let (result, _, output) = analyzed(source, Level::Warn);
    assert!(result.is_ok());
    assert_eq!(
        output,
        vec![
            "[INFO] Analyze.",
            "[WARN] Warning: Variable 'a' declared but not used in function f!",
            "[WARN] Warning: Variable 'c' declared but not used in function f!",
            "[WARN] Warning: Variable 'z' declared but not used in function g!",
        ]
    );
    let (_, _, output) = analyzed(source, Level::Debug);
    assert_eq!(output, vec!["[INFO] Analyze."]);
    let (_, _, output) = analyzed("let q; let q;", Level::Debug);
    assert_eq!(output, vec!["[INFO] Analyze.", "[DEBUG] Collecting symbol 'q'.", "[DEBUG] Collecting symbol 'q'."]);
}

fn call_add(sum: &str, increment: i32) -> ExprNode {
    ExprNode::Call(
        "add".to_string(),
        vec![Rc::new(ExprNode::Var(sum.to_string())), Rc::new(ExprNode::Val(Value::I32(increment)))],
    )
}

fn sample_program() -> ProgramNode {
    let mut program = ProgramNode::new();
    program.let_nodes.push(Rc::new(LetNode::new("count".to_string(), Value::Nil)));
    program.let_nodes.push(Rc::new(LetNode::new("help".to_string(), Value::Nil)));

    let mut block_add = BlockNode::new();
    block_add.statements.push(Rc::new(StmtNode::Return(ReturnNode::new(ExprNode::Add(
        Rc::new(ExprNode::Var("a".to_string())),
        Rc::new(ExprNode::Var("b".to_string())),
    )))));
    program.func_nodes.push(FuncNode::new(
        "add".to_string(),
        vec![Parameter::new("a".to_string()), Parameter::new("b".to_string())],
        block_add,
    ));

    let mut while_block = BlockNode::new();
    while_block.statements.push(Rc::new(StmtNode::Assign(AssignNode::new("sum".to_string(), call_add("sum", 1)))));
    while_block.statements.push(Rc::new(StmtNode::Print(PrintNode::new(ExprNode::Var("sum".to_string())))));

    let mut if_block = BlockNode::new();
    if_block.statements.push(Rc::new(StmtNode::Assign(AssignNode::new("sum".to_string(), call_add("sum", 1)))));
    if_block.statements.push(Rc::new(StmtNode::Print(PrintNode::new(ExprNode::Var("sum".to_string())))));

    let mut block_main = BlockNode::new();
    block_main.statements.push(Rc::new(StmtNode::Let(LetNode::new("sum".to_string(), Value::Nil))));
    block_main.statements.push(Rc::new(StmtNode::Assign(AssignNode::new(
        "sum".to_string(),
        ExprNode::Add(
            Rc::new(ExprNode::Val(Value::I32(3))),
            Rc::new(ExprNode::Add(Rc::new(ExprNode::Val(Value::I32(5))), Rc::new(ExprNode::Val(Value::I32(7))))),
        ),
    ))));
    block_main.statements.push(Rc::new(StmtNode::Print(PrintNode::new(ExprNode::Var("sum".to_string())))));
    block_main.statements.push(Rc::new(StmtNode::Assign(AssignNode::new("sum".to_string(), call_add("sum", 1)))));
    block_main.statements.push(Rc::new(StmtNode::Print(PrintNode::new(ExprNode::Var("sum".to_string())))));
    block_main.statements.push(Rc::new(StmtNode::Print(PrintNode::new(ExprNode::Add(
        Rc::new(ExprNode::String("While loop".to_string())),
        Rc::new(ExprNode::Val(Value::I32(50))),
    )))));
    block_main.statements.push(Rc::new(StmtNode::While(WhileNode::new(
        ExprNode::LessThan(Rc::new(ExprNode::Var("sum".to_string())), Rc::new(ExprNode::Val(Value::I32(20)))),
        while_block,
    ))));
    block_main.statements.push(Rc::new(StmtNode::IfElse(IfElseNode::new(
        ExprNode::EqualTo(Rc::new(ExprNode::Var("sum".to_string())), Rc::new(ExprNode::Val(Value::I32(21)))),
        if_block,
        None,
    ))));
    program.func_nodes.push(FuncNode::new(
        "main".to_string(),
        vec![Parameter::new("argc".to_string())],
        block_main,
    ));
    program
}

#[test]
fn a_tree_built_by_hand_runs() {
    let mut logger = Logger::new(Level::Off);
    let result = Machine::new(sample_program()).run(&Floats::new(), &mut logger, 100);
    assert_eq!(result.unwrap(), Value::Nil);
    assert_eq!(logger.output, vec!["15", "16", "While loop50", "17", "18", "19", "20"]);
}

#[test]
fn the_machine_analyzes_before_it_executes() {
    let mut program = sample_program();
    program.let_nodes.push(Rc::new(LetNode::new("add".to_string(), Value::Nil)));
    let mut logger = Logger::new(Level::Info);
    let result = Machine::new(program).run(&Floats::new(), &mut logger, 100);
    match result {
        Err(Fault::Analysis(AnalysisError::DuplicateIdentifier(name))) => assert_eq!(name, "add"),
        other => panic!("{:?}", other),
    }
    assert_eq!(logger.output, vec!["[INFO] Analyze."]);
}

#[test]
fn the_executor_needs_the_tables_of_the_analyzer() {
    let executor = Executor::new(sample_program());
    let mut logger = Logger::new(Level::Info);
    assert!(matches!(executor.execute(&Floats::new(), &mut logger, 100), Err(RuntimeError::NoMain)));
    assert_eq!(logger.output, vec!["[INFO] Execute.", "[INFO] Execute Program."]);

    let mut analyzer = Analyzer::new(sample_program());
    let mut logger = Logger::new(Level::Off);
    analyzer.analyze(&mut logger).unwrap();
    let executor = Executor::new(analyzer.program);
    assert_eq!(executor.execute_program(&Floats::new(), &mut logger, 100).unwrap(), Value::Nil);
    assert_eq!(logger.output.len(), 7);
}

#[test]
fn a_function_checks_the_number_of_its_arguments() {
    let program = sample_program();
    let globals = Frame::new(None, None);
    let mut logger = Logger::new(Level::Debug);
    let add = &program.func_nodes[0];
    let sum = Executor::execute_function(&program, &Floats::new(), add, &globals, vec![Value::I32(2), Value::I32(3)], &mut logger, 0);
    assert_eq!(sum.unwrap(), Value::I32(5));
    let few = Executor::execute_function(&program, &Floats::new(), add, &globals, vec![Value::I32(2)], &mut logger, 5);
    assert_eq!(few.unwrap_err().message(), "Not enough arguments for function add!");
    let many = Executor::execute_function(
        &program,
        &Floats::new(),
        add,
        &globals,
        vec![Value::I32(2), Value::I32(3), Value::I32(4)],
        &mut logger,
        5,
    );
    assert_eq!(many.unwrap_err().message(), "Too many arguments for function add!");
    assert_eq!(
        logger.output,
        vec![
            "[DEBUG] calling function 'add'.",
            "[DEBUG] executing return statement",
            "[DEBUG] calling function 'add'.",
            "[DEBUG] calling function 'add'.",
        ]
    );
}

#[test]
fn statements_say_how_they_end() {
    let program = ProgramNode::new();
    let mut logger = Logger::new(Level::Debug);
    let mut frame = Frame::new(None, None);
    let assign = StmtNode::Assign(AssignNode::new("x".to_string(), ExprNode::Val(Value::I32(4))));
    let (control, value) = Executor::execute_statement(&program, &Floats::new(), &assign, &mut frame, &mut logger, 1).unwrap();
    assert_eq!(control, Control::Next);
    assert_eq!(value, Value::Nil);
    assert_eq!(frame.lookup(&"x".to_string()), Value::I32(4));
    let ret = StmtNode::Return(ReturnNode::new(ExprNode::Var("x".to_string())));
    let (control, value) = Executor::execute_statement(&program, &Floats::new(), &ret, &mut frame, &mut logger, 1).unwrap();
    assert_eq!(control, Control::Return);
    assert_eq!(value, Value::I32(4));
    let declaration = StmtNode::Let(LetNode::new("y".to_string(), Value::I32(9)));
    let (control, _) = Executor::execute_statement(&program, &Floats::new(), &declaration, &mut frame, &mut logger, 1).unwrap();
    assert_eq!(control, Control::Next);
    assert_eq!(frame.lookup(&"y".to_string()), Value::Nil);

    let mut block = BlockNode::new();
    block.statements.push(Rc::new(StmtNode::Print(PrintNode::new(ExprNode::Var("x".to_string())))));
    block.statements.push(Rc::new(ret));
    block.statements.push(Rc::new(StmtNode::Print(PrintNode::new(ExprNode::Val(Value::I32(0))))));
    let (control, value) =
        Executor::execute_block_without_scope(&program, &Floats::new(), &block, &mut frame, &mut logger, 1).unwrap();
    assert_eq!(control, Control::Return);
    assert_eq!(value, Value::I32(4));
    let (control, value) =
        Executor::execute_block_without_scope(&program, &Floats::new(), &BlockNode::new(), &mut frame, &mut logger, 1).unwrap();
    assert_eq!(control, Control::Next);
    assert_eq!(value, Value::Nil);
    assert_eq!(
        logger.output,
        vec![
            "[DEBUG] executing assign statement",
            "[DEBUG] executing return statement",
            "[DEBUG] ignoring let statement",
            "[DEBUG] executing print statement",
            "4",
            "[DEBUG] executing return statement",
        ]
    );
}

#[test]
fn the_traces_of_a_run() {
    let source = "func f(a) [ if a [ return 1; ] else [ return 2; ] ]
        func main(argc) [ let x; x = f(false); while x == 2 [ x = 3; ] if true [ ] ]";
    let mut logger = Logger::new(Level::Debug);
    let result = iron_oxide::machine::run_main(source.to_string(), &Floats::new(), &mut logger, 10);
    assert!(result.is_ok());
    let tokens = logger.output.iter().filter(|line| line.starts_with("[DEBUG] expect(")).count();
    assert_eq!(tokens, 51);
    assert!(logger.output[..tokens].iter().all(|line| line.starts_with("[DEBUG] expect(")));
    assert_eq!(
        logger.output[tokens..],
        vec![
            "[INFO] Analyze.",
            "[INFO] Execute.",
            "[INFO] Execute Program.",
            "[DEBUG] calling function 'main'.",
            "[DEBUG] ignoring let statement",
            "[DEBUG] executing assign statement",
            "[DEBUG] evaluating call 'f'",
            "[DEBUG] calling function 'f'.",
            "[DEBUG] executing if else statement",
            "[DEBUG] executing else body",
            "[DEBUG] executing return statement",
            "[DEBUG] executing while statement",
            "[DEBUG] executing assign statement",
            "[DEBUG] executing if else statement",
            "[DEBUG] executing if body",
            "[INFO] Program finished.",
        ]
    );
}
