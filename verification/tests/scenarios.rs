use iron_oxide::error::{AnalysisError, Fault, ParseError, RuntimeError};
use iron_oxide::floats::Floats;
use iron_oxide::logger::{Level, Logger};
use iron_oxide::machine::run_main;
use iron_oxide::value::Value;

const FUEL: u64 = 10_000;

fn run(source: &str, level: Level) -> (Result<Value, Fault>, Vec<String>) {
    let mut logger = Logger::new(level);
    let result = run_main(source.to_string(), &Floats::new(), &mut logger, FUEL);
    (result, logger.output)
}

fn printed(source: &str) -> Vec<String> {
    let (result, output) = run(source, Level::Off);
    assert!(result.is_ok(), "{:?}", result);
    output
}

#[test]
fn simple_addition_and_call() {
    let source = "func add(a,b) [ return a + b; ]
        func main(argc) [
          let sum;
          sum = 3 + 5 + 7;
          print sum;
          sum = add(sum, 1);
          print sum;
        ]";
    assert_eq!(printed(source), vec!["15", "16"]);
}

#[test]
fn while_loop() {
    let source = "func main(argc) [
          let i;
          i = 0;
          while i < 3 [ i = i + 1; print i; ]
        ]";
    assert_eq!(printed(source), vec!["1", "2", "3"]);
}

#[test]
fn if_else_true_branch() {
    let source = "func main(argc) [ let x; x = 10;
          if x == 10 [ print 1; ] else [ print 2; ] ]";
    assert_eq!(printed(source), vec!["1"]);
}

#[test]
fn if_else_false_branch() {
    let source = "func main(argc) [ let x; x = 11;
          if x == 10 [ print 1; ] else [ print 2; ] ]";
    assert_eq!(printed(source), vec!["2"]);
}

#[test]
fn string_concat_with_integer() {
    assert_eq!(printed("func main(argc) [ print \"n=\" + 42; ]"), vec!["n=42"]);
}

#[test]
fn unused_local_warning() {
    let (result, output) = run("func main(argc) [ let unused; print 1; ]", Level::Warn);
    assert!(result.is_ok());
    assert!(output.contains(&"1".to_string()));
    let warnings: Vec<&String> = output.iter().filter(|line| line.starts_with("[WARN] ")).collect();
    assert_eq!(
        warnings,
        vec![
            "[WARN] Warning: Variable 'argc' declared but not used in function main!",
            "[WARN] Warning: Variable 'unused' declared but not used in function main!",
        ]
    );
    let (_, quiet) = run("func main(argc) [ let unused; print 1; ]", Level::Info);
    assert!(quiet.iter().all(|line| !line.contains("unused")));
}

#[test]
fn the_whole_record_of_a_run() {
    let (result, output) = run("func main(argc) [ let unused; print 1; ]", Level::Warn);
    assert!(matches!(result, Ok(Value::Nil)));
    assert_eq!(
        output,
        vec![
            "[DEBUG] expect(KW_FUNC)",
            "[DEBUG] expect(ID(\"main\"))",
            "[DEBUG] expect(PARENS_L)",
            "[DEBUG] expect(ID(\"argc\"))",
            "[DEBUG] expect(PARENS_R)",
            "[DEBUG] expect(BRACKET_L)",
            "[DEBUG] expect(KW_LET)",
            "[DEBUG] expect(ID(\"unused\"))",
            "[DEBUG] expect(SEMICOLON)",
            "[DEBUG] expect(KW_PRINT)",
            "[DEBUG] expect(LIT_INT32(1))",
            "[DEBUG] expect(SEMICOLON)",
            "[DEBUG] expect(BRACKET_R)",
            "[INFO] Analyze.",
            "[WARN] Warning: Variable 'argc' declared but not used in function main!",
            "[WARN] Warning: Variable 'unused' declared but not used in function main!",
            "[INFO] Execute.",
            "[INFO] Execute Program.",
            "[DEBUG] calling function 'main'.",
            "[DEBUG] ignoring let statement",
            "[DEBUG] executing print statement",
            "1",
            "[INFO] Program finished.",
        ]
    );
    let (_, info) = run("func main(argc) [ let unused; print 1; ]", Level::Info);
    assert_eq!(
        info,
        vec!["[INFO] Analyze.", "[INFO] Execute.", "[INFO] Execute Program.", "1", "[INFO] Program finished."]
    );
}

#[test]
fn duplicate_identifier_is_fatal() {
    let (result, output) = run("let x; let x;\nfunc main(argc) [ print 0; ]", Level::Off);
    match result {
        Err(Fault::Analysis(AnalysisError::DuplicateIdentifier(name))) => assert_eq!(name, "x"),
        other => panic!("{:?}", other),
    }
    assert!(output.is_empty());
    let (result, _) = run("let x; let x;\nfunc main(argc) [ print 0; ]", Level::Off);
    assert_eq!(result.unwrap_err().message(), "Duplicate identifier 'x'!");
}

#[test]
fn an_empty_program_has_no_main() {
    let (result, output) = run("", Level::Off);
    assert!(matches!(result, Err(Fault::Runtime(RuntimeError::NoMain))));
    assert!(output.is_empty());
    let (result, _) = run("   \n ", Level::Off);
    assert_eq!(result.unwrap_err().message(), "Cannot find 'main' symbol!");
}

#[test]
fn main_must_be_a_function() {
    let (result, _) = run("let main;", Level::Off);
    assert!(matches!(result, Err(Fault::Runtime(RuntimeError::MainNotFunction))));
}

#[test]
fn an_empty_function_body_returns_nil() {
    let (result, output) = run("func main(argc) [ ]", Level::Off);
    assert!(matches!(result, Ok(Value::Nil)));
    assert!(output.is_empty());
    assert_eq!(printed("func f() [ ] func main(argc) [ let x; x = 1; print x; ]"), vec!["1"]);
}

#[test]
fn a_function_without_parameters_is_called_without_arguments() {
    assert_eq!(printed("func f() [ return 7; ] func main(argc) [ print f(); ]"), vec!["7"]);
}

#[test]
fn a_call_with_the_wrong_number_of_arguments_is_fatal() {
    let (result, output) = run("func f(a) [ return a; ] func main(argc) [ print f(); ]", Level::Off);
    match result {
        Err(Fault::Runtime(RuntimeError::ArityMismatch(name))) => assert_eq!(name, "f"),
        other => panic!("{:?}", other),
    }
    assert!(output.is_empty());
    let (result, _) = run("func f(a) [ return a; ] func main(argc) [ print f(1, 2); ]", Level::Off);
    assert!(matches!(result, Err(Fault::Runtime(RuntimeError::ArityMismatch(_)))));
}

#[test]
fn an_if_without_else_on_false_does_nothing() {
    let (result, output) = run("func main(argc) [ let x; x = 1; if x == 2 [ print 1; return 5; ] ]", Level::Off);
    assert!(matches!(result, Ok(Value::Nil)));
    assert!(output.is_empty());
}

#[test]
fn a_while_on_false_never_runs_its_body() {
    let (result, output) = run("func main(argc) [ let i; i = 5; while i < 3 [ print i; i = i + 1; ] print i; ]", Level::Off);
    assert!(result.is_ok());
    assert_eq!(output, vec!["5"]);
}

#[test]
fn a_return_in_a_loop_ends_the_function() {
    let source = "func first(n) [ let i; i = 0; while i < n [ i = i + 1; if i == 3 [ return i * 10; ] print i; ] return 0; ]
        func main(argc) [ print first(10); print first(2); ]";
    assert_eq!(printed(source), vec!["1", "2", "30", "1", "2", "0"]);
}

#[test]
fn main_gets_one_as_its_argument_and_its_value_is_the_result() {
    let (result, output) = run("func main(argc) [ print argc; return argc + 41; ]", Level::Off);
    assert_eq!(result.unwrap(), Value::I32(42));
    assert_eq!(output, vec!["1"]);
}

#[test]
fn operators_group_to_the_right() {
    assert_eq!(printed("func main(argc) [ print 10 - 3 - 2; print 2 * 3 + 4; print 1 + 2 * 3; ]"), vec!["9", "14", "7"]);
    assert_eq!(printed("func main(argc) [ print 4 < 2 + 3; print 3 == 1 + 2; ]"), vec!["true", "true"]);
    let (result, _) = run("func main(argc) [ print 1 + 2 < 4; ]", Level::Off);
    assert_eq!(result.unwrap_err().message(), "Right operand of 'Add' is Bool!");
}

#[test]
fn values_are_printed_in_their_textual_form() {
    let source = "let g; func f(a, b) [ ] func main(argc) [
          print true; print false; print 0 - 12; print \"raw text\"; print 'c'; print 2.50; print f; print \"\";
        ]";
    assert_eq!(printed(source), vec!["true", "false", "-12", "raw text", "c", "2.50", "<func f 2>", ""]);
}

#[test]
fn recursion_and_globals() {
    let source = "func fact(n) [ if n < 2 [ return 1; ] return n * fact(n - 1); ]
        func main(argc) [ print fact(10); print \"f=\" + fact(5); ]";
    assert_eq!(printed(source), vec!["3628800", "f=120"]);
}

#[test]
fn arguments_are_evaluated_from_left_to_right() {
    let source = "func show(x) [ print x; return x; ]
        func add(a, b, c) [ return a + b + c; ]
        func main(argc) [ print add(show(1), show(2), show(3)); ]";
    assert_eq!(printed(source), vec!["1", "2", "3", "6"]);
}

#[test]
fn an_assignment_needs_a_declaration_in_the_function() {
    let (result, output) = run("let g; func main(argc) [ print 1; g = 5; ]", Level::Off);
    match result {
        Err(Fault::Analysis(AnalysisError::Undeclared(name, function))) => {
            assert_eq!(name, "g");
            assert_eq!(function, "main");
        },
        other => panic!("{:?}", other),
    }
    assert!(output.is_empty());
    assert_eq!(printed("func main(argc) [ argc = 5; print argc; ]"), vec!["5"]);
}

#[test]
fn a_global_is_read_through_the_global_frame() {
    let source = "let g = 7; func get() [ return g; ] func main(argc) [ print get(); print g + 1; ]";
    let (result, _) = run(source, Level::Off);
    assert_eq!(result.unwrap_err().message(), "Can't find variable 'g'!");
    let source = "func one() [ return 1; ] func two() [ return one() + one(); ] func main(argc) [ print two(); ]";
    assert_eq!(printed(source), vec!["2"]);
}

#[test]
fn a_variable_without_a_value_is_not_found() {
    let (result, _) = run("func main(argc) [ let x; print x; ]", Level::Off);
    match result {
        Err(Fault::Runtime(RuntimeError::VariableNotFound(name))) => assert_eq!(name, "x"),
        other => panic!("{:?}", other),
    }
    let (result, _) = run("let g; func main(argc) [ print g; ]", Level::Off);
    assert_eq!(result.unwrap_err().message(), "Can't find variable 'g'!");
}

#[test]
fn a_call_of_what_is_no_function_is_fatal() {
    let (result, _) = run("func main(argc) [ print nope(1); ]", Level::Off);
    match result {
        Err(Fault::Runtime(RuntimeError::FunctionNotFound(name))) => assert_eq!(name, "nope"),
        other => panic!("{:?}", other),
    }
    let (result, _) = run("func main(argc) [ print argc(1); ]", Level::Off);
    assert_eq!(result.unwrap_err().message(), "Can't find function 'argc' in globals!");
}

#[test]
fn the_condition_of_an_if_must_be_a_boolean() {
    let (result, output) = run("func main(argc) [ print 1; if 1 [ print 2; ] ]", Level::Off);
    assert!(matches!(result, Err(Fault::Runtime(RuntimeError::ConditionNotBool))));
    assert_eq!(output, vec!["1"]);
}

#[test]
fn a_loop_ends_on_a_condition_that_is_no_boolean() {
    assert_eq!(printed("func main(argc) [ while 1 [ print 2; ] print 3; ]"), vec!["3"]);
}

#[test]
fn output_before_a_failure_is_kept() {
    let (result, output) = run("func main(argc) [ print 1; print 2 + true; print 3; ]", Level::Off);
    assert_eq!(result.unwrap_err().message(), "Right operand of 'Add' is Bool!");
    assert_eq!(output, vec!["1"]);
}

#[test]
fn a_run_out_of_fuel_ends() {
    let mut logger = Logger::new(Level::Off);
    let source = "func main(argc) [ let i; i = 0; while 0 < 1 [ i = i + 1; print i; ] ]";
    let result = run_main(source.to_string(), &Floats::new(), &mut logger, 3);
    assert!(matches!(result, Err(Fault::Runtime(RuntimeError::OutOfFuel))));
    assert_eq!(logger.output, vec!["1", "2", "3"]);

    let mut logger = Logger::new(Level::Off);
    let source = "func down(n) [ print n; return down(n + 1); ] func main(argc) [ return down(0); ]";
    let result = run_main(source.to_string(), &Floats::new(), &mut logger, 2);
    assert!(matches!(result, Err(Fault::Runtime(RuntimeError::OutOfFuel))));
    assert_eq!(logger.output, vec!["0", "1"]);

    let mut logger = Logger::new(Level::Off);
    let result = run_main("func main(argc) [ print 1; ]".to_string(), &Floats::new(), &mut logger, 0);
    assert!(result.is_ok());
    assert_eq!(logger.output, vec!["1"]);
}

#[test]
fn two_runs_of_one_source_write_the_same() {
    let source = "func f(n) [ if n < 1 [ return 0; ] print n; return f(n - 1); ]
        func main(argc) [ let unused; print f(4); print \"a\" + true; ]";
    for level in [Level::Off, Level::Info, Level::Debug, Level::Warn] {
        let (first, first_output) = run(source, level);
        let (second, second_output) = run(source, level);
        assert_eq!(first.unwrap(), second.unwrap());
        assert_eq!(first_output, second_output);
    }
}

#[test]
fn the_same_tokens_give_the_same_run() {
    let dense = "func main(argc)[let x;x = 2;print x * 21;]";
    let loose = "func  main ( argc )\n[\n\tlet x ;\n\tx = 2 ;\n\tprint x * 21 ;\n]\n";
    assert_eq!(printed(dense), vec!["42"]);
    assert_eq!(printed(loose), vec!["42"]);
}

#[test]
fn a_text_that_is_no_program_fails_in_the_parser() {
    let (result, output) = run("func main(argc) [ print 1 ]", Level::Debug);
    match result {
        Err(Fault::Parse(ParseError::ExpectedValue(found))) => assert_eq!(found.to_text(), "BRACKET_R"),
        other => panic!("{:?}", other),
    }
    assert_eq!(
        output,
        vec![
            "[DEBUG] expect(KW_FUNC)",
            "[DEBUG] expect(ID(\"main\"))",
            "[DEBUG] expect(PARENS_L)",
            "[DEBUG] expect(ID(\"argc\"))",
            "[DEBUG] expect(PARENS_R)",
            "[DEBUG] expect(BRACKET_L)",
            "[DEBUG] expect(KW_PRINT)",
            "[DEBUG] expect(LIT_INT32(1))",
        ]
    );
    let (_, output) = run("func main(argc) [ print 1 ]", Level::Info);
    assert!(output.is_empty());
    let (result, _) = run("func main(argc) [ print @; ]", Level::Off);
    assert_eq!(result.unwrap_err().message(), "Expected value but found 'UNDEFINED'");
}
