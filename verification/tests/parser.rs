use iron_oxide::error::ParseError;
use iron_oxide::lexer::Lexer;
use iron_oxide::logger::{Level, Logger};
use iron_oxide::parser::DescentParser;
use iron_oxide::token::{Category, Token};
use iron_oxide::tree::{ProgramNode, StmtNode};
use iron_oxide::value::Value;

fn parse(source: &str) -> Result<ProgramNode, ParseError> {
    let mut parser = DescentParser::new(Lexer::new(source.to_string()));
    parser.analyze(&mut Logger::new(Level::Off))
}

fn parsed(source: &str) -> ProgramNode {
    match parse(source) {
        Ok(program) => program,
        Err(failure) => panic!("{}", failure.message()),
    }
}

fn failure(source: &str) -> String {
    match parse(source) {
        Ok(program) => panic!("{:?}", program),
        Err(failure) => failure.message(),
    }
}

fn statement(source: &str) -> String {
    let program = parsed(&format!("func main() [ {} ]", source));
    assert_eq!(program.func_nodes[0].block_node.statements.len(), 1);
    format!("{:?}", program.func_nodes[0].block_node.statements[0])
}

fn expression(source: &str) -> String {
    let program = parsed(&format!("func main() [ return {}; ]", source));
    match &*program.func_nodes[0].block_node.statements[0] {
        StmtNode::Return(node) => format!("{:?}", node.expr),
        other => panic!("{:?}", other),
    }
}

#[test]
fn an_empty_text_is_an_empty_program() {
    let program = parsed("");
    assert!(program.let_nodes.is_empty());
    assert!(program.func_nodes.is_empty());
    assert!(program.symbols.entries.is_empty());
    assert_eq!(program.symbols.parent, None);
}

#[test]
fn declarations_are_kept_in_order() {
    let program = parsed("let a; func f() [ ] let b = 5; func g(x) [ ] func h(x, y, z) [ ] let c = \"s\";");
    let lets: Vec<&str> = program.let_nodes.iter().map(|node| node.name.as_str()).collect();
    assert_eq!(lets, vec!["a", "b", "c"]);
    assert_eq!(program.let_nodes[0].value, Value::Nil);
    assert_eq!(program.let_nodes[1].value, Value::I32(5));
    assert_eq!(program.let_nodes[2].value, Value::Chars("s".to_string()));
    let funcs: Vec<&str> = program.func_nodes.iter().map(|node| node.name.as_str()).collect();
    assert_eq!(funcs, vec!["f", "g", "h"]);
    let arities: Vec<usize> = program.func_nodes.iter().map(|node| node.numParameters()).collect();
    assert_eq!(arities, vec![0, 1, 3]);
    let names: Vec<&str> = program.func_nodes[2].parameters.iter().map(|p| p.name.as_str()).collect();
    assert_eq!(names, vec!["x", "y", "z"]);
    assert!(program.func_nodes[0].block_node.statements.is_empty());
    assert!(program.func_nodes[0].block_node.symbols.entries.is_empty());
}

#[test]
fn every_kind_of_statement_is_parsed() {
    assert_eq!(statement("let x;"), "Let(LetNode { name: \"x\", value: Nil })");
    assert_eq!(statement("let x = true;"), "Let(LetNode { name: \"x\", value: Bool(true) })");
    assert_eq!(statement("let x = 'c';"), "Let(LetNode { name: \"x\", value: Chars(\"c\") })");
    assert_eq!(statement("let x = 1.5;"), "Let(LetNode { name: \"x\", value: F32(\"1.5\") })");
    assert_eq!(statement("x = 1;"), "Assign(AssignNode { name: \"x\", expr: Val(I32(1)) })");
    assert_eq!(statement("return x;"), "Return(ReturnNode { expr: Var(\"x\") })");
    assert_eq!(statement("print \"s\";"), "Print(PrintNode { expr: Val(Chars(\"s\")) })");
    assert_eq!(
        statement("while x [ print 1; ]"),
        "While(WhileNode { condition: Var(\"x\"), body: BlockNode { symbols: Symbols { parent: None, entries: [] }, \
         statements: [Print(PrintNode { expr: Val(I32(1)) })] } })"
    );
    assert_eq!(
        statement("if x [ ]"),
        "IfElse(IfElseNode { condition: Var(\"x\"), ifBody: BlockNode { symbols: Symbols { parent: None, entries: [] }, \
         statements: [] }, elseBody: None })"
    );
    assert_eq!(
        statement("if x < 1 [ return 1; ] else [ return 2; ]"),
        "IfElse(IfElseNode { condition: LessThan(Var(\"x\"), Val(I32(1))), \
         ifBody: BlockNode { symbols: Symbols { parent: None, entries: [] }, statements: [Return(ReturnNode { expr: Val(I32(1)) })] }, \
         elseBody: Some(BlockNode { symbols: Symbols { parent: None, entries: [] }, statements: [Return(ReturnNode { expr: Val(I32(2)) })] }) })"
    );
}

#[test]
fn every_operator_is_parsed() {
    assert_eq!(expression("a + b"), "Add(Var(\"a\"), Var(\"b\"))");
    assert_eq!(expression("a - b"), "Sub(Var(\"a\"), Var(\"b\"))");
    assert_eq!(expression("a * b"), "Mul(Var(\"a\"), Var(\"b\"))");
    assert_eq!(expression("a < b"), "LessThan(Var(\"a\"), Var(\"b\"))");
    assert_eq!(expression("a > b"), "GreaterThan(Var(\"a\"), Var(\"b\"))");
    assert_eq!(expression("a == b"), "EqualTo(Var(\"a\"), Var(\"b\"))");
    assert_eq!(expression("a != b"), "NotEqualTo(Var(\"a\"), Var(\"b\"))");
    assert_eq!(expression("a >= b"), "GreaterThanEq(Var(\"a\"), Var(\"b\"))");
    assert_eq!(expression("a <= b"), "LessThanEq(Var(\"a\"), Var(\"b\"))");
}

#[test]
fn the_right_operand_is_the_rest_of_the_expression() {
    assert_eq!(expression("3 + 5 + 7"), "Add(Val(I32(3)), Add(Val(I32(5)), Val(I32(7))))");
    assert_eq!(expression("a * b + c"), "Mul(Var(\"a\"), Add(Var(\"b\"), Var(\"c\")))");
    assert_eq!(expression("a - b - c - d"), "Sub(Var(\"a\"), Sub(Var(\"b\"), Sub(Var(\"c\"), Var(\"d\"))))");
    assert_eq!(expression("a < b + 1"), "LessThan(Var(\"a\"), Add(Var(\"b\"), Val(I32(1))))");
}

#[test]
fn atoms_are_variables_calls_and_literals() {
    assert_eq!(expression("x"), "Var(\"x\")");
    assert_eq!(expression("12"), "Val(I32(12))");
    assert_eq!(expression("1.25"), "Val(F32(\"1.25\"))");
    assert_eq!(expression("'c'"), "Val(Chars(\"c\"))");
    assert_eq!(expression("\"text\""), "Val(Chars(\"text\"))");
    assert_eq!(expression("false"), "Val(Bool(false))");
    assert_eq!(expression("f()"), "Call(\"f\", [])");
    assert_eq!(expression("f(1)"), "Call(\"f\", [Val(I32(1))])");
    assert_eq!(
        expression("f(a, g(b) + 1, 2) + h()"),
        "Add(Call(\"f\", [Var(\"a\"), Add(Call(\"g\", [Var(\"b\")]), Val(I32(1))), Val(I32(2))]), Call(\"h\", []))"
    );
}

#[test]
fn a_token_out_of_place_is_a_failure() {
    assert_eq!(failure("x"), "Unexpected token `ID(\"x\")` while parsing program.");
    assert_eq!(failure("func f() [ ] ]"), "Unexpected token `BRACKET_R` while parsing program.");
    assert_eq!(failure("@"), "Unexpected token `UNDEFINED` while parsing program.");
    assert_eq!(failure("func"), "Expected 'ID' but found 'EOI'");
    assert_eq!(failure("func 1"), "Expected 'ID' but found 'LIT_INT32(1)'");
    assert_eq!(failure("func f"), "Expected 'PARENS_L' but found 'EOI'");
    assert_eq!(failure("func f(a b) [ ]"), "Expected 'PARENS_R' but found 'ID(\"b\")'");
    assert_eq!(failure("func f(a,) [ ]"), "Expected 'ID' but found 'PARENS_R'");
    assert_eq!(failure("func f(1) [ ]"), "Expected 'ID' but found 'LIT_INT32(1)'");
    assert_eq!(failure("func f() x"), "Expected 'BRACKET_L' but found 'ID(\"x\")'");
    assert_eq!(failure("func f() [ "), "Unexpected token in block: 'EOI'");
    assert_eq!(failure("func f() [ [ ] ]"), "Unexpected token in block: 'BRACKET_L'");
    assert_eq!(failure("func f() [ 1; ]"), "Unexpected token in block: 'LIT_INT32(1)'");
    assert_eq!(failure("func f() [ x; ]"), "Expected 'OP_ASSIGN' but found 'SEMICOLON'");
    assert_eq!(failure("func f() [ x = 1 ]"), "Expected value but found 'BRACKET_R'");
    assert_eq!(failure("func f() [ x = ; ]"), "Expected value but found 'SEMICOLON'");
    assert_eq!(failure("func f() [ x = 1 2; ]"), "Expected value but found 'LIT_INT32(2)'");
    assert_eq!(failure("func f() [ x = 1 / 2; ]"), "Expected value but found 'OP_DIV'");
    assert_eq!(failure("func f() [ x = 1 + ; ]"), "Expected value but found 'SEMICOLON'");
    assert_eq!(failure("func f() [ x = g(1,); ]"), "Expected value but found 'PARENS_R'");
    assert_eq!(failure("func f() [ x = g(1; ]"), "Expected 'PARENS_R' but found 'SEMICOLON'");
    assert_eq!(failure("func f() [ return 1, ]"), "Expected 'SEMICOLON' but found 'COMMA'");
    assert_eq!(failure("func f() [ print 1) ]"), "Expected 'SEMICOLON' but found 'PARENS_R'");
    assert_eq!(failure("func f() [ while x print 1; ]"), "Expected value but found 'KW_PRINT'");
    assert_eq!(failure("func f() [ while x; ]"), "Expected 'BRACKET_L' but found 'SEMICOLON'");
    assert_eq!(failure("func f() [ if x [ ] else x ]"), "Expected 'BRACKET_L' but found 'ID(\"x\")'");
    assert_eq!(failure("let"), "Expected 'ID' but found 'EOI'");
    assert_eq!(failure("let x"), "Expected 'SEMICOLON' but found 'EOI'");
    assert_eq!(failure("let x = y;"), "Expected value but found 'SEMICOLON'");
    assert_eq!(failure("let x = 1 + 2;"), "Expected value but found 'SEMICOLON'");
    assert_eq!(failure("let x = 1 func"), "Expected value but found 'KW_FUNC'");
    assert_eq!(failure("func f() [ let x = f(); ]"), "Expected value but found 'SEMICOLON'");
}

#[test]
fn the_failures_of_the_parser_hold_the_token_found() {
    match parse("func f() [ x = 1 ]") {
        Err(ParseError::ExpectedValue(found)) => assert_eq!(found, Token::BRACKET_R),
        other => panic!("{:?}", other),
    }
    match parse("func f( [ ]") {
        Err(ParseError::Expected(category, found)) => {
            assert_eq!(category, Category::ID);
            assert_eq!(found, Token::BRACKET_L);
        },
        other => panic!("{:?}", other),
    }
    match parse("print 1;") {
        Err(ParseError::UnexpectedInProgram(found)) => assert_eq!(found, Token::KW_PRINT),
        other => panic!("{:?}", other),
    }
    match parse("func f() [ else ]") {
        Err(ParseError::UnexpectedInBlock(found)) => assert_eq!(found, Token::KW_ELSE),
        other => panic!("{:?}", other),
    }
}

#[test]
fn the_parser_goes_on_from_where_the_lexer_stands() {
    let mut lexer = Lexer::new("nonsense ) func f() [ ]".to_string());
    lexer.advance();
    lexer.advance();
    let mut parser = DescentParser::new(lexer);
    let program = parser.analyze(&mut Logger::new(Level::Off)).unwrap();
    assert_eq!(program.func_nodes.len(), 1);
    assert_eq!(program.func_nodes[0].name, "f");
}

#[test]
fn the_parser_traces_the_tokens_that_it_takes() {
    let trace = |source: &str, level: Level| {
        let mut parser = DescentParser::new(Lexer::new(source.to_string()));
        let mut logger = Logger::new(level);
        logger.print("before".to_string());
        let result = parser.analyze(&mut logger);
        (result.is_ok(), logger.output)
    };
    assert_eq!(
        trace("let x = 1; func f(a) [ print a; ]", Level::Debug),
        (
            true,
            vec![
                "before",
                "[DEBUG] expect(KW_LET)",
                "[DEBUG] expect(ID(\"x\"))",
                "[DEBUG] expect(OP_ASSIGN)",
                "[DEBUG] expect(LIT_INT32(1))",
                "[DEBUG] expect(SEMICOLON)",
                "[DEBUG] expect(KW_FUNC)",
                "[DEBUG] expect(ID(\"f\"))",
                "[DEBUG] expect(PARENS_L)",
                "[DEBUG] expect(ID(\"a\"))",
                "[DEBUG] expect(PARENS_R)",
                "[DEBUG] expect(BRACKET_L)",
                "[DEBUG] expect(KW_PRINT)",
                "[DEBUG] expect(ID(\"a\"))",
                "[DEBUG] expect(SEMICOLON)",
                "[DEBUG] expect(BRACKET_R)",
            ]
            .into_iter()
            .map(String::from)
            .collect()
        )
    );
    assert_eq!(
        trace("func f( [", Level::Warn),
        (
            false,
            vec!["before", "[DEBUG] expect(KW_FUNC)", "[DEBUG] expect(ID(\"f\"))", "[DEBUG] expect(PARENS_L)"]
                .into_iter()
                .map(String::from)
                .collect()
        )
    );
    assert_eq!(trace("func f() [ ]", Level::Info), (true, vec!["before".to_string()]));
    assert_eq!(trace("", Level::Debug), (true, vec!["before".to_string()]));
    assert_eq!(trace("@", Level::Debug), (false, vec!["before".to_string()]));
}
