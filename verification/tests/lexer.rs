use iron_oxide::lexer::{Lexer, LexerState};
use iron_oxide::token::Token;

fn lexed(input: &str) -> Vec<Token> {
    let mut lexer = Lexer::new(input.to_string());
    lexer.lex();
    lexer.token_list
}

fn shown(input: &str) -> Vec<String> {
    lexed(input).iter().map(|token| token.to_text()).collect()
}

#[test]
fn it_can_lex_an_empty_input() {
    let mut lexer = Lexer::new("".to_string());
    lexer.lex();
    let expected = vec![Token::EOI];

    assert_eq!(lexer.token_list, expected);
}

#[test]
fn it_can_lex_a_single_parenthesis() {
    let mut lexer = Lexer::new("(".to_string());
    lexer.lex();
    let expected = vec![Token::PARENS_L, Token::EOI];

    assert_eq!(lexer.token_list, expected);
}

#[test]
fn it_can_lex_a_function_declaration() {
    let mut lexer = Lexer::new("func add(x : int32) -> int32".to_string());
    lexer.lex();
    let expected = vec![
        Token::KW_FUNC,
        Token::ID("add".to_string()),
        Token::PARENS_L,
        Token::ID("x".to_string()),
        Token::COLON,
        Token::TYPE_INT32,
        Token::PARENS_R,
        Token::ARROW_R,
        Token::TYPE_INT32,
        Token::EOI,
    ];

    assert_eq!(lexer.token_list, expected);
}

#[test]
fn it_can_lex_brackets() {
    let mut lexer = Lexer::new("()[]{}".to_string());
    lexer.lex();
    let expected = vec![
        Token::PARENS_L,
        Token::PARENS_R,
        Token::BRACKET_L,
        Token::BRACKET_R,
        Token::BRACE_L,
        Token::BRACE_R,
        Token::EOI,
    ];

    assert_eq!(lexer.token_list, expected);
}

#[test]
fn it_can_lex_separators() {
    let mut lexer = Lexer::new(".,:;->".to_string());
    lexer.lex();
    let expected = vec![
        Token::POINT,
        Token::COMMA,
        Token::COLON,
        Token::SEMICOLON,
        Token::ARROW_R,
        Token::EOI,
    ];

    assert_eq!(lexer.token_list, expected);
}

#[test]
fn it_can_lex_arithmetic_ops() {
    let mut lexer = Lexer::new("+ - * /".to_string());
    lexer.lex();
    let expected = vec![
        Token::OP_ADD,
        Token::OP_SUB,
        Token::OP_MUL,
        Token::OP_DIV,
        Token::EOI,
    ];

    assert_eq!(lexer.token_list, expected);
}

#[test]
fn it_can_lex_relational_ops() {
    let mut lexer = Lexer::new("== < > != >= <=".to_string());
    lexer.lex();
    let expected = vec![
        Token::OP_EQ,
        Token::OP_LT,
        Token::OP_GT,
        Token::OP_NEQ,
        Token::OP_NLT,
        Token::OP_NGT,
        Token::EOI,
    ];

    assert_eq!(lexer.token_list, expected);
}

#[test]
fn it_can_lex_logical_ops() {
    let mut lexer = Lexer::new("and or not".to_string());
    lexer.lex();
    let expected = vec![Token::OP_AND, Token::OP_OR, Token::OP_NOT, Token::EOI];

    assert_eq!(lexer.token_list, expected);
}

#[test]
fn it_can_lex_assignment() {
    let mut lexer = Lexer::new("let x = y;".to_string());
    lexer.lex();
    let expected = vec![
        Token::KW_LET,
        Token::ID("x".to_string()),
        Token::OP_ASSIGN,
        Token::ID("y".to_string()),
        Token::SEMICOLON,
        Token::EOI,
    ];

    assert_eq!(lexer.token_list, expected);
}

#[test]
fn it_can_lex_keywords() {
    let mut lexer = Lexer::new("func let if else while print return".to_string());
    lexer.lex();
    let expected = vec![
        Token::KW_FUNC,
        Token::KW_LET,
        Token::KW_IF,
        Token::KW_ELSE,
        Token::KW_WHILE,
        Token::KW_PRINT,
        Token::KW_RETURN,
        Token::EOI,
    ];

    assert_eq!(lexer.token_list, expected);
}

#[test]
fn it_can_lex_identifiers() {
    let mut lexer = Lexer::new("let ident;".to_string());
    lexer.lex();
    let expected = vec![
        Token::KW_LET,
        Token::ID("ident".to_string()),
        Token::SEMICOLON,
        Token::EOI,
    ];

    assert_eq!(lexer.token_list, expected);
}

#[test]
fn it_can_lex_types() {
    let mut lexer = Lexer::new("int32 flt32 char".to_string());
    lexer.lex();
    let expected = vec![
        Token::TYPE_INT32,
        Token::TYPE_FLT32,
        Token::TYPE_CHAR,
        Token::EOI,
    ];

    assert_eq!(lexer.token_list, expected);
}

#[test]
fn it_can_lex_literals() {
    let mut lexer = Lexer::new("123 123.456 'a' \"hello\"".to_string());
    lexer.lex();
    let expected = vec![
        Token::LIT_INT32(123),
        Token::LIT_FLT32(format!("{}", 123.456_f32)),
        Token::LIT_CHAR('a'),
        Token::LIT_STRING("hello".to_string()),
        Token::EOI,
    ];

    assert_eq!(lexer.token_list, expected);
}

#[test]
fn it_can_lex_a_function_declaration_with_body() {
    let mut lexer = Lexer::new(
        "func add(x : int32) -> int32 [ let value : int32 = 35; value = value + x; return value; ]"
            .to_string(),
    );
    lexer.lex();
    let expected = vec![
        Token::KW_FUNC,
        Token::ID("add".to_string()),
        Token::PARENS_L,
        Token::ID("x".to_string()),
        Token::COLON,
        Token::TYPE_INT32,
        Token::PARENS_R,
        Token::ARROW_R,
        Token::TYPE_INT32,
        Token::BRACKET_L,
        Token::KW_LET,
        Token::ID("value".to_string()),
        Token::COLON,
        Token::TYPE_INT32,
        Token::OP_ASSIGN,
        Token::LIT_INT32(35),
        Token::SEMICOLON,
        Token::ID("value".to_string()),
        Token::OP_ASSIGN,
        Token::ID("value".to_string()),
        Token::OP_ADD,
        Token::ID("x".to_string()),
        Token::SEMICOLON,
        Token::KW_RETURN,
        Token::ID("value".to_string()),
        Token::SEMICOLON,
        Token::BRACKET_R,
        Token::EOI,
    ];

    assert_eq!(lexer.token_list, expected);
}

#[test]
fn literals_carry_their_payloads() {
    assert_eq!(
        shown("123 123.456 'a' \"hello\" true false name"),
        vec![
            "LIT_INT32(123)",
            "LIT_FLT32(123.456)",
            "LIT_CHAR('a')",
            "LIT_STRING(\"hello\")",
            "LIT_BOOL(true)",
            "LIT_BOOL(false)",
            "ID(\"name\")",
            "EOI",
        ]
    );
}

#[test]
fn an_identifier_is_lexed_as_written() {
    for text in ["x", "ident", "a1_b2", "Funcs", "lets", "if_", "while2", "true_", "notx"] {
        assert_eq!(shown(text), vec![format!("ID(\"{}\")", text), "EOI".to_string()]);
    }
}

#[test]
fn every_reserved_word_has_its_token() {
    assert_eq!(
        shown("func let if else while return print int32 flt32 char bool true false and or not"),
        vec![
            "KW_FUNC", "KW_LET", "KW_IF", "KW_ELSE", "KW_WHILE", "KW_RETURN", "KW_PRINT",
            "TYPE_INT32", "TYPE_FLT32", "TYPE_CHAR", "TYPE_BOOL", "LIT_BOOL(true)",
            "LIT_BOOL(false)", "OP_AND", "OP_OR", "OP_NOT", "EOI",
        ]
    );
}

#[test]
fn the_token_list_ends_with_exactly_one_eoi() {
    for text in ["", "   ", "a", "a b c", "1 + 2", "\"open", "'", "@", "x = = y", "12.5.7", "-", "="] {
        let tokens = lexed(text);
        assert!(!tokens.is_empty());
        assert_eq!(tokens.last().unwrap().to_text(), "EOI");
        let count = tokens.iter().filter(|token| token.to_text() == "EOI").count();
        assert_eq!(count, 1, "in {:?}", text);
    }
}

#[test]
fn a_token_at_the_end_of_the_input_is_not_lost() {
    assert_eq!(shown("a b"), vec!["ID(\"a\")", "ID(\"b\")", "EOI"]);
    assert_eq!(shown("let x"), vec!["KW_LET", "ID(\"x\")", "EOI"]);
    assert_eq!(shown("7"), vec!["LIT_INT32(7)", "EOI"]);
    assert_eq!(shown("1.5"), vec!["LIT_FLT32(1.5)", "EOI"]);
    assert_eq!(shown("-"), vec!["OP_SUB", "EOI"]);
    assert_eq!(shown("="), vec!["OP_ASSIGN", "EOI"]);
    assert_eq!(shown("<"), vec!["OP_LT", "EOI"]);
    assert_eq!(shown("x <="), vec!["ID(\"x\")", "OP_NGT", "EOI"]);
}

#[test]
fn a_terminator_is_read_again() {
    assert_eq!(shown("a-b"), vec!["ID(\"a\")", "OP_SUB", "ID(\"b\")", "EOI"]);
    assert_eq!(shown("a->b"), vec!["ID(\"a\")", "ARROW_R", "ID(\"b\")", "EOI"]);
    assert_eq!(shown("a=b"), vec!["ID(\"a\")", "OP_ASSIGN", "ID(\"b\")", "EOI"]);
    assert_eq!(shown("a==b"), vec!["ID(\"a\")", "OP_EQ", "ID(\"b\")", "EOI"]);
    assert_eq!(shown("f(1,2)"), vec![
        "ID(\"f\")", "PARENS_L", "LIT_INT32(1)", "COMMA", "LIT_INT32(2)", "PARENS_R", "EOI",
    ]);
    assert_eq!(shown("12;"), vec!["LIT_INT32(12)", "SEMICOLON", "EOI"]);
}

#[test]
fn an_operator_runs_up_to_white_space() {
    assert_eq!(shown("a < b"), vec!["ID(\"a\")", "OP_LT", "ID(\"b\")", "EOI"]);
    assert_eq!(shown("a <b"), vec!["ID(\"a\")", "UNDEFINED", "EOI"]);
    assert_eq!(shown("a !=\tb"), vec!["ID(\"a\")", "OP_NEQ", "ID(\"b\")", "EOI"]);
    assert_eq!(shown("a >=\nb"), vec!["ID(\"a\")", "OP_NLT", "ID(\"b\")", "EOI"]);
    assert_eq!(shown("!"), vec!["UNDEFINED", "EOI"]);
    assert_eq!(shown("<> x"), vec!["UNDEFINED", "ID(\"x\")", "EOI"]);
}

#[test]
fn a_number_holds_one_point_at_most() {
    assert_eq!(shown("1.2.3"), vec!["LIT_FLT32(1.2)", "POINT", "LIT_INT32(3)", "EOI"]);
    assert_eq!(shown("1."), vec!["LIT_FLT32(1.)", "EOI"]);
    assert_eq!(shown("007"), vec!["LIT_INT32(7)", "EOI"]);
    assert_eq!(shown("12ab"), vec!["LIT_INT32(12)", "ID(\"ab\")", "EOI"]);
}

#[test]
fn an_integer_that_does_not_fit_is_undefined() {
    assert_eq!(shown("2147483647"), vec!["LIT_INT32(2147483647)", "EOI"]);
    assert_eq!(shown("2147483648"), vec!["UNDEFINED", "EOI"]);
    assert_eq!(shown("99999999999999999999999999 1"), vec!["UNDEFINED", "LIT_INT32(1)", "EOI"]);
}

#[test]
fn what_starts_no_token_is_undefined() {
    assert_eq!(shown("@"), vec!["UNDEFINED", "EOI"]);
    assert_eq!(shown("a @ b"), vec!["ID(\"a\")", "UNDEFINED", "ID(\"b\")", "EOI"]);
    assert_eq!(shown("_x"), vec!["UNDEFINED", "ID(\"x\")", "EOI"]);
    assert_eq!(shown("\"open"), vec!["UNDEFINED", "EOI"]);
    assert_eq!(shown("'a"), vec!["UNDEFINED", "EOI"]);
    assert_eq!(shown("'' x"), vec!["UNDEFINED", "ID(\"x\")", "EOI"]);
}

#[test]
fn literals_in_quotes_are_taken_as_written() {
    assert_eq!(shown("\"a b  c\""), vec!["LIT_STRING(\"a b  c\")", "EOI"]);
    assert_eq!(shown("\"\""), vec!["LIT_STRING(\"\")", "EOI"]);
    assert_eq!(shown("'abc'"), vec!["LIT_CHAR('a')", "EOI"]);
    assert_eq!(shown("\"\u{e9}t\u{e9}\" x"), vec!["LIT_STRING(\"\u{e9}t\u{e9}\")", "ID(\"x\")", "EOI"]);
}

#[test]
fn white_space_of_every_kind_is_skipped() {
    assert_eq!(shown(" \t\r\n\u{a0}\u{2003}\u{3000}a\u{85}b"), vec!["ID(\"a\")", "ID(\"b\")", "EOI"]);
}

#[test]
fn advance_resolves_one_token_and_returns_to_the_initial_state() {
    let mut lexer = Lexer::new("let x = 10;".to_string());
    assert_eq!(lexer.current().to_text(), "UNDEFINED");
    let mut seen = Vec::new();
    for _ in 0..7 {
        lexer.advance();
        assert_eq!(lexer.current_state, LexerState::Initial);
        seen.push(lexer.current().to_text());
    }
    assert_eq!(seen, vec!["KW_LET", "ID(\"x\")", "OP_ASSIGN", "LIT_INT32(10)", "SEMICOLON", "EOI", "EOI"]);
    assert_eq!(lexer.input_position, 11);
    assert!(lexer.token_list.is_empty());
}

#[test]
fn set_input_starts_anew() {
    let mut lexer = Lexer::new("a b".to_string());
    lexer.lex();
    assert_eq!(lexer.token_list.len(), 3);
    lexer.lex();
    assert_eq!(lexer.token_list.len(), 3);
    lexer.set_input("( )".to_string());
    assert_eq!(lexer.input_position, 0);
    assert!(lexer.token_list.is_empty());
    assert_eq!(lexer.current().to_text(), "UNDEFINED");
    lexer.lex();
    let texts: Vec<String> = lexer.token_list.iter().map(|token| token.to_text()).collect();
    assert_eq!(texts, vec!["PARENS_L", "PARENS_R", "EOI"]);
}

#[test]
fn every_short_text_has_tokens_that_end_with_one_eoi() {
    let alphabet = ['a', 'Z', '7', '.', '<', '=', '-', '>', ' ', '\n', '"', '\'', '(', '!', '_', '@'];
    let mut texts: Vec<String> = vec![String::new()];
    let mut last: Vec<String> = vec![String::new()];
    for _ in 0..4 {
        let mut longer = Vec::new();
        for text in &last {
            for c in alphabet {
                let mut next = text.clone();
                next.push(c);
                longer.push(next);
            }
        }
        texts.extend(longer.iter().cloned());
        last = longer;
    }
    assert_eq!(texts.len(), 1 + 16 + 256 + 4096 + 65536);
    for text in &texts {
        let mut lexer = Lexer::new(text.clone());
        let length = text.chars().count();
        let mut tokens = Vec::new();
        let mut position = 0;
        loop {
            lexer.advance();
            assert_eq!(lexer.current_state, LexerState::Initial);
            assert!(lexer.input_position <= length);
            let token = lexer.current();
            if token == Token::EOI {
                assert_eq!(lexer.input_position, length);
                break;
            }
            assert!(lexer.input_position > position, "in {:?}", text);
            position = lexer.input_position;
            tokens.push(token.to_text());
        }
        tokens.push("EOI".to_string());
        assert_eq!(shown(text), tokens, "in {:?}", text);
    }
}

#[test]
fn the_buffer_holds_what_was_gathered_of_the_token() {
    let mut lexer = Lexer::new("name = 12.5 <= \"a b\" 'c' ( -> 77".to_string());
    let mut buffers = Vec::new();
    loop {
        lexer.advance();
        buffers.push(lexer.buffer_string.clone());
        if lexer.current() == Token::EOI {
            break;
        }
    }
    assert_eq!(buffers, vec!["name", "", "12.5", "<=", "a b", "c", "", "", "77", ""]);
}
