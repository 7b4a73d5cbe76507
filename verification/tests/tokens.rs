use iron_oxide::token::{Category, Token};

#[test]
fn tokens_are_equal_by_category() {
    assert_eq!(Token::ID("a".to_string()), Token::ID("b".to_string()));
    assert_eq!(Token::id(), Token::ID("anything".to_string()));
    assert_eq!(Token::lit_i32(), Token::LIT_INT32(42));
    assert_eq!(Token::lit_f32(), Token::LIT_FLT32("2.5".to_string()));
    assert_eq!(Token::lit_char(), Token::LIT_CHAR('z'));
    assert_eq!(Token::lit_string(), Token::LIT_STRING("s".to_string()));
    assert_eq!(Token::lit_bool(), Token::LIT_BOOL(true));
    assert_ne!(Token::ID("a".to_string()), Token::LIT_STRING("a".to_string()));
    assert_ne!(Token::LIT_INT32(1), Token::LIT_FLT32("1".to_string()));
    assert_ne!(Token::OP_LT, Token::OP_GT);
    assert_ne!(Token::EOI, Token::UNDEFINED);
    assert_ne!(Token::ERROR, Token::UNDEFINED);
}

#[test]
fn a_token_knows_its_category() {
    assert_eq!(Token::ID("a".to_string()).category(), Category::ID);
    assert_eq!(Token::KW_WHILE.category(), Category::KW_WHILE);
    assert_eq!(Token::LIT_BOOL(false).category(), Category::LIT_BOOL);
    assert_eq!(Category::OP_NGT.to_text(), "OP_NGT");
}

#[test]
fn the_getters_give_the_payloads() {
    assert_eq!(Token::ID("count".to_string()).get_id_name(), "count");
    assert_eq!(Token::LIT_INT32(-5).get_lit_i32(), -5);
    assert_eq!(Token::LIT_FLT32("3.25".to_string()).get_lit_f32(), "3.25");
    assert_eq!(Token::LIT_CHAR('q').get_lit_char(), 'q');
    assert_eq!(Token::LIT_STRING("hi".to_string()).get_lit_string(), "hi");
    assert!(Token::LIT_BOOL(true).get_lit_bool());
    assert_eq!(Token::id().get_id_name(), "");
    assert_eq!(Token::lit_i32().get_lit_i32(), 0);
    assert_eq!(Token::lit_char().get_lit_char(), ' ');
    assert!(!Token::lit_bool().get_lit_bool());
}

#[test]
fn a_token_is_shown_with_its_payload() {
    assert_eq!(Token::KW_FUNC.to_text(), "KW_FUNC");
    assert_eq!(Token::ID("x".to_string()).to_text(), "ID(\"x\")");
    assert_eq!(Token::LIT_INT32(-2147483648).to_text(), "LIT_INT32(-2147483648)");
    assert_eq!(Token::LIT_INT32(0).to_text(), "LIT_INT32(0)");
    assert_eq!(Token::LIT_CHAR('c').to_text(), "LIT_CHAR('c')");
    assert_eq!(Token::LIT_BOOL(false).to_text(), "LIT_BOOL(false)");
    let copy = Token::LIT_STRING("s".to_string()).clone();
    assert_eq!(copy.to_text(), "LIT_STRING(\"s\")");
}
