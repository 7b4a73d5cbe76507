//! The token model: the lexical categories of the language, the payloads of
//! its atoms, and equality of tokens by category.

#![allow(non_camel_case_types)]

use vstd::prelude::*;
use vstd::string::StringExecFns;
use crate::text::{decimal, i32_to_string};

verus! {

/// A lexical category: what is left of a token when its payload is set aside.
#[derive(Clone, Copy, Debug, PartialEq, Eq, Structural)]
pub enum Category {
    PARENS_L,
    PARENS_R,
    BRACKET_L,
    BRACKET_R,
    BRACE_L,
    BRACE_R,
    POINT,
    COMMA,
    COLON,
    SEMICOLON,
    ARROW_R,
    OP_ADD,
    OP_SUB,
    OP_MUL,
    OP_DIV,
    OP_EQ,
    OP_LT,
    OP_GT,
    OP_NEQ,
    OP_NLT,
    OP_NGT,
    OP_NOT,
    OP_AND,
    OP_OR,
    OP_ASSIGN,
    KW_FUNC,
    KW_LET,
    KW_IF,
    KW_ELSE,
    KW_WHILE,
    KW_RETURN,
    KW_PRINT,
    TYPE_INT32,
    TYPE_FLT32,
    TYPE_CHAR,
    TYPE_BOOL,
    ID,
    LIT_INT32,
    LIT_FLT32,
    LIT_CHAR,
    LIT_STRING,
    LIT_BOOL,
    UNDEFINED,
    ERROR,
    EOI,
}

/// A token. An atom carries its payload: an identifier its name, a literal
/// its value. A single-precision literal carries the decimal numeral that was
/// written.
#[derive(Debug)]
pub enum Token {
    // nesting
    PARENS_L,
    PARENS_R,
    BRACKET_L,
    BRACKET_R,
    BRACE_L,
    BRACE_R,
    // separators
    POINT,
    COMMA,
    COLON,
    SEMICOLON,
    ARROW_R,
    // arithmetic operators
    OP_ADD,
    OP_SUB,
    OP_MUL,
    OP_DIV,
    // relational operators
    OP_EQ,
    OP_LT,
    OP_GT,
    OP_NEQ,
    OP_NLT,
    OP_NGT,
    // logical operators
    OP_NOT,
    OP_AND,
    OP_OR,
    // assignment
    OP_ASSIGN,
    // keywords
    KW_FUNC,
    KW_LET,
    KW_IF,
    KW_ELSE,
    KW_WHILE,
    KW_RETURN,
    KW_PRINT,
    // type names
    TYPE_INT32,
    TYPE_FLT32,
    TYPE_CHAR,
    TYPE_BOOL,
    // atoms
    ID(String),
    LIT_INT32(i32),
    LIT_FLT32(String),
    LIT_CHAR(char),
    LIT_STRING(String),
    LIT_BOOL(bool),
    // sentinels
    UNDEFINED,
    ERROR,
    EOI,
}

/// The mathematical model of a token: the same categories, with strings as
/// sequences of characters.
pub enum TokenView {
    PARENS_L,
    PARENS_R,
    BRACKET_L,
    BRACKET_R,
    BRACE_L,
    BRACE_R,
    POINT,
    COMMA,
    COLON,
    SEMICOLON,
    ARROW_R,
    OP_ADD,
    OP_SUB,
    OP_MUL,
    OP_DIV,
    OP_EQ,
    OP_LT,
    OP_GT,
    OP_NEQ,
    OP_NLT,
    OP_NGT,
    OP_NOT,
    OP_AND,
    OP_OR,
    OP_ASSIGN,
    KW_FUNC,
    KW_LET,
    KW_IF,
    KW_ELSE,
    KW_WHILE,
    KW_RETURN,
    KW_PRINT,
    TYPE_INT32,
    TYPE_FLT32,
    TYPE_CHAR,
    TYPE_BOOL,
    ID(Seq<char>),
    LIT_INT32(i32),
    LIT_FLT32(Seq<char>),
    LIT_CHAR(char),
    LIT_STRING(Seq<char>),
    LIT_BOOL(bool),
    UNDEFINED,
    ERROR,
    EOI,
}

impl View for Token {
    type V = TokenView;

    open spec fn view(&self) -> TokenView {
        match self {
            Token::PARENS_L => TokenView::PARENS_L,
            Token::PARENS_R => TokenView::PARENS_R,
            Token::BRACKET_L => TokenView::BRACKET_L,
            Token::BRACKET_R => TokenView::BRACKET_R,
            Token::BRACE_L => TokenView::BRACE_L,
            Token::BRACE_R => TokenView::BRACE_R,
            Token::POINT => TokenView::POINT,
            Token::COMMA => TokenView::COMMA,
            Token::COLON => TokenView::COLON,
            Token::SEMICOLON => TokenView::SEMICOLON,
            Token::ARROW_R => TokenView::ARROW_R,
            Token::OP_ADD => TokenView::OP_ADD,
            Token::OP_SUB => TokenView::OP_SUB,
            Token::OP_MUL => TokenView::OP_MUL,
            Token::OP_DIV => TokenView::OP_DIV,
            Token::OP_EQ => TokenView::OP_EQ,
            Token::OP_LT => TokenView::OP_LT,
            Token::OP_GT => TokenView::OP_GT,
            Token::OP_NEQ => TokenView::OP_NEQ,
            Token::OP_NLT => TokenView::OP_NLT,
            Token::OP_NGT => TokenView::OP_NGT,
            Token::OP_NOT => TokenView::OP_NOT,
            Token::OP_AND => TokenView::OP_AND,
            Token::OP_OR => TokenView::OP_OR,
            Token::OP_ASSIGN => TokenView::OP_ASSIGN,
            Token::KW_FUNC => TokenView::KW_FUNC,
            Token::KW_LET => TokenView::KW_LET,
            Token::KW_IF => TokenView::KW_IF,
            Token::KW_ELSE => TokenView::KW_ELSE,
            Token::KW_WHILE => TokenView::KW_WHILE,
            Token::KW_RETURN => TokenView::KW_RETURN,
            Token::KW_PRINT => TokenView::KW_PRINT,
            Token::TYPE_INT32 => TokenView::TYPE_INT32,
            Token::TYPE_FLT32 => TokenView::TYPE_FLT32,
            Token::TYPE_CHAR => TokenView::TYPE_CHAR,
            Token::TYPE_BOOL => TokenView::TYPE_BOOL,
            Token::UNDEFINED => TokenView::UNDEFINED,
            Token::ERROR => TokenView::ERROR,
            Token::EOI => TokenView::EOI,
            Token::ID(s) => TokenView::ID(s@),
            Token::LIT_INT32(v) => TokenView::LIT_INT32(*v),
            Token::LIT_FLT32(s) => TokenView::LIT_FLT32(s@),
            Token::LIT_CHAR(v) => TokenView::LIT_CHAR(*v),
            Token::LIT_STRING(s) => TokenView::LIT_STRING(s@),
            Token::LIT_BOOL(v) => TokenView::LIT_BOOL(*v),
        }
    }
}

impl TokenView {
    /// The category of the token.
    pub open spec fn category(self) -> Category {
        match self {
            TokenView::PARENS_L => Category::PARENS_L,
            TokenView::PARENS_R => Category::PARENS_R,
            TokenView::BRACKET_L => Category::BRACKET_L,
            TokenView::BRACKET_R => Category::BRACKET_R,
            TokenView::BRACE_L => Category::BRACE_L,
            TokenView::BRACE_R => Category::BRACE_R,
            TokenView::POINT => Category::POINT,
            TokenView::COMMA => Category::COMMA,
            TokenView::COLON => Category::COLON,
            TokenView::SEMICOLON => Category::SEMICOLON,
            TokenView::ARROW_R => Category::ARROW_R,
            TokenView::OP_ADD => Category::OP_ADD,
            TokenView::OP_SUB => Category::OP_SUB,
            TokenView::OP_MUL => Category::OP_MUL,
            TokenView::OP_DIV => Category::OP_DIV,
            TokenView::OP_EQ => Category::OP_EQ,
            TokenView::OP_LT => Category::OP_LT,
            TokenView::OP_GT => Category::OP_GT,
            TokenView::OP_NEQ => Category::OP_NEQ,
            TokenView::OP_NLT => Category::OP_NLT,
            TokenView::OP_NGT => Category::OP_NGT,
            TokenView::OP_NOT => Category::OP_NOT,
            TokenView::OP_AND => Category::OP_AND,
            TokenView::OP_OR => Category::OP_OR,
            TokenView::OP_ASSIGN => Category::OP_ASSIGN,
            TokenView::KW_FUNC => Category::KW_FUNC,
            TokenView::KW_LET => Category::KW_LET,
            TokenView::KW_IF => Category::KW_IF,
            TokenView::KW_ELSE => Category::KW_ELSE,
            TokenView::KW_WHILE => Category::KW_WHILE,
            TokenView::KW_RETURN => Category::KW_RETURN,
            TokenView::KW_PRINT => Category::KW_PRINT,
            TokenView::TYPE_INT32 => Category::TYPE_INT32,
            TokenView::TYPE_FLT32 => Category::TYPE_FLT32,
            TokenView::TYPE_CHAR => Category::TYPE_CHAR,
            TokenView::TYPE_BOOL => Category::TYPE_BOOL,
            TokenView::UNDEFINED => Category::UNDEFINED,
            TokenView::ERROR => Category::ERROR,
            TokenView::EOI => Category::EOI,
            TokenView::ID(_) => Category::ID,
            TokenView::LIT_INT32(_) => Category::LIT_INT32,
            TokenView::LIT_FLT32(_) => Category::LIT_FLT32,
            TokenView::LIT_CHAR(_) => Category::LIT_CHAR,
            TokenView::LIT_STRING(_) => Category::LIT_STRING,
            TokenView::LIT_BOOL(_) => Category::LIT_BOOL,
        }
    }

    /// The text that shows the token in a diagnostic: the name of its
    /// category, followed for an atom by its payload in parentheses.
    pub open spec fn text(self) -> Seq<char> {
        match self {
            TokenView::ID(s) => "ID(\""@ + s + "\")"@,
            TokenView::LIT_INT32(i) => "LIT_INT32("@ + decimal(i as int) + ")"@,
            TokenView::LIT_FLT32(s) => "LIT_FLT32("@ + s + ")"@,
            TokenView::LIT_CHAR(c) => "LIT_CHAR('"@.push(c) + "')"@,
            TokenView::LIT_STRING(s) => "LIT_STRING(\""@ + s + "\")"@,
            TokenView::LIT_BOOL(b) => if b {
                "LIT_BOOL(true)"@
            } else {
                "LIT_BOOL(false)"@
            },
            _ => self.category().name(),
        }
    }
}

impl Category {
    /// The name of the category.
    pub open spec fn name(self) -> Seq<char> {
        match self {
            Category::PARENS_L => "PARENS_L"@,
            Category::PARENS_R => "PARENS_R"@,
            Category::BRACKET_L => "BRACKET_L"@,
            Category::BRACKET_R => "BRACKET_R"@,
            Category::BRACE_L => "BRACE_L"@,
            Category::BRACE_R => "BRACE_R"@,
            Category::POINT => "POINT"@,
            Category::COMMA => "COMMA"@,
            Category::COLON => "COLON"@,
            Category::SEMICOLON => "SEMICOLON"@,
            Category::ARROW_R => "ARROW_R"@,
            Category::OP_ADD => "OP_ADD"@,
            Category::OP_SUB => "OP_SUB"@,
            Category::OP_MUL => "OP_MUL"@,
            Category::OP_DIV => "OP_DIV"@,
            Category::OP_EQ => "OP_EQ"@,
            Category::OP_LT => "OP_LT"@,
            Category::OP_GT => "OP_GT"@,
            Category::OP_NEQ => "OP_NEQ"@,
            Category::OP_NLT => "OP_NLT"@,
            Category::OP_NGT => "OP_NGT"@,
            Category::OP_NOT => "OP_NOT"@,
            Category::OP_AND => "OP_AND"@,
            Category::OP_OR => "OP_OR"@,
            Category::OP_ASSIGN => "OP_ASSIGN"@,
            Category::KW_FUNC => "KW_FUNC"@,
            Category::KW_LET => "KW_LET"@,
            Category::KW_IF => "KW_IF"@,
            Category::KW_ELSE => "KW_ELSE"@,
            Category::KW_WHILE => "KW_WHILE"@,
            Category::KW_RETURN => "KW_RETURN"@,
            Category::KW_PRINT => "KW_PRINT"@,
            Category::TYPE_INT32 => "TYPE_INT32"@,
            Category::TYPE_FLT32 => "TYPE_FLT32"@,
            Category::TYPE_CHAR => "TYPE_CHAR"@,
            Category::TYPE_BOOL => "TYPE_BOOL"@,
            Category::ID => "ID"@,
            Category::LIT_INT32 => "LIT_INT32"@,
            Category::LIT_FLT32 => "LIT_FLT32"@,
            Category::LIT_CHAR => "LIT_CHAR"@,
            Category::LIT_STRING => "LIT_STRING"@,
            Category::LIT_BOOL => "LIT_BOOL"@,
            Category::UNDEFINED => "UNDEFINED"@,
            Category::ERROR => "ERROR"@,
            Category::EOI => "EOI"@,
        }
    }

    /// The name of the category, as a string.
    pub fn to_text(self) -> (r: &'static str)
        ensures
            r@ == self.name(),
    {
        match self {
            Category::PARENS_L => "PARENS_L",
            Category::PARENS_R => "PARENS_R",
            Category::BRACKET_L => "BRACKET_L",
            Category::BRACKET_R => "BRACKET_R",
            Category::BRACE_L => "BRACE_L",
            Category::BRACE_R => "BRACE_R",
            Category::POINT => "POINT",
            Category::COMMA => "COMMA",
            Category::COLON => "COLON",
            Category::SEMICOLON => "SEMICOLON",
            Category::ARROW_R => "ARROW_R",
            Category::OP_ADD => "OP_ADD",
            Category::OP_SUB => "OP_SUB",
            Category::OP_MUL => "OP_MUL",
            Category::OP_DIV => "OP_DIV",
            Category::OP_EQ => "OP_EQ",
            Category::OP_LT => "OP_LT",
            Category::OP_GT => "OP_GT",
            Category::OP_NEQ => "OP_NEQ",
            Category::OP_NLT => "OP_NLT",
            Category::OP_NGT => "OP_NGT",
            Category::OP_NOT => "OP_NOT",
            Category::OP_AND => "OP_AND",
            Category::OP_OR => "OP_OR",
            Category::OP_ASSIGN => "OP_ASSIGN",
            Category::KW_FUNC => "KW_FUNC",
            Category::KW_LET => "KW_LET",
            Category::KW_IF => "KW_IF",
            Category::KW_ELSE => "KW_ELSE",
            Category::KW_WHILE => "KW_WHILE",
            Category::KW_RETURN => "KW_RETURN",
            Category::KW_PRINT => "KW_PRINT",
            Category::TYPE_INT32 => "TYPE_INT32",
            Category::TYPE_FLT32 => "TYPE_FLT32",
            Category::TYPE_CHAR => "TYPE_CHAR",
            Category::TYPE_BOOL => "TYPE_BOOL",
            Category::ID => "ID",
            Category::LIT_INT32 => "LIT_INT32",
            Category::LIT_FLT32 => "LIT_FLT32",
            Category::LIT_CHAR => "LIT_CHAR",
            Category::LIT_STRING => "LIT_STRING",
            Category::LIT_BOOL => "LIT_BOOL",
            Category::UNDEFINED => "UNDEFINED",
            Category::ERROR => "ERROR",
            Category::EOI => "EOI",
        }
    }
}

impl Clone for Token {
    fn clone(&self) -> (r: Token)
        ensures
            r@ == self@,
    {
        match self {
            Token::PARENS_L => Token::PARENS_L,
            Token::PARENS_R => Token::PARENS_R,
            Token::BRACKET_L => Token::BRACKET_L,
            Token::BRACKET_R => Token::BRACKET_R,
            Token::BRACE_L => Token::BRACE_L,
            Token::BRACE_R => Token::BRACE_R,
            Token::POINT => Token::POINT,
            Token::COMMA => Token::COMMA,
            Token::COLON => Token::COLON,
            Token::SEMICOLON => Token::SEMICOLON,
            Token::ARROW_R => Token::ARROW_R,
            Token::OP_ADD => Token::OP_ADD,
            Token::OP_SUB => Token::OP_SUB,
            Token::OP_MUL => Token::OP_MUL,
            Token::OP_DIV => Token::OP_DIV,
            Token::OP_EQ => Token::OP_EQ,
            Token::OP_LT => Token::OP_LT,
            Token::OP_GT => Token::OP_GT,
            Token::OP_NEQ => Token::OP_NEQ,
            Token::OP_NLT => Token::OP_NLT,
            Token::OP_NGT => Token::OP_NGT,
            Token::OP_NOT => Token::OP_NOT,
            Token::OP_AND => Token::OP_AND,
            Token::OP_OR => Token::OP_OR,
            Token::OP_ASSIGN => Token::OP_ASSIGN,
            Token::KW_FUNC => Token::KW_FUNC,
            Token::KW_LET => Token::KW_LET,
            Token::KW_IF => Token::KW_IF,
            Token::KW_ELSE => Token::KW_ELSE,
            Token::KW_WHILE => Token::KW_WHILE,
            Token::KW_RETURN => Token::KW_RETURN,
            Token::KW_PRINT => Token::KW_PRINT,
            Token::TYPE_INT32 => Token::TYPE_INT32,
            Token::TYPE_FLT32 => Token::TYPE_FLT32,
            Token::TYPE_CHAR => Token::TYPE_CHAR,
            Token::TYPE_BOOL => Token::TYPE_BOOL,
            Token::UNDEFINED => Token::UNDEFINED,
            Token::ERROR => Token::ERROR,
            Token::EOI => Token::EOI,
            Token::ID(s) => Token::ID(s.clone()),
            Token::LIT_INT32(v) => Token::LIT_INT32(*v),
            Token::LIT_FLT32(s) => Token::LIT_FLT32(s.clone()),
            Token::LIT_CHAR(v) => Token::LIT_CHAR(*v),
            Token::LIT_STRING(s) => Token::LIT_STRING(s.clone()),
            Token::LIT_BOOL(v) => Token::LIT_BOOL(*v),
        }
    }
}

/// Two tokens are equal when they are of the same category, whatever their
/// payloads: a template such as "some identifier" equals every identifier.
impl PartialEq for Token {
    fn eq(&self, other: &Token) -> (r: bool) {
        self.category() == other.category()
    }
}

impl vstd::std_specs::cmp::PartialEqSpecImpl for Token {
    open spec fn obeys_eq_spec() -> bool {
        true
    }

    open spec fn eq_spec(&self, other: &Token) -> bool {
        self@.category() == other@.category()
    }
}

impl Eq for Token {

}

impl Token {
    /// The category of the token.
    pub fn category(&self) -> (r: Category)
        ensures
            r == self@.category(),
    {
        match self {
            Token::PARENS_L => Category::PARENS_L,
            Token::PARENS_R => Category::PARENS_R,
            Token::BRACKET_L => Category::BRACKET_L,
            Token::BRACKET_R => Category::BRACKET_R,
            Token::BRACE_L => Category::BRACE_L,
            Token::BRACE_R => Category::BRACE_R,
            Token::POINT => Category::POINT,
            Token::COMMA => Category::COMMA,
            Token::COLON => Category::COLON,
            Token::SEMICOLON => Category::SEMICOLON,
            Token::ARROW_R => Category::ARROW_R,
            Token::OP_ADD => Category::OP_ADD,
            Token::OP_SUB => Category::OP_SUB,
            Token::OP_MUL => Category::OP_MUL,
            Token::OP_DIV => Category::OP_DIV,
            Token::OP_EQ => Category::OP_EQ,
            Token::OP_LT => Category::OP_LT,
            Token::OP_GT => Category::OP_GT,
            Token::OP_NEQ => Category::OP_NEQ,
            Token::OP_NLT => Category::OP_NLT,
            Token::OP_NGT => Category::OP_NGT,
            Token::OP_NOT => Category::OP_NOT,
            Token::OP_AND => Category::OP_AND,
            Token::OP_OR => Category::OP_OR,
            Token::OP_ASSIGN => Category::OP_ASSIGN,
            Token::KW_FUNC => Category::KW_FUNC,
            Token::KW_LET => Category::KW_LET,
            Token::KW_IF => Category::KW_IF,
            Token::KW_ELSE => Category::KW_ELSE,
            Token::KW_WHILE => Category::KW_WHILE,
            Token::KW_RETURN => Category::KW_RETURN,
            Token::KW_PRINT => Category::KW_PRINT,
            Token::TYPE_INT32 => Category::TYPE_INT32,
            Token::TYPE_FLT32 => Category::TYPE_FLT32,
            Token::TYPE_CHAR => Category::TYPE_CHAR,
            Token::TYPE_BOOL => Category::TYPE_BOOL,
            Token::UNDEFINED => Category::UNDEFINED,
            Token::ERROR => Category::ERROR,
            Token::EOI => Category::EOI,
            Token::ID(_) => Category::ID,
            Token::LIT_INT32(_) => Category::LIT_INT32,
            Token::LIT_FLT32(_) => Category::LIT_FLT32,
            Token::LIT_CHAR(_) => Category::LIT_CHAR,
            Token::LIT_STRING(_) => Category::LIT_STRING,
            Token::LIT_BOOL(_) => Category::LIT_BOOL,
        }
    }

    /// The template of an identifier.
    pub fn id() -> (r: Token)
        ensures
            r@ == TokenView::ID(Seq::<char>::empty()),
    {
        Token::ID(String::new())
    }

    /// The template of a 32-bit integer literal.
    pub fn lit_i32() -> (r: Token)
        ensures
            r@ == TokenView::LIT_INT32(0),
    {
        Token::LIT_INT32(0)
    }

    /// The template of a single-precision literal.
    pub fn lit_f32() -> (r: Token)
        ensures
            r@ == TokenView::LIT_FLT32("0.0"@),
    {
        Token::LIT_FLT32("0.0".to_owned())
    }

    /// The template of a character literal.
    pub fn lit_char() -> (r: Token)
        ensures
            r@ == TokenView::LIT_CHAR(' '),
    {
        Token::LIT_CHAR(' ')
    }

    /// The template of a string literal.
    pub fn lit_string() -> (r: Token)
        ensures
            r@ == TokenView::LIT_STRING(Seq::<char>::empty()),
    {
        Token::LIT_STRING(String::new())
    }

    /// The template of a boolean literal.
    pub fn lit_bool() -> (r: Token)
        ensures
            r@ == TokenView::LIT_BOOL(false),
    {
        Token::LIT_BOOL(false)
    }

    /// The name of an identifier.
    pub fn get_id_name(&self) -> (r: String)
        requires
            self@ is ID,
        ensures
            self@ == TokenView::ID(r@),
    {
        match self {
            Token::ID(name) => name.clone(),
            _ => String::new(),
        }
    }

    /// The value of a 32-bit integer literal.
    pub fn get_lit_i32(&self) -> (r: i32)
        requires
            self@ is LIT_INT32,
        ensures
            self@ == TokenView::LIT_INT32(r),
    {
        match self {
            Token::LIT_INT32(value) => *value,
            _ => 0,
        }
    }

    /// The numeral of a single-precision literal.
    pub fn get_lit_f32(&self) -> (r: String)
        requires
            self@ is LIT_FLT32,
        ensures
            self@ == TokenView::LIT_FLT32(r@),
    {
        match self {
            Token::LIT_FLT32(numeral) => numeral.clone(),
            _ => String::new(),
        }
    }

    /// The character of a character literal.
    pub fn get_lit_char(&self) -> (r: char)
        requires
            self@ is LIT_CHAR,
        ensures
            self@ == TokenView::LIT_CHAR(r),
    {
        match self {
            Token::LIT_CHAR(value) => *value,
            _ => ' ',
        }
    }

    /// The characters of a string literal.
    pub fn get_lit_string(&self) -> (r: String)
        requires
            self@ is LIT_STRING,
        ensures
            self@ == TokenView::LIT_STRING(r@),
    {
        match self {
            Token::LIT_STRING(value) => value.clone(),
            _ => String::new(),
        }
    }

    /// The value of a boolean literal.
    pub fn get_lit_bool(&self) -> (r: bool)
        requires
            self@ is LIT_BOOL,
        ensures
            self@ == TokenView::LIT_BOOL(r),
    {
        match self {
            Token::LIT_BOOL(value) => *value,
            _ => false,
        }
    }

    /// The text that shows the token in a diagnostic.
    pub fn to_text(&self) -> (r: String)
        ensures
            r@ == self@.text(),
    {
        match self {
            Token::ID(s) => {
                let mut out = "ID(\"".to_owned();
                out.append(s.as_str());
                out.append("\")");
                out
            },
            Token::LIT_INT32(i) => {
                let mut out = "LIT_INT32(".to_owned();
                out.append(i32_to_string(*i).as_str());
                out.append(")");
                out
            },
            Token::LIT_FLT32(s) => {
                let mut out = "LIT_FLT32(".to_owned();
                out.append(s.as_str());
                out.append(")");
                out
            },
            Token::LIT_CHAR(c) => {
                let mut out = "LIT_CHAR('".to_owned();
                out.push(*c);
                out.append("')");
                out
            },
            Token::LIT_STRING(s) => {
                let mut out = "LIT_STRING(\"".to_owned();
                out.append(s.as_str());
                out.append("\")");
                out
            },
            Token::LIT_BOOL(b) => if *b {
                "LIT_BOOL(true)".to_owned()
            } else {
                "LIT_BOOL(false)".to_owned()
            },
            _ => self.category().to_text().to_owned(),
        }
    }
}

} // verus!
