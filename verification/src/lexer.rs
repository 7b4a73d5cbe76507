//! The lexer: a state machine that reads the source text one character at a
//! time and resolves one token per call of [`Lexer::advance`].
//!
//! What the lexer produces is stated by [`scan`], which says for each
//! position of a text which token starts there and where it ends, and by
//! [`tokens_from`], the sequence of all tokens up to the end of the input.

use vstd::prelude::*;
use crate::text::{
    char_is_digit,
    char_is_letter,
    char_is_space,
    char_is_word,
    chars_of,
    digits_value,
    is_digit,
    is_letter,
    is_space,
    is_word,
};
use crate::token::{Category, Token, TokenView};

verus! {

/// The states of the machine. Every call of [`Lexer::advance`] starts in
/// `Initial` and ends there.
#[derive(Debug, Clone, Copy, PartialEq, Eq, Structural)]
pub enum LexerState {
    Initial,
    Separator,
    Operator,
    Assignment,
    Identifier,
    Number,
    String,
    Char,
}

/// A kind of run: which characters continue it.
pub enum Run {
    /// White space.
    Space,
    /// Letters, digits and `_`.
    Word,
    /// Decimal digits.
    Digits,
    /// Everything but white space.
    Operator,
    /// Everything but the given character.
    Until(char),
}

impl Run {
    /// Whether the character continues a run of this kind.
    pub open spec fn admits(self, c: char) -> bool {
        match self {
            Run::Space => is_space(c),
            Run::Word => is_word(c),
            Run::Digits => is_digit(c),
            Run::Operator => !is_space(c),
            Run::Until(stop) => c != stop,
        }
    }
}

/// The position at which the run that starts at `from` ends: the first
/// position from `from` on whose character does not continue the run, or the
/// length of the text.
pub open spec fn run_end(s: Seq<char>, from: int, run: Run) -> int
    decreases s.len() - from,
{
    if 0 <= from < s.len() && run.admits(s[from]) {
        run_end(s, from + 1, run)
    } else {
        from
    }
}

/// The token of a character that is a token by itself.
pub open spec fn punctuation(c: char) -> Option<TokenView> {
    if c == '(' {
        Some(TokenView::PARENS_L)
    } else if c == ')' {
        Some(TokenView::PARENS_R)
    } else if c == '[' {
        Some(TokenView::BRACKET_L)
    } else if c == ']' {
        Some(TokenView::BRACKET_R)
    } else if c == '{' {
        Some(TokenView::BRACE_L)
    } else if c == '}' {
        Some(TokenView::BRACE_R)
    } else if c == '.' {
        Some(TokenView::POINT)
    } else if c == ',' {
        Some(TokenView::COMMA)
    } else if c == ':' {
        Some(TokenView::COLON)
    } else if c == ';' {
        Some(TokenView::SEMICOLON)
    } else if c == '+' {
        Some(TokenView::OP_ADD)
    } else if c == '*' {
        Some(TokenView::OP_MUL)
    } else if c == '/' {
        Some(TokenView::OP_DIV)
    } else {
        None
    }
}

/// The token of a word that the language reserves: a keyword, a type name, a
/// boolean literal or a logical operator.
pub open spec fn reserved(text: Seq<char>) -> Option<TokenView> {
    if text == "func"@ {
        Some(TokenView::KW_FUNC)
    } else if text == "let"@ {
        Some(TokenView::KW_LET)
    } else if text == "if"@ {
        Some(TokenView::KW_IF)
    } else if text == "else"@ {
        Some(TokenView::KW_ELSE)
    } else if text == "while"@ {
        Some(TokenView::KW_WHILE)
    } else if text == "return"@ {
        Some(TokenView::KW_RETURN)
    } else if text == "print"@ {
        Some(TokenView::KW_PRINT)
    } else if text == "int32"@ {
        Some(TokenView::TYPE_INT32)
    } else if text == "flt32"@ {
        Some(TokenView::TYPE_FLT32)
    } else if text == "char"@ {
        Some(TokenView::TYPE_CHAR)
    } else if text == "bool"@ {
        Some(TokenView::TYPE_BOOL)
    } else if text == "true"@ {
        Some(TokenView::LIT_BOOL(true))
    } else if text == "false"@ {
        Some(TokenView::LIT_BOOL(false))
    } else if text == "and"@ {
        Some(TokenView::OP_AND)
    } else if text == "or"@ {
        Some(TokenView::OP_OR)
    } else if text == "not"@ {
        Some(TokenView::OP_NOT)
    } else {
        None
    }
}

/// The token of a word: the reserved one, or an identifier of that name.
pub open spec fn word(text: Seq<char>) -> TokenView {
    match reserved(text) {
        Some(token) => token,
        None => TokenView::ID(text),
    }
}

/// The token of a run that starts with `<`, `>` or `!`.
pub open spec fn operator(text: Seq<char>) -> TokenView {
    if text == "!="@ {
        TokenView::OP_NEQ
    } else if text == ">="@ {
        TokenView::OP_NLT
    } else if text == "<="@ {
        TokenView::OP_NGT
    } else if text == "<"@ {
        TokenView::OP_LT
    } else if text == ">"@ {
        TokenView::OP_GT
    } else {
        TokenView::UNDEFINED
    }
}

/// The token of a run of digits: the integer that they denote, or
/// `UNDEFINED` where that is more than a 32-bit integer holds.
pub open spec fn integer(digits: Seq<char>) -> TokenView {
    if digits_value(digits) <= i32::MAX {
        TokenView::LIT_INT32(digits_value(digits) as i32)
    } else {
        TokenView::UNDEFINED
    }
}

/// A token together with the position behind it.
pub struct Lexeme {
    pub token: TokenView,
    pub next: int,
}

/// The token that starts at or after position `from` of the text `s`, and
/// the position at which the search for the following token begins.
///
/// White space before the token is skipped. At the end of the text the
/// token is `EOI`. A string or character literal that is not closed, an
/// empty character literal and a character that starts no token are
/// `UNDEFINED`.
pub open spec fn scan(s: Seq<char>, from: int) -> Lexeme {
    let start = run_end(s, from, Run::Space);
    if !(0 <= start < s.len()) {
        Lexeme { token: TokenView::EOI, next: start }
    } else {
        let c = s[start];
        if punctuation(c) is Some {
            Lexeme { token: punctuation(c)->0, next: start + 1 }
        } else if c == '<' || c == '>' || c == '!' {
            let end = run_end(s, start + 1, Run::Operator);
            Lexeme { token: operator(s.subrange(start, end)), next: end }
        } else if c == '=' {
            if start + 1 < s.len() && s[start + 1] == '=' {
                Lexeme { token: TokenView::OP_EQ, next: start + 2 }
            } else {
                Lexeme { token: TokenView::OP_ASSIGN, next: start + 1 }
            }
        } else if c == '-' {
            if start + 1 < s.len() && s[start + 1] == '>' {
                Lexeme { token: TokenView::ARROW_R, next: start + 2 }
            } else {
                Lexeme { token: TokenView::OP_SUB, next: start + 1 }
            }
        } else if c == '"' {
            let end = run_end(s, start + 1, Run::Until('"'));
            if end < s.len() {
                Lexeme { token: TokenView::LIT_STRING(s.subrange(start + 1, end)), next: end + 1 }
            } else {
                Lexeme { token: TokenView::UNDEFINED, next: end }
            }
        } else if c == '\'' {
            let end = run_end(s, start + 1, Run::Until('\''));
            if end >= s.len() {
                Lexeme { token: TokenView::UNDEFINED, next: end }
            } else if end == start + 1 {
                Lexeme { token: TokenView::UNDEFINED, next: end + 1 }
            } else {
                Lexeme { token: TokenView::LIT_CHAR(s[start + 1]), next: end + 1 }
            }
        } else if is_letter(c) {
            let end = run_end(s, start + 1, Run::Word);
            Lexeme { token: word(s.subrange(start, end)), next: end }
        } else if is_digit(c) {
            let point = run_end(s, start + 1, Run::Digits);
            if point < s.len() && s[point] == '.' {
                let end = run_end(s, point + 1, Run::Digits);
                Lexeme { token: TokenView::LIT_FLT32(s.subrange(start, end)), next: end }
            } else {
                Lexeme { token: integer(s.subrange(start, point)), next: point }
            }
        } else {
            Lexeme { token: TokenView::UNDEFINED, next: start + 1 }
        }
    }
}

/// What the machine has gathered in its buffer when it has resolved the
/// token that [`scan`] gives: the characters of a word, of a number or of a
/// run that starts with `<`, `>` or `!`, those behind the opening quote of a
/// literal, and nothing for the other tokens.
pub open spec fn gathered(s: Seq<char>, from: int) -> Seq<char> {
    let start = run_end(s, from, Run::Space);
    if !(0 <= start < s.len()) {
        Seq::empty()
    } else {
        let c = s[start];
        if punctuation(c) is Some {
            Seq::empty()
        } else if c == '<' || c == '>' || c == '!' {
            s.subrange(start, run_end(s, start + 1, Run::Operator))
        } else if c == '"' {
            s.subrange(start + 1, run_end(s, start + 1, Run::Until('"')))
        } else if c == '\'' {
            s.subrange(start + 1, run_end(s, start + 1, Run::Until('\'')))
        } else if is_letter(c) {
            s.subrange(start, run_end(s, start + 1, Run::Word))
        } else if is_digit(c) {
            s.subrange(start, scan(s, from).next)
        } else {
            Seq::empty()
        }
    }
}

/// The tokens of the text `s` from position `from` on, up to and including
/// `EOI`.
///
/// The test on `next` only serves to show that the definition ends: a token
/// other than `EOI` always ends within the text and behind the position at
/// which its search began ([`lemma_scan_bounds`]).
pub open spec fn tokens_from(s: Seq<char>, from: int) -> Seq<TokenView>
    decreases s.len() - from,
{
    let lexeme = scan(s, from);
    if lexeme.token is EOI || !(from < lexeme.next <= s.len()) {
        seq![lexeme.token]
    } else {
        seq![lexeme.token] + tokens_from(s, lexeme.next)
    }
}

/// The tokens of a whole text.
pub open spec fn tokens(s: Seq<char>) -> Seq<TokenView> {
    tokens_from(s, 0)
}

/// The models of a list of tokens.
pub open spec fn token_views(list: Seq<Token>) -> Seq<TokenView> {
    Seq::new(list.len(), |i: int| list[i]@)
}

/// A run ends between its start and the end of the text.
pub proof fn lemma_run_bounds(s: Seq<char>, from: int, run: Run)
    requires
        0 <= from <= s.len(),
    ensures
        from <= run_end(s, from, run) <= s.len(),
    decreases s.len() - from,
{
    if from < s.len() && run.admits(s[from]) {
        lemma_run_bounds(s, from + 1, run);
    }
}

/// Every character of a run continues it, and the character behind the run
/// does not.
pub proof fn lemma_run_admits(s: Seq<char>, from: int, run: Run)
    requires
        0 <= from <= s.len(),
    ensures
        forall|i: int| from <= i < run_end(s, from, run) ==> run.admits(#[trigger] s[i]),
        run_end(s, from, run) < s.len() ==> !run.admits(s[run_end(s, from, run)]),
    decreases s.len() - from,
{
    if from < s.len() && run.admits(s[from]) {
        lemma_run_admits(s, from + 1, run);
    }
}

/// A run that is made of admitted characters only, up to the end of the text
/// or to a character that is not admitted, ends there.
pub proof fn lemma_run_ends_at(s: Seq<char>, from: int, run: Run, end: int)
    requires
        0 <= from <= end <= s.len(),
        forall|i: int| from <= i < end ==> run.admits(#[trigger] s[i]),
        end < s.len() ==> !run.admits(s[end]),
    ensures
        run_end(s, from, run) == end,
    decreases end - from,
{
    if from < end {
        lemma_run_ends_at(s, from + 1, run, end);
    }
}

/// A token ends within the text, and a token other than `EOI` ends behind
/// the position at which its search began.
pub proof fn lemma_scan_bounds(s: Seq<char>, from: int)
    requires
        0 <= from <= s.len(),
    ensures
        from <= scan(s, from).next <= s.len(),
        !(scan(s, from).token is EOI) ==> from < scan(s, from).next,
        scan(s, from).token is EOI ==> scan(s, from).next == s.len(),
{
    let start = run_end(s, from, Run::Space);
    lemma_run_bounds(s, from, Run::Space);
    if start < s.len() {
        lemma_run_bounds(s, start + 1, Run::Operator);
        lemma_run_bounds(s, start + 1, Run::Until('"'));
        lemma_run_bounds(s, start + 1, Run::Until('\''));
        lemma_run_bounds(s, start + 1, Run::Word);
        lemma_run_bounds(s, start + 1, Run::Digits);
        let point = run_end(s, start + 1, Run::Digits);
        if point < s.len() {
            lemma_run_bounds(s, point + 1, Run::Digits);
        }
        lemma_scan_never_ends_early(s, from);
    }
}

/// Within the text no token is `EOI`.
pub proof fn lemma_scan_never_ends_early(s: Seq<char>, from: int)
    requires
        0 <= from <= s.len(),
        run_end(s, from, Run::Space) < s.len(),
    ensures
        !(scan(s, from).token is EOI),
{
    lemma_run_bounds(s, from, Run::Space);
    let start = run_end(s, from, Run::Space);
    let c = s[start];
    let end = run_end(s, start + 1, Run::Word);
    reveal_strlit("func");
    reveal_strlit("let");
    reveal_strlit("if");
    reveal_strlit("else");
    reveal_strlit("while");
    reveal_strlit("return");
    reveal_strlit("print");
    reveal_strlit("int32");
    reveal_strlit("flt32");
    reveal_strlit("char");
    reveal_strlit("bool");
    reveal_strlit("true");
    reveal_strlit("false");
    reveal_strlit("and");
    reveal_strlit("or");
    reveal_strlit("not");
}

/// Totality of the lexer: the tokens of every text, from every position of
/// it, are a finite sequence that ends with `EOI` and holds no other `EOI`.
pub proof fn lemma_tokens_end_with_one_eoi(s: Seq<char>, from: int)
    requires
        0 <= from <= s.len(),
    ensures
        tokens_from(s, from).len() >= 1,
        tokens_from(s, from).last() is EOI,
        forall|i: int| 0 <= i < tokens_from(
            s,
            from,
        ).len() - 1 ==> !(tokens_from(s, from)[i] is EOI),
    decreases s.len() - from,
{
    let lexeme = scan(s, from);
    lemma_scan_bounds(s, from);
    if !(lexeme.token is EOI) {
        lemma_tokens_end_with_one_eoi(s, lexeme.next);
        let rest = tokens_from(s, lexeme.next);
        let all = tokens_from(s, from);
        assert(all =~= seq![lexeme.token] + rest);
        assert forall|i: int| 0 <= i < all.len() - 1 implies !(all[i] is EOI) by {
            if i > 0 {
                assert(all[i] == rest[i - 1]);
            }
        }
    }
}

/// Round trip of identifiers: a text that begins with a letter, goes on with
/// letters, digits and `_` only, and is not a reserved word has two tokens,
/// the identifier of that very text and `EOI`.
pub proof fn lemma_identifier_round_trip(text: Seq<char>)
    requires
        text.len() > 0,
        is_letter(text[0]),
        forall|i: int| 0 <= i < text.len() ==> is_word(#[trigger] text[i]),
        reserved(text) is None,
    ensures
        tokens(text) == seq![TokenView::ID(text), TokenView::EOI],
{
    let end = text.len() as int;
    assert(run_end(text, 0, Run::Space) == 0);
    lemma_run_ends_at(text, 1, Run::Word, end);
    assert(text.subrange(0, end) =~= text);
    assert(scan(text, 0) == Lexeme { token: TokenView::ID(text), next: end });
    assert(run_end(text, end, Run::Space) == end);
    assert(scan(text, end).token is EOI);
    assert(tokens_from(text, end) =~= seq![TokenView::EOI]);
    assert(tokens_from(text, 0) =~= seq![TokenView::ID(text)] + tokens_from(text, end));
    assert(seq![TokenView::ID(text)] + seq![TokenView::EOI] =~= seq![
        TokenView::ID(text),
        TokenView::EOI,
    ]);
}

/// The token of a character that is a token by itself, if it is one.
fn punctuation_token(c: char) -> (r: Option<Token>)
    ensures
        match r {
            Some(token) => punctuation(c) == Some(token@),
            None => punctuation(c) is None,
        },
{
    if c == '(' {
        Some(Token::PARENS_L)
    } else if c == ')' {
        Some(Token::PARENS_R)
    } else if c == '[' {
        Some(Token::BRACKET_L)
    } else if c == ']' {
        Some(Token::BRACKET_R)
    } else if c == '{' {
        Some(Token::BRACE_L)
    } else if c == '}' {
        Some(Token::BRACE_R)
    } else if c == '.' {
        Some(Token::POINT)
    } else if c == ',' {
        Some(Token::COMMA)
    } else if c == ':' {
        Some(Token::COLON)
    } else if c == ';' {
        Some(Token::SEMICOLON)
    } else if c == '+' {
        Some(Token::OP_ADD)
    } else if c == '*' {
        Some(Token::OP_MUL)
    } else if c == '/' {
        Some(Token::OP_DIV)
    } else {
        None
    }
}

/// Whether a string is made of the characters of `literal`.
fn spells(text: &String, literal: &str) -> (r: bool)
    ensures
        r == (text@ == literal@),
{
    *text == literal.to_owned()
}

/// The token of a word.
fn word_token(text: String) -> (r: Token)
    ensures
        r@ == word(text@),
{
    if spells(&text, "func") {
        Token::KW_FUNC
    } else if spells(&text, "let") {
        Token::KW_LET
    } else if spells(&text, "if") {
        Token::KW_IF
    } else if spells(&text, "else") {
        Token::KW_ELSE
    } else if spells(&text, "while") {
        Token::KW_WHILE
    } else if spells(&text, "return") {
        Token::KW_RETURN
    } else if spells(&text, "print") {
        Token::KW_PRINT
    } else if spells(&text, "int32") {
        Token::TYPE_INT32
    } else if spells(&text, "flt32") {
        Token::TYPE_FLT32
    } else if spells(&text, "char") {
        Token::TYPE_CHAR
    } else if spells(&text, "bool") {
        Token::TYPE_BOOL
    } else if spells(&text, "true") {
        Token::LIT_BOOL(true)
    } else if spells(&text, "false") {
        Token::LIT_BOOL(false)
    } else if spells(&text, "and") {
        Token::OP_AND
    } else if spells(&text, "or") {
        Token::OP_OR
    } else if spells(&text, "not") {
        Token::OP_NOT
    } else {
        Token::ID(text)
    }
}

/// The token of a run that starts with `<`, `>` or `!`.
fn operator_token(text: &String) -> (r: Token)
    ensures
        r@ == operator(text@),
{
    if spells(text, "!=") {
        Token::OP_NEQ
    } else if spells(text, ">=") {
        Token::OP_NLT
    } else if spells(text, "<=") {
        Token::OP_NGT
    } else if spells(text, "<") {
        Token::OP_LT
    } else if spells(text, ">") {
        Token::OP_GT
    } else {
        Token::UNDEFINED
    }
}

/// The token of a run of digits.
fn integer_token(digits: &String) -> (r: Token)
    requires
        forall|i: int| 0 <= i < digits@.len() ==> is_digit(#[trigger] digits@[i]),
    ensures
        r@ == integer(digits@),
{
    let mut value: u64 = 0;
    let mut fits = true;
    let text = digits.as_str();
    for c in it: text.chars()
        invariant
            it.seq() == digits@,
            forall|i: int| 0 <= i < digits@.len() ==> is_digit(#[trigger] digits@[i]),
            fits ==> value == digits_value(digits@.take(it.index())) && value <= i32::MAX,
            !fits ==> digits_value(digits@.take(it.index())) > i32::MAX,
    {
        proof {
            let n = it.index();
            assert(digits@.take(n + 1).drop_last() =~= digits@.take(n));
            assert(digits@.take(n + 1).last() == digits@[n]);
            assert(is_digit(digits@[n]));
        }
        if fits {
            let d: u64 = (c as u32 - 48) as u64;
            value = value * 10 + d;
            if value > 0x7fff_ffff {
                fits = false;
            }
        }
    }
    proof {
        assert(digits@.take(digits@.len() as int) =~= digits@);
    }
    if fits {
        Token::LIT_INT32(value as i32)
    } else {
        Token::UNDEFINED
    }
}

/// What holds while a token is being read: `from` is where the search for
/// it began, `pos` the position behind the last character read, and
/// `buffer` what the machine has gathered of the token.
pub open spec fn pending(
    s: Seq<char>,
    from: int,
    state: LexerState,
    buffer: Seq<char>,
    pos: int,
    seen_point: bool,
) -> bool {
    let start = run_end(s, from, Run::Space);
    &&& 0 <= from <= pos <= s.len()
    &&& from <= start <= s.len()
    &&& match state {
        LexerState::Initial => buffer.len() == 0 && run_end(s, pos, Run::Space) == start,
        LexerState::Separator => buffer.len() == 0 && start + 1 == pos && s[start] == '-',
        LexerState::Assignment => buffer.len() == 0 && start + 1 == pos && s[start] == '=',
        LexerState::Operator => {
            &&& start < pos
            &&& s[start] == '<' || s[start] == '>' || s[start] == '!'
            &&& buffer == s.subrange(start, pos)
            &&& run_end(s, pos, Run::Operator) == run_end(s, start + 1, Run::Operator)
        },
        LexerState::Identifier => {
            &&& start < pos
            &&& is_letter(s[start])
            &&& buffer == s.subrange(start, pos)
            &&& run_end(s, pos, Run::Word) == run_end(s, start + 1, Run::Word)
        },
        LexerState::Number => {
            let point = run_end(s, start + 1, Run::Digits);
            &&& start < pos
            &&& is_digit(s[start])
            &&& buffer == s.subrange(start, pos)
            &&& if seen_point {
                &&& point < pos
                &&& s[point] == '.'
                &&& run_end(s, pos, Run::Digits) == run_end(s, point + 1, Run::Digits)
            } else {
                run_end(s, pos, Run::Digits) == point
            }
        },
        LexerState::String => {
            &&& start < pos
            &&& s[start] == '"'
            &&& buffer == s.subrange(start + 1, pos)
            &&& run_end(s, pos, Run::Until('"')) == run_end(s, start + 1, Run::Until('"'))
        },
        LexerState::Char => {
            &&& start < pos
            &&& s[start] == '\''
            &&& buffer == s.subrange(start + 1, pos)
            &&& run_end(s, pos, Run::Until('\'')) == run_end(s, start + 1, Run::Until('\''))
        },
    }
}

/// The lexer: the source text, the position of the next character to read,
/// the state of the machine, the token that the last call of
/// [`Lexer::advance`] resolved, the characters gathered for the token being
/// read, and the tokens that [`Lexer::lex`] has listed.
pub struct Lexer {
    pub input_string: Vec<char>,
    pub input_position: usize,
    pub current_state: LexerState,
    pub current_token: Token,
    pub buffer_string: String,
    pub token_list: Vec<Token>,
}

impl Lexer {
    /// The position lies within the text.
    pub open spec fn wf(&self) -> bool {
        self.input_position <= self.input_string.len()
    }

    /// The machine has resolved the token that [`scan`] gives for the
    /// position `from` of the text `s`: it is in its initial state, behind
    /// the token, and its buffer holds what it gathered of it.
    pub open spec fn settled(&self, s: Seq<char>, from: int) -> bool {
        &&& self.current_state == LexerState::Initial
        &&& self.current_token@ == scan(s, from).token
        &&& self.input_position == scan(s, from).next
        &&& self.buffer_string@ == gathered(s, from)
    }

    /// Replaces the source text and returns to the start of it.
    pub fn set_input(&mut self, new_input: String)
        ensures
            final(self).input_string@ == new_input@,
            final(self).input_position == 0,
            final(self).current_state == LexerState::Initial,
            final(self).current_token@ == TokenView::UNDEFINED,
            final(self).buffer_string@.len() == 0,
            final(self).token_list@.len() == 0,
            final(self).wf(),
    {
        self.input_string = chars_of(new_input.as_str());
        self.input_position = 0;
        self.current_state = LexerState::Initial;
        self.current_token = Token::UNDEFINED;
        self.buffer_string = String::new();
        self.token_list = Vec::new();
    }

    /// A lexer at the start of the text `input`.
    pub fn new(input: String) -> (r: Lexer)
        ensures
            r.input_string@ == input@,
            r.input_position == 0,
            r.current_state == LexerState::Initial,
            r.current_token@ == TokenView::UNDEFINED,
            r.buffer_string@.len() == 0,
            r.token_list@.len() == 0,
            r.wf(),
    {
        Lexer {
            input_string: chars_of(input.as_str()),
            input_position: 0,
            current_state: LexerState::Initial,
            current_token: Token::UNDEFINED,
            buffer_string: String::new(),
            token_list: Vec::new(),
        }
    }

    /// One step of the machine on the character `c`, which was read last.
    /// Returns whether the token is resolved.
    fn step(&mut self, c: char, seen_point: &mut bool, Ghost(from): Ghost<int>) -> (resolved: bool)
        requires
            1 <= old(self).input_position <= old(self).input_string.len(),
            c == old(self).input_string@[old(self).input_position - 1],
            pending(
                old(self).input_string@,
                from,
                old(self).current_state,
                old(self).buffer_string@,
                old(self).input_position - 1,
                *old(seen_point),
            ),
        ensures
            final(self).input_string == old(self).input_string,
            final(self).token_list == old(self).token_list,
            resolved ==> final(self).settled(old(self).input_string@, from),
            !resolved ==> final(self).input_position == old(self).input_position && pending(
                old(self).input_string@,
                from,
                final(self).current_state,
                final(self).buffer_string@,
                final(self).input_position as int,
                *final(seen_point),
            ),
    {
        let ghost s = self.input_string@;
        let ghost at = self.input_position - 1;
        let ghost start = run_end(s, from, Run::Space);
        assert(self.buffer_string@.len() == 0 ==> self.buffer_string@ =~= Seq::<char>::empty());
        match self.current_state {
            LexerState::Initial => {
                proof {
                    if !is_space(c) {
                        assert(run_end(s, at, Run::Space) == at);
                    }
                }
                match punctuation_token(c) {
                    Some(token) => {
                        self.current_token = token;
                        true
                    },
                    None => {
                        if c == '<' || c == '>' || c == '!' {
                            self.buffer_string.push(c);
                            self.current_state = LexerState::Operator;
                            assert(self.buffer_string@ =~= s.subrange(start, start + 1));
                            false
                        } else if c == '=' {
                            self.current_state = LexerState::Assignment;
                            false
                        } else if c == '-' {
                            self.current_state = LexerState::Separator;
                            false
                        } else if c == '"' {
                            self.current_state = LexerState::String;
                            assert(self.buffer_string@ =~= s.subrange(start + 1, start + 1));
                            false
                        } else if c == '\'' {
                            self.current_state = LexerState::Char;
                            assert(self.buffer_string@ =~= s.subrange(start + 1, start + 1));
                            false
                        } else if char_is_space(c) {
                            false
                        } else if char_is_letter(c) {
                            self.buffer_string.push(c);
                            self.current_state = LexerState::Identifier;
                            assert(self.buffer_string@ =~= s.subrange(start, start + 1));
                            false
                        } else if char_is_digit(c) {
                            self.buffer_string.push(c);
                            self.current_state = LexerState::Number;
                            *seen_point = false;
                            assert(self.buffer_string@ =~= s.subrange(start, start + 1));
                            false
                        } else {
                            self.current_token = Token::UNDEFINED;
                            true
                        }
                    },
                }
            },
            LexerState::Separator => {
                if c == '>' {
                    self.current_token = Token::ARROW_R;
                } else {
                    self.current_token = Token::OP_SUB;
                    self.input_position = self.input_position - 1;
                }
                self.current_state = LexerState::Initial;
                true
            },
            LexerState::Assignment => {
                if c == '=' {
                    self.current_token = Token::OP_EQ;
                } else {
                    self.current_token = Token::OP_ASSIGN;
                    self.input_position = self.input_position - 1;
                }
                self.current_state = LexerState::Initial;
                true
            },
            LexerState::Operator => {
                if !char_is_space(c) {
                    self.buffer_string.push(c);
                    assert(self.buffer_string@ =~= s.subrange(start, at + 1));
                    false
                } else {
                    assert(run_end(s, at, Run::Operator) == at);
                    self.current_token = operator_token(&self.buffer_string);
                    self.current_state = LexerState::Initial;
                    self.input_position = self.input_position - 1;
                    true
                }
            },
            LexerState::Identifier => {
                if char_is_word(c) {
                    self.buffer_string.push(c);
                    assert(self.buffer_string@ =~= s.subrange(start, at + 1));
                    false
                } else {
                    assert(run_end(s, at, Run::Word) == at);
                    let text = self.buffer_string.clone();
                    self.current_token = word_token(text);
                    self.current_state = LexerState::Initial;
                    self.input_position = self.input_position - 1;
                    true
                }
            },
            LexerState::Number => {
                if char_is_digit(c) {
                    self.buffer_string.push(c);
                    assert(self.buffer_string@ =~= s.subrange(start, at + 1));
                    false
                } else if c == '.' && !*seen_point {
                    assert(run_end(s, at, Run::Digits) == at);
                    self.buffer_string.push(c);
                    *seen_point = true;
                    assert(self.buffer_string@ =~= s.subrange(start, at + 1));
                    false
                } else {
                    assert(run_end(s, at, Run::Digits) == at);
                    self.resolve_number(*seen_point, Ghost(from), Ghost(at));
                    self.input_position = self.input_position - 1;
                    true
                }
            },
            LexerState::String => {
                if c == '"' {
                    assert(run_end(s, at, Run::Until('"')) == at);
                    self.current_token = Token::LIT_STRING(self.buffer_string.clone());
                    self.current_state = LexerState::Initial;
                    true
                } else {
                    self.buffer_string.push(c);
                    assert(self.buffer_string@ =~= s.subrange(start + 1, at + 1));
                    false
                }
            },
            LexerState::Char => {
                if c == '\'' {
                    assert(run_end(s, at, Run::Until('\'')) == at);
                    if self.buffer_string.as_str().unicode_len() == 0 {
                        self.current_token = Token::UNDEFINED;
                    } else {
                        self.current_token = Token::LIT_CHAR(
                            self.buffer_string.as_str().get_char(0),
                        );
                    }
                    self.current_state = LexerState::Initial;
                    true
                } else {
                    self.buffer_string.push(c);
                    assert(self.buffer_string@ =~= s.subrange(start + 1, at + 1));
                    false
                }
            },
        }
    }

    /// Resolves the number that the buffer holds, which ends at `end`.
    fn resolve_number(&mut self, seen_point: bool, Ghost(from): Ghost<int>, Ghost(end): Ghost<int>)
        requires
            old(self).current_state == LexerState::Number,
            pending(
                old(self).input_string@,
                from,
                LexerState::Number,
                old(self).buffer_string@,
                end,
                seen_point,
            ),
            run_end(old(self).input_string@, end, Run::Digits) == end,
            !seen_point ==> !(end < old(self).input_string.len() && old(self).input_string@[end]
                == '.'),
        ensures
            final(self).input_string == old(self).input_string,
            final(self).token_list == old(self).token_list,
            final(self).input_position == old(self).input_position,
            final(self).buffer_string == old(self).buffer_string,
            final(self).current_state == LexerState::Initial,
            final(self).current_token@ == scan(old(self).input_string@, from).token,
            scan(old(self).input_string@, from).next == end,
    {
        let ghost s = self.input_string@;
        let ghost start = run_end(s, from, Run::Space);
        if seen_point {
            self.current_token = Token::LIT_FLT32(self.buffer_string.clone());
        } else {
            proof {
                lemma_run_admits(s, start + 1, Run::Digits);
                assert forall|i: int| 0 <= i < self.buffer_string@.len() implies is_digit(
                    #[trigger] self.buffer_string@[i],
                ) by {
                    assert(self.buffer_string@[i] == s[start + i]);
                }
            }
            self.current_token = integer_token(&self.buffer_string);
        }
        self.current_state = LexerState::Initial;
    }

    /// Resolves the token that is pending when the text has been read to its
    /// end.
    fn finish(&mut self, seen_point: bool, Ghost(from): Ghost<int>)
        requires
            old(self).input_position == old(self).input_string.len(),
            pending(
                old(self).input_string@,
                from,
                old(self).current_state,
                old(self).buffer_string@,
                old(self).input_position as int,
                seen_point,
            ),
        ensures
            final(self).input_string == old(self).input_string,
            final(self).token_list == old(self).token_list,
            final(self).settled(old(self).input_string@, from),
    {
        let ghost s = self.input_string@;
        let ghost end = s.len() as int;
        assert(self.buffer_string@.len() == 0 ==> self.buffer_string@ =~= Seq::<char>::empty());
        match self.current_state {
            LexerState::Initial => {
                self.current_token = Token::EOI;
            },
            LexerState::Separator => {
                self.current_token = Token::OP_SUB;
            },
            LexerState::Assignment => {
                self.current_token = Token::OP_ASSIGN;
            },
            LexerState::Operator => {
                self.current_token = operator_token(&self.buffer_string);
            },
            LexerState::Identifier => {
                let text = self.buffer_string.clone();
                self.current_token = word_token(text);
            },
            LexerState::Number => {
                self.resolve_number(seen_point, Ghost(from), Ghost(end));
            },
            LexerState::String => {
                self.current_token = Token::UNDEFINED;
            },
            LexerState::Char => {
                self.current_token = Token::UNDEFINED;
            },
        }
        self.current_state = LexerState::Initial;
    }

    /// Moves to the next token: skips white space, reads the characters of
    /// one token and resolves it. The token is then [`Lexer::current`]; at
    /// the end of the text it is `EOI`, and stays so.
    pub fn advance(&mut self)
        requires
            old(self).wf(),
        ensures
            final(self).wf(),
            final(self).input_string == old(self).input_string,
            final(self).token_list == old(self).token_list,
            final(self).settled(old(self).input_string@, old(self).input_position as int),
    {
        let ghost s = self.input_string@;
        let ghost from = self.input_position as int;
        self.buffer_string = String::new();
        self.current_state = LexerState::Initial;
        let mut seen_point = false;
        proof {
            lemma_run_bounds(s, from, Run::Space);
            lemma_scan_bounds(s, from);
        }
        while self.input_position < self.input_string.len()
            invariant
                self.input_string@ == s,
                self.input_string == old(self).input_string,
                self.token_list == old(self).token_list,
                from == old(self).input_position,
                0 <= from <= s.len(),
                from <= scan(s, from).next <= s.len(),
                pending(
                    s,
                    from,
                    self.current_state,
                    self.buffer_string@,
                    self.input_position as int,
                    seen_point,
                ),
            decreases s.len() - self.input_position,
        {
            let c = self.input_string[self.input_position];
            self.input_position = self.input_position + 1;
            let resolved = self.step(c, &mut seen_point, Ghost(from));
            if resolved {
                return ;
            }
        }
        self.finish(seen_point, Ghost(from));
    }

    /// Lists the tokens of the rest of the text: calls [`Lexer::advance`]
    /// until the current token is `EOI` and appends each token to
    /// `token_list`. Where the current token is `EOI` already, nothing
    /// changes.
    pub fn lex(&mut self)
        requires
            old(self).wf(),
        ensures
            final(self).wf(),
            final(self).input_string == old(self).input_string,
            old(self).current_token@ is EOI ==> {
                &&& final(self).input_position == old(self).input_position
                &&& final(self).current_state == old(self).current_state
                &&& final(self).current_token@ == old(self).current_token@
                &&& final(self).buffer_string@ == old(self).buffer_string@
                &&& token_views(final(self).token_list@) == token_views(old(self).token_list@)
            },
            !(old(self).current_token@ is EOI) ==> {
                &&& final(self).input_position == final(self).input_string.len()
                &&& final(self).current_state == LexerState::Initial
                &&& final(self).current_token@ is EOI
                &&& final(self).buffer_string@ == Seq::<char>::empty()
                &&& token_views(final(self).token_list@) == token_views(old(self).token_list@)
                    + tokens_from(old(self).input_string@, old(self).input_position as int)
            },
    {
        let ghost s = self.input_string@;
        let ghost first = self.input_position as int;
        let ghost listed = token_views(self.token_list@);
        if self.current_token.category() == Category::EOI {
            return ;
        }
        let mut done = false;
        while !done
            invariant
                self.wf(),
                self.input_string@ == s,
                self.input_string == old(self).input_string,
                done ==> self.current_token@ is EOI && self.input_position == s.len()
                    && self.current_state == LexerState::Initial && self.buffer_string@
                    == Seq::<char>::empty() && token_views(self.token_list@) == listed
                    + tokens_from(s, first),
                !done ==> token_views(self.token_list@) + tokens_from(
                    s,
                    self.input_position as int,
                ) == listed + tokens_from(s, first),
            decreases s.len() - self.input_position + (if done { 0int } else { 1int }),
        {
            let ghost before = token_views(self.token_list@);
            let ghost from = self.input_position as int;
            proof {
                lemma_scan_bounds(s, from);
            }
            self.advance();
            self.token_list.push(self.current_token.clone());
            proof {
                assert(token_views(self.token_list@) =~= before.push(self.current_token@));
                if self.current_token@ is EOI {
                    assert(before.push(self.current_token@) =~= before + tokens_from(s, from));
                } else {
                    assert(before.push(self.current_token@) + tokens_from(
                        s,
                        self.input_position as int,
                    ) =~= before + tokens_from(s, from));
                }
            }
            done = self.current_token.category() == Category::EOI;
        }
    }

    /// The token that the last call of [`Lexer::advance`] resolved.
    pub fn current(&self) -> (r: Token)
        ensures
            r@ == self.current_token@,
    {
        self.current_token.clone()
    }
}

} // verus!
