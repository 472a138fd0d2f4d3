//! Tokens: what the scanner hands to the compiler.

use vstd::prelude::*;

verus! {

/// The closed set of token kinds.
#[derive(Copy, Clone, PartialEq, Eq, Debug, Structural)]
pub enum TokenType {
    // Single-character tokens.
    LeftParen,
    RightParen,
    LeftBrace,
    RightBrace,
    Comma,
    Dot,
    Minus,
    Plus,
    Semicolon,
    Slash,
    Star,
    // One or two character tokens.
    Bang,
    BangEqual,
    Equal,
    EqualEqual,
    Greater,
    GreaterEqual,
    Less,
    LessEqual,
    // Literals.
    Identifier,
    String,
    Number,
    // Keywords.
    And,
    Class,
    Else,
    False,
    Fun,
    For,
    If,
    Nil,
    Or,
    Print,
    Return,
    Super,
    This,
    True,
    Var,
    While,
    Error,
    Eof,
}

/// Appends a character to a string through `String::push`: the string is
/// what it was, with the character at its end.
#[verifier::external_body]
fn push_char(text: &mut String, c: char)
    ensures
        final(text)@ == old(text)@.push(c),
{
    text.push(c);
}

/// The string that holds the given characters.
pub fn string_from_chars(chars: &Vec<char>) -> (s: String)
    ensures
        s@ == chars@,
{
    let mut text = String::new();
    let mut i: usize = 0;
    while i < chars.len()
        invariant
            i <= chars@.len(),
            text@ == chars@.take(i as int),
        decreases chars@.len() - i,
    {
        push_char(&mut text, chars[i]);
        i += 1;
        assert(text@ =~= chars@.take(i as int));
    }
    assert(chars@.take(chars@.len() as int) == chars@);
    text
}

/// The characters of a string.
pub fn chars_of(text: &str) -> (chars: Vec<char>)
    ensures
        chars@ == text@,
{
    let n = text.unicode_len();
    let mut chars: Vec<char> = Vec::new();
    let mut i: usize = 0;
    while i < n
        invariant
            i <= n,
            n == text@.len(),
            chars@ == text@.take(i as int),
        decreases n - i,
    {
        chars.push(text.get_char(i));
        i += 1;
        assert(chars@ =~= text@.take(i as int));
    }
    assert(text@.take(n as int) == text@);
    chars
}

/// A token: its kind, the characters it was read from and the source line
/// on which it ends. An `Error` token carries its message as lexeme.
#[derive(Debug)]
pub struct Token {
    token_type: TokenType,
    lexeme: Vec<char>,
    line: u32,
}

/// What a token says: its kind, its characters and its line.
pub struct TokenModel {
    pub kind: TokenType,
    pub lexeme: Seq<char>,
    pub line: u32,
}

impl View for Token {
    type V = TokenModel;

    open spec fn view(&self) -> TokenModel {
        TokenModel {
            kind: self.spec_token_type(),
            lexeme: self.spec_lexeme(),
            line: self.spec_line(),
        }
    }
}

impl Token {
    pub closed spec fn spec_token_type(&self) -> TokenType {
        self.token_type
    }

    pub closed spec fn spec_lexeme(&self) -> Seq<char> {
        self.lexeme@
    }

    pub closed spec fn spec_line(&self) -> u32 {
        self.line
    }

    pub fn new(token_type: TokenType, lexeme: Vec<char>, line: u32) -> (token: Token)
        ensures
            token.spec_token_type() == token_type,
            token.spec_lexeme() == lexeme@,
            token.spec_line() == line,
    {
        Token { token_type, lexeme, line }
    }

    #[verifier::when_used_as_spec(spec_token_type)]
    pub fn get_token_type(&self) -> (token_type: TokenType)
        ensures
            token_type == self.spec_token_type(),
    {
        self.token_type
    }

    pub fn get_lexeme(&self) -> (lexeme: &Vec<char>)
        ensures
            lexeme@ == self.spec_lexeme(),
    {
        &self.lexeme
    }

    #[verifier::when_used_as_spec(spec_line)]
    pub fn get_line(&self) -> (line: u32)
        ensures
            line == self.spec_line(),
    {
        self.line
    }

    /// The lexeme as a string.
    pub fn get_lexeme_string(&self) -> (text: String)
        ensures
            text@ == self.spec_lexeme(),
    {
        string_from_chars(&self.lexeme)
    }

    /// Whether the lexeme of this token reads the same as that of `other`.
    pub fn same_lexeme(&self, other: &Token) -> (same: bool)
        ensures
            same == (self.spec_lexeme() == other.spec_lexeme()),
    {
        chars_equal(&self.lexeme, &other.lexeme)
    }
}

impl Clone for Token {
    fn clone(&self) -> (token: Token)
        ensures
            token.spec_token_type() == self.spec_token_type(),
            token.spec_lexeme() == self.spec_lexeme(),
            token.spec_line() == self.spec_line(),
    {
        Token { token_type: self.token_type, lexeme: copy_chars(&self.lexeme), line: self.line }
    }
}

/// Copies a sequence of characters.
pub fn copy_chars(chars: &Vec<char>) -> (copy: Vec<char>)
    ensures
        copy@ == chars@,
{
    let mut copy: Vec<char> = Vec::new();
    let mut i: usize = 0;
    while i < chars.len()
        invariant
            i <= chars.len(),
            copy@ == chars@.subrange(0, i as int),
        decreases chars.len() - i,
    {
        copy.push(chars[i]);
        i += 1;
        assert(copy@ == chars@.subrange(0, i as int));
    }
    assert(chars@.subrange(0, chars.len() as int) == chars@);
    copy
}

/// Copies the characters `chars[from..to]`.
pub fn copy_range(chars: &Vec<char>, from: usize, to: usize) -> (copy: Vec<char>)
    requires
        from <= to <= chars.len(),
    ensures
        copy@ == chars@.subrange(from as int, to as int),
{
    let mut copy: Vec<char> = Vec::new();
    let mut i: usize = from;
    while i < to
        invariant
            from <= i <= to <= chars.len(),
            copy@ == chars@.subrange(from as int, i as int),
        decreases to - i,
    {
        copy.push(chars[i]);
        i += 1;
        assert(copy@ == chars@.subrange(from as int, i as int));
    }
    copy
}

/// Compares two sequences of characters.
pub fn chars_equal(a: &Vec<char>, b: &Vec<char>) -> (same: bool)
    ensures
        same == (a@ == b@),
{
    if a.len() != b.len() {
        return false;
    }
    let mut i: usize = 0;
    while i < a.len()
        invariant
            i <= a.len(),
            a.len() == b.len(),
            forall|k: int| 0 <= k < i ==> a@[k] == b@[k],
        decreases a.len() - i,
    {
        if a[i] != b[i] {
            return false;
        }
        i += 1;
    }
    assert(a@ =~= b@);
    true
}

} // verus!
