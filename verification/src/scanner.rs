//! The scanner: from source characters to tokens.

use vstd::prelude::*;
use crate::tokens::{copy_range, chars_of, Token, TokenModel, TokenType};

verus! {

/// Whether `char::is_alphabetic` holds of a character.
pub uninterp spec fn alphabetic(c: char) -> bool;

/// Asks `char::is_alphabetic`, which answers by the Unicode property
/// `Alphabetic`.
#[verifier::external_body]
fn char_is_alphabetic(c: char) -> (r: bool)
    ensures
        r == alphabetic(c),
{
    c.is_alphabetic()
}

/// Letters and the underscore start an identifier.
pub open spec fn alpha(c: char) -> bool {
    alphabetic(c) || c == '_'
}

/// The ten ASCII digits.
pub open spec fn digit(c: char) -> bool {
    48 <= c as u32 <= 57
}

pub open spec fn identifier_char(c: char) -> bool {
    alpha(c) || digit(c)
}

pub open spec fn not_quote(c: char) -> bool {
    c != '"'
}

/// The characters that continue a number's run of digits.
pub open spec fn keep_digits() -> spec_fn(char) -> bool {
    |c: char| digit(c)
}

/// The characters that continue an identifier.
pub open spec fn keep_identifier() -> spec_fn(char) -> bool {
    |c: char| identifier_char(c)
}

/// The characters that continue a string.
pub open spec fn keep_string() -> spec_fn(char) -> bool {
    |c: char| not_quote(c)
}

/// The first position at or after `pos` whose character fails `keep`, or
/// the end of the source.
pub open spec fn run_end(src: Seq<char>, pos: int, keep: spec_fn(char) -> bool) -> int
    decreases src.len() - pos,
{
    if 0 <= pos < src.len() && keep(src[pos]) {
        run_end(src, pos + 1, keep)
    } else {
        pos
    }
}

/// The number of line feeds in `src[from..to]`.
pub open spec fn line_feeds(src: Seq<char>, from: int, to: int) -> int
    decreases to - from,
{
    if to <= from || to > src.len() || from < 0 {
        0
    } else {
        line_feeds(src, from, to - 1) + if src[to - 1] == '\n' {
            1int
        } else {
            0int
        }
    }
}

/// Skips blanks, line feeds and `//` comments from `pos` on. Answers where
/// the next token starts and on which line. Inside a comment (`comment`)
/// everything up to the line feed is skipped.
pub open spec fn skip_blank(src: Seq<char>, pos: int, line: int, comment: bool) -> (int, int)
    decreases src.len() - pos, if comment { 1int } else { 0int },
{
    if pos < 0 || pos >= src.len() {
        (pos, line)
    } else if comment {
        if src[pos] == '\n' {
            skip_blank(src, pos, line, false)
        } else {
            skip_blank(src, pos + 1, line, true)
        }
    } else if src[pos] == ' ' || src[pos] == '\r' || src[pos] == '\t' {
        skip_blank(src, pos + 1, line, false)
    } else if src[pos] == '\n' {
        skip_blank(src, pos + 1, line + 1, false)
    } else if src[pos] == '/' && pos + 1 < src.len() && src[pos + 1] == '/' {
        skip_blank(src, pos + 1, line, true)
    } else {
        (pos, line)
    }
}

/// Where a number that starts before `pos` ends: digits, then possibly a
/// dot that a digit follows, then digits.
pub open spec fn number_end(src: Seq<char>, pos: int) -> int {
    let whole = run_end(src, pos, keep_digits());
    let fraction = if whole + 1 < src.len() && src[whole] == '.' && digit(src[whole + 1]) {
        whole + 1
    } else {
        whole
    };
    run_end(src, fraction, keep_digits())
}

/// The kind of an identifier's lexeme: that of the keyword it spells, or
/// `Identifier`.
pub open spec fn identifier_kind(lexeme: Seq<char>) -> TokenType {
    if lexeme == "and"@ {
        TokenType::And
    } else if lexeme == "class"@ {
        TokenType::Class
    } else if lexeme == "else"@ {
        TokenType::Else
    } else if lexeme == "false"@ {
        TokenType::False
    } else if lexeme == "for"@ {
        TokenType::For
    } else if lexeme == "fun"@ {
        TokenType::Fun
    } else if lexeme == "if"@ {
        TokenType::If
    } else if lexeme == "nil"@ {
        TokenType::Nil
    } else if lexeme == "or"@ {
        TokenType::Or
    } else if lexeme == "print"@ {
        TokenType::Print
    } else if lexeme == "return"@ {
        TokenType::Return
    } else if lexeme == "super"@ {
        TokenType::Super
    } else if lexeme == "this"@ {
        TokenType::This
    } else if lexeme == "true"@ {
        TokenType::True
    } else if lexeme == "var"@ {
        TokenType::Var
    } else if lexeme == "while"@ {
        TokenType::While
    } else {
        TokenType::Identifier
    }
}

/// The kind of a token that starts with the punctuation character `c`,
/// given whether an equals sign follows, and how many characters it takes.
/// `None` for a character that starts no such token.
pub open spec fn punctuation(c: char, equals_follows: bool) -> Option<(TokenType, int)> {
    if c == '(' {
        Some((TokenType::LeftParen, 1))
    } else if c == ')' {
        Some((TokenType::RightParen, 1))
    } else if c == '{' {
        Some((TokenType::LeftBrace, 1))
    } else if c == '}' {
        Some((TokenType::RightBrace, 1))
    } else if c == ';' {
        Some((TokenType::Semicolon, 1))
    } else if c == ',' {
        Some((TokenType::Comma, 1))
    } else if c == '.' {
        Some((TokenType::Dot, 1))
    } else if c == '-' {
        Some((TokenType::Minus, 1))
    } else if c == '+' {
        Some((TokenType::Plus, 1))
    } else if c == '/' {
        Some((TokenType::Slash, 1))
    } else if c == '*' {
        Some((TokenType::Star, 1))
    } else if c == '!' {
        if equals_follows {
            Some((TokenType::BangEqual, 2))
        } else {
            Some((TokenType::Bang, 1))
        }
    } else if c == '=' {
        if equals_follows {
            Some((TokenType::EqualEqual, 2))
        } else {
            Some((TokenType::Equal, 1))
        }
    } else if c == '<' {
        if equals_follows {
            Some((TokenType::LessEqual, 2))
        } else {
            Some((TokenType::Less, 1))
        }
    } else if c == '>' {
        if equals_follows {
            Some((TokenType::GreaterEqual, 2))
        } else {
            Some((TokenType::Greater, 1))
        }
    } else {
        None
    }
}

/// The outcome of scanning one token: the token, if the source holds one
/// more, and the scanner's state after it.
pub struct Scanned {
    pub token: Option<TokenModel>,
    pub position: int,
    pub line: int,
    pub finished: bool,
}

/// The message of the error token for a character that starts no token.
pub open spec fn unexpected_character() -> Seq<char> {
    "Unexpected character."@
}

/// The message of the error token for a string without closing quote.
pub open spec fn unterminated_string() -> Seq<char> {
    "Unterminated string."@
}

/// The token that starts at `start` (which holds a character that is no
/// blank), read on line `line`.
pub open spec fn token_at(src: Seq<char>, start: int, line: int) -> Scanned {
    let c = src[start];
    if alpha(c) {
        let end = run_end(src, start + 1, keep_identifier());
        let lexeme = src.subrange(start, end);
        Scanned {
            token: Some(TokenModel { kind: identifier_kind(lexeme), lexeme, line: line as u32 }),
            position: end,
            line,
            finished: false,
        }
    } else if digit(c) {
        let end = number_end(src, start + 1);
        Scanned {
            token: Some(
                TokenModel {
                    kind: TokenType::Number,
                    lexeme: src.subrange(start, end),
                    line: line as u32,
                },
            ),
            position: end,
            line,
            finished: false,
        }
    } else if c == '"' {
        let close = run_end(src, start + 1, keep_string());
        let last_line = line + line_feeds(src, start + 1, close);
        if close >= src.len() {
            Scanned {
                token: Some(
                    TokenModel {
                        kind: TokenType::Error,
                        lexeme: unterminated_string(),
                        line: last_line as u32,
                    },
                ),
                position: close,
                line: last_line,
                finished: false,
            }
        } else {
            Scanned {
                token: Some(
                    TokenModel {
                        kind: TokenType::String,
                        lexeme: src.subrange(start, close + 1),
                        line: last_line as u32,
                    },
                ),
                position: close + 1,
                line: last_line,
                finished: false,
            }
        }
    } else {
        match punctuation(c, start + 1 < src.len() && src[start + 1] == '=') {
            Some((kind, width)) => Scanned {
                token: Some(
                    TokenModel { kind, lexeme: src.subrange(start, start + width), line: line as u32 },
                ),
                position: start + width,
                line,
                finished: false,
            },
            None => Scanned {
                token: Some(
                    TokenModel {
                        kind: TokenType::Error,
                        lexeme: unexpected_character(),
                        line: line as u32,
                    },
                ),
                position: start + 1,
                line,
                finished: false,
            },
        }
    }
}

/// The next token of `src` for a scanner that stands at `pos` on line
/// `line`. At the end of the source comes one `Eof` token, and after it
/// nothing (`finished`).
pub open spec fn next_token(src: Seq<char>, pos: int, line: int, finished: bool) -> Scanned {
    let (start, line) = skip_blank(src, pos, line, false);
    if start >= src.len() {
        if finished {
            Scanned { token: None, position: start, line, finished }
        } else {
            Scanned {
                token: Some(
                    TokenModel { kind: TokenType::Eof, lexeme: Seq::empty(), line: line as u32 },
                ),
                position: start,
                line,
                finished: true,
            }
        }
    } else {
        Scanned { finished, ..token_at(src, start, line) }
    }
}

/// All tokens of `src` from the given state on, in order.
pub open spec fn tokens_from(src: Seq<char>, pos: int, line: int, finished: bool) -> Seq<TokenModel>
    decreases src.len() - pos, if finished { 0int } else { 1int },
{
    let next = next_token(src, pos, line, finished);
    match next.token {
        None => Seq::empty(),
        Some(token) => {
            if pos < next.position <= src.len() || (next.position == pos && pos <= src.len()
                && next.finished && !finished) {
                seq![token] + tokens_from(src, next.position, next.line, next.finished)
            } else {
                seq![token]
            }
        },
    }
}

pub proof fn run_end_bounds(src: Seq<char>, pos: int, keep: spec_fn(char) -> bool)
    requires
        0 <= pos <= src.len(),
    ensures
        pos <= run_end(src, pos, keep) <= src.len(),
        run_end(src, pos, keep) < src.len() ==> !keep(src[run_end(src, pos, keep)]),
        forall|k: int| pos <= k < run_end(src, pos, keep) ==> keep(#[trigger] src[k]),
    decreases src.len() - pos,
{
    if pos < src.len() && keep(src[pos]) {
        run_end_bounds(src, pos + 1, keep);
    }
}

pub proof fn skip_blank_bounds(src: Seq<char>, pos: int, line: int, comment: bool)
    requires
        0 <= pos <= src.len(),
    ensures
        pos <= skip_blank(src, pos, line, comment).0 <= src.len(),
        line <= skip_blank(src, pos, line, comment).1 <= line + (skip_blank(
            src,
            pos,
            line,
            comment,
        ).0 - pos),
    decreases src.len() - pos, if comment { 1int } else { 0int },
{
    if pos >= src.len() {
    } else if comment {
        if src[pos] == '\n' {
            skip_blank_bounds(src, pos, line, false);
        } else {
            skip_blank_bounds(src, pos + 1, line, true);
        }
    } else if src[pos] == ' ' || src[pos] == '\r' || src[pos] == '\t' {
        skip_blank_bounds(src, pos + 1, line, false);
    } else if src[pos] == '\n' {
        skip_blank_bounds(src, pos + 1, line + 1, false);
    } else if src[pos] == '/' && pos + 1 < src.len() && src[pos + 1] == '/' {
        skip_blank_bounds(src, pos + 1, line, true);
    }
}

pub proof fn line_feeds_bounds(src: Seq<char>, from: int, to: int)
    requires
        0 <= from <= to <= src.len(),
    ensures
        0 <= line_feeds(src, from, to) <= to - from,
    decreases to - from,
{
    if to > from {
        line_feeds_bounds(src, from, to - 1);
    }
}

/// Every token but `Eof` takes at least one character, and no token ends
/// beyond the source.
pub proof fn token_at_advances(src: Seq<char>, start: int, line: int)
    requires
        0 <= start < src.len(),
    ensures
        start < token_at(src, start, line).position <= src.len(),
        token_at(src, start, line).token.is_some(),
        line <= token_at(src, start, line).line <= line + (token_at(src, start, line).position
            - start),
{
    let c = src[start];
    run_end_bounds(src, start + 1, keep_identifier());
    run_end_bounds(src, start + 1, keep_string());
    let whole = run_end(src, start + 1, keep_digits());
    run_end_bounds(src, start + 1, keep_digits());
    if whole + 1 < src.len() {
        run_end_bounds(src, whole + 1, keep_digits());
    }
    run_end_bounds(src, whole, keep_digits());
    let close = run_end(src, start + 1, keep_string());
    line_feeds_bounds(src, start + 1, close);
}

/// Scans source characters into tokens, one at a time.
pub struct Scanner {
    source: Vec<char>,
    start: usize,
    current: usize,
    line: u32,
    returned_eof: bool,
}

impl Scanner {
    pub closed spec fn source(&self) -> Seq<char> {
        self.source@
    }

    /// The position of the next character to read.
    pub closed spec fn position(&self) -> int {
        self.current as int
    }

    /// The line of the next character to read, counted from 1.
    pub closed spec fn line(&self) -> int {
        self.line as int
    }

    /// Whether the closing `Eof` token was handed out.
    pub closed spec fn finished(&self) -> bool {
        self.returned_eof
    }

    /// The scanner stands inside its source, and has counted no more lines
    /// than it has read characters.
    pub closed spec fn wf(&self) -> bool {
        &&& self.source.len() < u32::MAX
        &&& self.current <= self.source.len()
        &&& self.start <= self.current
        &&& 1 <= self.line <= 1 + self.current
    }

    /// A scanner at the start of `source`.
    pub fn new(source: Vec<char>) -> (scanner: Scanner)
        requires
            source.len() < u32::MAX,
        ensures
            scanner.wf(),
            scanner.source() == source@,
            scanner.position() == 0,
            scanner.line() == 1,
            !scanner.finished(),
    {
        Scanner { source, start: 0, current: 0, line: 1, returned_eof: false }
    }

    /// Scans the whole source into its tokens.
    pub fn parse(self) -> (tokens: Vec<Token>)
        requires
            self.wf(),
        ensures
            tokens@.map_values(|t: Token| t@) == tokens_from(
                self.source(),
                self.position(),
                self.line(),
                self.finished(),
            ),
    {
        let mut scanner = self;
        let mut tokens: Vec<Token> = Vec::new();
        let ghost src = scanner.source@;
        let ghost all = tokens_from(src, scanner.position(), scanner.line(), scanner.finished());
        loop
            invariant
                scanner.wf(),
                scanner.source@ == src,
                all == tokens@.map_values(|t: Token| t@) + tokens_from(
                    src,
                    scanner.position(),
                    scanner.line(),
                    scanner.finished(),
                ),
            ensures
                all == tokens@.map_values(|t: Token| t@),
            decreases src.len() - scanner.position(), if scanner.finished() { 0int } else { 1int },
        {
            let ghost before = scanner;
            let ghost seen = tokens@.map_values(|t: Token| t@);
            match scanner.scan_token() {
                None => {
                    assert(tokens_from(src, before.position(), before.line(), before.finished())
                        == Seq::<TokenModel>::empty());
                    break ;
                },
                Some(token) => {
                    tokens.push(token);
                    assert(tokens@.map_values(|t: Token| t@) == seen + seq![token@]);
                },
            }
        }
        tokens
    }

    /// Scans the next token. `None` once `Eof` was handed out.
    pub fn scan_token(&mut self) -> (token: Option<Token>)
        requires
            old(self).wf(),
        ensures
            final(self).wf(),
            final(self).source() == old(self).source(),
            ({
                let next = next_token(
                    old(self).source(),
                    old(self).position(),
                    old(self).line(),
                    old(self).finished(),
                );
                &&& final(self).position() == next.position
                &&& final(self).line() == next.line
                &&& final(self).finished() == next.finished
                &&& match token {
                    Some(t) => next.token == Some(t@),
                    None => next.token.is_none(),
                }
                &&& (next.position > old(self).position() || (next.position == old(self).position()
                    && (token.is_none() || (next.finished && !old(self).finished()))))
            }),
    {
        proof {
            skip_blank_bounds(self.source@, self.current as int, self.line as int, false);
        }
        self.skip_whitespace();
        self.start = self.current;

        if self.is_at_end() {
            if self.returned_eof {
                return None;
            }
            self.returned_eof = true;
            let token = self.make_token(TokenType::Eof);
            assert(token@.lexeme =~= Seq::<char>::empty());
            return Some(token);
        }
        proof {
            token_at_advances(self.source@, self.start as int, self.line as int);
        }
        let c = self.advance();

        if is_alpha(c) {
            return Some(self.identifier());
        }
        if is_digit(c) {
            return Some(self.number());
        }
        if c == '"' {
            return Some(self.string());
        }
        let equals_follows = !self.is_at_end() && self.peek() == '=';
        let kind = match c {
            '(' => Some(TokenType::LeftParen),
            ')' => Some(TokenType::RightParen),
            '{' => Some(TokenType::LeftBrace),
            '}' => Some(TokenType::RightBrace),
            ';' => Some(TokenType::Semicolon),
            ',' => Some(TokenType::Comma),
            '.' => Some(TokenType::Dot),
            '-' => Some(TokenType::Minus),
            '+' => Some(TokenType::Plus),
            '/' => Some(TokenType::Slash),
            '*' => Some(TokenType::Star),
            '!' => Some(
                if self.matches('=') {
                    TokenType::BangEqual
                } else {
                    TokenType::Bang
                },
            ),
            '=' => Some(
                if self.matches('=') {
                    TokenType::EqualEqual
                } else {
                    TokenType::Equal
                },
            ),
            '<' => Some(
                if self.matches('=') {
                    TokenType::LessEqual
                } else {
                    TokenType::Less
                },
            ),
            '>' => Some(
                if self.matches('=') {
                    TokenType::GreaterEqual
                } else {
                    TokenType::Greater
                },
            ),
            _ => None,
        };
        match kind {
            Some(kind) => Some(self.make_token(kind)),
            None => Some(self.error_token("Unexpected character.")),
        }
    }

    /// Reads the rest of an identifier or keyword whose first character
    /// was taken.
    fn identifier(&mut self) -> (token: Token)
        requires
            old(self).wf(),
            old(self).start < old(self).current,
        ensures
            final(self).wf(),
            final(self).source@ == old(self).source@,
            final(self).start == old(self).start,
            final(self).line == old(self).line,
            final(self).returned_eof == old(self).returned_eof,
            final(self).current == run_end(
                old(self).source@,
                old(self).current as int,
                keep_identifier(),
            ),
            token@ == (TokenModel {
                kind: identifier_kind(
                    old(self).source@.subrange(old(self).start as int, final(self).current as int),
                ),
                lexeme: old(self).source@.subrange(
                    old(self).start as int,
                    final(self).current as int,
                ),
                line: old(self).line,
            }),
    {
        let ghost end = run_end(self.source@, self.current as int, keep_identifier());
        proof {
            run_end_bounds(self.source@, self.current as int, keep_identifier());
        }
        while !self.is_at_end() && (is_alpha(self.peek()) || is_digit(self.peek()))
            invariant
                self.wf(),
                self.source@ == old(self).source@,
                self.start == old(self).start,
                self.line == old(self).line,
                self.returned_eof == old(self).returned_eof,
                old(self).current <= self.current,
                self.line <= 1 + old(self).current,
                run_end(self.source@, self.current as int, keep_identifier()) == end,
            decreases self.source.len() - self.current,
        {
            self.current += 1;
        }
        let ident_type = self.identifier_type();
        self.make_token(ident_type)
    }

    /// The kind of the identifier that was just read.
    fn identifier_type(&self) -> (kind: TokenType)
        requires
            self.wf(),
        ensures
            kind == identifier_kind(self.source@.subrange(self.start as int, self.current as int)),
    {
        if self.check_keyword("and") {
            TokenType::And
        } else if self.check_keyword("class") {
            TokenType::Class
        } else if self.check_keyword("else") {
            TokenType::Else
        } else if self.check_keyword("false") {
            TokenType::False
        } else if self.check_keyword("for") {
            TokenType::For
        } else if self.check_keyword("fun") {
            TokenType::Fun
        } else if self.check_keyword("if") {
            TokenType::If
        } else if self.check_keyword("nil") {
            TokenType::Nil
        } else if self.check_keyword("or") {
            TokenType::Or
        } else if self.check_keyword("print") {
            TokenType::Print
        } else if self.check_keyword("return") {
            TokenType::Return
        } else if self.check_keyword("super") {
            TokenType::Super
        } else if self.check_keyword("this") {
            TokenType::This
        } else if self.check_keyword("true") {
            TokenType::True
        } else if self.check_keyword("var") {
            TokenType::Var
        } else if self.check_keyword("while") {
            TokenType::While
        } else {
            TokenType::Identifier
        }
    }

    /// Whether the current lexeme spells `word`.
    fn check_keyword(&self, word: &str) -> (same: bool)
        requires
            self.wf(),
        ensures
            same == (self.source@.subrange(self.start as int, self.current as int) == word@),
    {
        let ghost lexeme = self.source@.subrange(self.start as int, self.current as int);
        let n = word.unicode_len();
        if self.current - self.start != n {
            return false;
        }
        let mut i: usize = 0;
        while i < n
            invariant
                self.wf(),
                i <= n,
                n == word@.len(),
                self.current - self.start == n,
                lexeme == self.source@.subrange(self.start as int, self.current as int),
                forall|k: int| 0 <= k < i ==> lexeme[k] == word@[k],
            decreases n - i,
        {
            if self.source[self.start + i] != word.get_char(i) {
                assert(lexeme[i as int] != word@[i as int]);
                return false;
            }
            i += 1;
        }
        assert(lexeme =~= word@);
        true
    }

    /// Reads the rest of a string whose opening quote was taken.
    fn string(&mut self) -> (token: Token)
        requires
            old(self).wf(),
            old(self).start < old(self).current,
            old(self).line <= 1 + old(self).start,
        ensures
            final(self).wf(),
            final(self).source@ == old(self).source@,
            final(self).returned_eof == old(self).returned_eof,
            ({
                let src = old(self).source@;
                let close = run_end(src, old(self).current as int, keep_string());
                let last_line = old(self).line + line_feeds(src, old(self).current as int, close);
                &&& final(self).line == last_line
                &&& if close >= src.len() {
                    &&& final(self).current == close
                    &&& token@ == (TokenModel {
                        kind: TokenType::Error,
                        lexeme: unterminated_string(),
                        line: last_line as u32,
                    })
                } else {
                    &&& final(self).current == close + 1
                    &&& token@ == (TokenModel {
                        kind: TokenType::String,
                        lexeme: src.subrange(old(self).start as int, close + 1),
                        line: last_line as u32,
                    })
                }
            }),
    {
        let ghost first = self.current as int;
        let ghost close = run_end(self.source@, first, keep_string());
        proof {
            run_end_bounds(self.source@, first, keep_string());
        }
        while !self.is_at_end() && self.peek() != '"'
            invariant
                self.wf(),
                self.source@ == old(self).source@,
                self.start == old(self).start,
                self.returned_eof == old(self).returned_eof,
                first <= self.current,
                first == old(self).current,
                old(self).line <= first,
                self.line == old(self).line + line_feeds(self.source@, first, self.current as int),
                self.line <= old(self).line + (self.current - first),
                run_end(self.source@, self.current as int, keep_string()) == close,
            decreases self.source.len() - self.current,
        {
            if self.peek() == '\n' {
                self.line += 1;
            }
            self.current += 1;
        }

        if self.is_at_end() {
            self.error_token("Unterminated string.")
        } else {
            self.current += 1;
            self.make_token(TokenType::String)
        }
    }

    /// Reads the rest of a number whose first digit was taken.
    fn number(&mut self) -> (token: Token)
        requires
            old(self).wf(),
            old(self).start < old(self).current,
        ensures
            final(self).wf(),
            final(self).source@ == old(self).source@,
            final(self).line == old(self).line,
            final(self).returned_eof == old(self).returned_eof,
            final(self).current == number_end(old(self).source@, old(self).current as int),
            token@ == (TokenModel {
                kind: TokenType::Number,
                lexeme: old(self).source@.subrange(
                    old(self).start as int,
                    final(self).current as int,
                ),
                line: old(self).line,
            }),
    {
        self.digits();
        if !self.is_at_end() && self.peek() == '.' && is_digit(self.peek_next()) {
            self.current += 1;
        }
        self.digits();
        self.make_token(TokenType::Number)
    }

    /// Reads digits as long as there are any.
    fn digits(&mut self)
        requires
            old(self).wf(),
        ensures
            final(self).wf(),
            final(self).source@ == old(self).source@,
            final(self).start == old(self).start,
            final(self).line == old(self).line,
            final(self).returned_eof == old(self).returned_eof,
            final(self).current == run_end(
                old(self).source@,
                old(self).current as int,
                keep_digits(),
            ),
    {
        let ghost end = run_end(self.source@, self.current as int, keep_digits());
        while !self.is_at_end() && is_digit(self.peek())
            invariant
                self.wf(),
                self.source@ == old(self).source@,
                self.start == old(self).start,
                self.line == old(self).line,
                self.returned_eof == old(self).returned_eof,
                old(self).current <= self.current,
                run_end(self.source@, self.current as int, keep_digits()) == end,
            decreases self.source.len() - self.current,
        {
            self.current += 1;
        }
    }

    /// Skips blanks, line feeds and comments.
    fn skip_whitespace(&mut self)
        requires
            old(self).wf(),
        ensures
            final(self).wf(),
            final(self).source@ == old(self).source@,
            final(self).returned_eof == old(self).returned_eof,
            (final(self).current as int, final(self).line as int) == skip_blank(
                old(self).source@,
                old(self).current as int,
                old(self).line as int,
                false,
            ),
    {
        let ghost target = skip_blank(self.source@, self.current as int, self.line as int, false);
        self.start = self.current;
        while !self.is_at_end()
            invariant
                self.wf(),
                self.source@ == old(self).source@,
                self.returned_eof == old(self).returned_eof,
                self.start <= self.current,
                skip_blank(self.source@, self.current as int, self.line as int, false) == target,
            ensures
                (self.current as int, self.line as int) == target,
            decreases self.source.len() - self.current,
        {
            let ghost begin = self.current;
            let c = self.peek();
            if c == ' ' || c == '\r' || c == '\t' {
                self.current += 1;
            } else if c == '\n' {
                self.line += 1;
                self.current += 1;
            } else if c == '/' {
                if self.peek_next() == '/' {
                    self.current += 1;
                    while !self.is_at_end() && self.peek() != '\n'
                        invariant
                            self.wf(),
                            self.source@ == old(self).source@,
                            self.returned_eof == old(self).returned_eof,
                            self.start <= self.current,
                            begin < self.current,
                            skip_blank(self.source@, self.current as int, self.line as int, true)
                                == target,
                        decreases self.source.len() - self.current,
                    {
                        self.current += 1;
                    }
                } else {
                    break ;
                }
            } else {
                break ;
            }
        }
    }

    /// Takes the next character if it is `expected`.
    fn matches(&mut self, expected: char) -> (matched: bool)
        requires
            old(self).wf(),
        ensures
            final(self).wf(),
            final(self).source@ == old(self).source@,
            final(self).start == old(self).start,
            final(self).line == old(self).line,
            final(self).returned_eof == old(self).returned_eof,
            matched == (old(self).current < old(self).source.len() && old(self).source@[old(
                self,
            ).current as int] == expected),
            final(self).current == old(self).current + if matched {
                1int
            } else {
                0int
            },
    {
        if self.is_at_end() || self.peek() != expected {
            false
        } else {
            self.current += 1;
            true
        }
    }

    /// Takes the next character.
    fn advance(&mut self) -> (c: char)
        requires
            old(self).wf(),
            old(self).current < old(self).source.len(),
        ensures
            final(self).wf(),
            final(self).source@ == old(self).source@,
            final(self).start == old(self).start,
            final(self).line == old(self).line,
            final(self).returned_eof == old(self).returned_eof,
            final(self).current == old(self).current + 1,
            c == old(self).source@[old(self).current as int],
    {
        let c = self.peek();
        self.current += 1;
        c
    }

    fn peek(&self) -> (c: char)
        requires
            self.current < self.source.len(),
        ensures
            c == self.source@[self.current as int],
    {
        self.source[self.current]
    }

    /// The character after the next one, or NUL where there is none.
    fn peek_next(&self) -> (c: char)
        requires
            self.wf(),
        ensures
            c == if self.current + 1 < self.source.len() {
                self.source@[self.current + 1]
            } else {
                '\0'
            },
    {
        if self.current + 1 < self.source.len() {
            self.source[self.current + 1]
        } else {
            '\0'
        }
    }

    fn is_at_end(&self) -> (at_end: bool)
        ensures
            at_end == (self.current == self.source.len()),
    {
        self.current == self.source.len()
    }

    /// The token of the given kind for the characters read since `start`.
    fn make_token(&self, token_type: TokenType) -> (token: Token)
        requires
            self.wf(),
        ensures
            token@ == (TokenModel {
                kind: token_type,
                lexeme: self.source@.subrange(self.start as int, self.current as int),
                line: self.line,
            }),
    {
        let lexeme = copy_range(&self.source, self.start, self.current);
        Token::new(token_type, lexeme, self.line)
    }

    /// An error token that carries `message`.
    fn error_token(&self, message: &str) -> (token: Token)
        ensures
            token@ == (TokenModel { kind: TokenType::Error, lexeme: message@, line: self.line }),
    {
        Token::new(TokenType::Error, chars_of(message), self.line)
    }
}

/// Whether a character may start an identifier.
pub fn is_alpha(c: char) -> (r: bool)
    ensures
        r == alpha(c),
{
    char_is_alphabetic(c) || c == '_'
}

/// Whether a character is an ASCII digit.
pub fn is_digit(c: char) -> (r: bool)
    ensures
        r == digit(c),
{
    let n = c as u32;
    48 <= n && n <= 57
}

} // verus!
