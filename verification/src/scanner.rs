use vstd::prelude::*;
use vstd::std_specs::iter::IteratorSpec;

verus! {

broadcast use vstd::string::group_string_axioms;

/// The kind of a lexical token: punctuation, one- or two-character
/// operators, literals, keywords, and the two sentinel kinds `Error` and
/// `Eof`.
#[derive(Debug, PartialEq, Eq, Clone, Copy, Structural)]
pub enum TokenType {
    LeftParen,
    RightParen,
    LeftBrace,
    RightBrace,
    Comma,
    Dot,
    Minus,
    Plus,
    Semicolon,
    Slash,
    Star,
    Bang,
    BangEqual,
    Equal,
    EqualEqual,
    Greater,
    GreaterEqual,
    Less,
    LessEqual,
    Identifier,
    String,
    Number,
    And,
    Class,
    Else,
    False,
    For,
    Fun,
    If,
    Nil,
    Or,
    Print,
    Return,
    Super,
    This,
    True,
    Var,
    While,
    Error,
    Eof,
}

/// A classified lexical unit: its kind, the source slice it was scanned
/// from (for an `Error` token, a fixed diagnostic message), the offset and
/// length of that slice, and the 1-based line it ended on.
pub struct Token {
    pub kind: TokenType,
    pub lexeme: String,
    pub start: usize,
    pub length: usize,
    pub line: usize,
}

/// Whether the character has the Unicode `Alphabetic` property; pinned down
/// only for the characters the keyword set and the tests exercise, named for
/// the rest.
pub uninterp spec fn unicode_alphabetic(c: char) -> bool;

/// Whether the character is Unicode alphanumeric (alphabetic or numeric).
pub uninterp spec fn unicode_alphanumeric(c: char) -> bool;

/// Relies on `char::is_alphabetic`: whether the character has the Unicode
/// `Alphabetic` property, a pure function of the character. Called only for
/// characters outside the ASCII range, where the property is not spelled
/// out here.
#[verifier::external_body]
fn char_is_alphabetic(c: char) -> (r: bool)
    ensures
        r == unicode_alphabetic(c),
{
    c.is_alphabetic()
}

/// Relies on `char::is_alphanumeric`: whether the character is Unicode
/// alphabetic or numeric, a pure function of the character. Called only for
/// characters outside the ASCII range.
#[verifier::external_body]
fn char_is_alphanumeric(c: char) -> (r: bool)
    ensures
        r == unicode_alphanumeric(c),
{
    c.is_alphanumeric()
}

/// An ASCII decimal digit.
pub open spec fn is_digit_char(c: char) -> bool {
    0x30 <= c as u32 && c as u32 <= 0x39
}

/// The characters `char::is_whitespace` accepts: the Unicode `White_Space`
/// set.
pub open spec fn is_ws_char(c: char) -> bool {
    ||| c as u32 == 0x20
    ||| (0x09 <= c as u32 && c as u32 <= 0x0d)
    ||| c as u32 == 0x85
    ||| c as u32 == 0xa0
    ||| c as u32 == 0x1680
    ||| (0x2000 <= c as u32 && c as u32 <= 0x200a)
    ||| c as u32 == 0x2028
    ||| c as u32 == 0x2029
    ||| c as u32 == 0x202f
    ||| c as u32 == 0x205f
    ||| c as u32 == 0x3000
}

/// The characters `char::is_alphabetic` accepts: ASCII letters, and beyond
/// ASCII the Unicode `Alphabetic` property.
pub open spec fn is_alpha_char(c: char) -> bool {
    if (c as u32) < 0x80 {
        (0x41 <= c as u32 && c as u32 <= 0x5a) || (0x61 <= c as u32 && c as u32 <= 0x7a)
    } else {
        unicode_alphabetic(c)
    }
}

/// The characters `char::is_alphanumeric` accepts: ASCII letters and digits,
/// and beyond ASCII whatever is Unicode alphabetic or numeric.
pub open spec fn is_alnum_char(c: char) -> bool {
    if (c as u32) < 0x80 {
        (0x41 <= c as u32 && c as u32 <= 0x5a) || (0x61 <= c as u32 && c as u32 <= 0x7a)
            || is_digit_char(c)
    } else {
        unicode_alphanumeric(c)
    }
}

fn is_ws(c: char) -> (r: bool)
    ensures
        r == is_ws_char(c),
{
    let u = c as u32;
    u == 0x20 || (0x09 <= u && u <= 0x0d) || u == 0x85 || u == 0xa0 || u == 0x1680 || (0x2000 <= u
        && u <= 0x200a) || u == 0x2028 || u == 0x2029 || u == 0x202f || u == 0x205f || u == 0x3000
}

fn is_digit(c: char) -> (r: bool)
    ensures
        r == is_digit_char(c),
{
    let u = c as u32;
    0x30 <= u && u <= 0x39
}

fn is_alpha(c: char) -> (r: bool)
    ensures
        r == is_alpha_char(c),
{
    let u = c as u32;
    if u < 0x80 {
        (0x41 <= u && u <= 0x5a) || (0x61 <= u && u <= 0x7a)
    } else {
        char_is_alphabetic(c)
    }
}

fn is_alnum(c: char) -> (r: bool)
    ensures
        r == is_alnum_char(c),
{
    let u = c as u32;
    if u < 0x80 {
        (0x41 <= u && u <= 0x5a) || (0x61 <= u && u <= 0x7a) || (0x30 <= u && u <= 0x39)
    } else {
        char_is_alphanumeric(c)
    }
}

/// The character at position `i`, with a NUL sentinel at and past the end of
/// the buffer.
pub open spec fn char_at(src: Seq<char>, i: int) -> char {
    if 0 <= i < src.len() {
        src[i]
    } else {
        '\0'
    }
}

/// Cursor and line after skipping whitespace and line comments, starting at
/// position `i`; `in_comment` records that the cursor stands inside a line
/// comment.
pub open spec fn spec_skip(src: Seq<char>, i: int, line: int, in_comment: bool) -> (int, int)
    decreases src.len() - i, (if in_comment { 0int } else { 1int }),
{
    if i < 0 || i >= src.len() {
        (i, line)
    } else if in_comment {
        if src[i] == '\n' {
            spec_skip(src, i + 1, line + 1, false)
        } else {
            spec_skip(src, i + 1, line, true)
        }
    } else {
        let c = src[i];
        if is_ws_char(c) {
            if c == '\n' {
                spec_skip(src, i + 1, line + 1, false)
            } else {
                spec_skip(src, i + 1, line, false)
            }
        } else if c == '/' && char_at(src, i + 1) == '/' {
            spec_skip(src, i, line, true)
        } else {
            (i, line)
        }
    }
}

/// Cursor and line after skipping whitespace and line comments.
pub open spec fn spec_skip_ws(src: Seq<char>, i: int, line: int) -> (int, int) {
    spec_skip(src, i, line, false)
}

/// End of a run of alphanumeric characters starting at `j`.
pub open spec fn spec_ident_end(src: Seq<char>, j: int) -> int
    decreases src.len() - j,
{
    if 0 <= j < src.len() && is_alnum_char(src[j]) {
        spec_ident_end(src, j + 1)
    } else {
        j
    }
}

/// End of a run of ASCII digits starting at `j`.
pub open spec fn spec_digits_end(src: Seq<char>, j: int) -> int
    decreases src.len() - j,
{
    if 0 <= j < src.len() && is_digit_char(src[j]) {
        spec_digits_end(src, j + 1)
    } else {
        j
    }
}

/// End of a numeric literal whose first digit stands at `i`: digits, then
/// optionally one `.` followed by at least one digit and the digits after it.
pub open spec fn spec_number_end(src: Seq<char>, i: int) -> int {
    let j = spec_digits_end(src, i);
    if char_at(src, j) == '.' && is_digit_char(char_at(src, j + 1)) {
        spec_digits_end(src, j + 2)
    } else {
        j
    }
}

/// Position of the first `"` at or after `j`, or the buffer length when the
/// string is unterminated.
pub open spec fn spec_string_end(src: Seq<char>, j: int) -> int
    decreases src.len() - j,
{
    if j < 0 {
        j
    } else if j >= src.len() {
        src.len() as int
    } else if src[j] == '"' {
        j
    } else {
        spec_string_end(src, j + 1)
    }
}

/// The number of newline characters in `src[a..b]`.
pub open spec fn spec_count_newlines(src: Seq<char>, a: int, b: int) -> int
    decreases b - a,
{
    if a >= b {
        0
    } else {
        spec_count_newlines(src, a, b - 1) + (if char_at(src, b - 1) == '\n' {
            1int
        } else {
            0int
        })
    }
}

/// The keyword kind for a lexeme, or `Identifier` when it matches none.
pub open spec fn spec_keyword_type(lex: Seq<char>) -> TokenType {
    if lex == "and"@ {
        TokenType::And
    } else if lex == "class"@ {
        TokenType::Class
    } else if lex == "else"@ {
        TokenType::Else
    } else if lex == "false"@ {
        TokenType::False
    } else if lex == "for"@ {
        TokenType::For
    } else if lex == "fun"@ {
        TokenType::Fun
    } else if lex == "if"@ {
        TokenType::If
    } else if lex == "nil"@ {
        TokenType::Nil
    } else if lex == "or"@ {
        TokenType::Or
    } else if lex == "print"@ {
        TokenType::Print
    } else if lex == "return"@ {
        TokenType::Return
    } else if lex == "super"@ {
        TokenType::Super
    } else if lex == "this"@ {
        TokenType::This
    } else if lex == "true"@ {
        TokenType::True
    } else if lex == "var"@ {
        TokenType::Var
    } else if lex == "while"@ {
        TokenType::While
    } else {
        TokenType::Identifier
    }
}

/// Everything one scan step yields: the token's fields and the scanner state
/// after the step.
pub ghost struct SpecToken {
    pub kind: TokenType,
    pub lexeme: Seq<char>,
    pub start: int,
    pub length: int,
    pub line: int,
    pub cur2: int,
    pub line2: int,
}

/// The token scanned from cursor position `cur` on line `line`, and the
/// cursor and line after it.
pub open spec fn spec_next_token(src: Seq<char>, cur: int, line: int) -> SpecToken {
    let (i, l) = spec_skip_ws(src, cur, line);
    if i >= src.len() {
        SpecToken {
            kind: TokenType::Eof,
            lexeme: Seq::<char>::empty(),
            start: i,
            length: 0,
            line: l,
            cur2: i,
            line2: l,
        }
    } else {
        let c = src[i];
        if is_alpha_char(c) {
            let j = spec_ident_end(src, i + 1);
            SpecToken {
                kind: spec_keyword_type(src.subrange(i, j)),
                lexeme: src.subrange(i, j),
                start: i,
                length: j - i,
                line: l,
                cur2: j,
                line2: l,
            }
        } else if is_digit_char(c) {
            let j = spec_number_end(src, i + 1);
            SpecToken {
                kind: TokenType::Number,
                lexeme: src.subrange(i, j),
                start: i,
                length: j - i,
                line: l,
                cur2: j,
                line2: l,
            }
        } else if c == '"' {
            let j = spec_string_end(src, i + 1);
            let nl = spec_count_newlines(src, i + 1, j);
            if j >= src.len() {
                SpecToken {
                    kind: TokenType::Error,
                    lexeme: "Unterminated string."@,
                    start: i,
                    length: 20,
                    line: l + nl,
                    cur2: j,
                    line2: l + nl,
                }
            } else {
                SpecToken {
                    kind: TokenType::String,
                    lexeme: src.subrange(i, j + 1),
                    start: i,
                    length: j + 1 - i,
                    line: l + nl,
                    cur2: j + 1,
                    line2: l + nl,
                }
            }
        } else {
            let two = char_at(src, i + 1) == '=';
            let (kind, n) = if c == '(' {
                (TokenType::LeftParen, 1int)
            } else if c == ')' {
                (TokenType::RightParen, 1int)
            } else if c == '{' {
                (TokenType::LeftBrace, 1int)
            } else if c == '}' {
                (TokenType::RightBrace, 1int)
            } else if c == ';' {
                (TokenType::Semicolon, 1int)
            } else if c == ',' {
                (TokenType::Comma, 1int)
            } else if c == '.' {
                (TokenType::Dot, 1int)
            } else if c == '-' {
                (TokenType::Minus, 1int)
            } else if c == '+' {
                (TokenType::Plus, 1int)
            } else if c == '/' {
                (TokenType::Slash, 1int)
            } else if c == '*' {
                (TokenType::Star, 1int)
            } else if c == '!' {
                if two {
                    (TokenType::BangEqual, 2int)
                } else {
                    (TokenType::Bang, 1int)
                }
            } else if c == '=' {
                if two {
                    (TokenType::EqualEqual, 2int)
                } else {
                    (TokenType::Equal, 1int)
                }
            } else if c == '<' {
                if two {
                    (TokenType::LessEqual, 2int)
                } else {
                    (TokenType::Less, 1int)
                }
            } else if c == '>' {
                if two {
                    (TokenType::GreaterEqual, 2int)
                } else {
                    (TokenType::Greater, 1int)
                }
            } else {
                (TokenType::Error, 1int)
            };
            if kind == TokenType::Error {
                SpecToken {
                    kind: TokenType::Error,
                    lexeme: "Unexpected character."@,
                    start: i,
                    length: 21,
                    line: l,
                    cur2: i + 1,
                    line2: l,
                }
            } else {
                SpecToken {
                    kind: kind,
                    lexeme: src.subrange(i, i + n),
                    start: i,
                    length: n,
                    line: l,
                    cur2: i + n,
                    line2: l,
                }
            }
        }
    }
}

/// Skipping whitespace and comments never moves the cursor backwards nor
/// past the end of the buffer.
pub proof fn lemma_skip_bounds(src: Seq<char>, i: int, line: int, in_comment: bool)
    requires
        0 <= i <= src.len(),
    ensures
        i <= spec_skip(src, i, line, in_comment).0 <= src.len(),
    decreases src.len() - i, (if in_comment { 0int } else { 1int }),
{
    if i >= src.len() {
    } else if in_comment {
        if src[i] == '\n' {
            lemma_skip_bounds(src, i + 1, line + 1, false);
        } else {
            lemma_skip_bounds(src, i + 1, line, true);
        }
    } else {
        let c = src[i];
        if is_ws_char(c) {
            if c == '\n' {
                lemma_skip_bounds(src, i + 1, line + 1, false);
            } else {
                lemma_skip_bounds(src, i + 1, line, false);
            }
        } else if c == '/' && char_at(src, i + 1) == '/' {
            lemma_skip_bounds(src, i, line, true);
        }
    }
}

/// An identifier run starting inside the buffer ends inside it, no earlier
/// than it started.
pub proof fn lemma_ident_end_bounds(src: Seq<char>, j: int)
    requires
        0 <= j <= src.len(),
    ensures
        j <= spec_ident_end(src, j) <= src.len(),
    decreases src.len() - j,
{
    if 0 <= j < src.len() && is_alnum_char(src[j]) {
        lemma_ident_end_bounds(src, j + 1);
    }
}

/// A digit run starting inside the buffer ends inside it, no earlier than it
/// started.
pub proof fn lemma_digits_end_bounds(src: Seq<char>, j: int)
    requires
        0 <= j <= src.len(),
    ensures
        j <= spec_digits_end(src, j) <= src.len(),
    decreases src.len() - j,
{
    if 0 <= j < src.len() && is_digit_char(src[j]) {
        lemma_digits_end_bounds(src, j + 1);
    }
}

/// The closing quote search starting inside the buffer ends inside it (at
/// the buffer length when no quote follows).
pub proof fn lemma_string_end_bounds(src: Seq<char>, j: int)
    requires
        0 <= j <= src.len(),
    ensures
        j <= spec_string_end(src, j) <= src.len(),
    decreases src.len() - j,
{
    if 0 <= j < src.len() && src[j] != '"' {
        lemma_string_end_bounds(src, j + 1);
    }
}

/// A scan step never moves the cursor backwards nor past the end of the
/// buffer, and every token but `Eof` consumes at least one character.
pub proof fn lemma_next_token_bounds(src: Seq<char>, cur: int, line: int)
    requires
        0 <= cur <= src.len(),
    ensures
        ({
            let t = spec_next_token(src, cur, line);
            &&& cur <= t.cur2 <= src.len()
            &&& t.kind != TokenType::Eof ==> t.cur2 > cur
        }),
{
    lemma_skip_bounds(src, cur, line, false);
    let (i, l) = spec_skip_ws(src, cur, line);
    if i < src.len() {
        let c = src[i];
        if is_alpha_char(c) {
            lemma_ident_end_bounds(src, i + 1);
        } else if is_digit_char(c) {
            lemma_digits_end_bounds(src, i + 1);
            let j = spec_digits_end(src, i + 1);
            if char_at(src, j) == '.' && is_digit_char(char_at(src, j + 1)) {
                lemma_digits_end_bounds(src, j + 2);
            }
        } else if c == '"' {
            lemma_string_end_bounds(src, i + 1);
        }
    }
}

/// A source is blank when skipping whitespace and line comments from its
/// start consumes it whole.
pub open spec fn blank_source(src: Seq<char>) -> bool {
    spec_skip_ws(src, 0, 1).0 == src.len()
}

/// Skipping from anywhere in a source of nothing but whitespace consumes the
/// rest of it.
proof fn lemma_ws_skip(src: Seq<char>, i: int, line: int)
    requires
        0 <= i <= src.len(),
        forall|k: int| 0 <= k < src.len() ==> is_ws_char(#[trigger] src[k]),
    ensures
        spec_skip(src, i, line, false).0 == src.len(),
    decreases src.len() - i,
{
    if i < src.len() {
        if src[i] == '\n' {
            lemma_ws_skip(src, i + 1, line + 1);
        } else {
            lemma_ws_skip(src, i + 1, line);
        }
    }
}

/// A source of nothing but whitespace is blank.
pub proof fn lemma_whitespace_only_is_blank(src: Seq<char>)
    requires
        forall|k: int| 0 <= k < src.len() ==> is_ws_char(#[trigger] src[k]),
    ensures
        blank_source(src),
{
    lemma_ws_skip(src, 0, 1);
}

/// Law: scanning past the end of the buffer keeps returning `Eof` without
/// moving — `Eof` is an idempotent terminal state.
pub proof fn lemma_eof_idempotent(src: Seq<char>, cur: int, line: int)
    requires
        cur >= src.len(),
    ensures
        spec_next_token(src, cur, line).kind == TokenType::Eof,
        spec_next_token(src, cur, line).cur2 == cur,
        spec_next_token(src, cur, line).line2 == line,
{
}

/// Law: a source consisting solely of whitespace and comments yields exactly
/// one token, of `Eof` kind, with nothing left to scan after it.
pub proof fn lemma_blank_source_scans_to_eof(src: Seq<char>)
    requires
        blank_source(src),
    ensures
        spec_next_token(src, 0, 1).kind == TokenType::Eof,
        spec_next_token(src, 0, 1).cur2 == src.len(),
{
}

/// Every position in `src[a..b]` holds an ASCII decimal digit.
pub open spec fn all_digits(src: Seq<char>, a: int, b: int) -> bool {
    forall|k: int| a <= k < b ==> is_digit_char(#[trigger] src[k])
}

/// A well-formed numeric literal: one or more digits, optionally followed by
/// one `.` and one or more digits.
pub open spec fn numeric_literal(src: Seq<char>) -> bool {
    &&& src.len() > 0
    &&& {
        ||| all_digits(src, 0, src.len() as int)
        ||| exists|p: int|
            1 <= p <= src.len() - 2 && #[trigger] src[p] == '.' && all_digits(src, 0, p)
                && all_digits(src, p + 1, src.len() as int)
    }
}

/// A digit run ends exactly at the first position that is not a digit.
proof fn lemma_digits_end_until(src: Seq<char>, a: int, b: int)
    requires
        0 <= a <= b <= src.len(),
        all_digits(src, a, b),
        b == src.len() || !is_digit_char(src[b]),
    ensures
        spec_digits_end(src, a) == b,
    decreases b - a,
{
    if a < b {
        lemma_digits_end_until(src, a + 1, b);
    }
}

/// Law: a source that is exactly a well-formed numeric literal yields
/// exactly one `Number` token, whose lexeme is the full literal, followed
/// only by `Eof`.
pub proof fn lemma_numeric_literal_token(src: Seq<char>)
    requires
        numeric_literal(src),
    ensures
        spec_next_token(src, 0, 1).kind == TokenType::Number,
        spec_next_token(src, 0, 1).lexeme == src,
        spec_next_token(src, 0, 1).cur2 == src.len(),
        spec_next_token(src, spec_next_token(src, 0, 1).cur2, 1).kind == TokenType::Eof,
{
    let len = src.len() as int;
    if all_digits(src, 0, len) {
        lemma_digits_end_until(src, 1, len);
        assert(char_at(src, len) == '\0');
    } else {
        let p = choose|p: int|
            1 <= p <= src.len() - 2 && #[trigger] src[p] == '.' && all_digits(src, 0, p)
                && all_digits(src, p + 1, len);
        lemma_digits_end_until(src, 1, p);
        lemma_digits_end_until(src, p + 2, len);
    }
    assert(spec_next_token(src, 0, 1).lexeme =~= src);
    lemma_eof_idempotent(src, src.len() as int, 1);
}

/// Law: when the character after a `!`, `=`, `<` or `>` is `=`, the scanner
/// yields the two-character operator and consumes both characters — never
/// the one-character prefix alone.
pub proof fn lemma_two_char_operator(src: Seq<char>, cur: int, line: int)
    requires
        0 <= cur,
        cur + 1 < src.len(),
        src[cur] == '!' || src[cur] == '=' || src[cur] == '<' || src[cur] == '>',
        src[cur + 1] == '=',
    ensures
        ({
            let t = spec_next_token(src, cur, line);
            &&& t.length == 2
            &&& t.cur2 == cur + 2
            &&& t.lexeme == src.subrange(cur, cur + 2)
            &&& (src[cur] == '!' ==> t.kind == TokenType::BangEqual)
            &&& (src[cur] == '=' ==> t.kind == TokenType::EqualEqual)
            &&& (src[cur] == '<' ==> t.kind == TokenType::LessEqual)
            &&& (src[cur] == '>' ==> t.kind == TokenType::GreaterEqual)
        }),
{
}

/// A cursor over an immutable source buffer, from which `scan_token`
/// produces one token at a time.
pub struct Scanner {
    source: Vec<char>,
    start: usize,
    current: usize,
    line: usize,
}

impl Scanner {
    /// The characters of the source buffer.
    pub closed spec fn spec_source(&self) -> Seq<char> {
        self.source@
    }

    /// The cursor position.
    pub closed spec fn spec_current(&self) -> int {
        self.current as int
    }

    /// The start of the token being scanned.
    pub closed spec fn spec_start(&self) -> int {
        self.start as int
    }

    /// The current 1-based line.
    pub closed spec fn spec_line(&self) -> int {
        self.line as int
    }

    /// Structural well-formedness: the cursor lies inside the buffer (or
    /// just past it), the mark does not trail it, and the line counter can
    /// only have grown by consumed newlines.
    pub closed spec fn wf(&self) -> bool {
        &&& self.start <= self.current
        &&& self.current <= self.source@.len()
        &&& 1 <= self.line
        &&& self.line <= self.current + 1
        &&& self.source@.len() + 1 < usize::MAX
    }

    /// Builds a scanner over a copy of the source text, with the cursor at
    /// the start and the line counter at 1.
    pub fn new(source: &String) -> (r: Scanner)
        requires
            source@.len() + 1 < usize::MAX,
        ensures
            r.wf(),
            r.spec_source() == source@,
            r.spec_current() == 0,
            r.spec_start() == 0,
            r.spec_line() == 1,
    {
        let mut chars: Vec<char> = Vec::new();
        let mut it = source.as_str().chars();
        loop
            invariant
                it.obeys_prophetic_iter_laws(),
                it.decrease() is Some,
                chars@ + it.remaining() == source@,
            ensures
                chars@ == source@,
            decreases it.decrease()->0,
        {
            match it.next() {
                Some(c) => {
                    chars.push(c);
                    proof {
                        assert(chars@ + it.remaining() =~= source@);
                    }
                },
                None => {
                    proof {
                        assert(chars@ + it.remaining() =~= chars@);
                    }
                    break ;
                },
            }
        }
        Scanner { source: chars, start: 0, current: 0, line: 1 }
    }

    fn is_at_end(&self) -> (r: bool)
        requires
            self.wf(),
        ensures
            r == (self.spec_current() == self.spec_source().len()),
    {
        self.current == self.source.len()
    }

    /// The character under the cursor, or NUL at the end of the buffer.
    fn current_char(&self) -> (r: char)
        requires
            self.wf_mid(),
        ensures
            r == char_at(self.spec_source(), self.spec_current()),
    {
        if self.current < self.source.len() {
            self.source[self.current]
        } else {
            '\0'
        }
    }

    /// The character one past the cursor, or NUL when none exists.
    fn peek_next(&self) -> (r: char)
        requires
            self.wf(),
        ensures
            r == char_at(self.spec_source(), self.spec_current() + 1),
    {
        if self.current + 1 < self.source.len() {
            self.source[self.current + 1]
        } else {
            '\0'
        }
    }

    /// Like `wf`, but the line counter may run one ahead: the state between
    /// counting a newline and consuming it.
    pub closed spec fn wf_mid(&self) -> bool {
        &&& self.start <= self.current
        &&& self.current <= self.source@.len()
        &&& 1 <= self.line
        &&& self.line <= self.current + 2
        &&& self.source@.len() + 1 < usize::MAX
    }

    fn advance(&mut self) -> (r: char)
        requires
            old(self).wf_mid(),
            old(self).spec_current() < old(self).spec_source().len(),
        ensures
            final(self).wf(),
            r == old(self).spec_source()[old(self).spec_current()],
            final(self).spec_source() == old(self).spec_source(),
            final(self).spec_start() == old(self).spec_start(),
            final(self).spec_line() == old(self).spec_line(),
            final(self).spec_current() == old(self).spec_current() + 1,
    {
        let cur = self.current_char();
        self.current = self.current + 1;
        cur
    }

    fn match_char(&mut self, expected: char) -> (r: bool)
        requires
            old(self).wf(),
        ensures
            final(self).wf(),
            r == (char_at(old(self).spec_source(), old(self).spec_current()) == expected
                && old(self).spec_current() < old(self).spec_source().len()),
            final(self).spec_source() == old(self).spec_source(),
            final(self).spec_start() == old(self).spec_start(),
            final(self).spec_line() == old(self).spec_line(),
            final(self).spec_current() == old(self).spec_current() + (if r {
                1int
            } else {
                0int
            }),
    {
        if self.is_at_end() {
            return false;
        }
        if self.current_char() != expected {
            return false;
        }
        self.current = self.current + 1;
        return true;
    }

    /// The source slice from the mark to the cursor, copied out as a string.
    fn lexeme_string(&self) -> (r: String)
        requires
            self.wf(),
        ensures
            r@ == self.spec_source().subrange(self.spec_start(), self.spec_current()),
    {
        let mut lexeme = String::new();
        let mut k = self.start;
        while k < self.current
            invariant
                self.wf(),
                self.start <= k <= self.current,
                lexeme@ == self.spec_source().subrange(self.spec_start(), k as int),
            decreases self.current - k,
        {
            lexeme.push(self.source[k]);
            k = k + 1;
            proof {
                assert(lexeme@ =~= self.spec_source().subrange(self.spec_start(), k as int));
            }
        }
        lexeme
    }

    fn make_token(&self, kind: TokenType) -> (r: Token)
        requires
            self.wf(),
        ensures
            r.kind == kind,
            r.lexeme@ == self.spec_source().subrange(self.spec_start(), self.spec_current()),
            r.start == self.spec_start(),
            r.length == self.spec_current() - self.spec_start(),
            r.line == self.spec_line(),
    {
        let lexeme = self.lexeme_string();
        Token {
            kind,
            start: self.start,
            length: self.current - self.start,
            line: self.line,
            lexeme,
        }
    }

    fn error_token(&self, message: &str, message_len: usize) -> (r: Token)
        requires
            self.wf(),
            message@.len() == message_len,
        ensures
            r.kind == TokenType::Error,
            r.lexeme@ == message@,
            r.start == self.spec_start(),
            r.length == message_len,
            r.line == self.spec_line(),
    {
        Token {
            kind: TokenType::Error,
            start: self.start,
            length: message_len,
            line: self.line,
            lexeme: message.to_owned(),
        }
    }

    fn skip_whitespace(&mut self)
        requires
            old(self).wf(),
        ensures
            final(self).wf(),
            final(self).spec_source() == old(self).spec_source(),
            final(self).spec_start() == old(self).spec_start(),
            (final(self).spec_current(), final(self).spec_line()) == spec_skip_ws(
                old(self).spec_source(),
                old(self).spec_current(),
                old(self).spec_line(),
            ),
    {
        loop
            invariant
                self.wf(),
                self.spec_source() == old(self).spec_source(),
                self.spec_start() == old(self).spec_start(),
                spec_skip(self.spec_source(), self.spec_current(), self.spec_line(), false)
                    == spec_skip_ws(
                    old(self).spec_source(),
                    old(self).spec_current(),
                    old(self).spec_line(),
                ),
            decreases self.spec_source().len() - self.spec_current(),
        {
            let c = self.current_char();
            if is_ws(c) {
                if c == '\n' {
                    self.line = self.line + 1;
                }
                self.advance();
            } else if c == '/' {
                if self.peek_next() == '/' {
                    let ghost entry = self.spec_current();
                    while self.current_char() != '\n' && !self.is_at_end()
                        invariant
                            self.wf(),
                            self.spec_source() == old(self).spec_source(),
                            self.spec_start() == old(self).spec_start(),
                            entry <= self.spec_current(),
                            self.spec_current() == entry ==> char_at(
                                self.spec_source(),
                                entry,
                            ) == '/',
                            spec_skip(
                                self.spec_source(),
                                self.spec_current(),
                                self.spec_line(),
                                true,
                            ) == spec_skip_ws(
                                old(self).spec_source(),
                                old(self).spec_current(),
                                old(self).spec_line(),
                            ),
                        decreases self.spec_source().len() - self.spec_current(),
                    {
                        self.advance();
                    }
                } else {
                    return ;
                }
            } else {
                return ;
            }
        }
    }

    fn identifier(&mut self) -> (r: Token)
        requires
            old(self).wf(),
        ensures
            final(self).wf(),
            ({
                let j = spec_ident_end(old(self).spec_source(), old(self).spec_current());
                let lex = old(self).spec_source().subrange(old(self).spec_start(), j);
                &&& final(self).spec_source() == old(self).spec_source()
                &&& final(self).spec_start() == old(self).spec_start()
                &&& final(self).spec_line() == old(self).spec_line()
                &&& final(self).spec_current() == j
                &&& r.kind == spec_keyword_type(lex)
                &&& r.lexeme@ == lex
                &&& r.start == old(self).spec_start()
                &&& r.length == j - old(self).spec_start()
                &&& r.line == old(self).spec_line()
            }),
    {
        while is_alnum(self.current_char())
            invariant
                self.wf(),
                self.spec_source() == old(self).spec_source(),
                self.spec_start() == old(self).spec_start(),
                self.spec_line() == old(self).spec_line(),
                spec_ident_end(self.spec_source(), self.spec_current()) == spec_ident_end(
                    old(self).spec_source(),
                    old(self).spec_current(),
                ),
            decreases self.spec_source().len() - self.spec_current(),
        {
            self.advance();
        }
        self.make_token(self.identifier_type())
    }

    fn identifier_type(&self) -> (t: TokenType)
        requires
            self.wf(),
        ensures
            t == spec_keyword_type(
                self.spec_source().subrange(self.spec_start(), self.spec_current()),
            ),
    {
        let lexeme = self.lexeme_string();
        if lexeme == "and".to_owned() {
            TokenType::And
        } else if lexeme == "class".to_owned() {
            TokenType::Class
        } else if lexeme == "else".to_owned() {
            TokenType::Else
        } else if lexeme == "false".to_owned() {
            TokenType::False
        } else if lexeme == "for".to_owned() {
            TokenType::For
        } else if lexeme == "fun".to_owned() {
            TokenType::Fun
        } else if lexeme == "if".to_owned() {
            TokenType::If
        } else if lexeme == "nil".to_owned() {
            TokenType::Nil
        } else if lexeme == "or".to_owned() {
            TokenType::Or
        } else if lexeme == "print".to_owned() {
            TokenType::Print
        } else if lexeme == "return".to_owned() {
            TokenType::Return
        } else if lexeme == "super".to_owned() {
            TokenType::Super
        } else if lexeme == "this".to_owned() {
            TokenType::This
        } else if lexeme == "true".to_owned() {
            TokenType::True
        } else if lexeme == "var".to_owned() {
            TokenType::Var
        } else if lexeme == "while".to_owned() {
            TokenType::While
        } else {
            TokenType::Identifier
        }
    }

    fn number(&mut self) -> (r: Token)
        requires
            old(self).wf(),
        ensures
            final(self).wf(),
            ({
                let j = spec_number_end(old(self).spec_source(), old(self).spec_current());
                let lex = old(self).spec_source().subrange(old(self).spec_start(), j);
                &&& final(self).spec_source() == old(self).spec_source()
                &&& final(self).spec_start() == old(self).spec_start()
                &&& final(self).spec_line() == old(self).spec_line()
                &&& final(self).spec_current() == j
                &&& r.kind == TokenType::Number
                &&& r.lexeme@ == lex
                &&& r.start == old(self).spec_start()
                &&& r.length == j - old(self).spec_start()
                &&& r.line == old(self).spec_line()
            }),
    {
        while is_digit(self.current_char())
            invariant
                self.wf(),
                self.spec_source() == old(self).spec_source(),
                self.spec_start() == old(self).spec_start(),
                self.spec_line() == old(self).spec_line(),
                spec_digits_end(self.spec_source(), self.spec_current()) == spec_digits_end(
                    old(self).spec_source(),
                    old(self).spec_current(),
                ),
            decreases self.spec_source().len() - self.spec_current(),
        {
            self.advance();
        }
        let ghost j = self.spec_current();
        if self.current_char() == '.' && is_digit(self.peek_next()) {
            self.advance();  // Consume '.'
            while is_digit(self.current_char())
                invariant
                    self.wf(),
                    self.spec_source() == old(self).spec_source(),
                    self.spec_start() == old(self).spec_start(),
                    self.spec_line() == old(self).spec_line(),
                    spec_digits_end(self.spec_source(), self.spec_current()) == spec_digits_end(
                        old(self).spec_source(),
                        j + 2,
                    ),
                decreases self.spec_source().len() - self.spec_current(),
            {
                self.advance();
            }
        }
        self.make_token(TokenType::Number)
    }

    fn string(&mut self) -> (r: Token)
        requires
            old(self).wf(),
        ensures
            final(self).wf(),
            ({
                let j = spec_string_end(old(self).spec_source(), old(self).spec_current());
                let nl = spec_count_newlines(old(self).spec_source(), old(self).spec_current(), j);
                let lex = old(self).spec_source().subrange(old(self).spec_start(), j + 1);
                &&& final(self).spec_source() == old(self).spec_source()
                &&& final(self).spec_start() == old(self).spec_start()
                &&& final(self).spec_line() == old(self).spec_line() + nl
                &&& r.line == old(self).spec_line() + nl
                &&& r.start == old(self).spec_start()
                &&& if j >= old(self).spec_source().len() {
                    &&& final(self).spec_current() == j
                    &&& r.kind == TokenType::Error
                    &&& r.lexeme@ == "Unterminated string."@
                    &&& r.length == 20
                } else {
                    &&& final(self).spec_current() == j + 1
                    &&& r.kind == TokenType::String
                    &&& r.lexeme@ == lex
                    &&& r.length == j + 1 - old(self).spec_start()
                }
            }),
    {
        while self.current_char() != '"' && !self.is_at_end()
            invariant
                self.wf(),
                self.spec_source() == old(self).spec_source(),
                self.spec_start() == old(self).spec_start(),
                old(self).spec_current() <= self.spec_current(),
                spec_string_end(self.spec_source(), self.spec_current()) == spec_string_end(
                    old(self).spec_source(),
                    old(self).spec_current(),
                ),
                self.spec_line() == old(self).spec_line() + spec_count_newlines(
                    self.spec_source(),
                    old(self).spec_current(),
                    self.spec_current(),
                ),
            decreases self.spec_source().len() - self.spec_current(),
        {
            if self.current_char() == '\n' {
                self.line = self.line + 1;
            }
            self.advance();
        }
        if self.is_at_end() {
            proof {
                reveal_strlit("Unterminated string.");
            }
            return self.error_token("Unterminated string.", 20);
        }
        self.advance();  // Closing quote
        self.make_token(TokenType::String)
    }

    fn if_match(&mut self, to_match: char, a: TokenType, b: TokenType) -> (r: Token)
        requires
            old(self).wf(),
        ensures
            final(self).wf(),
            ({
                let matched = char_at(old(self).spec_source(), old(self).spec_current())
                    == to_match && old(self).spec_current() < old(self).spec_source().len();
                let j = old(self).spec_current() + (if matched {
                    1int
                } else {
                    0int
                });
                &&& final(self).spec_source() == old(self).spec_source()
                &&& final(self).spec_start() == old(self).spec_start()
                &&& final(self).spec_line() == old(self).spec_line()
                &&& final(self).spec_current() == j
                &&& r.kind == (if matched {
                    a
                } else {
                    b
                })
                &&& r.lexeme@ == old(self).spec_source().subrange(old(self).spec_start(), j)
                &&& r.start == old(self).spec_start()
                &&& r.length == j - old(self).spec_start()
                &&& r.line == old(self).spec_line()
            }),
    {
        let token_type = if self.match_char(to_match) {
            a
        } else {
            b
        };
        self.make_token(token_type)
    }

    /// Scans and returns the next token. Repeated calls are the only way to
    /// advance; once `Eof` has been returned every further call returns
    /// `Eof` again.
    pub fn scan_token(&mut self) -> (r: Token)
        requires
            old(self).wf(),
        ensures
            final(self).wf(),
            final(self).spec_source() == old(self).spec_source(),
            ({
                let t = spec_next_token(
                    old(self).spec_source(),
                    old(self).spec_current(),
                    old(self).spec_line(),
                );
                &&& r.kind == t.kind
                &&& r.lexeme@ == t.lexeme
                &&& r.start == t.start
                &&& r.length == t.length
                &&& r.line == t.line
                &&& final(self).spec_start() == t.start
                &&& final(self).spec_current() == t.cur2
                &&& final(self).spec_line() == t.line2
            }),
    {
        self.skip_whitespace();
        self.start = self.current;

        if self.is_at_end() {
            let r = self.make_token(TokenType::Eof);
            proof {
                assert(r.lexeme@ =~= Seq::<char>::empty());
            }
            return r;
        }
        let character = self.advance();
        if is_alpha(character) {
            return self.identifier();
        }
        if is_digit(character) {
            return self.number();
        }
        match character {
            '(' => self.make_token(TokenType::LeftParen),
            ')' => self.make_token(TokenType::RightParen),
            '{' => self.make_token(TokenType::LeftBrace),
            '}' => self.make_token(TokenType::RightBrace),
            ';' => self.make_token(TokenType::Semicolon),
            ',' => self.make_token(TokenType::Comma),
            '.' => self.make_token(TokenType::Dot),
            '-' => self.make_token(TokenType::Minus),
            '+' => self.make_token(TokenType::Plus),
            '/' => self.make_token(TokenType::Slash),
            '*' => self.make_token(TokenType::Star),
            '!' => self.if_match('=', TokenType::BangEqual, TokenType::Bang),
            '=' => self.if_match('=', TokenType::EqualEqual, TokenType::Equal),
            '<' => self.if_match('=', TokenType::LessEqual, TokenType::Less),
            '>' => self.if_match('=', TokenType::GreaterEqual, TokenType::Greater),
            '"' => self.string(),
            _ => {
                proof {
                    reveal_strlit("Unexpected character.");
                }
                self.error_token("Unexpected character.", 21)
            },
        }
    }
}

} // verus!
