use vstd::prelude::*;
use vstd::string::StringExecFns;

use crate::scanner::{
    Scanner, SpecToken, TokenType, blank_source, lemma_blank_source_scans_to_eof,
    lemma_next_token_bounds, spec_next_token,
};
use crate::text::{spec_pad_left, pad4};

verus! {

/// The tag text printed for each token kind in the diagnostic dump.
pub open spec fn spec_type_name(t: TokenType) -> Seq<char> {
    match t {
        TokenType::LeftParen => "LeftParen"@,
        TokenType::RightParen => "RightParen"@,
        TokenType::LeftBrace => "LeftBrace"@,
        TokenType::RightBrace => "RightBrace"@,
        TokenType::Comma => "Comma"@,
        TokenType::Dot => "Dot"@,
        TokenType::Minus => "Minus"@,
        TokenType::Plus => "Plus"@,
        TokenType::Semicolon => "Semicolon"@,
        TokenType::Slash => "Slash"@,
        TokenType::Star => "Star"@,
        TokenType::Bang => "Bang"@,
        TokenType::BangEqual => "BangEqual"@,
        TokenType::Equal => "Equal"@,
        TokenType::EqualEqual => "EqualEqual"@,
        TokenType::Greater => "Greater"@,
        TokenType::GreaterEqual => "GreaterEqual"@,
        TokenType::Less => "Less"@,
        TokenType::LessEqual => "LessEqual"@,
        TokenType::Identifier => "Identifier"@,
        TokenType::String => "String"@,
        TokenType::Number => "Number"@,
        TokenType::And => "And"@,
        TokenType::Class => "Class"@,
        TokenType::Else => "Else"@,
        TokenType::False => "False"@,
        TokenType::For => "For"@,
        TokenType::Fun => "Fun"@,
        TokenType::If => "If"@,
        TokenType::Nil => "Nil"@,
        TokenType::Or => "Or"@,
        TokenType::Print => "Print"@,
        TokenType::Return => "Return"@,
        TokenType::Super => "Super"@,
        TokenType::This => "This"@,
        TokenType::True => "True"@,
        TokenType::Var => "Var"@,
        TokenType::While => "While"@,
        TokenType::Error => "Error"@,
        TokenType::Eof => "Eof"@,
    }
}

/// The tag text printed for a token kind.
pub fn tag_name(t: TokenType) -> (r: String)
    ensures
        r@ == spec_type_name(t),
{
    match t {
        TokenType::LeftParen => "LeftParen".to_owned(),
        TokenType::RightParen => "RightParen".to_owned(),
        TokenType::LeftBrace => "LeftBrace".to_owned(),
        TokenType::RightBrace => "RightBrace".to_owned(),
        TokenType::Comma => "Comma".to_owned(),
        TokenType::Dot => "Dot".to_owned(),
        TokenType::Minus => "Minus".to_owned(),
        TokenType::Plus => "Plus".to_owned(),
        TokenType::Semicolon => "Semicolon".to_owned(),
        TokenType::Slash => "Slash".to_owned(),
        TokenType::Star => "Star".to_owned(),
        TokenType::Bang => "Bang".to_owned(),
        TokenType::BangEqual => "BangEqual".to_owned(),
        TokenType::Equal => "Equal".to_owned(),
        TokenType::EqualEqual => "EqualEqual".to_owned(),
        TokenType::Greater => "Greater".to_owned(),
        TokenType::GreaterEqual => "GreaterEqual".to_owned(),
        TokenType::Less => "Less".to_owned(),
        TokenType::LessEqual => "LessEqual".to_owned(),
        TokenType::Identifier => "Identifier".to_owned(),
        TokenType::String => "String".to_owned(),
        TokenType::Number => "Number".to_owned(),
        TokenType::And => "And".to_owned(),
        TokenType::Class => "Class".to_owned(),
        TokenType::Else => "Else".to_owned(),
        TokenType::False => "False".to_owned(),
        TokenType::For => "For".to_owned(),
        TokenType::Fun => "Fun".to_owned(),
        TokenType::If => "If".to_owned(),
        TokenType::Nil => "Nil".to_owned(),
        TokenType::Or => "Or".to_owned(),
        TokenType::Print => "Print".to_owned(),
        TokenType::Return => "Return".to_owned(),
        TokenType::Super => "Super".to_owned(),
        TokenType::This => "This".to_owned(),
        TokenType::True => "True".to_owned(),
        TokenType::Var => "Var".to_owned(),
        TokenType::While => "While".to_owned(),
        TokenType::Error => "Error".to_owned(),
        TokenType::Eof => "Eof".to_owned(),
    }
}

/// One diagnostic dump line for a token: its 4-character space-padded line
/// number — or the continuation marker when the previous token sits on the
/// same line — then the token's tag and its lexeme in single quotes.
pub open spec fn spec_dump_line(t: SpecToken, prev: Option<int>) -> Seq<char> {
    (if prev is Some && t.line == prev->0 {
        "   | "@
    } else {
        spec_pad_left(t.line as nat, 4, ' ') + " "@
    }) + spec_type_name(t.kind) + " '"@ + t.lexeme + "'\n"@
}

/// The diagnostic dump of every token scanned from cursor `cur` on line
/// `line` up to and including the `Eof` token, one line per token; `prev` is
/// the line number of the token before, if any.
pub open spec fn spec_token_dump(src: Seq<char>, cur: int, line: int, prev: Option<int>) -> Seq<
    Seq<char>,
>
    decreases src.len() - cur,
    when 0 <= cur <= src.len()
    via spec_token_dump_decreases
{
    let t = spec_next_token(src, cur, line);
    if t.kind == TokenType::Eof {
        seq![spec_dump_line(t, prev)]
    } else {
        seq![spec_dump_line(t, prev)] + spec_token_dump(src, t.cur2, t.line2, Some(t.line))
    }
}

#[via_fn]
proof fn spec_token_dump_decreases(src: Seq<char>, cur: int, line: int, prev: Option<int>) {
    lemma_next_token_bounds(src, cur, line);
}

/// Law: a source consisting solely of whitespace and comments scans to a
/// dump of exactly one line, the `Eof` token's.
pub proof fn lemma_blank_source_single_dump_line(src: Seq<char>)
    requires
        blank_source(src),
    ensures
        spec_token_dump(src, 0, 1, None::<int>).len() == 1,
{
    lemma_blank_source_scans_to_eof(src);
}

/// Scans the whole source and renders the diagnostic token dump, one line
/// per token, ending with the `Eof` token's line. The caller prints it; a
/// full compiler will turn the tokens into bytecode instead.
pub fn compile(source: String) -> (r: Vec<String>)
    requires
        source@.len() + 1 < usize::MAX,
    ensures
        r@.map_values(|s: String| s@) == spec_token_dump(source@, 0, 1, None::<int>),
{
    let mut scanner = Scanner::new(&source);
    let mut line: Option<usize> = None;
    let mut out: Vec<String> = Vec::new();
    loop
        invariant
            scanner.wf(),
            scanner.spec_source() == source@,
            0 <= scanner.spec_current() <= source@.len(),
            out@.map_values(|s: String| s@) + spec_token_dump(
                source@,
                scanner.spec_current(),
                scanner.spec_line(),
                match line {
                    Some(l) => Some(l as int),
                    None => None::<int>,
                },
            ) == spec_token_dump(source@, 0, 1, None::<int>),
        decreases source@.len() - scanner.spec_current(),
    {
        let ghost pre_cur = scanner.spec_current();
        let ghost pre_line = scanner.spec_line();
        let ghost prev = match line {
            Some(l) => Some(l as int),
            None => None::<int>,
        };
        proof {
            lemma_next_token_bounds(source@, pre_cur, pre_line);
        }
        let token = scanner.scan_token();
        let ghost t = spec_next_token(source@, pre_cur, pre_line);

        let mut dl: String;
        if line.is_none() || token.line != line.unwrap() {
            dl = pad4(token.line, ' ');
            dl.append(" ");
            line = Some(token.line);
        } else {
            dl = "   | ".to_owned();
        }
        let tag = tag_name(token.kind);
        dl.append(tag.as_str());
        dl.append(" '");
        dl.append(token.lexeme.as_str());
        dl.append("'\n");
        proof {
            assert(dl@ =~= spec_dump_line(t, prev));
        }
        let ghost out_pre = out@;
        out.push(dl);
        proof {
            assert(out@.map_values(|s: String| s@) =~= out_pre.map_values(|s: String| s@).push(
                dl@,
            ));
        }

        if token.kind == TokenType::Eof {
            proof {
                assert(out@.map_values(|s: String| s@) =~= spec_token_dump(
                    source@,
                    0,
                    1,
                    None::<int>,
                ));
            }
            return out;
        }
        proof {
            assert(out@.map_values(|s: String| s@) + spec_token_dump(
                source@,
                scanner.spec_current(),
                scanner.spec_line(),
                Some(t.line),
            ) =~= spec_token_dump(source@, 0, 1, None::<int>));
        }
    }
}

} // verus!
