//! The lexical scanner: source text to tokens, in one pass.
//!
//! The scanner reads the characters from left to right with one character of
//! lookahead. `scan_text` says which tokens a text has; `Scanner::scan_tokens`
//! computes them.

pub mod token;

use crate::imm::{imm_string_to_i32, parse_immediate};
use crate::scanner::token::{Token, TokenType, TokenView};
use crate::text::{
    char_is_alphanumeric, char_is_decimal_digit, char_is_delimiter, char_is_identifier_part,
    char_is_identifier_start, char_is_space, chars_of, is_alphanumeric, is_decimal_digit,
    decimal_string, decimal_text, is_delimiter, is_identifier_part, is_identifier_start, is_space,
    string_of,
};
use vstd::prelude::*;
use vstd::string::StringExecFns;

verus! {

/// What stops the scanner.
#[derive(Debug, Clone, Copy, PartialEq, Eq, Structural)]
pub enum ScanFault {
    /// A string runs into the end of its line or of the text.
    UnterminatedString,
    /// A number holds a character that is no part of a number, or its text is
    /// no immediate literal.
    MalformedNumber,
    /// A character that starts no token.
    UnexpectedCharacter,
}

/// A failed scan: the fault and the line on which it was met, counted from zero.
#[derive(Debug, Clone, Copy, PartialEq, Eq, Structural)]
pub struct ScanError {
    pub line_number: i32,
    pub fault: ScanFault,
}

/// The kind of token that a punctuation character is by itself.
pub open spec fn punctuation(c: char) -> Option<TokenType> {
    if c == '(' {
        Some(TokenType::LeftParantheses)
    } else if c == ')' {
        Some(TokenType::RightParantheses)
    } else if c == ':' {
        Some(TokenType::Colon)
    } else if c == '.' {
        Some(TokenType::Dot)
    } else if c == ',' {
        Some(TokenType::Comma)
    } else if c == '%' {
        Some(TokenType::Percent)
    } else {
        None
    }
}

/// The kind of token that `c` is by itself, if it is punctuation.
pub fn punctuation_kind(c: char) -> (kind: Option<TokenType>)
    ensures
        kind == punctuation(c),
{
    if c == '(' {
        Some(TokenType::LeftParantheses)
    } else if c == ')' {
        Some(TokenType::RightParantheses)
    } else if c == ':' {
        Some(TokenType::Colon)
    } else if c == '.' {
        Some(TokenType::Dot)
    } else if c == ',' {
        Some(TokenType::Comma)
    } else if c == '%' {
        Some(TokenType::Percent)
    } else {
        None
    }
}

/// Where the body of a string that starts at `from` stops: at the first
/// quote or line break, or at the end of the text.
pub open spec fn string_end(src: Seq<char>, from: int) -> int
    decreases src.len() - from,
{
    if 0 <= from < src.len() && src[from] != '"' && src[from] != '\n' {
        string_end(src, from + 1)
    } else {
        from
    }
}

/// Where the run of letters and digits that starts at `from` stops.
pub open spec fn number_end(src: Seq<char>, from: int) -> int
    decreases src.len() - from,
{
    if 0 <= from < src.len() && is_alphanumeric(src[from]) {
        number_end(src, from + 1)
    } else {
        from
    }
}

/// Where the run of identifier characters that starts at `from` stops.
pub open spec fn identifier_end(src: Seq<char>, from: int) -> int
    decreases src.len() - from,
{
    if 0 <= from < src.len() && is_identifier_part(src[from]) {
        identifier_end(src, from + 1)
    } else {
        from
    }
}

/// What the scanner does at one position: the token it emits, if any, and
/// the state in which it goes on.
pub struct Step {
    pub token: Option<TokenView>,
    /// The position after what was consumed.
    pub next: int,
    /// The line of that position.
    pub line: int,
    /// Whether that position lies in a comment.
    pub skipping: bool,
}

/// A token without a value.
pub open spec fn plain_token(lexeme: Seq<char>, token_type: TokenType, line: int) -> TokenView {
    TokenView { lexeme, token_type, literal: None, line_number: line }
}

/// One step of the scanner at position `pos` of `src`, on line `line`, inside
/// a comment or not. The cases are tried in this order:
/// inside a comment everything up to the line break is dropped; a line break
/// becomes a token and starts the next line, also at the end of a comment;
/// `#` and `;` start a comment; punctuation is a token of one character;
/// other white space is dropped; `"` starts a string, a digit a number, a
/// letter or one of `_ $ @` an identifier; any other character is a fault.
pub open spec fn step(src: Seq<char>, pos: int, line: int, skipping: bool) -> Result<
    Step,
    ScanFault,
>
    recommends
        0 <= pos < src.len(),
{
    let c = src[pos];
    if skipping && c != '\n' {
        Ok(Step { token: None, next: pos + 1, line, skipping: true })
    } else if c == '\n' {
        Ok(
            Step {
                token: Some(plain_token(seq![c], TokenType::LineBreak, line)),
                next: pos + 1,
                line: line + 1,
                skipping: false,
            },
        )
    } else if c == '#' || c == ';' {
        Ok(Step { token: None, next: pos + 1, line, skipping: true })
    } else if punctuation(c) is Some {
        Ok(
            Step {
                token: Some(plain_token(seq![c], punctuation(c)->0, line)),
                next: pos + 1,
                line,
                skipping: false,
            },
        )
    } else if is_space(c) {
        Ok(Step { token: None, next: pos + 1, line, skipping: false })
    } else if c == '"' {
        let close = string_end(src, pos + 1);
        if close < src.len() && src[close] == '"' {
            Ok(
                Step {
                    token: Some(
                        plain_token(src.subrange(pos + 1, close), TokenType::String, line),
                    ),
                    next: close + 1,
                    line,
                    skipping: false,
                },
            )
        } else {
            Err(ScanFault::UnterminatedString)
        }
    } else if is_decimal_digit(c) {
        let end = number_end(src, pos + 1);
        let lexeme = src.subrange(pos, end);
        if end < src.len() && !is_delimiter(src[end]) {
            Err(ScanFault::MalformedNumber)
        } else {
            match parse_immediate(lexeme) {
                Some(value) => Ok(
                    Step {
                        token: Some(
                            TokenView {
                                lexeme,
                                token_type: TokenType::Number,
                                literal: Some(value),
                                line_number: line,
                            },
                        ),
                        next: end,
                        line,
                        skipping: false,
                    },
                ),
                None => Err(ScanFault::MalformedNumber),
            }
        }
    } else if is_identifier_start(c) {
        let end = identifier_end(src, pos + 1);
        Ok(
            Step {
                token: Some(plain_token(src.subrange(pos, end), TokenType::Identifier, line)),
                next: end,
                line,
                skipping: false,
            },
        )
    } else {
        Err(ScanFault::UnexpectedCharacter)
    }
}

/// A run ends at or after its start, and within the text.
pub proof fn lemma_run_ends(src: Seq<char>, from: int)
    requires
        0 <= from <= src.len(),
    ensures
        from <= string_end(src, from) <= src.len(),
        from <= number_end(src, from) <= src.len(),
        from <= identifier_end(src, from) <= src.len(),
    decreases src.len() - from,
{
    if from < src.len() {
        lemma_run_ends(src, from + 1);
    }
}

/// Every step consumes at least one character and stays within the text; the
/// line grows by at most one.
pub proof fn lemma_step_advances(src: Seq<char>, pos: int, line: int, skipping: bool)
    requires
        0 <= pos < src.len(),
    ensures
        step(src, pos, line, skipping) matches Ok(s) ==> pos < s.next <= src.len() && line
            <= s.line <= line + 1,
{
    lemma_run_ends(src, pos + 1);
}

/// The tokens of `src` from position `pos` on, where `pos` is on line `line`
/// and `skipping` says whether it lies in a comment; or the first fault, with
/// its line.
pub open spec fn scan_from(src: Seq<char>, pos: int, line: int, skipping: bool) -> Result<
    Seq<TokenView>,
    (int, ScanFault),
>
    decreases src.len() - pos,
    via scan_from_decreases
{
    if 0 <= pos < src.len() {
        match step(src, pos, line, skipping) {
            Err(fault) => Err((line, fault)),
            Ok(s) => match scan_from(src, s.next, s.line, s.skipping) {
                Err(e) => Err(e),
                Ok(rest) => match s.token {
                    Some(token) => Ok(seq![token] + rest),
                    None => Ok(rest),
                },
            },
        }
    } else {
        Ok(Seq::empty())
    }
}

#[via_fn]
proof fn scan_from_decreases(src: Seq<char>, pos: int, line: int, skipping: bool) {
    if 0 <= pos < src.len() {
        lemma_step_advances(src, pos, line, skipping);
    }
}

/// The tokens of a source text, or its first fault with the line it is on.
pub open spec fn scan_text(src: Seq<char>) -> Result<Seq<TokenView>, (int, ScanFault)> {
    scan_from(src, 0, 0, false)
}

/// The body of a string ends at the first quote or line break after its
/// start: no character before the end is one, and the end is one unless it
/// is the end of the text.
pub proof fn lemma_string_end_is_first(src: Seq<char>, from: int)
    requires
        0 <= from <= src.len(),
    ensures
        from <= string_end(src, from) <= src.len(),
        forall|i: int|
            from <= i < string_end(src, from) ==> (#[trigger] src[i]) != '"' && src[i] != '\n',
        string_end(src, from) < src.len() ==> src[string_end(src, from)] == '"' || src[string_end(
            src,
            from,
        )] == '\n',
    decreases src.len() - from,
{
    if from < src.len() && src[from] != '"' && src[from] != '\n' {
        lemma_string_end_is_first(src, from + 1);
    }
}

/// A comment runs to the end of its line. Inside a comment that the line
/// break at `newline` ends, the scanner emits nothing up to there, then the
/// token of that line break, and goes on with the next line.
pub proof fn lemma_comment_is_dropped(src: Seq<char>, pos: int, line: int, newline: int)
    requires
        0 <= pos <= newline < src.len(),
        src[newline] == '\n',
        forall|i: int| pos <= i < newline ==> src[i] != '\n',
    ensures
        scan_from(src, pos, line, true) == after(
            seq![plain_token(seq!['\n'], TokenType::LineBreak, line)],
            scan_from(src, newline + 1, line + 1, false),
        ),
    decreases newline - pos,
{
    if pos < newline {
        lemma_comment_is_dropped(src, pos + 1, line, newline);
    }
}

/// A comment that the end of the text ends leaves no token.
pub proof fn lemma_last_comment_is_dropped(src: Seq<char>, pos: int, line: int)
    requires
        0 <= pos <= src.len(),
        forall|i: int| pos <= i < src.len() ==> src[i] != '\n',
    ensures
        scan_from(src, pos, line, true) == Ok::<Seq<TokenView>, (int, ScanFault)>(Seq::empty()),
    decreases src.len() - pos,
{
    if pos < src.len() {
        lemma_last_comment_is_dropped(src, pos + 1, line);
    }
}

/// A line that holds nothing but a comment has one token, its line break:
/// for every text `body` without a line break, the tokens of `#`, `body` and
/// a line break are that line break on line zero, and the same holds with `;`
/// in place of `#`. Without the line break there is no token at all.
pub proof fn lemma_comment_only_line(opener: char, body: Seq<char>)
    requires
        opener == '#' || opener == ';',
        forall|i: int| 0 <= i < body.len() ==> body[i] != '\n',
    ensures
        scan_text(seq![opener] + body + seq!['\n']) == Ok::<Seq<TokenView>, (int, ScanFault)>(
            seq![plain_token(seq!['\n'], TokenType::LineBreak, 0)],
        ),
        scan_text(seq![opener] + body) == Ok::<Seq<TokenView>, (int, ScanFault)>(Seq::empty()),
{
    let line = seq![opener] + body + seq!['\n'];
    let newline = body.len() as int + 1;
    assert(line[0] == opener);
    assert(line[newline] == '\n');
    assert forall|i: int| 1 <= i < newline implies line[i] != '\n' by {
        assert(line[i] == body[i - 1]);
    }
    lemma_comment_is_dropped(line, 1, 0, newline);
    assert(scan_from(line, newline + 1, 1, false) == Ok::<Seq<TokenView>, (int, ScanFault)>(
        Seq::empty(),
    ));
    assert(seq![plain_token(seq!['\n'], TokenType::LineBreak, 0)] + Seq::<TokenView>::empty()
        =~= seq![plain_token(seq!['\n'], TokenType::LineBreak, 0)]);
    let open = seq![opener] + body;
    assert(open[0] == opener);
    assert forall|i: int| 1 <= i < open.len() implies open[i] != '\n' by {
        assert(open[i] == body[i - 1]);
    }
    lemma_last_comment_is_dropped(open, 1, 0);
}

/// A string does not run over the end of its line: where no quote stands
/// between the opening quote at `pos` and the next line break, the scan
/// fails on the line of the opening quote.
pub proof fn lemma_string_across_lines(src: Seq<char>, pos: int, line: int, newline: int)
    requires
        0 <= pos < newline < src.len(),
        src[pos] == '"',
        src[newline] == '\n',
        forall|i: int| pos < i < newline ==> src[i] != '"',
    ensures
        scan_from(src, pos, line, false) == Err::<Seq<TokenView>, (int, ScanFault)>(
            (line, ScanFault::UnterminatedString),
        ),
{
    lemma_string_end_is_first(src, pos + 1);
    let close = string_end(src, pos + 1);
    if close > newline {
        assert(src[newline] != '\n');
    }
}

/// The tokens as mathematical values, in the same order.
pub open spec fn token_views(tokens: Seq<Token>) -> Seq<TokenView> {
    tokens.map_values(|t: Token| t@)
}

/// A scan that has emitted `done` and has `rest` to come.
pub open spec fn after(done: Seq<TokenView>, rest: Result<Seq<TokenView>, (int, ScanFault)>)
    -> Result<Seq<TokenView>, (int, ScanFault)> {
    match rest {
        Ok(tokens) => Ok(done + tokens),
        Err(e) => Err(e),
    }
}

/// What a fault is called in a message.
pub open spec fn fault_description(fault: ScanFault) -> Seq<char> {
    match fault {
        ScanFault::UnterminatedString => "Error in parsing string"@,
        ScanFault::MalformedNumber => "Error in parsing number"@,
        ScanFault::UnexpectedCharacter => "Unexpected character"@,
    }
}

/// The text of a message: the line in decimal between `[Line ` and `] `,
/// then what went wrong, a colon and a space, and the description.
pub open spec fn error_text(line_number: int, what: Seq<char>, description: Seq<char>) -> Seq<
    char,
> {
    "[Line "@ + decimal_text(line_number) + "] "@ + what + ": "@ + description
}

/// The message for a failed scan.
pub open spec fn scan_error_text(line_number: int, fault: ScanFault) -> Seq<char> {
    error_text(line_number, "Syntax error"@, fault_description(fault))
}

impl ScanFault {
    /// What the fault is called in a message.
    pub fn description(&self) -> (text: &'static str)
        ensures
            text@ == fault_description(*self),
    {
        match self {
            ScanFault::UnterminatedString => "Error in parsing string",
            ScanFault::MalformedNumber => "Error in parsing number",
            ScanFault::UnexpectedCharacter => "Unexpected character",
        }
    }
}

/// Scans `src`. The result is the tokens of the whole text in order, or the
/// first fault with its line; no token is returned beside a fault.
pub fn scan_chars(src: &[char]) -> (r: Result<Vec<Token>, ScanError>)
    requires
        src@.len() <= i32::MAX,
    ensures
        match scan_text(src@) {
            Ok(tokens) => r is Ok && token_views(r->Ok_0@) == tokens,
            Err((line, fault)) => r == Err::<Vec<Token>, ScanError>(
                ScanError { line_number: line as i32, fault },
            ) && 0 <= line <= i32::MAX,
        },
{
    let n = src.len();
    let mut tokens: Vec<Token> = Vec::new();
    let mut line_number: i32 = 0;
    let mut find_end_of_line = false;
    let mut pos: usize = 0;
    assert(token_views(tokens@) =~= Seq::empty());
    assert(after(Seq::empty(), scan_text(src@)) == scan_text(src@)) by {
        if let Ok(all) = scan_text(src@) {
            assert(Seq::<TokenView>::empty() + all =~= all);
        }
    }
    while pos < n
        invariant
            n == src@.len(),
            n <= i32::MAX,
            0 <= line_number <= pos <= n,
            scan_text(src@) == after(
                token_views(tokens@),
                scan_from(src@, pos as int, line_number as int, find_end_of_line),
            ),
        decreases n - pos,
    {
        let c = src[pos];
        let ghost done = token_views(tokens@);
        let ghost here = step(src@, pos as int, line_number as int, find_end_of_line);
        proof {
            lemma_step_advances(src@, pos as int, line_number as int, find_end_of_line);
        }
        let mut emitted: Option<Token> = None;
        if find_end_of_line && c != '\n' {
            pos += 1;
        } else if c == '\n' {
            emitted = Some(Scanner::single(c, TokenType::LineBreak, line_number));
            find_end_of_line = false;
            line_number += 1;
            pos += 1;
        } else if c == '#' || c == ';' {
            find_end_of_line = true;
            pos += 1;
        } else if let Some(token_type) = punctuation_kind(c) {
            emitted = Some(Scanner::single(c, token_type, line_number));
            pos += 1;
        } else if char_is_space(c) {
            pos += 1;
        } else if c == '"' {
            match Scanner::extract_string(src, pos + 1) {
                Ok((body, next)) => {
                    emitted = Some(Token::new(body, TokenType::String, line_number));
                    pos = next;
                },
                Err(fault) => {
                    return Err(ScanError { line_number, fault });
                },
            }
        } else if char_is_decimal_digit(c) {
            match Scanner::extract_number(src, pos) {
                Ok((lexeme, value, next)) => {
                    emitted = Some(Token::new_number(lexeme, value, line_number));
                    pos = next;
                },
                Err(fault) => {
                    return Err(ScanError { line_number, fault });
                },
            }
        } else if char_is_identifier_start(c) {
            let (lexeme, next) = Scanner::extract_identifier(src, pos);
            emitted = Some(Token::new(lexeme, TokenType::Identifier, line_number));
            pos = next;
        } else {
            return Err(ScanError { line_number, fault: ScanFault::UnexpectedCharacter });
        }
        proof {
            assert(here is Ok);
            let s = here->Ok_0;
            assert(s.next == pos && s.line == line_number && s.skipping == find_end_of_line);
        }
        match emitted {
            Some(token) => {
                proof {
                    let rest = scan_from(src@, pos as int, line_number as int, find_end_of_line);
                    assert(here->Ok_0.token == Some(token@));
                    assert(token_views(tokens@.push(token)) =~= done.push(token@));
                    if let Ok(more) = rest {
                        assert(done + (seq![token@] + more) =~= done.push(token@) + more);
                    }
                }
                tokens.push(token);
            },
            None => {
                assert(here->Ok_0.token is None);
            },
        }
    }
    assert(scan_from(src@, pos as int, line_number as int, find_end_of_line) == Ok::<
        Seq<TokenView>,
        (int, ScanFault),
    >(Seq::empty()));
    assert(token_views(tokens@) + Seq::<TokenView>::empty() =~= token_views(tokens@));
    Ok(tokens)
}

/// `r` is what scanning `source` gives: the tokens of the text, or the message
/// for its first fault.
pub open spec fn is_scan_of(r: Result<Vec<Token>, String>, source: Seq<char>) -> bool {
    match scan_text(source) {
        Ok(tokens) => r is Ok && token_views(r->Ok_0@) == tokens,
        Err((line, fault)) => r is Err && r->Err_0@ == scan_error_text(line, fault),
    }
}

/// Scanning keeps no state: two scans of the same text both succeed with the
/// same tokens, or both fail with the same message.
pub proof fn lemma_scan_is_repeatable(
    first: Result<Vec<Token>, String>,
    second: Result<Vec<Token>, String>,
    source: Seq<char>,
)
    requires
        is_scan_of(first, source),
        is_scan_of(second, source),
    ensures
        first is Ok <==> second is Ok,
        first is Ok ==> token_views(first->Ok_0@) == token_views(second->Ok_0@),
        first is Err ==> first->Err_0@ == second->Err_0@,
{
}

/// The source text that a scanner holds.
pub struct Scanner {
    source: String,
}

impl View for Scanner {
    type V = Seq<char>;

    closed spec fn view(&self) -> Seq<char> {
        self.source@
    }
}

impl Scanner {
    /// A scanner for `source`.
    pub fn new(source: String) -> (scanner: Scanner)
        ensures
            scanner@ == source@,
    {
        Scanner { source: source }
    }

    /// Scans the source text. The result is its tokens in order, or a message
    /// for the first fault, which names the line of the fault, counted from
    /// zero. The scanner is left as it was: a second call gives the same.
    pub fn scan_tokens(&mut self) -> (r: Result<Vec<Token>, String>)
        requires
            old(self)@.len() <= i32::MAX,
        ensures
            final(self)@ == old(self)@,
            is_scan_of(r, old(self)@),
    {
        let src = chars_of(self.source.as_str());
        match scan_chars(src.as_slice()) {
            Ok(tokens) => Ok(tokens),
            Err(e) => Err(Self::error(e.line_number, "Syntax error", e.fault.description())),
        }
    }

    /// The token that the character `c` is by itself.
    fn single(c: char, token_type: TokenType, line_number: i32) -> (token: Token)
        ensures
            token@ == plain_token(seq![c], token_type, line_number as int),
    {
        let mut lexeme = String::new();
        lexeme.push(c);
        assert(lexeme@ =~= seq![c]);
        Token::new(lexeme, token_type, line_number)
    }

    /// The message for a fault on line `line_number`.
    pub fn error(line_number: i32, what: &str, description: &str) -> (message: String)
        ensures
            message@ == error_text(line_number as int, what@, description@),
    {
        let mut message = "[Line ".to_owned();
        message.append(decimal_string(line_number).as_str());
        message.append("] ");
        message.append(what);
        message.append(": ");
        message.append(description);
        message
    }

    /// Reads the body of a string, which starts at `from`, after the opening
    /// quote. The result is the body and the position after the closing
    /// quote; a line break or the end of the text before the closing quote is
    /// a fault. Nothing is unescaped.
    pub fn extract_string(src: &[char], from: usize) -> (r: Result<(String, usize), ScanFault>)
        requires
            from <= src@.len(),
        ensures
            match r {
                Ok((body, next)) => {
                    &&& next == string_end(src@, from as int) + 1
                    &&& next <= src@.len()
                    &&& src@[next - 1] == '"'
                    &&& body@ == src@.subrange(from as int, next - 1)
                },
                Err(fault) => {
                    &&& fault == ScanFault::UnterminatedString
                    &&& (string_end(src@, from as int) == src@.len() || src@[string_end(
                        src@,
                        from as int,
                    )] == '\n')
                },
            },
    {
        let mut pos: usize = from;
        while pos < src.len() && src[pos] != '"' && src[pos] != '\n'
            invariant
                from <= pos <= src@.len(),
                string_end(src@, from as int) == string_end(src@, pos as int),
            decreases src@.len() - pos,
        {
            pos += 1;
        }
        if pos < src.len() && src[pos] == '"' {
            Ok((string_of(src, from, pos), pos + 1))
        } else {
            Err(ScanFault::UnterminatedString)
        }
    }

    /// Reads the number that starts with the digit at `from`: the run of
    /// letters and digits from there on, which must end at a delimiter or at
    /// the end of the text and be an immediate literal. The result is the
    /// text of the number, its value, and the position after it.
    pub fn extract_number(src: &[char], from: usize) -> (r: Result<(String, i32, usize), ScanFault>)
        requires
            from < src@.len(),
        ensures
            match r {
                Ok((lexeme, value, next)) => {
                    &&& next == number_end(src@, from + 1)
                    &&& from < next <= src@.len()
                    &&& next < src@.len() ==> is_delimiter(src@[next as int])
                    &&& lexeme@ == src@.subrange(from as int, next as int)
                    &&& parse_immediate(lexeme@) == Some(value as int)
                },
                Err(fault) => {
                    let end = number_end(src@, from + 1);
                    &&& fault == ScanFault::MalformedNumber
                    &&& (end < src@.len() && !is_delimiter(src@[end])) || parse_immediate(
                        src@.subrange(from as int, end),
                    ) is None
                },
            },
    {
        let n = src.len();
        let mut pos: usize = from + 1;
        while pos < n && char_is_alphanumeric(src[pos])
            invariant
                n == src@.len(),
                from < pos <= n,
                number_end(src@, from + 1) == number_end(src@, pos as int),
            decreases src@.len() - pos,
        {
            pos += 1;
        }
        if pos < src.len() && !char_is_delimiter(src[pos]) {
            return Err(ScanFault::MalformedNumber);
        }
        let lexeme = string_of(src, from, pos);
        match imm_string_to_i32(lexeme.as_str()) {
            Ok(value) => Ok((lexeme, value, pos)),
            Err(_) => Err(ScanFault::MalformedNumber),
        }
    }

    /// Reads the identifier that starts at `from`: the run of identifier
    /// characters from the next position on. The result is its text and the
    /// position after it.
    pub fn extract_identifier(src: &[char], from: usize) -> (r: (String, usize))
        requires
            from < src@.len(),
        ensures
            r.1 == identifier_end(src@, from + 1),
            from < r.1 <= src@.len(),
            r.0@ == src@.subrange(from as int, r.1 as int),
    {
        let n = src.len();
        let mut pos: usize = from + 1;
        while pos < n && char_is_identifier_part(src[pos])
            invariant
                n == src@.len(),
                from < pos <= n,
                identifier_end(src@, from + 1) == identifier_end(src@, pos as int),
            decreases src@.len() - pos,
        {
            pos += 1;
        }
        (string_of(src, from, pos), pos)
    }
}

} // verus!
