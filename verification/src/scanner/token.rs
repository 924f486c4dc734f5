//! Tokens: what the scanner hands to a parser.

use vstd::prelude::*;

verus! {

/// The kind of a token.
#[derive(Debug, Clone, Copy, PartialEq, Eq, Structural)]
pub enum TokenType {
    // Single character tokens
    LeftParantheses,
    RightParantheses,
    Colon,
    Dot,
    Comma,
    Percent,
    LineBreak,
    // Multi character tokens
    Identifier,
    Number,
    String,
}

/// A token as a mathematical value.
pub struct TokenView {
    /// The characters of the token; for a string, what stands between the quotes.
    pub lexeme: Seq<char>,
    pub token_type: TokenType,
    /// The value of a number; `None` for every other kind.
    pub literal: Option<int>,
    /// The line on which the token starts, counted from zero.
    pub line_number: int,
}

/// A token of the source text. It is made once and never changed.
#[derive(Debug)]
pub struct Token {
    lexeme: String,
    token_type: TokenType,
    literal: Option<i32>,
    line_number: i32,
}

impl View for Token {
    type V = TokenView;

    closed spec fn view(&self) -> TokenView {
        TokenView {
            lexeme: self.lexeme@,
            token_type: self.token_type,
            literal: match self.literal {
                Some(v) => Some(v as int),
                None => None,
            },
            line_number: self.line_number as int,
        }
    }
}

impl Token {
    /// A token that carries no value.
    pub fn new(lexeme: String, token_type: TokenType, line_number: i32) -> (token: Token)
        ensures
            token@ == (TokenView {
                lexeme: lexeme@,
                token_type,
                literal: None,
                line_number: line_number as int,
            }),
    {
        Token { lexeme, token_type, line_number, literal: None }
    }

    /// A number token with its value.
    pub fn new_number(lexeme: String, literal: i32, line_number: i32) -> (token: Token)
        ensures
            token@ == (TokenView {
                lexeme: lexeme@,
                token_type: TokenType::Number,
                literal: Some(literal as int),
                line_number: line_number as int,
            }),
    {
        Token { lexeme, token_type: TokenType::Number, line_number, literal: Some(literal) }
    }

    /// The characters of the token.
    pub fn lexeme(&self) -> (lexeme: &str)
        ensures
            lexeme@ == self@.lexeme,
    {
        self.lexeme.as_str()
    }

    /// The kind of the token.
    pub fn token_type(&self) -> (token_type: TokenType)
        ensures
            token_type == self@.token_type,
    {
        self.token_type
    }

    /// The value of a number token.
    pub fn literal(&self) -> (literal: Option<i32>)
        ensures
            literal is Some <==> self@.literal is Some,
            literal is Some ==> literal->0 as int == self@.literal->0,
    {
        self.literal
    }

    /// The line on which the token starts, counted from zero.
    pub fn line_number(&self) -> (line_number: i32)
        ensures
            line_number as int == self@.line_number,
    {
        self.line_number
    }
}

} // verus!
