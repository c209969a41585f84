//! Tokens of the source language. Scanning itself is not written yet; these
//! are the types a scanner hands to a compiler.
use vstd::prelude::*;

verus! {

/// Position of a scanner in its source.
#[allow(dead_code)]
pub struct Scanner {
    start: usize,
    current: usize,
    line: usize,
}

/// A token: its kind, the text it was read from and its line.
pub struct Token {
    token_type: TokenType,
    lexeme: &'static str,
    line: usize,
}

/// The kinds of token.
#[derive(Debug, Clone, Copy, PartialEq, Eq, Structural)]
pub enum TokenType {
    // Single character
    LeftParen,
    RightParen,
    LeftBrace,
    RightBrace,
    Comma,
    Dot,
    Minus,
    Plus,
    SemiColon,
    Slash,
    Star,
    // One or two characters
    Bang,
    BangEqual,
    Equal,
    EqualEqual,
    Greater,
    GreaterEqual,
    Less,
    LessEqual,
    // Literals
    Identifier,
    String,
    Number,
    // Keywords
    Add,
    Class,
    Else,
    False,
    For,
    Fun,
    If,
    Nil,
    Or,
    Print,
    Return,
    Super,
    This,
    True,
    Var,
    While,
    Error,
    Eof,
}

impl Token {
    /// The token's kind.
    pub closed spec fn kind(&self) -> TokenType {
        self.token_type
    }

    /// The text the token was read from.
    pub closed spec fn text(&self) -> Seq<char> {
        self.lexeme@
    }

    /// The token's source line.
    pub closed spec fn line_of(&self) -> nat {
        self.line as nat
    }

    /// A token of kind `token_type` on `line`, with no text yet.
    pub fn new(token_type: TokenType, line: usize) -> (r: Self)
        ensures
            r.kind() == token_type,
            r.line_of() == line,
            r.text() == Seq::<char>::empty(),
    {
        proof {
            reveal_strlit("");
        }
        Self { token_type, line, lexeme: "" }
    }

    /// An `Add` token on line 0 whose text is the first two characters of `source`.
    #[allow(dead_code)]
    fn example(source: &'static str) -> (r: Token)
        requires
            source.is_ascii(),
            source@.len() >= 2,
        ensures
            r.kind() == TokenType::Add,
            r.line_of() == 0,
            r.text() == source@.subrange(0, 2),
    {
        let x = source.substring_ascii(0, 2);
        Token { token_type: TokenType::Add, line: 0, lexeme: x }
    }
}

} // verus!
