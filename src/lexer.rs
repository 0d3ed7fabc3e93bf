use crate::text::string_from_chars;
use vstd::prelude::*;

verus! {

/// Tokens recognized by the parser.
#[derive(Clone, Copy, Debug, PartialEq, Eq, Structural)]
pub enum Token {
    /// Addition.
    Plus,
    /// Subtraction or negation.
    Minus,
}

/// The bracketed symbol that stands for a token in debug output.
pub open spec fn token_text(t: Token) -> Seq<char> {
    match t {
        Token::Plus => seq!['[', '+', ']'],
        Token::Minus => seq!['[', '-', ']'],
    }
}

impl Token {
    /// The token's symbol in brackets: `[+]` or `[-]`.
    pub fn to_debug_string(&self) -> (r: String)
        ensures
            r@ == token_text(*self),
    {
        let symbol = match self {
            Token::Plus => '+',
            Token::Minus => '-',
        };
        let chars = vec!['[', symbol, ']'];
        proof {
            assert(chars@ =~= token_text(*self));
        }
        string_from_chars(&chars)
    }
}

} // verus!
