//! Numbers and tokens, as the interpreter sees them.
use vstd::prelude::*;

verus! {

/// A 64-bit floating-point number, held as its IEEE-754 binary64 bit
/// pattern. The interpreter stores numbers and hands them on; it never
/// computes with them.
#[derive(Clone, Copy, Debug, PartialEq, Eq)]
pub struct Number {
    pub bits: u64,
}

impl Number {
    /// Positive zero, the number that stands in for an operand that cannot
    /// be resolved.
    pub open spec fn spec_zero() -> Number {
        Number { bits: 0 }
    }

    /// Positive zero.
    #[verifier::when_used_as_spec(spec_zero)]
    pub fn zero() -> (zero: Number)
        ensures
            zero == Number::spec_zero(),
    {
        Number { bits: 0 }
    }
}

/// One token of a line: its text, and the number that the text spells where
/// it spells one. Whether a text spells a number, and which, is for the
/// caller to say; `number` is `None` for a text that is no numeric literal.
#[derive(Clone, Debug, PartialEq, Eq)]
pub struct Token {
    pub text: String,
    pub number: Option<Number>,
}

impl Token {
    /// A token with the given text and reading.
    pub fn new(text: String, number: Option<Number>) -> (token: Token)
        ensures
            token.text == text,
            token.number == number,
    {
        Token { text, number }
    }
}

/// The texts of a sequence of tokens.
pub open spec fn spellings(tokens: Seq<Token>) -> Seq<Seq<char>> {
    Seq::new(tokens.len(), |i: int| tokens[i].text@)
}

} // verus!
