//! A whole-string tokenizer: turns a string of digits and `'+'` signs into
//! the complete sequence of its tokens in one pass.

use vstd::prelude::*;
use vstd::string::StrSliceExecFns;
use crate::interpreter::{digit_value, is_digit, is_token_char};

verus! {

/// Token represents a specific 'part of speech' of a programming language.
/// A token will also have a value of what it specifically represents.
#[derive(Debug, PartialEq, Eq, Structural, Clone, Copy)]
pub enum Token {
    Integer(u32),
    Operator(Symbol),
}

/// Symbol is a specific value for tokens, such as mathematical operators.
#[derive(Debug, PartialEq, Eq, Structural, Clone, Copy)]
pub enum Symbol {
    Plus,
}

/// The token a single recognized character stands for: a digit becomes an
/// `Integer` carrying its value, and `'+'` becomes the `Plus` operator.
pub open spec fn spec_char_token(c: char) -> Token
    recommends
        is_token_char(c),
{
    if is_digit(c) {
        Token::Integer(digit_value(c) as u32)
    } else {
        Token::Operator(Symbol::Plus)
    }
}

/// The token sequence of a text of recognized characters: one token per
/// character, in order.
pub open spec fn spec_tokenize(s: Seq<char>) -> Seq<Token> {
    s.map_values(|c: char| spec_char_token(c))
}

/// Tokenizer is used for turning the parts of a type into individual tokens.
pub trait Tokenizer: View<V = Seq<char>> {
    /// Turns the whole value into its token sequence, one token per
    /// recognized character.
    fn tokenize(&self) -> (tokens: Vec<Token>)
        requires
            forall|i: int| 0 <= i < self@.len() ==> is_token_char(#[trigger] self@[i]),
        ensures
            tokens@ == spec_tokenize(self@),
    ;
}

impl Tokenizer for String {
    fn tokenize(&self) -> (tokens: Vec<Token>) {
        let text: &str = self.as_str();
        let len: usize = text.unicode_len();
        let mut tokens: Vec<Token> = Vec::new();
        let mut i: usize = 0;
        while i < len
            invariant
                text@ == self@,
                len == self@.len(),
                i <= len,
                forall|k: int| 0 <= k < self@.len() ==> is_token_char(#[trigger] self@[k]),
                tokens@ == spec_tokenize(self@.take(i as int)),
            decreases len - i,
        {
            let ch = text.get_char(i);
            if '0' <= ch && ch <= '9' {
                let value: u32 = (ch as u32) - ('0' as u32);
                tokens.push(Token::Integer(value));
            } else {
                tokens.push(Token::Operator(Symbol::Plus));
            }
            i = i + 1;
            proof {
                assert(tokens@ =~= spec_tokenize(self@.take(i as int)));
            }
        }
        proof {
            assert(self@.take(len as int) =~= self@);
        }
        tokens
    }
}

} // verus!
