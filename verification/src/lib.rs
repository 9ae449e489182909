//! A verified evaluator for arithmetic expressions of the restricted form
//! `<digit> '+' <digit>` (for example `"3+5"`), built from the three classic
//! compiler front-end stages: a lexer that turns characters into tokens, a
//! parser that consumes tokens in grammatical order, and an evaluator that
//! drives the parser through the fixed grammar `Integer Plus Integer` and
//! adds the two digits.

pub mod interpreter;
pub mod token;
pub mod tokenizer;
