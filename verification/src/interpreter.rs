//! The interpreter: a lexer over a character cursor, a token-consuming
//! parser, and an evaluator for the fixed grammar `Integer Plus Integer`.

use vstd::prelude::*;
use vstd::string::StrSliceExecFns;

verus! {

/// Token represents a specific item type of a language with an associated value.
/// Start can be considered as the beginning of a stream of tokens, and can be used as
/// an initial value. EOF is the end of a file i.e. the end of a token stream.
#[derive(Debug, PartialEq, Eq, Structural, Clone, Copy)]
pub enum Token {
    Start,
    Integer(usize),
    Plus,
    EOF,
}

/// The value carried by a token: a single decimal digit for `Integer`,
/// the fixed `'+'` symbol for `Plus`.
#[derive(Debug, PartialEq, Clone, Copy)]
pub enum TokenValue {
    Digit(usize),
    Symbol(char),
}

impl Token {
    /// get_value returns the value of a token in an Option enum. The returned
    /// value will be in a type appropriate for the token.
    /// Token   | Value
    /// ---------------------------
    /// Integer | its digit (usize)
    /// Plus    | '+' (char)
    /// Start   | No value
    /// EOF     | No value
    pub fn get_value(self) -> (r: Option<TokenValue>)
        ensures
            r == (match self {
                Token::Start => None::<TokenValue>,
                Token::Integer(value) => Some(TokenValue::Digit(value)),
                Token::Plus => Some(TokenValue::Symbol('+')),
                Token::EOF => None::<TokenValue>,
            }),
    {
        match self {
            Token::Start => None,
            Token::Integer(value) => Some(TokenValue::Digit(value)),
            Token::Plus => Some(TokenValue::Symbol('+')),
            Token::EOF => None,
        }
    }
}

/// True of the ten decimal digit characters.
pub open spec fn is_digit(c: char) -> bool {
    '0' <= c && c <= '9'
}

/// The numeric value of a decimal digit character.
pub open spec fn digit_value(c: char) -> int
    recommends
        is_digit(c),
{
    c as int - '0' as int
}

/// True of the characters the lexer recognizes: digits and `'+'`.
pub open spec fn is_token_char(c: char) -> bool {
    is_digit(c) || c == '+'
}

/// An error surfaced to the caller while interpreting an expression.
#[derive(Debug, PartialEq, Clone, Copy)]
pub enum EvalError {
    /// The lexer met a character that is neither a digit nor `'+'`.
    LexError { unrecognized: char },
    /// A consumption step found a token of the wrong variant at its
    /// grammar position.
    ParseError { expected: TokenKind, found: Token },
}

/// The variant of a token, without its payload; names the token a
/// consumption step expected.
#[derive(Debug, PartialEq, Eq, Structural, Clone, Copy)]
pub enum TokenKind {
    Start,
    Integer,
    Plus,
    EOF,
}

/// The token the lexer produces when its cursor stands at `pos` in `input`:
/// `EOF` at or past the end, `Integer` on a digit, `Plus` on `'+'`, and a
/// `LexError` carrying the character on anything else.
pub open spec fn spec_token_at(input: Seq<char>, pos: int) -> Result<Token, EvalError>
    recommends
        0 <= pos,
{
    if pos >= input.len() {
        Ok(Token::EOF)
    } else if is_digit(input[pos]) {
        Ok(Token::Integer(digit_value(input[pos]) as usize))
    } else if input[pos] == '+' {
        Ok(Token::Plus)
    } else {
        Err(EvalError::LexError { unrecognized: input[pos] })
    }
}

/// Where the lexer's cursor stands after one lexing step from `pos`: one
/// further on a recognized character, unmoved at the end of the input and
/// on an unrecognized character.
pub open spec fn spec_next_pos(input: Seq<char>, pos: int) -> int
    recommends
        0 <= pos,
{
    if pos < input.len() && is_token_char(input[pos]) {
        pos + 1
    } else {
        pos
    }
}

/// What evaluating the grammar `Integer Plus Integer` does from a cursor at
/// `pos` with `cur` as the current token: the result handed back, the final
/// cursor position, and the final current token. Lexing proceeds one token
/// at a time; the first token must be an `Integer`, the second `Plus`, the
/// third an `Integer` again, and the result is the sum of the two digits.
/// The first lexical or grammatical fault stops evaluation and is the
/// result; trailing input after the third token is not inspected.
pub open spec fn spec_expression(input: Seq<char>, pos: int, cur: Token) -> (Result<
    usize,
    EvalError,
>, int, Token)
    recommends
        0 <= pos,
{
    match spec_token_at(input, pos) {
        Err(e) => (Err(e), pos, cur),
        Ok(first) => {
            let p1 = spec_next_pos(input, pos);
            if !(first is Integer) {
                (
                    Err(EvalError::ParseError { expected: TokenKind::Integer, found: first }),
                    p1,
                    first,
                )
            } else {
                match spec_token_at(input, p1) {
                    Err(e) => (Err(e), p1, first),
                    Ok(second) => {
                        let p2 = spec_next_pos(input, p1);
                        if !(second is Plus) {
                            (
                                Err(
                                    EvalError::ParseError {
                                        expected: TokenKind::Plus,
                                        found: second,
                                    },
                                ),
                                p2,
                                second,
                            )
                        } else {
                            match spec_token_at(input, p2) {
                                Err(e) => (Err(e), p2, second),
                                Ok(third) => {
                                    let p3 = spec_next_pos(input, p2);
                                    if !(third is Integer) {
                                        (
                                            Err(
                                                EvalError::ParseError {
                                                    expected: TokenKind::Integer,
                                                    found: third,
                                                },
                                            ),
                                            p3,
                                            third,
                                        )
                                    } else {
                                        (
                                            Ok((first->Integer_0 + third->Integer_0) as usize),
                                            p3,
                                            third,
                                        )
                                    }
                                },
                            }
                        }
                    },
                }
            }
        },
    }
}

/// The value of an expression: the sum of its two digits, or the first
/// lexical or grammatical fault met while reading it from the start.
pub open spec fn spec_evaluate(input: Seq<char>) -> Result<usize, EvalError> {
    spec_expression(input, 0, Token::Start).0
}

/// The interpreter: owns the input text's cursor and the most recently
/// produced token, and evaluates the fixed grammar `Integer Plus Integer`.
pub struct Interpreter<'a> {
    pub input: &'a str,
    pub pos: usize,
    pub current_token: Token,
}

impl<'a> Interpreter<'a> {
    /// An interpreter over `input`, with the cursor at the first character
    /// and no token consumed yet.
    pub fn new(input: &'a str) -> (r: Interpreter<'a>)
        ensures
            r.input@ == input@,
            r.pos == 0,
            r.current_token == Token::Start,
    {
        Interpreter { input, pos: 0, current_token: Token::Start }
    }

    /// get_next_token is a lexical analyser, also known as a scanner or tokenizer.
    /// It returns a Result containing either a Token or a LexError, and advances
    /// the cursor past each recognized character.
    pub fn get_next_token(&mut self) -> (r: Result<Token, EvalError>)
        ensures
            final(self).input@ == old(self).input@,
            final(self).current_token == old(self).current_token,
            r == spec_token_at(old(self).input@, old(self).pos as int),
            final(self).pos as int == spec_next_pos(old(self).input@, old(self).pos as int),
    {
        let len: usize = self.input.unicode_len();
        if self.pos < len {
            let current_char = self.input.get_char(self.pos);
            if '0' <= current_char && current_char <= '9' {
                self.pos = self.pos + 1;
                let value: u32 = (current_char as u32) - ('0' as u32);
                Ok(Token::Integer(value as usize))
            } else if current_char == '+' {
                self.pos = self.pos + 1;
                Ok(Token::Plus)
            } else {
                Err(EvalError::LexError { unrecognized: current_char })
            }
        } else {
            Ok(Token::EOF)
        }
    }

    /// eat_integer expects that the interpreter's current token is an integer.
    /// If the current token is correct the next token will be scanned and its
    /// Result returned. An incorrect token results in a ParseError naming the
    /// expected variant and the token actually found.
    pub fn eat_integer(&mut self) -> (r: Result<Token, EvalError>)
        ensures
            final(self).input@ == old(self).input@,
            final(self).current_token == old(self).current_token,
            old(self).current_token is Integer ==> {
                &&& r == spec_token_at(old(self).input@, old(self).pos as int)
                &&& final(self).pos as int == spec_next_pos(old(self).input@, old(self).pos as int)
            },
            !(old(self).current_token is Integer) ==> {
                &&& r == Err::<Token, EvalError>(EvalError::ParseError {
                    expected: TokenKind::Integer,
                    found: old(self).current_token,
                })
                &&& final(self).pos == old(self).pos
            },
    {
        match self.current_token {
            Token::Integer(_value) => self.get_next_token(),
            _ => Err(EvalError::ParseError {
                expected: TokenKind::Integer,
                found: self.current_token,
            }),
        }
    }

    /// eat_plus expects that the interpreter's current token is a plus operator.
    /// If the current token is correct the next token will be scanned and its
    /// Result returned. An incorrect token results in a ParseError naming the
    /// expected variant and the token actually found.
    pub fn eat_plus(&mut self) -> (r: Result<Token, EvalError>)
        ensures
            final(self).input@ == old(self).input@,
            final(self).current_token == old(self).current_token,
            old(self).current_token is Plus ==> {
                &&& r == spec_token_at(old(self).input@, old(self).pos as int)
                &&& final(self).pos as int == spec_next_pos(old(self).input@, old(self).pos as int)
            },
            !(old(self).current_token is Plus) ==> {
                &&& r == Err::<Token, EvalError>(EvalError::ParseError {
                    expected: TokenKind::Plus,
                    found: old(self).current_token,
                })
                &&& final(self).pos == old(self).pos
            },
    {
        match self.current_token {
            Token::Plus => self.get_next_token(),
            _ => Err(EvalError::ParseError {
                expected: TokenKind::Plus,
                found: self.current_token,
            }),
        }
    }

    /// expression interprets the input of the interpreter and evaluates the
    /// tokens. The expected order of tokens is Integer->Plus->Integer, and
    /// the result is the sum of the two digits. An unexpected character or
    /// token is returned as the corresponding EvalError.
    pub fn expression(&mut self) -> (r: Result<usize, EvalError>)
        ensures
            final(self).input@ == old(self).input@,
            ({
                let outcome = spec_expression(
                    old(self).input@,
                    old(self).pos as int,
                    old(self).current_token,
                );
                &&& r == outcome.0
                &&& final(self).pos as int == outcome.1
                &&& final(self).current_token == outcome.2
            }),
    {
        match self.get_next_token() {
            Err(e) => {
                return Err(e);
            },
            Ok(token) => {
                self.current_token = token;
            },
        }
        let a: usize = match self.current_token {
            Token::Integer(value) => value,
            _ => {
                return Err(EvalError::ParseError {
                    expected: TokenKind::Integer,
                    found: self.current_token,
                });
            },
        };
        match self.eat_integer() {
            Err(e) => {
                return Err(e);
            },
            Ok(token) => {
                self.current_token = token;
            },
        }
        match self.eat_plus() {
            Err(e) => {
                return Err(e);
            },
            Ok(token) => {
                self.current_token = token;
            },
        }
        let b: usize = match self.current_token {
            Token::Integer(value) => value,
            _ => {
                return Err(EvalError::ParseError {
                    expected: TokenKind::Integer,
                    found: self.current_token,
                });
            },
        };
        Ok(a + b)
    }
}

/// evaluate interprets `input` as an expression of the fixed grammar
/// `Integer Plus Integer` and returns the sum of its two digits, or the
/// first lexical or grammatical fault met while reading it.
pub fn evaluate(input: &str) -> (r: Result<usize, EvalError>)
    ensures
        r == spec_evaluate(input@),
{
    let mut interpreter = Interpreter::new(input);
    interpreter.expression()
}

/// For every pair of decimal digits, evaluating the three-character input
/// `<digit> '+' <digit>` succeeds and returns the sum of the two digits.
pub proof fn lemma_evaluate_digit_sum(input: Seq<char>)
    requires
        input.len() == 3,
        is_digit(input[0]),
        input[1] == '+',
        is_digit(input[2]),
    ensures
        spec_evaluate(input) == Ok::<usize, EvalError>(
            (digit_value(input[0]) + digit_value(input[2])) as usize,
        ),
        0 <= digit_value(input[0]) + digit_value(input[2]) <= 18,
{
}

/// The end of the input is terminal: where the lexer yields `EOF` its cursor
/// does not move, so every subsequent lexing step yields `EOF` again. In
/// particular, lexing the empty input yields `EOF` on the first step and on
/// every one after it.
pub proof fn lemma_end_of_input_terminal(input: Seq<char>, pos: int)
    requires
        0 <= pos,
        spec_token_at(input, pos) == Ok::<Token, EvalError>(Token::EOF),
    ensures
        spec_next_pos(input, pos) == pos,
        spec_token_at(input, spec_next_pos(input, pos)) == Ok::<Token, EvalError>(Token::EOF),
{
}

/// On an input composed solely of digits and `'+'` characters, no lexing
/// step yields a LexError, wherever the cursor stands.
pub proof fn lemma_token_chars_no_lex_error(input: Seq<char>, pos: int)
    requires
        0 <= pos,
        forall|i: int| 0 <= i < input.len() ==> is_token_char(#[trigger] input[i]),
    ensures
        !(spec_token_at(input, pos) is Err),
{
}

/// Where the lexer's cursor stands after `n` lexing steps from the start of
/// the input.
pub open spec fn spec_pos_after(input: Seq<char>, n: nat) -> int
    decreases n,
{
    if n == 0 {
        0
    } else {
        spec_next_pos(input, spec_pos_after(input, (n - 1) as nat))
    }
}

proof fn lemma_pos_after_recognized_prefix(input: Seq<char>, n: nat, j: int)
    requires
        n <= j <= input.len(),
        forall|i: int| 0 <= i < j ==> is_token_char(#[trigger] input[i]),
    ensures
        spec_pos_after(input, n) == n,
    decreases n,
{
    if n > 0 {
        lemma_pos_after_recognized_prefix(input, (n - 1) as nat, j);
    }
}

/// On an input whose first unrecognized character stands at position `j`,
/// lexing from the start eventually raises a LexError at exactly that
/// character: the first `j` steps each succeed and advance the cursor by
/// one, so after `j` steps the cursor stands at `j`, and the step taken
/// there yields the LexError carrying `input[j]`.
pub proof fn lemma_lex_error_reached(input: Seq<char>, j: int)
    requires
        0 <= j < input.len(),
        !is_token_char(input[j]),
        forall|i: int| 0 <= i < j ==> is_token_char(#[trigger] input[i]),
    ensures
        spec_pos_after(input, j as nat) == j,
        spec_token_at(input, j) == Err::<Token, EvalError>(
            EvalError::LexError { unrecognized: input[j] },
        ),
{
    lemma_pos_after_recognized_prefix(input, j as nat, j);
}

} // verus!
