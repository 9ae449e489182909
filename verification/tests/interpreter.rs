use digit_add::interpreter::{evaluate, EvalError, Interpreter, Token, TokenKind, TokenValue};

#[test]
fn test_get_value() {
    let token = Token::Integer(5);

    assert_eq!(token.get_value(), Some(TokenValue::Digit(5)));
}

#[test]
fn test_get_value_start() {
    assert_eq!(Token::Start.get_value(), None);
}

#[test]
fn test_get_value_plus() {
    assert_eq!(Token::Plus.get_value(), Some(TokenValue::Symbol('+')));
}

#[test]
fn test_get_value_eof() {
    assert_eq!(Token::EOF.get_value(), None);
}

#[test]
fn test_get_next_token() {
    let mut interpreter = Interpreter {
        input: "4+5",
        pos: 0,
        current_token: Token::Start,
    };

    assert_eq!(interpreter.get_next_token().unwrap(), Token::Integer(4));
    assert_eq!(interpreter.get_next_token().unwrap(), Token::Plus);
    assert_eq!(interpreter.get_next_token().unwrap(), Token::Integer(5));
    assert_eq!(interpreter.get_next_token().unwrap(), Token::EOF);
}

#[test]
fn test_get_next_token_sequence() {
    let mut interpreter = Interpreter::new("3+5");

    assert_eq!(interpreter.get_next_token().unwrap(), Token::Integer(3));
    assert_eq!(interpreter.get_next_token().unwrap(), Token::Plus);
    assert_eq!(interpreter.get_next_token().unwrap(), Token::Integer(5));
    assert_eq!(interpreter.get_next_token().unwrap(), Token::EOF);
    assert_eq!(interpreter.get_next_token().unwrap(), Token::EOF);
}

#[test]
fn test_get_next_token_empty_input_idempotent() {
    let mut interpreter = Interpreter::new("");

    assert_eq!(interpreter.get_next_token().unwrap(), Token::EOF);
    assert_eq!(interpreter.get_next_token().unwrap(), Token::EOF);
    assert_eq!(interpreter.get_next_token().unwrap(), Token::EOF);
}

#[test]
fn test_get_next_token_never_errs_on_digits_and_plus() {
    let mut interpreter = Interpreter::new("1+2+3++");

    loop {
        let token = interpreter.get_next_token().unwrap();
        if token == Token::EOF {
            break;
        }
    }
}

#[test]
fn test_get_next_token_unrecognized_character() {
    let mut interpreter = Interpreter::new("3x5");

    assert_eq!(interpreter.get_next_token().unwrap(), Token::Integer(3));
    assert_eq!(
        interpreter.get_next_token(),
        Err(EvalError::LexError { unrecognized: 'x' })
    );
    assert_eq!(interpreter.pos, 1);
}

#[test]
fn test_eat_integer() {
    let mut interpreter = Interpreter {
        input: "+5", // We have already consumed the first integer: 3, from this input.
        pos: 0,
        current_token: Token::Integer(3),
    };

    let token = interpreter.eat_integer().unwrap();

    assert_eq!(token, Token::Plus);
}

#[test]
fn test_eat_integer_rejects_wrong_token() {
    let mut interpreter = Interpreter {
        input: "5",
        pos: 0,
        current_token: Token::Plus,
    };

    assert_eq!(
        interpreter.eat_integer(),
        Err(EvalError::ParseError {
            expected: TokenKind::Integer,
            found: Token::Plus,
        })
    );
}

#[test]
fn test_eat_plus_rejects_wrong_token() {
    let mut interpreter = Interpreter {
        input: "+5",
        pos: 0,
        current_token: Token::Integer(3),
    };

    assert_eq!(
        interpreter.eat_plus(),
        Err(EvalError::ParseError {
            expected: TokenKind::Plus,
            found: Token::Integer(3),
        })
    );
}

#[test]
fn test_expression() {
    let mut interpreter = Interpreter {
        input: "3+5",
        pos: 0,
        current_token: Token::Start,
    };

    let result = interpreter.expression();

    assert_eq!(result, Ok(8));
}

#[test]
fn test_evaluate_three_plus_five() {
    assert_eq!(evaluate("3+5"), Ok(8));
}

#[test]
fn test_evaluate_zero_plus_nine() {
    assert_eq!(evaluate("0+9"), Ok(9));
}

#[test]
fn test_evaluate_all_digit_pairs() {
    for a in 0..10usize {
        for b in 0..10usize {
            let expression = format!("{}+{}", a, b);
            assert_eq!(evaluate(&expression), Ok(a + b));
        }
    }
}

#[test]
fn test_evaluate_ignores_trailing_input() {
    assert_eq!(evaluate("3+5+7"), Ok(8));
}

#[test]
fn test_evaluate_empty_input() {
    assert_eq!(
        evaluate(""),
        Err(EvalError::ParseError {
            expected: TokenKind::Integer,
            found: Token::EOF,
        })
    );
}

#[test]
fn test_evaluate_leading_plus() {
    assert_eq!(
        evaluate("+5"),
        Err(EvalError::ParseError {
            expected: TokenKind::Integer,
            found: Token::Plus,
        })
    );
}

#[test]
fn test_evaluate_missing_operator() {
    assert_eq!(
        evaluate("35"),
        Err(EvalError::ParseError {
            expected: TokenKind::Plus,
            found: Token::Integer(5),
        })
    );
}

#[test]
fn test_evaluate_missing_second_integer() {
    assert_eq!(
        evaluate("3+"),
        Err(EvalError::ParseError {
            expected: TokenKind::Integer,
            found: Token::EOF,
        })
    );
}

#[test]
fn test_evaluate_lex_error_first_character() {
    assert_eq!(evaluate("a+5"), Err(EvalError::LexError { unrecognized: 'a' }));
}

#[test]
fn test_evaluate_lex_error_after_integer() {
    assert_eq!(evaluate("3x5"), Err(EvalError::LexError { unrecognized: 'x' }));
}
