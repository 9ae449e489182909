use digit_add::tokenizer::{Symbol, Token, Tokenizer};

#[test]
fn test_tokenize() {
    let expression = "3+5".to_string();
    let boundry_case = "0+9".to_string();
    let empty = "".to_string();

    assert_eq!(
        expression.tokenize(),
        vec![
            Token::Integer(3),
            Token::Operator(Symbol::Plus),
            Token::Integer(5)
        ]
    );
    assert_eq!(
        boundry_case.tokenize(),
        vec![
            Token::Integer(0),
            Token::Operator(Symbol::Plus),
            Token::Integer(9)
        ]
    );
    assert_eq!(empty.tokenize(), vec![]);
}

#[test]
fn test_tokenize_every_digit() {
    let digits = "0123456789".to_string();

    assert_eq!(
        digits.tokenize(),
        vec![
            Token::Integer(0),
            Token::Integer(1),
            Token::Integer(2),
            Token::Integer(3),
            Token::Integer(4),
            Token::Integer(5),
            Token::Integer(6),
            Token::Integer(7),
            Token::Integer(8),
            Token::Integer(9)
        ]
    );
}

#[test]
fn test_tokenize_only_operators() {
    let operators = "++".to_string();

    assert_eq!(
        operators.tokenize(),
        vec![
            Token::Operator(Symbol::Plus),
            Token::Operator(Symbol::Plus)
        ]
    );
}
