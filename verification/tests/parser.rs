use brainfuck::syntax::{Expression, ParseError, Program, Source};
use brainfuck::token::Token;

#[test]
fn test_parser() {
    let code = Source::from("[+]-");
    let program = Program::try_from(code).unwrap_or_else(|e| panic!("Error: {:?}", e));
    assert_eq!(
        program.ast,
        vec![
            Expression::Loop(vec![Expression::Operator(Token::PlusOne)]),
            Expression::Operator(Token::MinusOne),
        ]
    );
}

#[test]
fn test_parser_nested_loop() {
    let code = Source::from("[[+]-]");
    let program = Program::try_from(code).unwrap_or_else(|e| panic!("Error: {:?}", e));
    assert_eq!(
        program.ast,
        vec![Expression::Loop(vec![
            Expression::Loop(vec![Expression::Operator(Token::PlusOne)]),
            Expression::Operator(Token::MinusOne),
        ])]
    );
}

#[test]
fn test_comment() {
    let code = Source::from("// comment\n+");
    let program = Program::try_from(code).unwrap_or_else(|e| panic!("Error: {:?}", e));
    assert_eq!(
        program.ast,
        vec![Expression::Skip, Expression::Operator(Token::PlusOne)]
    );
}

#[test]
fn test_eol() {
    let code = Source::from("\n+\n-\n");
    let program = Program::try_from(code).unwrap_or_else(|e| panic!("Error: {:?}", e));
    assert_eq!(
        program.ast,
        vec![
            Expression::Skip,
            Expression::Operator(Token::PlusOne),
            Expression::Skip,
            Expression::Operator(Token::MinusOne),
            Expression::Skip,
        ]
    );
}

#[test]
fn test_white_space() {
    let code = Source::from(" +\t-");
    let program = Program::try_from(code).unwrap_or_else(|e| panic!("Error: {:?}", e));
    assert_eq!(
        program.ast,
        vec![
            Expression::Skip,
            Expression::Operator(Token::PlusOne),
            Expression::Skip,
            Expression::Operator(Token::MinusOne),
        ]
    );
}

#[test]
fn single_loop_parses() {
    let program =
        Program::try_from(Source::from("[+]")).unwrap_or_else(|e| panic!("Error: {:?}", e));
    assert_eq!(
        program.ast,
        vec![Expression::Loop(vec![Expression::Operator(Token::PlusOne)])]
    );
}

#[test]
fn empty_loop_is_a_parse_error() {
    match Program::try_from(Source::from("[]")) {
        Err(ParseError::Expression(lp_reason, _)) => {
            assert_eq!(*lp_reason, ParseError::ExpectedExpression);
        }
        Err(other) => panic!("Error: {:?}", other),
        Ok(_) => panic!("an empty loop body must be rejected"),
    }
}

#[test]
fn unclosed_loop_is_a_parse_error() {
    match Program::try_from(Source::from("[+")) {
        Err(ParseError::Expression(lp_reason, _)) => {
            assert_eq!(*lp_reason, ParseError::ExpectedRightBracket(Token::EoF));
        }
        Err(other) => panic!("Error: {:?}", other),
        Ok(_) => panic!("an unclosed loop must be rejected"),
    }
}

#[test]
fn stray_right_bracket_fails_with_composite_error() {
    match Program::try_from(Source::from("+]")) {
        Err(ParseError::Expression(lp_reason, sym_reason)) => {
            assert_eq!(
                *lp_reason,
                ParseError::ExpectedLeftBracket(Token::RightBracket)
            );
            assert_eq!(*sym_reason, ParseError::ExpectedSymbol(Token::RightBracket));
        }
        Err(other) => panic!("Error: {:?}", other),
        Ok(_) => panic!("a stray right bracket must be rejected"),
    }
}

#[test]
fn comment_without_newline_falls_back_to_symbols() {
    let program =
        Program::try_from(Source::from("//+")).unwrap_or_else(|e| panic!("Error: {:?}", e));
    assert_eq!(
        program.ast,
        vec![
            Expression::Operator(Token::Slash),
            Expression::Operator(Token::Slash),
            Expression::Operator(Token::PlusOne),
        ]
    );
}

#[test]
fn unknown_characters_parse_as_operators() {
    let program =
        Program::try_from(Source::from("a+")).unwrap_or_else(|e| panic!("Error: {:?}", e));
    assert_eq!(
        program.ast,
        vec![
            Expression::Operator(Token::Unknown('a')),
            Expression::Operator(Token::PlusOne),
        ]
    );
}

#[test]
fn parse_accepts_a_whole_source_text() {
    let program = Program::parse("+[-]").unwrap_or_else(|e| panic!("Error: {:?}", e));
    assert_eq!(
        program.ast,
        vec![
            Expression::Operator(Token::PlusOne),
            Expression::Loop(vec![Expression::Operator(Token::MinusOne)]),
        ]
    );
    assert!(Program::parse("]").is_err());
}
