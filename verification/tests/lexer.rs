use brainfuck::symbol::Symbol;
use brainfuck::token::Token;

#[test]
fn token_test_from_char() {
    assert_eq!(Token::from('+'), Token::PlusOne);
    assert_eq!(Token::from('-'), Token::MinusOne);
    assert_eq!(Token::from('>'), Token::RightShift);
    assert_eq!(Token::from('<'), Token::LeftShift);
    assert_eq!(Token::from(']'), Token::RightBracket);
    assert_eq!(Token::from('['), Token::LeftBracket);
    assert_eq!(Token::from('.'), Token::Output);
    assert_eq!(Token::from(','), Token::Input);
    assert_eq!(Token::from('/'), Token::Slash);
    assert_eq!(Token::from('\n'), Token::NewLine);
    assert_eq!(Token::from(' '), Token::WhiteSpace);
    assert_eq!(Token::from('\t'), Token::WhiteSpace);
}

#[test]
fn token_test_from_u8() {
    assert_eq!(Token::from(b'+'), Token::PlusOne);
    assert_eq!(Token::from(b'-'), Token::MinusOne);
    assert_eq!(Token::from(b'>'), Token::RightShift);
    assert_eq!(Token::from(b'<'), Token::LeftShift);
    assert_eq!(Token::from(b']'), Token::RightBracket);
    assert_eq!(Token::from(b'['), Token::LeftBracket);
    assert_eq!(Token::from(b'.'), Token::Output);
    assert_eq!(Token::from(b','), Token::Input);
    assert_eq!(Token::from(b'/'), Token::Slash);
    assert_eq!(Token::from(b'\n'), Token::NewLine);
    assert_eq!(Token::from(b' '), Token::WhiteSpace);
    assert_eq!(Token::from(b'\t'), Token::WhiteSpace);
}

#[test]
fn symbol_test_from_char() {
    assert_eq!(Symbol::from('+'), Symbol::PlusOne);
    assert_eq!(Symbol::from('-'), Symbol::MinusOne);
    assert_eq!(Symbol::from('>'), Symbol::RightShift);
    assert_eq!(Symbol::from('<'), Symbol::LeftShift);
    assert_eq!(Symbol::from(']'), Symbol::RightBracket);
    assert_eq!(Symbol::from('['), Symbol::LeftBracket);
    assert_eq!(Symbol::from('.'), Symbol::Output);
    assert_eq!(Symbol::from(','), Symbol::Input);
    assert_eq!(Symbol::from('/'), Symbol::Slash);
    assert_eq!(Symbol::from('\n'), Symbol::NewLine);
    assert_eq!(Symbol::from(' '), Symbol::WhiteSpace);
    assert_eq!(Symbol::from('\t'), Symbol::WhiteSpace);
}

#[test]
fn symbol_test_from_u8() {
    assert_eq!(Symbol::from(b'+'), Symbol::PlusOne);
    assert_eq!(Symbol::from(b'-'), Symbol::MinusOne);
    assert_eq!(Symbol::from(b'>'), Symbol::RightShift);
    assert_eq!(Symbol::from(b'<'), Symbol::LeftShift);
    assert_eq!(Symbol::from(b']'), Symbol::RightBracket);
    assert_eq!(Symbol::from(b'['), Symbol::LeftBracket);
    assert_eq!(Symbol::from(b'.'), Symbol::Output);
    assert_eq!(Symbol::from(b','), Symbol::Input);
    assert_eq!(Symbol::from(b'/'), Symbol::Slash);
    assert_eq!(Symbol::from(b'\n'), Symbol::NewLine);
    assert_eq!(Symbol::from(b' '), Symbol::WhiteSpace);
    assert_eq!(Symbol::from(b'\t'), Symbol::WhiteSpace);
}

#[test]
fn unrecognized_characters_carry_themselves() {
    assert_eq!(Token::from('x'), Token::Unknown('x'));
    assert_eq!(Token::from('0'), Token::Unknown('0'));
    assert_eq!(Token::from('}'), Token::Unknown('}'));
    assert_eq!(Token::from('!'), Token::Unknown('!'));
    assert_eq!(Symbol::from('x'), Symbol::Unknown('x'));
    assert_eq!(Symbol::from(b'?'), Symbol::Unknown('?'));
}
