use vstd::prelude::*;

verus! {

/// One lexical token. Every source character maps to exactly one token;
/// characters outside the recognized set are kept, unchanged, in the
/// catch-all `Unknown` variant rather than rejected, so the parser (not
/// the tokenizer) decides whether they matter.
#[derive(Debug, PartialEq, Eq, Clone, Copy, Structural)]
pub enum Token {
    PlusOne,
    MinusOne,
    RightShift,
    LeftShift,
    RightBracket,
    LeftBracket,
    Output,
    Input,
    Slash,
    NewLine,
    EoF,
    WhiteSpace,
    Unknown(char),
}

/// The lexical classification: the single source of truth for which
/// character stands for which token. Total and pure; it never yields
/// `EoF`, which marks the end of a token stream, not a character.
pub open spec fn token_of(c: char) -> Token {
    if c == '+' {
        Token::PlusOne
    } else if c == '-' {
        Token::MinusOne
    } else if c == '>' {
        Token::RightShift
    } else if c == '<' {
        Token::LeftShift
    } else if c == ']' {
        Token::RightBracket
    } else if c == '[' {
        Token::LeftBracket
    } else if c == '.' {
        Token::Output
    } else if c == ',' {
        Token::Input
    } else if c == '/' {
        Token::Slash
    } else if c == '\n' {
        Token::NewLine
    } else if c == ' ' || c == '\t' {
        Token::WhiteSpace
    } else {
        Token::Unknown(c)
    }
}

impl From<char> for Token {
    fn from(value: char) -> (token: Token) {
        match value {
            '+' => Token::PlusOne,
            '-' => Token::MinusOne,
            '>' => Token::RightShift,
            '<' => Token::LeftShift,
            ']' => Token::RightBracket,
            '[' => Token::LeftBracket,
            '.' => Token::Output,
            ',' => Token::Input,
            '/' => Token::Slash,
            '\n' => Token::NewLine,
            ' ' | '\t' => Token::WhiteSpace,
            v => Token::Unknown(v),
        }
    }
}

impl vstd::std_specs::convert::FromSpecImpl<char> for Token {
    open spec fn obeys_from_spec() -> bool {
        true
    }

    open spec fn from_spec(value: char) -> Token {
        token_of(value)
    }
}

impl From<u8> for Token {
    fn from(value: u8) -> (token: Token) {
        Token::from(value as char)
    }
}

impl vstd::std_specs::convert::FromSpecImpl<u8> for Token {
    open spec fn obeys_from_spec() -> bool {
        true
    }

    open spec fn from_spec(value: u8) -> Token {
        token_of(value as char)
    }
}

/// Law: every character outside the recognized lexical set is kept,
/// unchanged, in the catch-all `Unknown` variant.
pub proof fn lemma_unrecognized_char_token(c: char)
    requires
        c != '+',
        c != '-',
        c != '>',
        c != '<',
        c != ']',
        c != '[',
        c != '.',
        c != ',',
        c != '/',
        c != '\n',
        c != ' ',
        c != '\t',
    ensures
        token_of(c) == Token::Unknown(c),
{
}

} // verus!
