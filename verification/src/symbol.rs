use vstd::prelude::*;

verus! {

/// One lexical symbol. Every source character maps to exactly one symbol;
/// characters outside the recognized set are kept, unchanged, in the
/// catch-all `Unknown` variant rather than rejected, so the parser (not
/// the lexer) decides whether they matter. An older twin of `Token`,
/// kept with the same behaviour.
#[derive(Debug, PartialEq, Eq, Clone, Copy, Structural)]
pub enum Symbol {
    PlusOne,
    MinusOne,
    RightShift,
    LeftShift,
    RightBracket,
    LeftBracket,
    Output,
    Input,
    Slash,
    NewLine,
    EoF,
    WhiteSpace,
    Unknown(char),
}

/// The lexical classification: the single source of truth for which
/// character stands for which symbol. Total and pure; it never yields
/// `EoF`, which marks the end of a symbol stream, not a character.
pub open spec fn symbol_of(c: char) -> Symbol {
    if c == '+' {
        Symbol::PlusOne
    } else if c == '-' {
        Symbol::MinusOne
    } else if c == '>' {
        Symbol::RightShift
    } else if c == '<' {
        Symbol::LeftShift
    } else if c == ']' {
        Symbol::RightBracket
    } else if c == '[' {
        Symbol::LeftBracket
    } else if c == '.' {
        Symbol::Output
    } else if c == ',' {
        Symbol::Input
    } else if c == '/' {
        Symbol::Slash
    } else if c == '\n' {
        Symbol::NewLine
    } else if c == ' ' || c == '\t' {
        Symbol::WhiteSpace
    } else {
        Symbol::Unknown(c)
    }
}

impl From<char> for Symbol {
    fn from(value: char) -> (symbol: Symbol) {
        match value {
            '+' => Symbol::PlusOne,
            '-' => Symbol::MinusOne,
            '>' => Symbol::RightShift,
            '<' => Symbol::LeftShift,
            ']' => Symbol::RightBracket,
            '[' => Symbol::LeftBracket,
            '.' => Symbol::Output,
            ',' => Symbol::Input,
            '/' => Symbol::Slash,
            '\n' => Symbol::NewLine,
            ' ' | '\t' => Symbol::WhiteSpace,
            v => Symbol::Unknown(v),
        }
    }
}

impl vstd::std_specs::convert::FromSpecImpl<char> for Symbol {
    open spec fn obeys_from_spec() -> bool {
        true
    }

    open spec fn from_spec(value: char) -> Symbol {
        symbol_of(value)
    }
}

impl From<u8> for Symbol {
    fn from(value: u8) -> (symbol: Symbol) {
        Symbol::from(value as char)
    }
}

impl vstd::std_specs::convert::FromSpecImpl<u8> for Symbol {
    open spec fn obeys_from_spec() -> bool {
        true
    }

    open spec fn from_spec(value: u8) -> Symbol {
        symbol_of(value as char)
    }
}

/// Law: every character outside the recognized lexical set is kept,
/// unchanged, in the catch-all `Unknown` variant.
pub proof fn lemma_unrecognized_char_symbol(c: char)
    requires
        c != '+',
        c != '-',
        c != '>',
        c != '<',
        c != ']',
        c != '[',
        c != '.',
        c != ',',
        c != '/',
        c != '\n',
        c != ' ',
        c != '\t',
    ensures
        symbol_of(c) == Symbol::Unknown(c),
{
}

} // verus!
