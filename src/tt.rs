use vstd::prelude::*;

verus! {

/// The delimiter that encloses a group of tokens.
#[derive(Clone, Copy, Debug, PartialEq, Eq, Structural)]
pub enum Delimiter {
    Parenthesis,
    Brace,
    Bracket,
}

/// One token of a token tree. A nested group is written as its opening
/// delimiter, its tokens, and its closing delimiter.
#[derive(Clone, Debug, PartialEq, Eq)]
pub enum Token {
    Ident(String),
    Punct(char),
    Literal(String),
    Open(Delimiter),
    Close(Delimiter),
}

/// A token tree: an optional outer delimiter around a sequence of tokens.
#[derive(Clone, Debug, PartialEq, Eq)]
pub struct Subtree {
    pub delimiter: Option<Delimiter>,
    pub tokens: Vec<Token>,
}

/// How an expansion failed, as reported to the caller.
#[derive(Clone, Debug, PartialEq, Eq)]
pub enum ExpansionError {
    /// The request could not be carried out: no worker, a closed channel, or a
    /// response of the wrong shape.
    Unknown(String),
    /// The worker ran the macro and reported this message.
    ExpansionError(String),
}

} // verus!
