//! What an encoder hands to the output writer.

use crate::serialize::error::SerializeError;
use vstd::prelude::*;

verus! {

/// One primitive write to the output: a string or a number.
#[derive(Debug, PartialEq, Eq)]
pub enum Token {
    Str(String),
    Int(i64),
}

/// A token as a mathematical value.
pub enum TokenView {
    Str(Seq<char>),
    Int(i64),
}

impl View for Token {
    type V = TokenView;

    open spec fn view(&self) -> TokenView {
        match self {
            Token::Str(text) => TokenView::Str(text@),
            Token::Int(number) => TokenView::Int(*number),
        }
    }
}

/// How encoding one value ends, as a mathematical value: one token, or one
/// error.
pub type Outcome = Result<TokenView, SerializeError>;

/// The view of an encoder's result.
pub open spec fn outcome_of(result: Result<Token, SerializeError>) -> Outcome {
    match result {
        Ok(token) => Ok(token@),
        Err(error) => Err(error),
    }
}

} // verus!
