//! The record that a run hands back to its caller.

use crate::token::{terminated, Token};
use vstd::prelude::*;

verus! {

/// What one run found: the tokens, and either the tree that the parser built
/// or the message of the syntax error that stopped it.
#[derive(Debug)]
pub struct Outcome<T, N> {
    /// The complete token sequence, sentinel included.
    pub tokens: Vec<Token<T>>,
    /// The top-level statements, in order, if the parser built them.
    pub ast: Option<Vec<N>>,
    /// The syntax error message, if the parser failed.
    pub error: Option<String>,
}

/// An [`Outcome`] as a mathematical value.
pub struct OutcomeView<T, N> {
    pub tokens: Seq<Token<T>>,
    pub ast: Option<Seq<N>>,
    pub error: Option<Seq<char>>,
}

impl<T, N> OutcomeView<T, N> {
    /// The tokens form a complete sequence, and exactly one of the tree and
    /// the message is there.
    pub open spec fn well_formed(self) -> bool {
        &&& terminated(self.tokens)
        &&& (self.ast is Some) != (self.error is Some)
    }
}

impl<T, N> View for Outcome<T, N> {
    type V = OutcomeView<T, N>;

    open spec fn view(&self) -> OutcomeView<T, N> {
        OutcomeView {
            tokens: self.tokens@,
            ast: match self.ast {
                Some(nodes) => Some(nodes@),
                None => None,
            },
            error: match self.error {
                Some(message) => Some(message@),
                None => None,
            },
        }
    }
}

} // verus!
