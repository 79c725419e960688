//! The run itself, as a machine that the caller drives.
//!
//! A run starts in [`Lexing`]. The caller asks the tokenizer for a token and
//! reports the answer with [`Lexing::step`], which says what to do next: ask
//! again, fail the call, or parse. In the last case the run is in
//! [`Parsing`]: the caller hands the copy of the tokens to the parser and
//! reports the answer with [`Parsing::step`], which gives the [`Outcome`].
//! Neither state can be built or changed in any other way, so a token
//! sequence reaches the parser only when it is complete, and the tokens of an
//! outcome are always the ones that the tokenizer gave.
//!
//! The states of a run and what stands for each:
//!
//! * started, lexing: a [`Lexing`];
//! * failed in the tokenizer: [`Next::Fail`], which ends the run;
//! * lexed, parsing: the [`Parsing`] and the input of [`Next::Parse`];
//! * parsed: an [`Outcome`] with the tree;
//! * recovered from a failure of the parser: an [`Outcome`] with the message.
//!
//! Every value is owned by its run: nothing is shared between runs, and
//! nothing is kept when a run is over.

use crate::fault::{fatal_message, Payload, FATAL_LEXICAL_ERROR};
use crate::outcome::{Outcome, OutcomeView};
use crate::token::{
    duplicate, duplicate_tokens, lemma_duplicate_terminated, sentinel_free, terminated, Token,
};
use vstd::prelude::*;

verus! {

/// The answer to one request for a token.
#[derive(Debug)]
pub enum Scanned<T> {
    /// The tokenizer returned this token.
    Token(Token<T>),
    /// The tokenizer terminated abnormally.
    Fault,
}

/// The answer of the parser.
#[derive(Debug)]
pub enum Parsed<N> {
    /// The parser returned these top-level statements.
    Tree(Vec<N>),
    /// The parser terminated abnormally and left this value behind.
    Fault(Payload),
}

/// A run that is collecting tokens. It holds the tokens that came so far,
/// none of which is the sentinel.
#[derive(Debug)]
pub struct Lexing<T> {
    tokens: Vec<Token<T>>,
}

/// A run whose tokens are complete and whose parser has not answered yet.
#[derive(Debug)]
pub struct Parsing<T> {
    tokens: Vec<Token<T>>,
}

/// What the caller is to do after an answer of the tokenizer.
#[derive(Debug)]
pub enum Next<T> {
    /// Ask the tokenizer for the next token and report it to this state.
    Scan(Lexing<T>),
    /// Hand `input` to the parser and report its answer to `state`.
    Parse { state: Parsing<T>, input: Vec<Token<T>> },
    /// Fail the call with this message. Nothing else is returned.
    Fail(String),
}

/// A [`Next`] as a mathematical value: each state by the tokens it holds.
pub enum NextView<T> {
    Scan(Seq<Token<T>>),
    Parse(Seq<Token<T>>),
    Fail(Seq<char>),
}

/// What follows when a run that holds `sofar` gets `answer` from the
/// tokenizer: a failure ends it, the sentinel completes it, any other token
/// is kept and the run goes on.
pub open spec fn lex_step<T>(sofar: Seq<Token<T>>, answer: Scanned<T>) -> NextView<T> {
    match answer {
        Scanned::Fault => NextView::Fail(FATAL_LEXICAL_ERROR@),
        Scanned::Token(token) => if token is End {
            NextView::Parse(sofar.push(token))
        } else {
            NextView::Scan(sofar.push(token))
        },
    }
}

/// The outcome of a run with the complete sequence `tokens` whose parser
/// gave `answer`.
pub open spec fn conclude<T, N>(tokens: Seq<Token<T>>, answer: Parsed<N>) -> OutcomeView<T, N> {
    match answer {
        Parsed::Tree(nodes) => OutcomeView { tokens, ast: Some(nodes@), error: None },
        Parsed::Fault(payload) => OutcomeView {
            tokens,
            ast: None,
            error: Some(payload.message_text()),
        },
    }
}

impl<T> View for Lexing<T> {
    type V = Seq<Token<T>>;

    closed spec fn view(&self) -> Seq<Token<T>> {
        self.tokens@
    }
}

impl<T> View for Parsing<T> {
    type V = Seq<Token<T>>;

    closed spec fn view(&self) -> Seq<Token<T>> {
        self.tokens@
    }
}

impl<T> View for Next<T> {
    type V = NextView<T>;

    open spec fn view(&self) -> NextView<T> {
        match self {
            Next::Scan(state) => NextView::Scan(state@),
            Next::Parse { state, .. } => NextView::Parse(state@),
            Next::Fail(message) => NextView::Fail(message@),
        }
    }
}

impl<T> Lexing<T> {
    #[verifier::type_invariant]
    spec fn holds_no_sentinel(self) -> bool {
        sentinel_free(self.tokens@)
    }

    /// Starts a run. No token has come yet.
    pub fn start() -> (state: Self)
        ensures
            state@ == Seq::<Token<T>>::empty(),
    {
        Lexing { tokens: Vec::new() }
    }

    /// The tokens that came so far.
    pub fn tokens(&self) -> (tokens: &Vec<Token<T>>)
        ensures
            tokens@ == self@,
            sentinel_free(tokens@),
    {
        proof {
            use_type_invariant(self);
        }
        &self.tokens
    }

    /// Takes one answer of the tokenizer and says what to do next.
    ///
    /// A failure ends the run with the fixed message. Any token is appended
    /// to the ones that came before. The sentinel completes the sequence:
    /// the run keeps it and gives out a duplicate for the parser.
    pub fn step(self, answer: Scanned<T>) -> (next: Next<T>) where T: Clone
        ensures
            next@ == lex_step(self@, answer),
            next matches Next::Scan(state) ==> sentinel_free(state@),
            next matches Next::Parse { state, input } ==> {
                &&& terminated(state@)
                &&& terminated(input@)
                &&& duplicate(state@, input@)
            },
    {
        proof {
            use_type_invariant(&self);
        }
        match answer {
            Scanned::Fault => Next::Fail(fatal_message()),
            Scanned::Token(token) => {
                let end = token.is_end();
                let mut tokens = self.tokens;
                tokens.push(token);
                if end {
                    assert(tokens@.drop_last() == self.tokens@);
                    let input = duplicate_tokens(&tokens);
                    proof {
                        lemma_duplicate_terminated(tokens@, input@);
                    }
                    Next::Parse { state: Parsing { tokens }, input }
                } else {
                    Next::Scan(Lexing { tokens })
                }
            },
        }
    }
}

impl<T> Parsing<T> {
    #[verifier::type_invariant]
    spec fn holds_complete_sequence(self) -> bool {
        terminated(self.tokens@)
    }

    /// The complete token sequence of this run.
    pub fn tokens(&self) -> (tokens: &Vec<Token<T>>)
        ensures
            tokens@ == self@,
            terminated(tokens@),
    {
        proof {
            use_type_invariant(self);
        }
        &self.tokens
    }

    /// Takes the answer of the parser and gives the outcome of the run.
    ///
    /// The tokens of the outcome are the ones of this run, whatever the
    /// parser did. A tree is returned as it came. A failure is returned as
    /// the message derived from the value it left behind.
    pub fn step<N>(self, answer: Parsed<N>) -> (outcome: Outcome<T, N>)
        ensures
            outcome@ == conclude(self@, answer),
            outcome@.well_formed(),
    {
        proof {
            use_type_invariant(&self);
        }
        match answer {
            Parsed::Tree(nodes) => Outcome { tokens: self.tokens, ast: Some(nodes), error: None },
            Parsed::Fault(payload) => Outcome {
                tokens: self.tokens,
                ast: None,
                error: Some(payload.message()),
            },
        }
    }
}

} // verus!
