//! A fault-isolating harness for a two-stage compiler front end.
//!
//! A run asks a tokenizer for tokens until the end-of-input sentinel comes,
//! hands a copy of the complete token sequence to a parser, and assembles an
//! [`Outcome`] from what the parser answers. The tokenizer and the parser are
//! not part of this crate: the caller makes each request, intercepts an
//! abnormal termination if there is one, and reports what came back. The
//! crate decides what happens next.
//!
//! * [`Lexing::start`] begins a run.
//! * [`Lexing::step`] takes one answer of the tokenizer, a [`Scanned`], and
//!   gives a [`Next`]: ask again, fail the call, or parse.
//! * [`Parsing::step`] takes the answer of the parser, a [`Parsed`], and gives
//!   the [`Outcome`]: the tokens, and either the tree or a message.
//!
//! A failure of the tokenizer fails the whole call, since nothing usable was
//! found. A failure of the parser is a result like any other: the call
//! succeeds, and its outcome holds every token together with the message.
//! The module [`laws`] states what holds of every run.

pub mod fault;
pub mod laws;
pub mod outcome;
pub mod pipeline;
pub mod token;

pub use fault::Payload;
pub use outcome::Outcome;
pub use pipeline::{Lexing, Next, Parsed, Parsing, Scanned};
pub use token::Token;
