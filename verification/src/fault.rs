//! Intercepted failures and the messages that the caller gets to see.
//!
//! A stage that terminates abnormally leaves a value behind. The harness
//! never shows such a value as it is: a failure of the tokenizer becomes one
//! fixed message, a failure of the parser becomes a syntax error message.
//! Every syntax error message begins with the same prefix. Behind it stands
//! the value if it is text, and one fixed text for a value of any other kind.

use vstd::prelude::*;
use vstd::string::*;

verus! {

/// The message of a call that failed in the tokenizer.
pub const FATAL_LEXICAL_ERROR: &'static str = "Erro fatal durante a análise léxica.";

/// What a syntax error message begins with.
pub const SYNTAX_ERROR_PREFIX: &'static str = "Erro de Sintaxe: ";

/// What a syntax error message says, behind the prefix, of a parser failure
/// whose value is not text.
pub const UNKNOWN_COMPILE_ERROR: &'static str = "Erro de compilação desconhecido.";

/// The value that an abnormal termination of the parser left behind.
#[derive(Debug)]
pub enum Payload {
    /// A string literal.
    Literal(&'static str),
    /// An owned string.
    Owned(String),
    /// A value of any other type. Nothing of it is kept.
    Other,
}

/// The text of a syntax error message with the given detail.
pub open spec fn syntax_error_text(detail: Seq<char>) -> Seq<char> {
    SYNTAX_ERROR_PREFIX@ + detail
}

impl Payload {
    /// The text that the value carries, if it is text.
    pub open spec fn text(self) -> Option<Seq<char>> {
        match self {
            Payload::Literal(text) => Some(text@),
            Payload::Owned(text) => Some(text@),
            Payload::Other => None,
        }
    }

    /// What the message says of this value: its text, or the fixed text
    /// where it has none.
    pub open spec fn detail(self) -> Seq<char> {
        match self.text() {
            Some(text) => text,
            None => UNKNOWN_COMPILE_ERROR@,
        }
    }

    /// The message that reports this value: the prefix, then the detail.
    pub open spec fn message_text(self) -> Seq<char> {
        syntax_error_text(self.detail())
    }

    /// Derives the message that reports this value. It is a syntax error
    /// message whatever the value is.
    pub fn message(&self) -> (message: String)
        ensures
            message@ == self.message_text(),
    {
        match self {
            Payload::Literal(text) => syntax_error_message(text),
            Payload::Owned(text) => syntax_error_message(text.as_str()),
            Payload::Other => syntax_error_message(UNKNOWN_COMPILE_ERROR),
        }
    }
}

/// Builds a syntax error message: the prefix, then `detail` unchanged.
pub fn syntax_error_message(detail: &str) -> (message: String)
    ensures
        message@ == syntax_error_text(detail@),
{
    SYNTAX_ERROR_PREFIX.to_owned().concat(detail)
}

/// The message of a call that failed in the tokenizer.
pub fn fatal_message() -> (message: String)
    ensures
        message@ == FATAL_LEXICAL_ERROR@,
{
    FATAL_LEXICAL_ERROR.to_owned()
}

} // verus!
