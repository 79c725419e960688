//! What holds of every run, whatever the tokenizer and the parser answer.
//!
//! A run is modelled by the answers that the tokenizer gives, one for each
//! request and in the order of the requests, and by the answer of the parser.
//! The model is built from [`lex_step`] and [`conclude`], the functions that
//! the contracts of the two `step` methods are stated with.

use crate::fault::{Payload, FATAL_LEXICAL_ERROR, SYNTAX_ERROR_PREFIX, UNKNOWN_COMPILE_ERROR};
use crate::outcome::OutcomeView;
use crate::pipeline::{conclude, lex_step, NextView, Parsed, Scanned};
use crate::token::{sentinel_free, terminated, Token};
use vstd::prelude::*;

verus! {

/// Where a run that holds `sofar` stands after the tokenizer gave `answers`.
/// Lexing ends with the first failure or sentinel: answers behind it are
/// never asked for.
pub open spec fn lex_all<T>(sofar: Seq<Token<T>>, answers: Seq<Scanned<T>>) -> NextView<T>
    decreases answers.len(),
{
    if answers.len() == 0 {
        NextView::Scan(sofar)
    } else {
        match lex_step(sofar, answers[0]) {
            NextView::Scan(more) => lex_all(more, answers.drop_first()),
            ended => ended,
        }
    }
}

/// How the call ends for a run that starts afresh: with a failure message,
/// with an outcome, or not yet, where the tokenizer has neither failed nor
/// given the sentinel.
pub open spec fn run<T, N>(answers: Seq<Scanned<T>>, parsed: Parsed<N>) -> Option<
    Result<OutcomeView<T, N>, Seq<char>>,
> {
    match lex_all(Seq::empty(), answers) {
        NextView::Scan(_) => None,
        NextView::Fail(message) => Some(Err(message)),
        NextView::Parse(tokens) => Some(Ok(conclude(tokens, parsed))),
    }
}

/// `tokens` is `sofar` and behind it the tokens of the first answers, one
/// for one.
pub open spec fn follows<T>(
    sofar: Seq<Token<T>>,
    answers: Seq<Scanned<T>>,
    tokens: Seq<Token<T>>,
) -> bool {
    &&& sofar.len() <= tokens.len() <= sofar.len() + answers.len()
    &&& forall|i: int| 0 <= i < sofar.len() ==> #[trigger] tokens[i] == sofar[i]
    &&& forall|i: int|
        sofar.len() <= i < tokens.len() ==> answers[i - sofar.len()] == Scanned::Token(
            #[trigger] tokens[i],
        )
}

/// Two answers of the parser that say the same: the same statements in the
/// same order, or failures that carry the same text, or both none.
pub open spec fn same_answer<N>(a: Parsed<N>, b: Parsed<N>) -> bool {
    match (a, b) {
        (Parsed::Tree(x), Parsed::Tree(y)) => x@ == y@,
        (Parsed::Fault(x), Parsed::Fault(y)) => x.text() == y.text(),
        _ => false,
    }
}

proof fn lemma_follows_one_more<T>(
    sofar: Seq<Token<T>>,
    answers: Seq<Scanned<T>>,
    tokens: Seq<Token<T>>,
)
    requires
        answers.len() > 0,
        answers[0] is Token,
        follows(sofar.push(answers[0]->Token_0), answers.drop_first(), tokens),
    ensures
        follows(sofar, answers, tokens),
{
    let more = sofar.push(answers[0]->Token_0);
    assert forall|i: int| 0 <= i < sofar.len() implies #[trigger] tokens[i] == sofar[i] by {
        assert(more[i] == sofar[i]);
    }
    assert forall|i: int| sofar.len() <= i < tokens.len() implies answers[i - sofar.len()]
        == Scanned::Token(#[trigger] tokens[i]) by {
        if i == sofar.len() {
            assert(tokens[i] == more[i]);
        } else {
            assert(answers.drop_first()[i - more.len()] == answers[i - sofar.len()]);
        }
    }
}

proof fn lemma_lex_all<T>(sofar: Seq<Token<T>>, answers: Seq<Scanned<T>>)
    requires
        sentinel_free(sofar),
    ensures
        match lex_all(sofar, answers) {
            NextView::Scan(tokens) => {
                &&& sentinel_free(tokens)
                &&& follows(sofar, answers, tokens)
                &&& tokens.len() == sofar.len() + answers.len()
            },
            NextView::Parse(tokens) => {
                &&& terminated(tokens)
                &&& follows(sofar, answers, tokens)
                &&& tokens.len() > sofar.len()
            },
            NextView::Fail(message) => message == FATAL_LEXICAL_ERROR@,
        },
    decreases answers.len(),
{
    if answers.len() > 0 {
        if let Scanned::Token(token) = answers[0] {
            let more = sofar.push(token);
            if token is End {
                assert(more.drop_last() == sofar);
            } else {
                let rest = answers.drop_first();
                lemma_lex_all(more, rest);
                match lex_all(more, rest) {
                    NextView::Scan(tokens) => lemma_follows_one_more(sofar, answers, tokens),
                    NextView::Parse(tokens) => lemma_follows_one_more(sofar, answers, tokens),
                    NextView::Fail(_) => {},
                }
            }
        }
    }
}

/// When lexing ends with the sentinel, the token sequence of the run is
/// complete: it is not empty, the sentinel is its last element, and the
/// sentinel stands nowhere before.
pub proof fn law_lexed_tokens_are_terminated<T>(answers: Seq<Scanned<T>>)
    ensures
        lex_all(Seq::empty(), answers) matches NextView::Parse(tokens) ==> terminated(tokens),
{
    lemma_lex_all(Seq::<Token<T>>::empty(), answers);
}

/// When lexing ends with the sentinel, the token sequence of the run holds
/// the tokens that the tokenizer gave up to there, each as it came and in the
/// order in which they came. While lexing goes on, the run holds every token
/// that came.
pub proof fn law_lexed_tokens_are_the_answers<T>(answers: Seq<Scanned<T>>)
    ensures
        lex_all(Seq::empty(), answers) matches NextView::Parse(tokens) ==> follows(
            Seq::empty(),
            answers,
            tokens,
        ),
        lex_all(Seq::empty(), answers) matches NextView::Scan(tokens) ==> {
            &&& follows(Seq::empty(), answers, tokens)
            &&& tokens.len() == answers.len()
        },
{
    lemma_lex_all(Seq::<Token<T>>::empty(), answers);
}

/// Lexing stops at the first failure or sentinel: whatever the tokenizer
/// would have answered to further requests changes nothing.
pub proof fn law_lexing_stops_at_the_end<T>(
    sofar: Seq<Token<T>>,
    answers: Seq<Scanned<T>>,
    further: Seq<Scanned<T>>,
)
    requires
        !(lex_all(sofar, answers) is Scan),
    ensures
        lex_all(sofar, answers + further) == lex_all(sofar, answers),
    decreases answers.len(),
{
    let all = answers + further;
    assert(all[0] == answers[0]);
    match lex_step(sofar, answers[0]) {
        NextView::Scan(more) => {
            assert(all.drop_first() == answers.drop_first() + further);
            law_lexing_stops_at_the_end(more, answers.drop_first(), further);
        },
        _ => {},
    }
}

/// A failure of the tokenizer fails the call with the fixed message, and
/// nothing else does: there is no outcome then, whatever the parser would
/// have answered.
pub proof fn law_tokenizer_failure_fails_the_call<T, N>(
    answers: Seq<Scanned<T>>,
    parsed: Parsed<N>,
)
    ensures
        lex_all(Seq::empty(), answers) is Fail <==> run(answers, parsed) matches Some(Err(_)),
        run(answers, parsed) matches Some(Err(message)) ==> message == FATAL_LEXICAL_ERROR@,
{
    lemma_lex_all(Seq::<Token<T>>::empty(), answers);
}

/// When the parser fails, the call still succeeds, and the tokens of its
/// outcome are exactly the ones that lexing alone ends with: as many, and in
/// the same order. The outcome holds the message and no tree.
pub proof fn law_tokens_survive_parser_failure<T, N>(answers: Seq<Scanned<T>>, payload: Payload)
    requires
        lex_all(Seq::empty(), answers) is Parse,
    ensures
        run::<T, N>(answers, Parsed::Fault(payload)) matches Some(Ok(outcome)) && {
            &&& NextView::Parse(outcome.tokens) == lex_all(Seq::empty(), answers)
            &&& outcome.ast is None
            &&& outcome.error == Some(payload.message_text())
        },
{
}

/// The message of a parser failure is marked as a syntax error, whatever the
/// failure left behind: it begins with the prefix. For a value that is not
/// text, what follows the prefix is one fixed text, so the message holds
/// nothing of the value.
pub proof fn law_parser_failure_message_is_marked<T, N>(
    answers: Seq<Scanned<T>>,
    payload: Payload,
)
    requires
        lex_all(Seq::empty(), answers) is Parse,
    ensures
        run::<T, N>(answers, Parsed::Fault(payload)) matches Some(Ok(outcome)) && {
            &&& outcome.error matches Some(message)
            &&& SYNTAX_ERROR_PREFIX@.is_prefix_of(message)
            &&& message.skip(SYNTAX_ERROR_PREFIX@.len() as int) == payload.detail()
            &&& payload is Other ==> message == SYNTAX_ERROR_PREFIX@ + UNKNOWN_COMPILE_ERROR@
        },
{
    let message = payload.message_text();
    assert(message.skip(SYNTAX_ERROR_PREFIX@.len() as int) == payload.detail());
}

/// Whenever the call succeeds, its outcome holds either the tree or the
/// message, never both and never neither, and its tokens are complete.
pub proof fn law_exactly_one_of_tree_and_message<T, N>(
    answers: Seq<Scanned<T>>,
    parsed: Parsed<N>,
)
    ensures
        run(answers, parsed) matches Some(Ok(outcome)) ==> {
            &&& outcome.well_formed()
            &&& outcome.ast is Some <==> parsed is Tree
            &&& outcome.error is Some <==> parsed is Fault
        },
{
    lemma_lex_all(Seq::<Token<T>>::empty(), answers);
}

/// Two runs that get the same answers end the same: with equal tokens, equal
/// trees and equal messages, or with the same failure.
pub proof fn law_same_answers_same_end<T, N>(
    answers: Seq<Scanned<T>>,
    parsed: Parsed<N>,
    again: Seq<Scanned<T>>,
    parsed_again: Parsed<N>,
)
    requires
        answers == again,
        same_answer(parsed, parsed_again),
    ensures
        run(answers, parsed) == run(again, parsed_again),
{
}

} // verus!
