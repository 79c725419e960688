//! Tokens and the shape of a complete token sequence.

use vstd::prelude::*;

verus! {

/// One lexical unit. The harness looks at a token only to tell the
/// end-of-input sentinel from everything else, which it carries as `T`.
#[derive(Debug, PartialEq, Eq)]
pub enum Token<T> {
    /// A token of the source text.
    Item(T),
    /// The sentinel: no more input.
    End,
}

/// No element of `s` is the sentinel.
pub open spec fn sentinel_free<T>(s: Seq<Token<T>>) -> bool {
    forall|i: int| 0 <= i < s.len() ==> !(#[trigger] s[i] is End)
}

/// `s` is a complete token sequence: it is not empty, its last element is
/// the sentinel, and the sentinel stands nowhere else.
pub open spec fn terminated<T>(s: Seq<Token<T>>) -> bool {
    &&& s.len() > 0
    &&& s.last() is End
    &&& sentinel_free(s.drop_last())
}

/// `b` may come out of cloning `a`: the sentinel gives the sentinel, an item
/// gives an item whose content is a clone of the content of `a`.
pub open spec fn token_copy<T: Clone>(a: Token<T>, b: Token<T>) -> bool {
    match (a, b) {
        (Token::End, Token::End) => true,
        (Token::Item(x), Token::Item(y)) => cloned(x, y),
        _ => false,
    }
}

/// `copy` is an element-by-element duplicate of `source`.
pub open spec fn duplicate<T: Clone>(source: Seq<Token<T>>, copy: Seq<Token<T>>) -> bool {
    &&& copy.len() == source.len()
    &&& forall|i: int| 0 <= i < source.len() ==> token_copy(#[trigger] source[i], copy[i])
}

impl<T> Token<T> {
    /// Whether this token is the sentinel.
    pub fn is_end(&self) -> (end: bool)
        ensures
            end == (*self is End),
    {
        match self {
            Token::End => true,
            Token::Item(_) => false,
        }
    }
}

impl<T: Clone> Clone for Token<T> {
    fn clone(&self) -> (copy: Self)
        ensures
            token_copy(*self, copy),
    {
        match self {
            Token::End => Token::End,
            Token::Item(item) => Token::Item(item.clone()),
        }
    }
}

/// A duplicate of a complete token sequence is complete.
pub proof fn lemma_duplicate_terminated<T: Clone>(source: Seq<Token<T>>, copy: Seq<Token<T>>)
    requires
        duplicate(source, copy),
        terminated(source),
    ensures
        terminated(copy),
{
    assert(token_copy(source[source.len() - 1], copy[copy.len() - 1]));
    let front = copy.drop_last();
    assert forall|i: int| 0 <= i < front.len() implies !(#[trigger] front[i] is End) by {
        assert(token_copy(source[i], copy[i]));
        assert(!(source.drop_last()[i] is End));
    }
}

/// Duplicates a token sequence, token by token.
pub fn duplicate_tokens<T: Clone>(tokens: &Vec<Token<T>>) -> (copy: Vec<Token<T>>)
    ensures
        duplicate(tokens@, copy@),
{
    let copy = tokens.clone();
    assert forall|i: int| 0 <= i < tokens@.len() implies token_copy(
        #[trigger] tokens@[i],
        copy@[i],
    ) by {
        assert(cloned::<Token<T>>(tokens[i], copy[i]));
    }
    copy
}

} // verus!
