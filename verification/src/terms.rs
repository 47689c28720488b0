//! Extracting the search terms of a request's text predicate.

use vstd::prelude::*;
use bson::RawDocument;
use crate::document::{
    document_bytes, document_items, found_element, lookup, next_item, open_cursor, pending_items,
    same_text, Element, ElementModel, ItemModel, LookupModel,
};
use crate::error::QueryError;

verus! {

/// Whether a character has the Unicode property `White_Space`.
pub uninterp spec fn white_space(c: char) -> bool;

/// The words of `text`, where `open` holds the characters of a word already begun.
pub open spec fn words_after(open: Seq<char>, text: Seq<char>) -> Seq<Seq<char>>
    decreases text.len(),
{
    let closed = if open.len() == 0 {
        Seq::<Seq<char>>::empty()
    } else {
        seq![open]
    };
    if text.len() == 0 {
        closed
    } else if white_space(text[0]) {
        closed + words_after(Seq::empty(), text.drop_first())
    } else {
        words_after(open.push(text[0]), text.drop_first())
    }
}

/// The words of `text`: its longest runs of characters that are not white space, in order.
pub open spec fn words(text: Seq<char>) -> Seq<Seq<char>> {
    words_after(Seq::empty(), text)
}

/// Terms, or the decoder's error where a document did not decode.
pub type DecodedTerms = Result<Seq<Seq<char>>, bson::raw::Error>;

/// A run: one character or more, none of them white space.
pub open spec fn is_run(word: Seq<char>) -> bool {
    &&& word.len() > 0
    &&& forall|j: int| 0 <= j < word.len() ==> !white_space(#[trigger] word[j])
}

/// Every word of a text is a run.
pub proof fn lemma_words_are_runs(text: Seq<char>)
    ensures
        forall|i: int| 0 <= i < words(text).len() ==> is_run(#[trigger] words(text)[i]),
{
    lemma_words_after_are_runs(Seq::empty(), text);
}

/// The words after a word already begun are runs, if that word holds no white space.
proof fn lemma_words_after_are_runs(open: Seq<char>, text: Seq<char>)
    requires
        forall|j: int| 0 <= j < open.len() ==> !white_space(#[trigger] open[j]),
    ensures
        forall|i: int|
            0 <= i < words_after(open, text).len() ==> is_run(#[trigger] words_after(open, text)[i]),
    decreases text.len(),
{
    let closed = if open.len() == 0 {
        Seq::<Seq<char>>::empty()
    } else {
        seq![open]
    };
    assert forall|i: int| 0 <= i < closed.len() implies is_run(#[trigger] closed[i]) by {
        assert(closed[i] == open);
    }
    if text.len() == 0 {
        assert(words_after(open, text) == closed);
    } else if white_space(text[0]) {
        let later = words_after(Seq::empty(), text.drop_first());
        assert(words_after(open, text) == closed + later);
        lemma_words_after_are_runs(Seq::empty(), text.drop_first());
        assert forall|i: int| 0 <= i < (closed + later).len() implies is_run(
            #[trigger] (closed + later)[i],
        ) by {
            if i >= closed.len() {
                assert((closed + later)[i] == later[i - closed.len()]);
            } else {
                assert((closed + later)[i] == closed[i]);
            }
        }
    } else {
        let longer = open.push(text[0]);
        assert forall|j: int| 0 <= j < longer.len() implies !white_space(#[trigger] longer[j]) by {
            if j < open.len() {
                assert(longer[j] == open[j]);
            }
        }
        assert(words_after(open, text) == words_after(longer, text.drop_first()));
        lemma_words_after_are_runs(longer, text.drop_first());
    }
}

/// `a` followed by the terms of `b`; the error of `b` where it is one.
pub open spec fn followed_by(a: Seq<Seq<char>>, b: DecodedTerms) -> DecodedTerms {
    match b {
        Ok(b) => Ok(a + b),
        Err(error) => Err(error),
    }
}

/// The terms that one entry of a `$text` clause contributes: the words of a `$search`
/// string, and nothing for any other entry. An entry that failed to decode gives its error.
pub open spec fn search_entry_terms(item: ItemModel) -> DecodedTerms {
    match item {
        ItemModel::Malformed(error) => Err(error),
        ItemModel::Entry { key, value: ElementModel::Text(text) } if key == "$search"@ => Ok(
            words(text),
        ),
        ItemModel::Entry { .. } => Ok(Seq::empty()),
    }
}

/// The terms of a `$text` clause with these entries, in the order of the entries; the
/// error of the first entry that failed to decode, where there is one.
pub open spec fn text_clause_terms(items: Seq<ItemModel>) -> DecodedTerms
    decreases items.len(),
{
    if items.len() == 0 {
        Ok(Seq::empty())
    } else {
        match search_entry_terms(items.first()) {
            Ok(terms) => followed_by(terms, text_clause_terms(items.drop_first())),
            Err(error) => Err(error),
        }
    }
}

/// The terms that one entry of a filter contributes: those of a `$text` clause, and
/// nothing for any other entry. An entry or a clause that failed to decode gives its error.
pub open spec fn filter_entry_terms(item: ItemModel) -> DecodedTerms {
    match item {
        ItemModel::Malformed(error) => Err(error),
        ItemModel::Entry { key, value: ElementModel::Document(clause) } if key == "$text"@ => {
            text_clause_terms(document_items(clause))
        },
        ItemModel::Entry { .. } => Ok(Seq::empty()),
    }
}

/// The terms of a filter with these entries, in the order of the entries; the first
/// error on the way through them, where something failed to decode.
pub open spec fn filter_terms(items: Seq<ItemModel>) -> DecodedTerms
    decreases items.len(),
{
    if items.len() == 0 {
        Ok(Seq::empty())
    } else {
        match filter_entry_terms(items.first()) {
            Ok(terms) => followed_by(terms, filter_terms(items.drop_first())),
            Err(error) => Err(error),
        }
    }
}

/// The search terms of the request with these bytes: those of the `$text` clauses of its
/// `filter` document, and none where it has no such document. Where the request, the
/// filter or a clause failed to decode, the first error on the way.
pub open spec fn search_terms(request: Seq<u8>) -> DecodedTerms {
    match found_element(request, "filter"@) {
        LookupModel::Malformed(error) => Err(error),
        LookupModel::Found(ElementModel::Document(filter)) => filter_terms(document_items(filter)),
        _ => Ok(Seq::empty()),
    }
}

/// Splits `text` with `str::split_whitespace` and copies the pieces.
///
/// Trusted: the pieces are the longest runs of characters of `text` without white
/// space, in order, where white space is what Unicode gives the property `White_Space`.
#[verifier::external_body]
pub(crate) fn split_words(text: &str) -> (pieces: Vec<String>)
    ensures
        pieces.deep_view() == words(text@),
        forall|i: int, j: int|
            0 <= i < pieces.len() && 0 <= j < pieces[i]@.len() ==> !white_space(
                #[trigger] pieces[i]@[j],
            ),
{
    text.split_whitespace().map(|piece| piece.to_string()).collect()
}

/// Adds the terms of a `$text` clause to `terms`.
fn collect_clause_terms(clause: &RawDocument, terms: &mut Vec<String>) -> (done: Result<
    (),
    QueryError,
>)
    ensures
        match text_clause_terms(document_items(document_bytes(clause))) {
            Ok(found) => done is Ok && final(terms).deep_view() == old(terms).deep_view() + found,
            Err(error) => done == Err::<(), QueryError>(QueryError::Decode(error)),
        },
{
    let ghost before = terms.deep_view();
    let ghost all = document_items(document_bytes(clause));
    let ghost mut seen: Seq<Seq<char>> = Seq::empty();
    let mut cursor = open_cursor(clause);
    loop
        invariant
            before == old(terms).deep_view(),
            all == document_items(document_bytes(clause)),
            terms.deep_view() == before + seen,
            text_clause_terms(all) == followed_by(seen, text_clause_terms(pending_items(cursor))),
        decreases pending_items(cursor).len(),
    {
        let ghost pending = pending_items(cursor);
        match next_item(&mut cursor) {
            None => {
                assert(seen + Seq::<Seq<char>>::empty() =~= seen);
                return Ok(());
            },
            Some(Err(error)) => {
                return Err(QueryError::Decode(error));
            },
            Some(Ok((key, value))) => {
                let ghost contributed = search_entry_terms(pending.first())->Ok_0;
                if same_text(key, "$search") {
                    if let Element::Text(text) = value {
                        let mut pieces = split_words(text);
                        let ghost earlier = terms.deep_view();
                        let ghost added = pieces.deep_view();
                        terms.append(&mut pieces);
                        assert(terms.deep_view() =~= earlier + added);
                    }
                }
                proof {
                    assert(terms.deep_view() =~= before + (seen + contributed));
                    let rest = text_clause_terms(pending.drop_first());
                    if rest is Ok {
                        assert(seen + (contributed + rest->Ok_0) =~= (seen + contributed)
                            + rest->Ok_0);
                    }
                    seen = seen + contributed;
                }
            },
        }
    }
}

/// Adds the terms of a filter's `$text` clauses to `terms`.
fn collect_filter_terms(filter: &RawDocument, terms: &mut Vec<String>) -> (done: Result<
    (),
    QueryError,
>)
    ensures
        match filter_terms(document_items(document_bytes(filter))) {
            Ok(found) => done is Ok && final(terms).deep_view() == old(terms).deep_view() + found,
            Err(error) => done == Err::<(), QueryError>(QueryError::Decode(error)),
        },
{
    let ghost before = terms.deep_view();
    let ghost all = document_items(document_bytes(filter));
    let ghost mut seen: Seq<Seq<char>> = Seq::empty();
    let mut cursor = open_cursor(filter);
    loop
        invariant
            before == old(terms).deep_view(),
            all == document_items(document_bytes(filter)),
            terms.deep_view() == before + seen,
            filter_terms(all) == followed_by(seen, filter_terms(pending_items(cursor))),
        decreases pending_items(cursor).len(),
    {
        let ghost pending = pending_items(cursor);
        match next_item(&mut cursor) {
            None => {
                assert(seen + Seq::<Seq<char>>::empty() =~= seen);
                return Ok(());
            },
            Some(Err(error)) => {
                return Err(QueryError::Decode(error));
            },
            Some(Ok((key, value))) => {
                if same_text(key, "$text") {
                    if let Element::Document(clause) = value {
                        match collect_clause_terms(clause, terms) {
                            Ok(()) => {},
                            Err(error) => {
                                return Err(error);
                            },
                        }
                    }
                }
                proof {
                    let contributed = filter_entry_terms(pending.first())->Ok_0;
                    assert(terms.deep_view() =~= before + (seen + contributed));
                    let rest = filter_terms(pending.drop_first());
                    if rest is Ok {
                        assert(seen + (contributed + rest->Ok_0) =~= (seen + contributed)
                            + rest->Ok_0);
                    }
                    seen = seen + contributed;
                }
            },
        }
    }
}

/// Extracts the search terms of a request, in the order in which they appear.
///
/// The terms are the words of every `$search` string in every `$text` clause of the
/// request's `filter` document; case, punctuation and repetitions are kept. A request
/// without such a clause has no terms. Fails only where the request does not decode.
pub fn extract_text_query_terms(request: &RawDocument) -> (extracted: Result<
    Vec<String>,
    QueryError,
>)
    ensures
        match search_terms(document_bytes(request)) {
            Ok(terms) => extracted is Ok && extracted->Ok_0.deep_view() == terms,
            Err(error) => extracted == Err::<Vec<String>, QueryError>(QueryError::Decode(error)),
        },
{
    let mut terms: Vec<String> = Vec::new();
    assert(terms.deep_view() =~= Seq::<Seq<char>>::empty());
    match lookup(request, "filter") {
        Err(error) => Err(QueryError::Decode(error)),
        Ok(Some(Element::Document(filter))) => {
            match collect_filter_terms(filter, &mut terms) {
                Ok(()) => {
                    assert(Seq::<Seq<char>>::empty() + filter_terms(
                        document_items(document_bytes(filter)),
                    )->Ok_0 =~= filter_terms(document_items(document_bytes(filter)))->Ok_0);
                    Ok(terms)
                },
                Err(error) => Err(error),
            }
        },
        Ok(_) => Ok(terms),
    }
}

} // verus!
