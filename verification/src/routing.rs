//! The route decision: does a request go to the ranked-retrieval backend?

use vstd::prelude::*;
use bson::RawDocument;
use crate::document::{document_bytes, found_element, lookup, Element, ElementModel, LookupModel};
use crate::error::QueryError;
use crate::terms::{extract_text_query_terms, search_terms};

verus! {

/// The largest result cap with which a query of a single term is still routed.
pub const SINGLE_TERM_LIMIT: i32 = 100;

/// The route decision for a request with `term_count` search terms and this result cap.
///
/// Without terms there is nothing to rank. Two terms or more are always worth ranking.
/// A single term is ranked only for a small result window.
pub open spec fn route_decision(term_count: nat, limit: Option<i32>) -> bool {
    if term_count == 0 {
        false
    } else if term_count >= 2 {
        true
    } else {
        limit is Some && limit->Some_0 <= SINGLE_TERM_LIMIT
    }
}

/// The result cap that a request declares: what its `limit` field holds, where that is
/// a 32-bit integer.
pub open spec fn declared_limit(found: LookupModel) -> Option<i32> {
    match found {
        LookupModel::Found(ElementModel::Int32(limit)) => Some(limit),
        _ => None,
    }
}

/// The route decision for the request with these bytes, or the decoder's error where
/// the request does not decode as far as the decision has to read it: the `limit`
/// field is read only for a query of a single term.
pub open spec fn routing(request: Seq<u8>) -> Result<bool, bson::raw::Error> {
    match search_terms(request) {
        Err(error) => Err(error),
        Ok(terms) => if terms.len() != 1 {
            Ok(route_decision(terms.len(), None))
        } else {
            match found_element(request, "limit"@) {
                LookupModel::Malformed(error) => Err(error),
                found => Ok(route_decision(1, declared_limit(found))),
            }
        },
    }
}

/// A request without search terms is never routed, whatever its result cap.
pub proof fn lemma_no_terms_no_route(limit: Option<i32>)
    ensures
        !route_decision(0, limit),
{
}

/// A request with two search terms or more is always routed, whatever its result cap.
pub proof fn lemma_several_terms_route(term_count: nat, limit: Option<i32>)
    requires
        term_count >= 2,
    ensures
        route_decision(term_count, limit),
{
}

/// A request with a single search term is routed exactly when it declares a result
/// cap of at most 100.
pub proof fn lemma_single_term_route(limit: Option<i32>)
    ensures
        route_decision(1, limit) <==> limit is Some && limit->Some_0 <= 100,
{
}

/// A request whose filter holds no search terms is not routed, whatever else it holds.
pub proof fn lemma_request_without_terms(request: Seq<u8>)
    requires
        search_terms(request) == Ok::<Seq<Seq<char>>, bson::raw::Error>(Seq::empty()),
    ensures
        routing(request) == Ok::<bool, bson::raw::Error>(false),
{
}

/// Decides from the extracted terms and the declared result cap whether a request is
/// routed to the ranked-retrieval backend.
pub fn should_route(terms: &[String], limit: Option<i32>) -> (routed: bool)
    ensures
        routed == route_decision(terms@.len(), limit),
{
    if terms.len() == 0 {
        return false;
    }
    if terms.len() >= 2 {
        return true;
    }
    match limit {
        Some(limit) => limit <= SINGLE_TERM_LIMIT,
        None => false,
    }
}

/// Reads the result cap that a request declares.
pub fn read_limit(request: &RawDocument) -> (limit: Result<Option<i32>, QueryError>)
    ensures
        match found_element(document_bytes(request), "limit"@) {
            LookupModel::Malformed(error) => limit == Err::<Option<i32>, QueryError>(
                QueryError::Decode(error),
            ),
            found => limit == Ok::<Option<i32>, QueryError>(declared_limit(found)),
        },
{
    match lookup(request, "limit") {
        Err(error) => Err(QueryError::Decode(error)),
        Ok(Some(Element::Int32(limit))) => Ok(Some(limit)),
        Ok(_) => Ok(None),
    }
}

/// The search terms of a request that is to be routed to the ranked-retrieval backend,
/// and `None` for a request that is not.
pub fn routed_terms(request: &RawDocument) -> (routed: Result<Option<Vec<String>>, QueryError>)
    ensures
        match routing(document_bytes(request)) {
            Err(error) => routed == Err::<Option<Vec<String>>, QueryError>(
                QueryError::Decode(error),
            ),
            Ok(false) => routed is Ok && routed->Ok_0 is None,
            Ok(true) => {
                &&& routed is Ok
                &&& routed->Ok_0 is Some
                &&& search_terms(document_bytes(request)) == Ok::<Seq<Seq<char>>, bson::raw::Error>(
                    routed->Ok_0->Some_0.deep_view(),
                )
            },
        },
{
    let terms = match extract_text_query_terms(request) {
        Ok(terms) => terms,
        Err(error) => {
            return Err(error);
        },
    };
    let limit = if terms.len() == 1 {
        match read_limit(request) {
            Ok(limit) => limit,
            Err(error) => {
                return Err(error);
            },
        }
    } else {
        None
    };
    if should_route(terms.as_slice(), limit) {
        Ok(Some(terms))
    } else {
        Ok(None)
    }
}

/// Decides whether a request is routed to the ranked-retrieval backend.
///
/// Fails only where the request does not decode.
pub fn should_use_pisa_for_query(request: &RawDocument) -> (routed: Result<bool, QueryError>)
    ensures
        match routing(document_bytes(request)) {
            Err(error) => routed == Err::<bool, QueryError>(QueryError::Decode(error)),
            Ok(decision) => routed == Ok::<bool, QueryError>(decision),
        },
{
    match routed_terms(request) {
        Ok(terms) => Ok(terms.is_some()),
        Err(error) => Err(error),
    }
}

} // verus!
