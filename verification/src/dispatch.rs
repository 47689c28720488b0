//! The decisions of the execution dispatcher.
//!
//! The dispatcher alternates between decisions and work that only its caller can do:
//! resolving the target of a request, asking the ranked-retrieval backend, running the
//! standard execution path. The decisions are here, one function for each; the caller
//! does the work between them and hands in what it got.
//!
//! A find request goes through [`routed_terms`](crate::routing::routed_terms), then,
//! where it is routed, through [`plan_ranked_find`] and, with the hits of the backend,
//! through [`settle_ranked_find`]. An aggregate request always runs on the standard
//! path; where it would be routed, [`observe_aggregate`] plans it for the record only.

use vstd::prelude::*;
use bson::RawDocument;
use bson::RawDocumentBuf;
use crate::algorithm::code_of_algorithm;
use crate::context::{ContextModel, PisaQueryContext};
use crate::document::{document_bytes, found_element, LookupModel};
use crate::error::QueryError;
use crate::plan::{analyze_pisa_query, plan_for, PisaQueryExecutionPlan, PlanModel};
use crate::results::{carried_documents, combine_pisa_and_standard_results, PisaQueryResult};
use crate::routing::{declared_limit, read_limit};

verus! {

/// The result cap of a ranked find request that declares none.
pub const DEFAULT_TOP_K: i32 = 10;

/// The result cap with which an aggregate request is planned.
pub const AGGREGATE_TOP_K: i32 = 100;

/// One call of the ranked-retrieval backend.
#[derive(Debug, Clone)]
pub struct BackendCall {
    pub database_name: String,
    pub collection_name: String,
    /// The search terms in their order, as the text of a JSON array of strings.
    pub query_terms_json: String,
    /// The wire code of the algorithm, a number from 1 to 5.
    pub algorithm_code: i32,
    pub top_k: i32,
}

/// The mathematical content of a [`BackendCall`].
pub struct BackendCallModel {
    pub database_name: Seq<char>,
    pub collection_name: Seq<char>,
    pub query_terms_json: Seq<char>,
    pub algorithm_code: int,
    pub top_k: int,
}

impl View for BackendCall {
    type V = BackendCallModel;

    open spec fn view(&self) -> BackendCallModel {
        BackendCallModel {
            database_name: self.database_name@,
            collection_name: self.collection_name@,
            query_terms_json: self.query_terms_json@,
            algorithm_code: self.algorithm_code as int,
            top_k: self.top_k as int,
        }
    }
}

/// A ranked find request, ready for the backend.
#[derive(Debug, Clone)]
pub struct RankedFind {
    pub context: PisaQueryContext,
    pub plan: PisaQueryExecutionPlan,
    pub call: BackendCall,
}

/// What becomes of a ranked find request once the backend has answered.
#[derive(Debug, Clone)]
pub enum FindOutcome {
    /// The backend found nothing: the request runs on the standard path after all.
    FallBack,
    /// The response holds these documents; the standard path is not run.
    Respond(Vec<RawDocumentBuf>),
}

/// The plan of an aggregate request, made for the record; the request itself runs on
/// the standard path.
#[derive(Debug, Clone)]
pub struct AggregateObservation {
    pub context: PisaQueryContext,
    pub plan: PisaQueryExecutionPlan,
}

/// The text of the JSON array of these strings, as `serde_json` writes it, or the error
/// with which it fails to.
pub uninterp spec fn json_of_terms(terms: Seq<Seq<char>>) -> Result<Seq<char>, serde_json::Error>;

/// The backend call for a context and its plan, given the serialized terms.
pub open spec fn call_for(context: ContextModel, plan: PlanModel, query_terms_json: Seq<char>)
    -> BackendCallModel {
    BackendCallModel {
        database_name: context.database_name,
        collection_name: context.collection_name,
        query_terms_json,
        algorithm_code: code_of_algorithm(plan.selected_algorithm),
        top_k: context.top_k,
    }
}

/// The result cap of a ranked find request: the cap it declares, or ten.
pub open spec fn requested_top_k(found: LookupModel) -> int {
    match declared_limit(found) {
        Some(limit) => limit as int,
        None => DEFAULT_TOP_K as int,
    }
}

/// The context of a ranked find request for these terms: the declared cap, hybrid
/// search switched on, the rest as in any new context.
pub open spec fn ranked_find_context(
    database_name: Seq<char>,
    collection_name: Seq<char>,
    terms: Seq<Seq<char>>,
    found_limit: LookupModel,
) -> ContextModel {
    ContextModel::new(database_name, collection_name, terms).with_top_k(
        requested_top_k(found_limit),
    ).with_hybrid_search(true)
}

/// Serializes the terms with `serde_json::to_string`.
///
/// Trusted: the outcome, text or error, is the one that `json_of_terms` names for these
/// terms. Nothing is claimed of what the text holds, nor of when the call fails.
#[verifier::external_body]
pub(crate) fn serialize_terms(terms: &Vec<String>) -> (text: Result<String, serde_json::Error>)
    ensures
        match text {
            Ok(text) => json_of_terms(terms.deep_view()) == Ok::<Seq<char>, serde_json::Error>(
                text@,
            ),
            Err(error) => json_of_terms(terms.deep_view()) == Err::<Seq<char>, serde_json::Error>(
                error,
            ),
        },
{
    serde_json::to_string(terms)
}

/// Puts the backend call together from a context, its plan and the serialized terms.
pub fn backend_call(
    context: &PisaQueryContext,
    plan: &PisaQueryExecutionPlan,
    query_terms_json: String,
) -> (call: BackendCall)
    ensures
        call@ == call_for(context@, plan@, query_terms_json@),
{
    BackendCall {
        database_name: context.database_name.clone(),
        collection_name: context.collection_name.clone(),
        query_terms_json,
        algorithm_code: plan.selected_algorithm.to_i32(),
        top_k: context.top_k,
    }
}

/// Serializes the terms of a context and puts the backend call together.
///
/// Fails with an internal error exactly where the terms cannot be serialized.
pub fn prepare_backend_call(context: &PisaQueryContext, plan: &PisaQueryExecutionPlan) -> (call:
    Result<BackendCall, QueryError>)
    ensures
        match json_of_terms(context@.query_terms) {
            Ok(json) => call is Ok && call->Ok_0@ == call_for(context@, plan@, json),
            Err(error) => call == Err::<BackendCall, QueryError>(QueryError::Internal(error)),
        },
{
    match serialize_terms(&context.query_terms) {
        Ok(json) => Ok(backend_call(context, plan, json)),
        Err(error) => Err(QueryError::Internal(error)),
    }
}

/// Plans a find request that is routed to the ranked-retrieval backend.
///
/// `terms` are the search terms of the request; the target names are those that the
/// caller resolved for it. The result cap is the one that the request declares, or
/// ten. Fails with a decode error where the `limit` field does not decode, and with an
/// internal error where the terms cannot be serialized.
pub fn plan_ranked_find(
    request: &RawDocument,
    database_name: String,
    collection_name: String,
    terms: Vec<String>,
) -> (planned: Result<RankedFind, QueryError>)
    ensures
        match found_element(document_bytes(request), "limit"@) {
            LookupModel::Malformed(error) => planned == Err::<RankedFind, QueryError>(
                QueryError::Decode(error),
            ),
            found_limit => {
                let context = ranked_find_context(
                    database_name@,
                    collection_name@,
                    terms.deep_view(),
                    found_limit,
                );
                let plan = plan_for(terms.deep_view(), context.top_k);
                match json_of_terms(terms.deep_view()) {
                    Ok(json) => {
                        &&& planned is Ok
                        &&& planned->Ok_0.context@ == context
                        &&& planned->Ok_0.plan@ == plan
                        &&& planned->Ok_0.call@ == call_for(context, plan, json)
                    },
                    Err(error) => planned == Err::<RankedFind, QueryError>(
                        QueryError::Internal(error),
                    ),
                }
            },
        },
{
    let top_k = match read_limit(request) {
        Ok(Some(limit)) => limit,
        Ok(None) => DEFAULT_TOP_K,
        Err(error) => {
            return Err(error);
        },
    };
    let context = PisaQueryContext::new(database_name, collection_name, terms).with_top_k(
        top_k,
    ).with_hybrid_search(true);
    let plan = {
        let query_terms = context.query_terms.as_slice();
        assert(query_terms.deep_view() =~= context.query_terms.deep_view());
        analyze_pisa_query(query_terms, context.top_k)
    };
    match prepare_backend_call(&context, &plan) {
        Ok(call) => Ok(RankedFind { context, plan, call }),
        Err(error) => Err(error),
    }
}

/// Decides what becomes of a ranked find request once the backend has answered.
///
/// No hits are a soft miss and no error: the request falls back to the standard path.
/// Otherwise the response holds the documents that the hits carry, in their order.
pub fn settle_ranked_find(results: Vec<PisaQueryResult>) -> (outcome: FindOutcome)
    ensures
        match outcome {
            FindOutcome::FallBack => results@.len() == 0,
            FindOutcome::Respond(documents) => {
                &&& results@.len() > 0
                &&& documents@ == carried_documents(results@)
            },
        },
{
    if results.is_empty() {
        FindOutcome::FallBack
    } else {
        FindOutcome::Respond(combine_pisa_and_standard_results(results))
    }
}

/// Plans an aggregate request that would be routed, for the record.
///
/// The context keeps every default; the plan is made for a cap of 100 results.
pub fn observe_aggregate(
    database_name: String,
    collection_name: String,
    terms: Vec<String>,
) -> (observed: AggregateObservation)
    ensures
        observed.context@ == ContextModel::new(
            database_name@,
            collection_name@,
            terms.deep_view(),
        ),
        observed.plan@ == plan_for(terms.deep_view(), AGGREGATE_TOP_K as int),
{
    let context = PisaQueryContext::new(database_name, collection_name, terms);
    let plan = {
        let query_terms = context.query_terms.as_slice();
        assert(query_terms.deep_view() =~= context.query_terms.deep_view());
        analyze_pisa_query(query_terms, AGGREGATE_TOP_K)
    };
    AggregateObservation { context, plan }
}

} // verus!
