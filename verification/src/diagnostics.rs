//! The diagnostics reporter: what the planner would do with a request.
//!
//! A report has no effect on how a request runs. It is made for tools that inspect
//! and tune the planner.

use vstd::prelude::*;
use bson::RawDocument;
use crate::algorithm::algorithm_tag;
use crate::document::{document_bytes, found_element, lookup, Element, ElementModel, LookupModel};
use crate::error::QueryError;
use crate::plan::{analyze_pisa_query, plan_for, PlanModel};
use crate::routing::{declared_limit, read_limit};
use crate::terms::{extract_text_query_terms, search_terms};

verus! {

/// What a report says of the plan of a request.
#[derive(Debug, Clone)]
pub struct PlanSummary {
    /// The tag of the selected algorithm.
    pub pisa_algorithm: String,
    /// The cost of the selected algorithm, in relative units.
    pub estimated_cost: u32,
    pub use_block_max: bool,
    pub essential_terms_count: usize,
}

/// A report on a request.
#[derive(Debug, Clone)]
pub struct QueryDiagnostics {
    /// The plan of the request; none for a request without search terms.
    pub plan: Option<PlanSummary>,
    /// Whether the request holds a `sort` document.
    pub has_sort: bool,
    /// The result cap of the request, where it declares one as a 32-bit integer.
    pub limit: Option<i32>,
}

/// The mathematical content of a [`PlanSummary`].
pub struct PlanSummaryModel {
    pub pisa_algorithm: Seq<char>,
    pub estimated_cost: nat,
    pub use_block_max: bool,
    pub essential_terms_count: nat,
}

/// The mathematical content of a [`QueryDiagnostics`].
pub struct DiagnosticsModel {
    pub plan: Option<PlanSummaryModel>,
    pub has_sort: bool,
    pub limit: Option<i32>,
}

impl View for PlanSummary {
    type V = PlanSummaryModel;

    open spec fn view(&self) -> PlanSummaryModel {
        PlanSummaryModel {
            pisa_algorithm: self.pisa_algorithm@,
            estimated_cost: self.estimated_cost as nat,
            use_block_max: self.use_block_max,
            essential_terms_count: self.essential_terms_count as nat,
        }
    }
}

impl View for QueryDiagnostics {
    type V = DiagnosticsModel;

    open spec fn view(&self) -> DiagnosticsModel {
        DiagnosticsModel {
            plan: match self.plan {
                Some(summary) => Some(summary@),
                None => None,
            },
            has_sort: self.has_sort,
            limit: self.limit,
        }
    }
}

/// What a report says of this plan.
pub open spec fn summary_of(plan: PlanModel) -> PlanSummaryModel {
    PlanSummaryModel {
        pisa_algorithm: algorithm_tag(plan.selected_algorithm),
        estimated_cost: plan.estimated_cost,
        use_block_max: plan.use_block_max_optimization,
        essential_terms_count: plan.essential_terms.len(),
    }
}

/// Whether a lookup found a document.
pub open spec fn is_document(found: LookupModel) -> bool {
    found matches LookupModel::Found(ElementModel::Document(_))
}

/// The report on the request with these bytes, planned for a cap of `probe_top_k`, or
/// the decoder's error where the search terms of the request do not decode. A `sort`
/// or `limit` field that does not decode counts as missing.
pub open spec fn diagnostics_for(request: Seq<u8>, probe_top_k: int) -> Result<
    DiagnosticsModel,
    bson::raw::Error,
> {
    match search_terms(request) {
        Err(error) => Err(error),
        Ok(terms) => Ok(
            DiagnosticsModel {
                plan: if terms.len() == 0 {
                    None
                } else {
                    Some(summary_of(plan_for(terms, probe_top_k)))
                },
                has_sort: is_document(found_element(request, "sort"@)),
                limit: declared_limit(found_element(request, "limit"@)),
            },
        ),
    }
}

/// Reports what the planner would do with a request.
///
/// The plan is made anew from the terms of the request, for a result cap of
/// `probe_top_k`. Fails only where the search terms of the request do not decode.
pub fn optimize_query_execution_plan(request: &RawDocument, probe_top_k: i32) -> (report: Result<
    QueryDiagnostics,
    QueryError,
>)
    ensures
        match diagnostics_for(document_bytes(request), probe_top_k as int) {
            Ok(diagnostics) => report is Ok && report->Ok_0@ == diagnostics,
            Err(error) => report == Err::<QueryDiagnostics, QueryError>(QueryError::Decode(error)),
        },
{
    let terms = match extract_text_query_terms(request) {
        Ok(terms) => terms,
        Err(error) => {
            return Err(error);
        },
    };
    let plan = if terms.is_empty() {
        None
    } else {
        let query_terms = terms.as_slice();
        assert(query_terms.deep_view() =~= terms.deep_view());
        let plan = analyze_pisa_query(query_terms, probe_top_k);
        Some(
            PlanSummary {
                pisa_algorithm: plan.selected_algorithm.name(),
                estimated_cost: plan.estimated_cost,
                use_block_max: plan.use_block_max_optimization,
                essential_terms_count: plan.essential_terms.len(),
            },
        )
    };
    let has_sort = match lookup(request, "sort") {
        Ok(Some(Element::Document(_))) => true,
        _ => false,
    };
    let limit = match read_limit(request) {
        Ok(limit) => limit,
        Err(_) => None,
    };
    Ok(QueryDiagnostics { plan, has_sort, limit })
}

} // verus!
