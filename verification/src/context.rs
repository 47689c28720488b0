//! The per-request query context and its builder.

use vstd::prelude::*;
use crate::algorithm::PisaQueryAlgorithm;

verus! {

/// What one request asks of the ranked-retrieval backend.
#[derive(Debug, Clone)]
pub struct PisaQueryContext {
    pub database_name: String,
    pub collection_name: String,
    /// The search terms, in the order in which the request gives them.
    pub query_terms: Vec<String>,
    pub algorithm: PisaQueryAlgorithm,
    /// The number of results asked for.
    pub top_k: i32,
    /// The least score a result must reach, as the bit pattern of an IEEE 754 double.
    /// Carried along; no decision reads it.
    pub score_threshold_bits: u64,
    pub use_hybrid_search: bool,
}

/// The mathematical content of a [`PisaQueryContext`].
pub struct ContextModel {
    pub database_name: Seq<char>,
    pub collection_name: Seq<char>,
    pub query_terms: Seq<Seq<char>>,
    pub algorithm: PisaQueryAlgorithm,
    pub top_k: int,
    pub score_threshold_bits: u64,
    pub use_hybrid_search: bool,
}

impl ContextModel {
    /// The context of a new request: algorithm left open, ten results, a threshold of
    /// zero, no hybrid search.
    pub open spec fn new(
        database_name: Seq<char>,
        collection_name: Seq<char>,
        query_terms: Seq<Seq<char>>,
    ) -> ContextModel {
        ContextModel {
            database_name,
            collection_name,
            query_terms,
            algorithm: PisaQueryAlgorithm::Auto,
            top_k: 10,
            score_threshold_bits: 0,
            use_hybrid_search: false,
        }
    }

    /// This context with another algorithm.
    pub open spec fn with_algorithm(self, algorithm: PisaQueryAlgorithm) -> ContextModel {
        ContextModel { algorithm, ..self }
    }

    /// This context with another result cap.
    pub open spec fn with_top_k(self, top_k: int) -> ContextModel {
        ContextModel { top_k, ..self }
    }

    /// This context with hybrid search switched on or off.
    pub open spec fn with_hybrid_search(self, use_hybrid: bool) -> ContextModel {
        ContextModel { use_hybrid_search: use_hybrid, ..self }
    }
}

impl View for PisaQueryContext {
    type V = ContextModel;

    open spec fn view(&self) -> ContextModel {
        ContextModel {
            database_name: self.database_name@,
            collection_name: self.collection_name@,
            query_terms: self.query_terms.deep_view(),
            algorithm: self.algorithm,
            top_k: self.top_k as int,
            score_threshold_bits: self.score_threshold_bits,
            use_hybrid_search: self.use_hybrid_search,
        }
    }
}

impl PisaQueryContext {
    /// The context of a new request, with every setting at its default.
    pub fn new(database_name: String, collection_name: String, query_terms: Vec<String>) -> (context:
        Self)
        ensures
            context@ == ContextModel::new(
                database_name@,
                collection_name@,
                query_terms.deep_view(),
            ),
    {
        PisaQueryContext {
            database_name,
            collection_name,
            query_terms,
            algorithm: PisaQueryAlgorithm::Auto,
            top_k: 10,
            score_threshold_bits: 0,
            use_hybrid_search: false,
        }
    }

    /// Sets the algorithm and leaves the rest as it is.
    pub fn with_algorithm(self, algorithm: PisaQueryAlgorithm) -> (context: Self)
        ensures
            context@ == self@.with_algorithm(algorithm),
    {
        let mut context = self;
        context.algorithm = algorithm;
        context
    }

    /// Sets the result cap and leaves the rest as it is. Any cap is taken.
    pub fn with_top_k(self, top_k: i32) -> (context: Self)
        ensures
            context@ == self@.with_top_k(top_k as int),
    {
        let mut context = self;
        context.top_k = top_k;
        context
    }

    /// Switches hybrid search on or off and leaves the rest as it is.
    pub fn with_hybrid_search(self, use_hybrid: bool) -> (context: Self)
        ensures
            context@ == self@.with_hybrid_search(use_hybrid),
    {
        let mut context = self;
        context.use_hybrid_search = use_hybrid;
        context
    }
}

/// After the three setters, in this order, the context holds the three values given
/// and is otherwise as before.
pub proof fn lemma_setters_compose(
    context: ContextModel,
    algorithm: PisaQueryAlgorithm,
    top_k: int,
    use_hybrid: bool,
)
    ensures
        context.with_algorithm(algorithm).with_top_k(top_k).with_hybrid_search(use_hybrid)
            == (ContextModel { algorithm, top_k, use_hybrid_search: use_hybrid, ..context }),
{
}

/// Of two calls of one setter, the later one decides.
pub proof fn lemma_last_setting_wins(
    context: ContextModel,
    first_algorithm: PisaQueryAlgorithm,
    algorithm: PisaQueryAlgorithm,
    first_top_k: int,
    top_k: int,
    first_hybrid: bool,
    use_hybrid: bool,
)
    ensures
        context.with_algorithm(first_algorithm).with_algorithm(algorithm)
            == context.with_algorithm(algorithm),
        context.with_top_k(first_top_k).with_top_k(top_k) == context.with_top_k(top_k),
        context.with_hybrid_search(first_hybrid).with_hybrid_search(use_hybrid)
            == context.with_hybrid_search(use_hybrid),
{
}

/// The setters do not touch each other's fields: their order does not matter.
pub proof fn lemma_setters_commute(
    context: ContextModel,
    algorithm: PisaQueryAlgorithm,
    top_k: int,
    use_hybrid: bool,
)
    ensures
        context.with_algorithm(algorithm).with_top_k(top_k) == context.with_top_k(
            top_k,
        ).with_algorithm(algorithm),
        context.with_algorithm(algorithm).with_hybrid_search(use_hybrid)
            == context.with_hybrid_search(use_hybrid).with_algorithm(algorithm),
        context.with_top_k(top_k).with_hybrid_search(use_hybrid) == context.with_hybrid_search(
            use_hybrid,
        ).with_top_k(top_k),
{
}

} // verus!
