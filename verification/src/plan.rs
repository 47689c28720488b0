//! The plan generator: from search terms and a result cap to an execution plan.

use vstd::prelude::*;
use vstd::seq_lib::lemma_multiset_commutative;
use vstd::utf8::encode_utf8;
use crate::algorithm::PisaQueryAlgorithm;

verus! {

/// How a ranked query over some terms is to be run.
#[derive(Debug, Clone)]
pub struct PisaQueryExecutionPlan {
    pub selected_algorithm: PisaQueryAlgorithm,
    /// The terms longer than three bytes, in the order of the query.
    pub essential_terms: Vec<String>,
    /// The other terms, in the order of the query.
    pub non_essential_terms: Vec<String>,
    /// Cost of the selected algorithm, in relative units.
    pub estimated_cost: u32,
    pub estimated_results: i32,
    pub use_block_max_optimization: bool,
    pub use_early_termination: bool,
}

/// The mathematical content of a [`PisaQueryExecutionPlan`].
pub struct PlanModel {
    pub selected_algorithm: PisaQueryAlgorithm,
    pub essential_terms: Seq<Seq<char>>,
    pub non_essential_terms: Seq<Seq<char>>,
    pub estimated_cost: nat,
    pub estimated_results: int,
    pub use_block_max_optimization: bool,
    pub use_early_termination: bool,
}

impl PlanModel {
    /// What holds of every plan that the generator makes, whatever the query: the
    /// terms are parted by their length, the flags and the cost follow from the number
    /// of terms and the algorithm, and no more than 1000 results are expected.
    pub open spec fn well_formed(self) -> bool {
        let term_count = self.essential_terms.len() + self.non_essential_terms.len();
        &&& forall|i: int|
            0 <= i < self.essential_terms.len() ==> is_essential(#[trigger] self.essential_terms[i])
        &&& forall|i: int|
            0 <= i < self.non_essential_terms.len() ==> !is_essential(
                #[trigger] self.non_essential_terms[i],
            )
        &&& self.selected_algorithm != PisaQueryAlgorithm::RankedAnd
        &&& self.selected_algorithm != PisaQueryAlgorithm::Auto
        &&& term_count <= 2 ==> self.selected_algorithm == PisaQueryAlgorithm::Wand
        &&& term_count > 5 ==> self.selected_algorithm == PisaQueryAlgorithm::MaxScore
        &&& self.estimated_cost == cost_of(self.selected_algorithm)
        &&& i32::MIN <= self.estimated_results <= 1000
        &&& self.use_block_max_optimization == (term_count >= 3)
        &&& self.use_early_termination
    }
}

impl View for PisaQueryExecutionPlan {
    type V = PlanModel;

    open spec fn view(&self) -> PlanModel {
        PlanModel {
            selected_algorithm: self.selected_algorithm,
            essential_terms: self.essential_terms.deep_view(),
            non_essential_terms: self.non_essential_terms.deep_view(),
            estimated_cost: self.estimated_cost as nat,
            estimated_results: self.estimated_results as int,
            use_block_max_optimization: self.use_block_max_optimization,
            use_early_termination: self.use_early_termination,
        }
    }
}

/// The algorithm for a query of `term_count` terms that asks for `top_k` results.
pub open spec fn algorithm_for(term_count: nat, top_k: int) -> PisaQueryAlgorithm {
    if term_count <= 2 {
        PisaQueryAlgorithm::Wand
    } else if term_count <= 5 && top_k <= 100 {
        PisaQueryAlgorithm::BlockMaxWand
    } else if term_count > 5 {
        PisaQueryAlgorithm::MaxScore
    } else {
        PisaQueryAlgorithm::Wand
    }
}

/// The fixed cost of running an algorithm, in relative units.
pub open spec fn cost_of(algorithm: PisaQueryAlgorithm) -> nat {
    match algorithm {
        PisaQueryAlgorithm::Wand => 100,
        PisaQueryAlgorithm::BlockMaxWand => 200,
        PisaQueryAlgorithm::MaxScore => 300,
        _ => 150,
    }
}

/// A term is essential when its UTF-8 encoding is longer than three bytes.
pub open spec fn is_essential(term: Seq<char>) -> bool {
    encode_utf8(term).len() > 3
}

/// The essential terms among `terms`, in their order.
pub open spec fn essential_among(terms: Seq<Seq<char>>) -> Seq<Seq<char>> {
    terms.filter(|term: Seq<char>| is_essential(term))
}

/// The terms among `terms` that are not essential, in their order.
pub open spec fn non_essential_among(terms: Seq<Seq<char>>) -> Seq<Seq<char>> {
    terms.filter(|term: Seq<char>| !is_essential(term))
}

/// The number of results to expect for a cap of `top_k`: twice the cap and at most
/// 1000. A cap below zero passes through the doubling; the count stops at the least `i32`.
pub open spec fn estimated_result_count(top_k: int) -> int {
    if 2 * top_k > 1000 {
        1000
    } else if 2 * top_k < i32::MIN {
        i32::MIN as int
    } else {
        2 * top_k
    }
}

/// The plan for a query with these terms that asks for `top_k` results.
pub open spec fn plan_for(terms: Seq<Seq<char>>, top_k: int) -> PlanModel {
    PlanModel {
        selected_algorithm: algorithm_for(terms.len(), top_k),
        essential_terms: essential_among(terms),
        non_essential_terms: non_essential_among(terms),
        estimated_cost: cost_of(algorithm_for(terms.len(), top_k)),
        estimated_results: estimated_result_count(top_k),
        use_block_max_optimization: terms.len() >= 3,
        use_early_termination: true,
    }
}

/// The part of a further term in the partition of the terms before it.
proof fn lemma_partition_push(terms: Seq<Seq<char>>, term: Seq<char>)
    ensures
        essential_among(terms.push(term)) == if is_essential(term) {
            essential_among(terms).push(term)
        } else {
            essential_among(terms)
        },
        non_essential_among(terms.push(term)) == if is_essential(term) {
            non_essential_among(terms)
        } else {
            non_essential_among(terms).push(term)
        },
{
    terms.lemma_filter_push(term, |term: Seq<char>| is_essential(term));
    terms.lemma_filter_push(term, |term: Seq<char>| !is_essential(term));
}

/// The partition loses and invents nothing: the essential terms together with the
/// others are, as a multiset, the terms of the query.
pub proof fn lemma_partition_is_total(terms: Seq<Seq<char>>)
    ensures
        (essential_among(terms) + non_essential_among(terms)).to_multiset()
            == terms.to_multiset(),
    decreases terms.len(),
{
    broadcast use vstd::seq_lib::group_to_multiset_ensures;

    let essential = essential_among(terms);
    let others = non_essential_among(terms);
    lemma_multiset_commutative(essential, others);
    if terms.len() == 0 {
        lemma_partition_push(Seq::empty(), Seq::empty());
        assert(essential.len() <= 0) by {
            terms.lemma_filter_len(|term: Seq<char>| is_essential(term));
        }
        assert(others.len() <= 0) by {
            terms.lemma_filter_len(|term: Seq<char>| !is_essential(term));
        }
        assert(essential + others =~= terms);
    } else {
        let earlier = terms.drop_last();
        let term = terms.last();
        assert(terms =~= earlier.push(term));
        lemma_partition_is_total(earlier);
        lemma_partition_push(earlier, term);
        lemma_multiset_commutative(essential_among(earlier), non_essential_among(earlier));
        assert(terms.to_multiset() =~= earlier.to_multiset().insert(term));
        assert((essential + others).to_multiset() =~= terms.to_multiset());
    }
}

/// Every term of the query is in exactly one part: the sizes of the parts add up to
/// the number of terms.
pub proof fn lemma_partition_sizes(terms: Seq<Seq<char>>)
    ensures
        essential_among(terms).len() + non_essential_among(terms).len() == terms.len(),
{
    lemma_partition_is_total(terms);
    (essential_among(terms) + non_essential_among(terms)).to_multiset_ensures();
    terms.to_multiset_ensures();
}

/// Every plan that the generator makes is well formed.
pub proof fn lemma_plans_are_well_formed(terms: Seq<Seq<char>>, top_k: int)
    ensures
        plan_for(terms, top_k).well_formed(),
{
    let plan = plan_for(terms, top_k);
    lemma_partition_sizes(terms);
    assert forall|i: int| 0 <= i < plan.essential_terms.len() implies is_essential(
        #[trigger] plan.essential_terms[i],
    ) by {
        terms.lemma_filter_pred(|term: Seq<char>| is_essential(term), i);
    }
    assert forall|i: int| 0 <= i < plan.non_essential_terms.len() implies !is_essential(
        #[trigger] plan.non_essential_terms[i],
    ) by {
        terms.lemma_filter_pred(|term: Seq<char>| !is_essential(term), i);
    }
}

/// A query of at most two terms runs with WAND whatever its cap, and expects twice
/// the cap, at most 1000, with early termination.
pub proof fn lemma_short_query_plan(terms: Seq<Seq<char>>, top_k: int)
    requires
        terms.len() <= 2,
        i32::MIN <= 2 * top_k,
    ensures
        plan_for(terms, top_k).selected_algorithm == PisaQueryAlgorithm::Wand,
        plan_for(terms, top_k).estimated_results == if 2 * top_k <= 1000 {
            2 * top_k
        } else {
            1000
        },
        plan_for(terms, top_k).use_early_termination,
{
}

/// A query of more than five terms runs with MaxScore and the block-max optimization,
/// whatever its cap.
pub proof fn lemma_long_query_plan(terms: Seq<Seq<char>>, top_k: int)
    requires
        terms.len() > 5,
    ensures
        plan_for(terms, top_k).selected_algorithm == PisaQueryAlgorithm::MaxScore,
        plan_for(terms, top_k).use_block_max_optimization,
{
}

/// The expected number of results never exceeds 1000, and is negative only for a
/// negative cap.
pub proof fn lemma_estimate_bounds(top_k: int)
    ensures
        estimated_result_count(top_k) <= 1000,
        top_k >= 0 ==> estimated_result_count(top_k) >= 0,
        i32::MIN <= estimated_result_count(top_k),
{
}

/// No plan selects an algorithm other than WAND, block-max WAND and MaxScore.
pub proof fn lemma_selected_algorithms(term_count: nat, top_k: int)
    ensures
        algorithm_for(term_count, top_k) != PisaQueryAlgorithm::RankedAnd,
        algorithm_for(term_count, top_k) != PisaQueryAlgorithm::Auto,
{
}

/// The fixed cost of running `algorithm`, in relative units.
pub fn algorithm_cost(algorithm: PisaQueryAlgorithm) -> (cost: u32)
    ensures
        cost as nat == cost_of(algorithm),
{
    match algorithm {
        PisaQueryAlgorithm::Wand => 100,
        PisaQueryAlgorithm::BlockMaxWand => 200,
        PisaQueryAlgorithm::MaxScore => 300,
        _ => 150,
    }
}

/// Twice the cap, at most 1000 and at least the least `i32`.
fn estimate_results(top_k: i32) -> (count: i32)
    ensures
        count as int == estimated_result_count(top_k as int),
{
    if top_k > 500 {
        1000
    } else if top_k < -0x4000_0000 {
        i32::MIN
    } else {
        top_k * 2
    }
}

/// Plans a ranked query over `terms` that asks for `top_k` results.
///
/// Reads nothing but its arguments: the same terms and cap give the same plan.
pub fn analyze_pisa_query(terms: &[String], top_k: i32) -> (plan: PisaQueryExecutionPlan)
    ensures
        plan@ == plan_for(terms.deep_view(), top_k as int),
        plan@.well_formed(),
{
    proof {
        lemma_plans_are_well_formed(terms.deep_view(), top_k as int);
    }
    let term_count = terms.len();
    let selected_algorithm = if term_count <= 2 {
        PisaQueryAlgorithm::Wand
    } else if term_count <= 5 && top_k <= 100 {
        PisaQueryAlgorithm::BlockMaxWand
    } else if term_count > 5 {
        PisaQueryAlgorithm::MaxScore
    } else {
        PisaQueryAlgorithm::Wand
    };
    let mut essential_terms: Vec<String> = Vec::new();
    let mut non_essential_terms: Vec<String> = Vec::new();
    let ghost all = terms.deep_view();
    proof {
        assert(all.take(0) =~= Seq::<Seq<char>>::empty());
        all.take(0).lemma_filter_len(|term: Seq<char>| is_essential(term));
        all.take(0).lemma_filter_len(|term: Seq<char>| !is_essential(term));
        assert(essential_terms.deep_view() =~= essential_among(all.take(0)));
        assert(non_essential_terms.deep_view() =~= non_essential_among(all.take(0)));
    }
    let mut i: usize = 0;
    while i < term_count
        invariant
            i <= term_count == terms@.len(),
            all == terms.deep_view(),
            essential_terms.deep_view() == essential_among(all.take(i as int)),
            non_essential_terms.deep_view() == non_essential_among(all.take(i as int)),
        decreases term_count - i,
    {
        let term = &terms[i];
        let ghost essential_before = essential_terms.deep_view();
        let ghost others_before = non_essential_terms.deep_view();
        proof {
            assert(all.take(i + 1) =~= all.take(i as int).push(term@));
            lemma_partition_push(all.take(i as int), term@);
        }
        if term.as_str().as_bytes().len() > 3 {
            essential_terms.push(term.clone());
            assert(essential_terms.deep_view() =~= essential_before.push(term@));
        } else {
            non_essential_terms.push(term.clone());
            assert(non_essential_terms.deep_view() =~= others_before.push(term@));
        }
        i += 1;
    }
    assert(all.take(term_count as int) =~= all);
    PisaQueryExecutionPlan {
        selected_algorithm,
        essential_terms,
        non_essential_terms,
        estimated_cost: algorithm_cost(selected_algorithm),
        estimated_results: estimate_results(top_k),
        use_block_max_optimization: term_count >= 3,
        use_early_termination: true,
    }
}

} // verus!
