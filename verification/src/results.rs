//! The hits of a ranked query, and how they become a response.

use vstd::prelude::*;
use bson::RawDocumentBuf;

verus! {

/// An encoded BSON document, owned.
#[verifier::external_type_specification]
#[verifier::external_body]
pub struct ExRawDocumentBuf(bson::RawDocumentBuf);

/// One hit of a ranked query.
#[derive(Debug, Clone)]
pub struct PisaQueryResult {
    pub document_id: String,
    /// The relevance score, as the bit pattern of an IEEE 754 double.
    pub score_bits: u64,
    /// The document itself, where the backend sent it along with the identifier.
    pub document: Option<RawDocumentBuf>,
    pub collection_id: i64,
}

/// The documents that the hits carry, in the order of the hits.
pub open spec fn carried_documents(results: Seq<PisaQueryResult>) -> Seq<RawDocumentBuf> {
    results.filter_map(|result: PisaQueryResult| result.document)
}

/// Turns the hits of a ranked query into the documents of the response.
///
/// The merge is lossy: a hit that carries no document is dropped without a trace. The
/// documents keep the order of the hits.
pub fn combine_pisa_and_standard_results(pisa_results: Vec<PisaQueryResult>) -> (documents: Vec<
    RawDocumentBuf,
>)
    ensures
        documents@ == carried_documents(pisa_results@),
{
    let mut documents: Vec<RawDocumentBuf> = Vec::new();
    let ghost all = pisa_results@;
    for result in hits: pisa_results
        invariant
            hits.seq() == all,
            documents@ == carried_documents(all.take(hits.index() as int)),
    {
        proof {
            all.lemma_filter_map_take_succ(
                |result: PisaQueryResult| result.document,
                hits.index() as int,
            );
        }
        if let Some(document) = result.document {
            documents.push(document);
        }
    }
    assert(all.take(all.len() as int) =~= all);
    documents
}

} // verus!
