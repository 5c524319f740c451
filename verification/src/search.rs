//! The vector-search orchestrator: it composes the embedding adapter and
//! the store's native similarity operator into one request cycle. The
//! two external calls themselves are performed by the caller; every
//! decision between them is made here, so each step's outcome is taken
//! as a value.

use vstd::prelude::*;

use crate::GatewayError;
use crate::embed::{EmbedOutcome, EmbeddingVector, prepare_embed_input};
use crate::records::{ProjectedRecord, StoredRecord, is_projection_of, project};
use crate::text::trim_spec;

verus! {

/// A validated search request: the trimmed query text, the number of
/// results to return, and the candidate pool the index may examine.
#[derive(Debug)]
pub struct SearchPlan {
    pub text: String,
    pub k: usize,
    pub pool: usize,
}

/// One approximate-nearest-neighbor query, ready for the store's vector
/// index: the query vector, the indexed field, the index name, the
/// candidate pool size and the result limit.
#[derive(Debug)]
pub struct VectorQuery {
    pub vector: EmbeddingVector,
    pub path: String,
    pub index: String,
    pub num_candidates: usize,
    pub limit: usize,
}

/// What came back from the store's similarity operator: the ranked
/// candidates in the operator's native order, or a store failure.
#[derive(Debug)]
pub enum QueryOutcome {
    Ranked(Vec<StoredRecord>),
    Failed,
}

/// Validate a search request before anything is embedded: blank text
/// fails with `EmptyInput`; otherwise the plan carries the trimmed text
/// and the requested `k` and candidate pool unchanged.
pub fn plan_search(text: &str, k: usize, pool: usize) -> (r: Result<SearchPlan, GatewayError>)
    ensures
        match r {
            Ok(p) => {
                &&& p.text@ == trim_spec(text@)
                &&& trim_spec(text@).len() > 0
                &&& p.k == k
                &&& p.pool == pool
            },
            Err(e) => e == GatewayError::EmptyInput && trim_spec(text@).len() == 0,
        },
{
    let text = prepare_embed_input(text)?;
    Ok(SearchPlan { text, k, pool })
}

/// Turn the embedding outcome into the index query. A failed embedding
/// propagates `EmbeddingUnavailable` and no query is built; a produced
/// vector is handed on unchanged, with the plan's pool as the candidate
/// count, the plan's `k` as the limit, and the fixed field and index
/// names of the store's vector index.
pub fn build_query(plan: &SearchPlan, outcome: EmbedOutcome) -> (r: Result<
    VectorQuery,
    GatewayError,
>)
    ensures
        match outcome {
            EmbedOutcome::Produced(v) => match r {
                Ok(q) => {
                    &&& q.vector == v
                    &&& q.num_candidates == plan.pool
                    &&& q.limit == plan.k
                    &&& q.path@ == "text_embeddings"@
                    &&& q.index@ == "vector_index"@
                },
                Err(_) => false,
            },
            EmbedOutcome::Failed => r == Err::<VectorQuery, GatewayError>(
                GatewayError::EmbeddingUnavailable,
            ),
        },
{
    match outcome {
        EmbedOutcome::Produced(vector) => Ok(
            VectorQuery {
                vector,
                path: String::from_str("text_embeddings"),
                index: String::from_str("vector_index"),
                num_candidates: plan.pool,
                limit: plan.k,
            },
        ),
        EmbedOutcome::Failed => Err(GatewayError::EmbeddingUnavailable),
    }
}

/// Read the similarity operator's answer. A store failure becomes
/// `StoreError`; zero candidates is "no match", not an error; otherwise
/// the top-ranked candidate in the operator's native order is projected
/// and returned, with no re-sorting.
pub fn take_top_match(outcome: &QueryOutcome) -> (r: Result<Option<ProjectedRecord>, GatewayError>)
    ensures
        match outcome {
            QueryOutcome::Ranked(rs) => {
                if rs@.len() == 0 {
                    r == Ok::<Option<ProjectedRecord>, GatewayError>(None)
                } else {
                    match r {
                        Ok(Some(p)) => is_projection_of(p, rs@[0]),
                        _ => false,
                    }
                }
            },
            QueryOutcome::Failed => r == Err::<Option<ProjectedRecord>, GatewayError>(
                GatewayError::StoreError,
            ),
        },
{
    match outcome {
        QueryOutcome::Ranked(rs) => {
            if rs.len() == 0 {
                Ok(None)
            } else {
                Ok(Some(project(&rs[0])))
            }
        },
        QueryOutcome::Failed => Err(GatewayError::StoreError),
    }
}

/// The whole decision side of `searchSimilar`, with the two external
/// outcomes taken as values: blank text fails with `EmptyInput` before
/// the embedding outcome is consulted; a failed embedding propagates
/// `EmbeddingUnavailable` before the store outcome is consulted; then
/// the store outcome is read as in `take_top_match`.
pub fn search_similar(
    text: &str,
    k: usize,
    pool: usize,
    embed_outcome: EmbedOutcome,
    query_outcome: &QueryOutcome,
) -> (r: Result<Option<ProjectedRecord>, GatewayError>)
    ensures
        trim_spec(text@).len() == 0 ==> r == Err::<Option<ProjectedRecord>, GatewayError>(
            GatewayError::EmptyInput,
        ),
        trim_spec(text@).len() > 0 && embed_outcome is Failed ==> r == Err::<
            Option<ProjectedRecord>,
            GatewayError,
        >(GatewayError::EmbeddingUnavailable),
        trim_spec(text@).len() > 0 && embed_outcome is Produced ==> match query_outcome {
            QueryOutcome::Ranked(rs) => {
                if rs@.len() == 0 {
                    r == Ok::<Option<ProjectedRecord>, GatewayError>(None)
                } else {
                    match r {
                        Ok(Some(p)) => is_projection_of(p, rs@[0]),
                        _ => false,
                    }
                }
            },
            QueryOutcome::Failed => r == Err::<Option<ProjectedRecord>, GatewayError>(
                GatewayError::StoreError,
            ),
        },
{
    let plan = plan_search(text, k, pool)?;
    let _query = build_query(&plan, embed_outcome)?;
    take_top_match(query_outcome)
}

} // verus!
