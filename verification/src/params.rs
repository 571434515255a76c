//! The small parameter envelopes that every command accepts.
use vstd::prelude::*;

verus! {

/// Parameters of a creation command: the data to store.
pub struct PostParams<D> {
    pub data: D,
}

/// Parameters of an update command: the target id and the new data.
pub struct PutParams<D> {
    pub id: String,
    pub data: D,
}

/// Parameters of a listing command: an optional filter and optional paging.
pub struct ListParams<F> {
    pub filter: Option<F>,
    pub page: Option<i64>,
    pub page_size: Option<i64>,
}

/// Parameters of a point read: the target id.
pub struct GetParams {
    pub id: String,
}

/// Parameters of a deletion: the target id.
pub struct DeleteParams {
    pub id: String,
}

} // verus!
