//! The envelopes in which the server wraps its answers.

use vstd::prelude::*;

use crate::dns::RecordMessage;

verus! {

/// Where a page of results stands in the whole.
#[derive(Debug)]
pub struct ResultInfo {
    pub count: usize,
    pub page: usize,
    pub per_page: usize,
    pub total_count: usize,
}

/// A diagnostic that the server attaches to an answer.
#[derive(Debug)]
pub struct ResponseInfo {
    pub code: usize,
    pub message: String,
}

/// The envelope of a list: one page of results. Whether the call succeeded
/// at the level of the API is in `success` and `errors`, not in how the call
/// itself ended.
#[derive(Debug)]
pub struct V4PagePaginationArray<T> {
    pub result: Option<Vec<T>>,
    pub success: bool,
    pub messages: Option<Vec<ResponseInfo>>,
    pub errors: Option<Vec<ResponseInfo>>,
    pub result_info: Option<ResultInfo>,
}

/// The envelope of a single result. The two diagnostic lists are always
/// there, empty or not.
#[derive(Debug)]
pub struct ApiResponse<T> {
    pub result: Option<T>,
    pub success: bool,
    pub messages: Vec<ResponseInfo>,
    pub errors: Vec<ResponseInfo>,
    pub result_info: Option<ResultInfo>,
}

/// What listing the records of a zone returns.
pub type ListDnsRecordsResponse = V4PagePaginationArray<RecordMessage>;

/// A credential's identifier and standing.
#[derive(Clone, Debug)]
pub struct TokenStatusResult {
    pub id: String,
    pub status: String,
}

impl Default for TokenStatusResult {
    fn default() -> (result: Self)
        ensures
            result.id@ == Seq::<char>::empty(),
            result.status@ == Seq::<char>::empty(),
    {
        TokenStatusResult { id: String::new(), status: String::new() }
    }
}

/// The answer to a check of the credential.
#[derive(Clone, Debug)]
pub struct TokenStatus {
    pub result: TokenStatusResult,
}

impl Default for TokenStatus {
    fn default() -> (status: Self)
        ensures
            status.result.id@ == Seq::<char>::empty(),
            status.result.status@ == Seq::<char>::empty(),
    {
        TokenStatus { result: TokenStatusResult::default() }
    }
}

} // verus!
