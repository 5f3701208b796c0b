use vstd::prelude::*;

verus! {

/// The acknowledgement the event feed sends after joining a live broadcast.
#[derive(Debug, Clone, PartialEq)]
pub struct LiveJoin {
    pub event: String,
    pub type_field: String,
    pub live_id: i64,
    pub result: JoinResult,
    pub appversion: String,
    pub useragent: String,
}

/// The join outcome: a code and its wording.
#[derive(Debug, Clone, PartialEq)]
pub struct JoinResult {
    pub code: i64,
    pub detail: String,
}

} // verus!
