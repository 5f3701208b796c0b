use vstd::prelude::*;

verus! {

/// A ranking change of the broadcast.
#[derive(Debug, Clone, PartialEq)]
pub struct LiveRank {
    pub event: String,
    pub type_field: String,
    pub live_id: String,
    pub order: Order,
    pub appversion: String,
    pub useragent: String,
}

/// The ranking movement itself, current and previous positions with their
/// realtime counterparts.
#[derive(Debug, Clone, PartialEq)]
pub struct Order {
    pub effect: String,
    pub incrby: i64,
    pub now: String,
    pub prev: String,
    pub rt_effect: String,
    pub rt_incrby: i64,
    pub rt_now: String,
    pub rt_prev: String,
}

} // verus!
