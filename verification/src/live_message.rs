use vstd::prelude::*;

verus! {

/// The user a chat event concerns.
#[derive(Debug, Clone, PartialEq)]
pub struct User {
    pub id: i64,
    pub nickname: String,
    pub profile_url: Option<String>,
    pub gender: i64,
    pub tag: String,
    pub country: String,
    pub date_joined: String,
    pub is_dj: bool,
    pub is_fixedmng: bool,
    pub is_like: bool,
    pub is_staff: bool,
    pub is_vip: bool,
    pub present: i64,
    pub regular_score: i64,
    pub subscribed_to_dj: bool,
}

/// The text of a chat message.
#[derive(Debug, Clone, PartialEq)]
pub struct Message {
    pub value: String,
}

} // verus!
