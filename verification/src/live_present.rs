use vstd::prelude::*;

verus! {

/// A hashtag attached to the broadcast.
#[derive(Debug, Clone, PartialEq)]
pub struct Hashtag {
    pub id: i64,
    pub name: String,
}

/// One of the broadcast's top fans.
#[derive(Debug, Clone, PartialEq)]
pub struct TopFan {
    pub user: User,
}

/// The user a present event concerns.
#[derive(Debug, Clone, PartialEq)]
pub struct User {
    pub id: i64,
    pub nickname: String,
    pub profile_url: Option<String>,
    pub gender: i64,
    pub tag: String,
    pub country: String,
    pub date_joined: String,
    pub is_dj: bool,
    pub is_fixedmng: bool,
    pub is_like: bool,
    pub is_staff: bool,
    pub is_vip: bool,
    pub present: i64,
    pub regular_score: i64,
    pub subscribed_to_dj: bool,
}

/// The sender of a present.
#[derive(Debug, Clone, PartialEq)]
pub struct Author2 {
    pub id: i64,
    pub nickname: String,
    pub profile_url: Option<String>,
    pub gender: i64,
    pub tag: String,
    pub country: String,
    pub date_joined: String,
    pub is_dj: bool,
    pub is_fixedmng: bool,
    pub is_like: bool,
    pub is_staff: bool,
    pub is_vip: bool,
    pub present: i64,
    pub regular_score: i64,
    pub subscribed_to_dj: bool,
}

} // verus!
