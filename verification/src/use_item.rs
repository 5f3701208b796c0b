use vstd::prelude::*;

verus! {

/// The user a use-item event concerns.
#[derive(Debug, Clone, PartialEq)]
pub struct User {
    pub id: i64,
    pub nickname: String,
    pub profile_url: Option<String>,
    pub gender: i64,
    pub tag: String,
    pub country: String,
    pub date_joined: String,
    pub is_dj: bool,
    pub is_fixedmng: bool,
    pub is_like: bool,
    pub is_staff: bool,
    pub is_vip: bool,
    pub present: i64,
    pub regular_score: i64,
    pub subscribed_to_dj: bool,
}

/// One used item: its id, effect and amount, with its animation and images.
#[derive(Debug, Clone, PartialEq)]
pub struct UseItem2 {
    pub item_id: i64,
    pub combo: i64,
    pub effect: String,
    pub amount: i64,
    pub animation_type: String,
    pub images: Vec<Image>,
}

/// One image of an item.
#[derive(Debug, Clone, PartialEq)]
pub struct Image {
    pub url: String,
}

} // verus!
