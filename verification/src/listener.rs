use vstd::prelude::*;

verus! {

/// One page of the listener listing the live API returns.
#[derive(Debug, Clone)]
pub struct Listeners {
    pub results: Vec<Listener>,
    pub next: String,
}

/// One listener of the broadcast.
#[derive(Debug, Clone, PartialEq, Eq, Hash)]
pub struct Listener {
    /// The internal numeric user id.
    pub id: usize,
    /// The display name.
    pub nickname: String,
    /// The user id shown with an at-sign, held without it.
    pub tag: String,
}

} // verus!
