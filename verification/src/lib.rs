use vstd::prelude::*;

pub mod text;
pub mod util;
pub mod filter;
pub mod chatgpt;
pub mod player;
pub mod config;
pub mod voicevox;
pub mod bgm;
pub mod comment;
pub mod listener;
pub mod database;
pub mod guide;
pub mod live_join;
pub mod live_message;
pub mod live_present;
pub mod live_present_like;
pub mod live_rank;
pub mod use_item;

verus! {

/// Renders a duration given in whole seconds with Japanese unit labels.
pub fn pretty_print_duration(s: u64) -> (r: String)
    ensures
        r@ == util::duration_chars(s as nat, "秒"@, "分"@, "時間"@),
{
    util::duration_with_units(s, "秒", "分", "時間")
}

} // verus!
