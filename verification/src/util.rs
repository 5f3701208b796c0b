use vstd::prelude::*;

use crate::text::{dec_chars, dec2_chars, push_dec, push_dec2, push_str_chars, string_of, chars_of};

verus! {

/// The duration rendering the library uses: plain seconds up to one minute,
/// minutes with two-digit seconds up to one hour, and hours with two-digit
/// minutes and seconds beyond that, each field followed by its unit label.
pub open spec fn duration_chars(
    s: nat,
    sec_u: Seq<char>,
    min_u: Seq<char>,
    hour_u: Seq<char>,
) -> Seq<char> {
    if s <= 60 {
        dec_chars(s) + sec_u
    } else if s <= 3600 {
        dec_chars(s / 60) + min_u + dec2_chars(s % 60) + sec_u
    } else {
        dec_chars(s / 3600) + hour_u + dec2_chars((s % 3600) / 60) + min_u + dec2_chars(s % 60)
            + sec_u
    }
}

pub fn duration_with_units(s: u64, sec_u: &str, min_u: &str, hour_u: &str) -> (r: String)
    ensures
        r@ == duration_chars(s as nat, sec_u@, min_u@, hour_u@),
{
    let mut out: Vec<char> = Vec::new();
    if s <= 60 {
        push_dec(&mut out, s);
        push_str_chars(&mut out, sec_u);
        assert(out@ =~= duration_chars(s as nat, sec_u@, min_u@, hour_u@));
    } else if s <= 3600 {
        push_dec(&mut out, s / 60);
        push_str_chars(&mut out, min_u);
        push_dec2(&mut out, s % 60);
        push_str_chars(&mut out, sec_u);
        assert(out@ =~= duration_chars(s as nat, sec_u@, min_u@, hour_u@));
    } else {
        push_dec(&mut out, s / 3600);
        push_str_chars(&mut out, hour_u);
        push_dec2(&mut out, (s % 3600) / 60);
        push_str_chars(&mut out, min_u);
        push_dec2(&mut out, s % 60);
        push_str_chars(&mut out, sec_u);
        assert(out@ =~= duration_chars(s as nat, sec_u@, min_u@, hour_u@));
    }
    string_of(&out)
}

/// Renders a duration given in whole seconds with this module's unit labels.
pub fn pretty_print_duration(s: u64) -> (r: String)
    ensures
        r@ == duration_chars(s as nat, "\u{e7}\u{a7}\u{2019}"@, "\u{e5}\u{2c6}\u{2020}"@, "\u{e6}\u{2122}\u{201a}\u{e9}\u{2013}\u{201c}"@),
{
    duration_with_units(s, "\u{e7}\u{a7}\u{2019}", "\u{e5}\u{2c6}\u{2020}", "\u{e6}\u{2122}\u{201a}\u{e9}\u{2013}\u{201c}")
}

/// A character of the Japanese scripts the pipeline reacts to: hiragana,
/// katakana, halfwidth katakana (with its voicing marks), and the unified
/// CJK ideographs.
pub open spec fn is_japanese_char(c: char) -> bool {
    (0x3041 <= c as u32 && c as u32 <= 0x3093) || (0x30a1 <= c as u32 && c as u32 <= 0x30f6)
        || (0xff71 <= c as u32 && c as u32 <= 0xff9f) || (0x4e00 <= c as u32 && c as u32
        <= 0x9fa0)
}

pub open spec fn has_japanese(s: Seq<char>) -> bool {
    exists|i: int| 0 <= i < s.len() && is_japanese_char(s[i])
}

#[verifier::loop_isolation(false)]
pub fn is_japanese(s: &str) -> (r: bool)
    ensures
        r == has_japanese(s@),
{
    let cs = chars_of(s);
    let mut i: usize = 0;
    while i < cs.len()
        invariant
            i <= cs@.len(),
            forall|k: int| 0 <= k < i ==> !is_japanese_char(cs@[k]),
        decreases cs@.len() - i,
    {
        let u = cs[i] as u32;
        if (0x3041 <= u && u <= 0x3093) || (0x30a1 <= u && u <= 0x30f6) || (0xff71 <= u && u
            <= 0xff9f) || (0x4e00 <= u && u <= 0x9fa0) {
            return true;
        }
        i += 1;
    }
    false
}

} // verus!
