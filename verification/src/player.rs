use vstd::prelude::*;

use crate::text::{push_tenths, string_of, tenths_chars};

verus! {

/// Post-processing toggles applied at playback time, not at synthesis time.
#[derive(Clone, Copy, Debug, PartialEq, Eq, Structural)]
pub struct AudioEffect {
    pub reverb: bool,
    pub high: bool,
    pub low: bool,
    pub left: bool,
    pub right: bool,
    pub fast: bool,
    pub slow: bool,
    pub repeat: bool,
    pub pitch_for_english: bool,
}

impl Default for AudioEffect {
    fn default() -> (r: Self)
        ensures
            r == (AudioEffect {
                reverb: false,
                high: false,
                low: false,
                left: false,
                right: false,
                fast: false,
                slow: false,
                repeat: false,
                pitch_for_english: false,
            }),
    {
        AudioEffect {
            reverb: false,
            high: false,
            low: false,
            left: false,
            right: false,
            fast: false,
            slow: false,
            repeat: false,
            pitch_for_english: false,
        }
    }
}

/// One playable artifact: a file path, a volume in tenths (so `10` plays at
/// full volume, `20` doubled), and the playback effects.
#[derive(Clone, Debug)]
pub struct Audio {
    pub path: String,
    pub volume_x10: u64,
    pub effect: AudioEffect,
}

impl Audio {
    pub fn new(path: &str, volume_x10: u64, effect: AudioEffect) -> (r: Self)
        ensures
            r.path@ == path@,
            r.volume_x10 == volume_x10,
            r.effect == effect,
    {
        Audio { path: String::from_str(path), volume_x10, effect }
    }
}

pub open spec fn reverb_flags(e: AudioEffect) -> Seq<Seq<char>> {
    if e.reverb {
        seq!["pad"@, "0"@, "2"@, "reverb"@]
    } else {
        Seq::empty()
    }
}

pub open spec fn pitch_flags(e: AudioEffect) -> Seq<Seq<char>> {
    if e.pitch_for_english {
        if e.high {
            seq!["pitch"@, "450"@]
        } else if e.low {
            seq!["pitch"@, "-300"@]
        } else {
            seq!["pitch"@, "150"@]
        }
    } else {
        (if e.high {
            seq!["pitch"@, "300"@]
        } else {
            Seq::empty()
        }) + (if e.low {
            seq!["pitch"@, "-250"@]
        } else {
            Seq::empty()
        })
    }
}

pub open spec fn channel_flags(e: AudioEffect) -> Seq<Seq<char>> {
    (if e.left {
        seq!["remix"@, "1v1"@, "1v0"@]
    } else {
        Seq::empty()
    }) + (if e.right {
        seq!["remix"@, "1v0"@, "1v1"@]
    } else {
        Seq::empty()
    })
}

pub open spec fn tempo_flags(e: AudioEffect) -> Seq<Seq<char>> {
    (if e.fast {
        seq!["tempo"@, "1.5"@]
    } else {
        Seq::empty()
    }) + (if e.slow {
        seq!["tempo"@, "0.6"@]
    } else {
        Seq::empty()
    })
}

pub open spec fn repeat_flags(e: AudioEffect) -> Seq<Seq<char>> {
    if e.repeat {
        seq!["repeat"@, "-"@]
    } else {
        Seq::empty()
    }
}

/// The full argument list handed to the playback executable for `a`: volume,
/// path, then one group of flags per active effect, in this order.
pub open spec fn play_args_spec(a: Audio) -> Seq<Seq<char>> {
    seq!["-v"@, tenths_chars(a.volume_x10 as nat), a.path@] + reverb_flags(a.effect) + pitch_flags(
        a.effect,
    ) + channel_flags(a.effect) + tempo_flags(a.effect) + repeat_flags(a.effect)
}

fn volume_string(v: u64) -> (r: String)
    ensures
        r@ == tenths_chars(v as nat),
{
    let mut out: Vec<char> = Vec::new();
    push_tenths(&mut out, v);
    string_of(&out)
}

fn push_arg(args: &mut Vec<String>, s: &str)
    ensures
        final(args).deep_view() == old(args).deep_view().push(s@),
{
    args.push(String::from_str(s));
    proof {
        assert(args.deep_view() =~~= old(args).deep_view().push(s@));
    }
}

fn push_reverb(args: &mut Vec<String>, e: &AudioEffect)
    ensures
        final(args).deep_view() == old(args).deep_view() + reverb_flags(*e),
{
    if e.reverb {
        push_arg(args, "pad");
        push_arg(args, "0");
        push_arg(args, "2");
        push_arg(args, "reverb");
    }
    proof {
        assert(args.deep_view() =~= old(args).deep_view() + reverb_flags(*e));
    }
}

fn push_pitch(args: &mut Vec<String>, e: &AudioEffect)
    ensures
        final(args).deep_view() == old(args).deep_view() + pitch_flags(*e),
{
    if e.pitch_for_english {
        push_arg(args, "pitch");
        if e.high {
            push_arg(args, "450");
        } else if e.low {
            push_arg(args, "-300");
        } else {
            push_arg(args, "150");
        }
    } else {
        if e.high {
            push_arg(args, "pitch");
            push_arg(args, "300");
        }
        if e.low {
            push_arg(args, "pitch");
            push_arg(args, "-250");
        }
    }
    proof {
        assert(args.deep_view() =~= old(args).deep_view() + pitch_flags(*e));
    }
}

fn push_channel(args: &mut Vec<String>, e: &AudioEffect)
    ensures
        final(args).deep_view() == old(args).deep_view() + channel_flags(*e),
{
    if e.left {
        push_arg(args, "remix");
        push_arg(args, "1v1");
        push_arg(args, "1v0");
    }
    if e.right {
        push_arg(args, "remix");
        push_arg(args, "1v0");
        push_arg(args, "1v1");
    }
    proof {
        assert(args.deep_view() =~= old(args).deep_view() + channel_flags(*e));
    }
}

fn push_tempo(args: &mut Vec<String>, e: &AudioEffect)
    ensures
        final(args).deep_view() == old(args).deep_view() + tempo_flags(*e),
{
    if e.fast {
        push_arg(args, "tempo");
        push_arg(args, "1.5");
    }
    if e.slow {
        push_arg(args, "tempo");
        push_arg(args, "0.6");
    }
    proof {
        assert(args.deep_view() =~= old(args).deep_view() + tempo_flags(*e));
    }
}

fn push_repeat(args: &mut Vec<String>, e: &AudioEffect)
    ensures
        final(args).deep_view() == old(args).deep_view() + repeat_flags(*e),
{
    if e.repeat {
        push_arg(args, "repeat");
        push_arg(args, "-");
    }
    proof {
        assert(args.deep_view() =~= old(args).deep_view() + repeat_flags(*e));
    }
}

/// Builds the argument list that the playback executable is invoked with.
pub fn play_args(a: &Audio) -> (r: Vec<String>)
    ensures
        r.deep_view() == play_args_spec(*a),
{
    let mut args: Vec<String> = Vec::new();
    push_arg(&mut args, "-v");
    let vol = volume_string(a.volume_x10);
    let ghost d0 = args.deep_view();
    args.push(vol);
    proof {
        assert(args.deep_view() =~~= d0.push(tenths_chars(a.volume_x10 as nat)));
    }
    let path = a.path.clone();
    let ghost d1 = args.deep_view();
    args.push(path);
    proof {
        assert(args.deep_view() =~~= d1.push(a.path@));
        assert(args.deep_view() =~= seq!["-v"@, tenths_chars(a.volume_x10 as nat), a.path@]);
    }
    push_reverb(&mut args, &a.effect);
    push_pitch(&mut args, &a.effect);
    push_channel(&mut args, &a.effect);
    push_tempo(&mut args, &a.effect);
    push_repeat(&mut args, &a.effect);
    args
}

} // verus!
