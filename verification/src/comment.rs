use vstd::prelude::*;

use crate::chatgpt::{copy_prefix, join_spaced, join_words, split_words, split_ws};
use crate::player::AudioEffect;
use crate::text::{chars_of, ends_with_chars, ends_with_spec, string_of};

verus! {

/// The kinds of entries the live chat shows, told apart by the entry's CSS
/// class name.
#[derive(Clone, Copy, Debug, PartialEq, Eq, Structural)]
pub enum CommentType {
    /// A normal comment.
    Message,
    /// When a single user posts comments in a row, every comment after the
    /// first one.
    Combo,
    /// A heart.
    Like,
    /// A present.
    Present,
    /// A system guide entry.
    Guide,
    /// A forced-exit notice.
    Block,
    Unknown,
}

/// The kind an entry's class name denotes, decided by its suffix.
pub open spec fn comment_type_spec(class_name: Option<Seq<char>>) -> CommentType {
    match class_name {
        None => CommentType::Unknown,
        Some(s) => {
            if ends_with_spec(s, " message"@) {
                CommentType::Message
            } else if ends_with_spec(s, " combo"@) {
                CommentType::Combo
            } else if ends_with_spec(s, " like"@) {
                CommentType::Like
            } else if ends_with_spec(s, " present"@) {
                CommentType::Present
            } else if ends_with_spec(s, " guide"@) {
                CommentType::Guide
            } else if ends_with_spec(s, " block"@) {
                CommentType::Block
            } else {
                CommentType::Unknown
            }
        },
    }
}

impl CommentType {
    pub fn new(class_name: Option<String>) -> (r: Self)
        ensures
            r == comment_type_spec(
                match class_name {
                    Some(s) => Some(s@),
                    None => None,
                },
            ),
    {
        match class_name {
            None => CommentType::Unknown,
            Some(s) => {
                let cs = chars_of(s.as_str());
                if ends_with_chars(&cs, &chars_of(" message")) {
                    CommentType::Message
                } else if ends_with_chars(&cs, &chars_of(" combo")) {
                    CommentType::Combo
                } else if ends_with_chars(&cs, &chars_of(" like")) {
                    CommentType::Like
                } else if ends_with_chars(&cs, &chars_of(" present")) {
                    CommentType::Present
                } else if ends_with_chars(&cs, &chars_of(" guide")) {
                    CommentType::Guide
                } else if ends_with_chars(&cs, &chars_of(" block")) {
                    CommentType::Block
                } else {
                    CommentType::Unknown
                }
            },
        }
    }
}

/// A word that names a chat command: it starts with a slash.
pub open spec fn is_cmd(w: Seq<char>) -> bool {
    w.len() >= 1 && w[0] == '/'
}

/// What one known command word does to the pending effects and voice, or
/// `None` for a slash word that names no command.
pub open spec fn apply_token(e: AudioEffect, sp: nat, w: Seq<char>) -> Option<(AudioEffect, nat)> {
    if w == "/reverb"@ {
        Some((AudioEffect { reverb: true, ..e }, sp))
    } else if w == "/echo"@ {
        Some((AudioEffect { reverb: true, ..e }, sp))
    } else if w == "/high"@ {
        Some((AudioEffect { high: true, ..e }, sp))
    } else if w == "/low"@ {
        Some((AudioEffect { low: true, ..e }, sp))
    } else if w == "/left"@ {
        Some((AudioEffect { left: true, ..e }, sp))
    } else if w == "/right"@ {
        Some((AudioEffect { right: true, ..e }, sp))
    } else if w == "/fast"@ {
        Some((AudioEffect { fast: true, ..e }, sp))
    } else if w == "/slow"@ {
        Some((AudioEffect { slow: true, ..e }, sp))
    } else if w == "/zundamon"@ {
        Some((e, 3))
    } else if w == "/zundamon_2"@ {
        Some((e, 1))
    } else if w == "/zundamon_3"@ {
        Some((e, 7))
    } else if w == "/zundamon_4"@ {
        Some((e, 5))
    } else if w == "/zundamon_5"@ {
        Some((e, 38))
    } else if w == "/asmr"@ {
        Some((e, 22))
    } else if w == "/sayo"@ {
        Some((e, 46))
    } else if w == "/tsumugi"@ {
        Some((e, 8))
    } else if w == "/himari"@ {
        Some((e, 14))
    } else if w == "/nurse"@ {
        Some((e, 47))
    } else if w == "/nurse_asmr"@ {
        Some((e, 50))
    } else if w == "/bii"@ {
        Some((e, 58))
    } else if w == "/bii_calm"@ {
        Some((e, 59))
    } else if w == "/bii_shy"@ {
        Some((e, 60))
    } else {
        None
    }
}

/// The outcome of reading a comment's leading slash commands, in
/// mathematical form.
pub ghost enum CommandView {
    /// The text left after the commands, to be completed and spoken with
    /// these effects and this voice.
    Say { text: Seq<char>, effect: AudioEffect, speaker: nat },
    /// A slash word that names no command: nothing is dispatched.
    Invalid { token: Seq<char> },
    /// Every word was a command: there is nothing to say.
    CommandOnly { command: Seq<char> },
}

/// Reads command words from position `i` on, folding their effect and voice
/// changes, until the first non-command word (the rest is the text), an
/// unknown command, or the end.
pub open spec fn parse_from(words: Seq<Seq<char>>, i: int, e: AudioEffect, sp: nat) -> CommandView
    decreases words.len() - i,
{
    if i < 0 || i >= words.len() {
        CommandView::CommandOnly { command: join_spaced(words) }
    } else if !is_cmd(words[i]) {
        CommandView::Say { text: join_spaced(words.skip(i)), effect: e, speaker: sp }
    } else {
        match apply_token(e, sp, words[i]) {
            None => CommandView::Invalid { token: words[i] },
            Some(next) => parse_from(words, i + 1, next.0, next.1),
        }
    }
}

/// The outcome of reading a comment's leading slash commands.
pub enum CommentCommand {
    Say { text: String, effect: AudioEffect, speaker: usize },
    Invalid { token: String },
    CommandOnly { command: String },
}

fn eq_chars(a: &Vec<char>, b: &Vec<char>) -> (r: bool)
    ensures
        r == (a@ == b@),
{
    if a.len() != b.len() {
        return false;
    }
    let mut j: usize = 0;
    while j < a.len()
        invariant
            j <= a@.len(),
            a@.len() == b@.len(),
            forall|k: int| 0 <= k < j ==> a@[k] == b@[k],
        decreases a@.len() - j,
    {
        if a[j] != b[j] {
            return false;
        }
        j += 1;
    }
    assert(a@ =~= b@);
    true
}

fn apply_token_exec(e: AudioEffect, sp: usize, w: &Vec<char>) -> (r: Option<(AudioEffect, usize)>)
    ensures
        match r {
            Some(next) => apply_token(e, sp as nat, w@) == Some((next.0, next.1 as nat)),
            None => apply_token(e, sp as nat, w@) is None,
        },
{
    if eq_chars(w, &chars_of("/reverb")) {
        Some((AudioEffect { reverb: true, ..e }, sp))
    } else if eq_chars(w, &chars_of("/echo")) {
        Some((AudioEffect { reverb: true, ..e }, sp))
    } else if eq_chars(w, &chars_of("/high")) {
        Some((AudioEffect { high: true, ..e }, sp))
    } else if eq_chars(w, &chars_of("/low")) {
        Some((AudioEffect { low: true, ..e }, sp))
    } else if eq_chars(w, &chars_of("/left")) {
        Some((AudioEffect { left: true, ..e }, sp))
    } else if eq_chars(w, &chars_of("/right")) {
        Some((AudioEffect { right: true, ..e }, sp))
    } else if eq_chars(w, &chars_of("/fast")) {
        Some((AudioEffect { fast: true, ..e }, sp))
    } else if eq_chars(w, &chars_of("/slow")) {
        Some((AudioEffect { slow: true, ..e }, sp))
    } else if eq_chars(w, &chars_of("/zundamon")) {
        Some((e, 3))
    } else if eq_chars(w, &chars_of("/zundamon_2")) {
        Some((e, 1))
    } else if eq_chars(w, &chars_of("/zundamon_3")) {
        Some((e, 7))
    } else if eq_chars(w, &chars_of("/zundamon_4")) {
        Some((e, 5))
    } else if eq_chars(w, &chars_of("/zundamon_5")) {
        Some((e, 38))
    } else if eq_chars(w, &chars_of("/asmr")) {
        Some((e, 22))
    } else if eq_chars(w, &chars_of("/sayo")) {
        Some((e, 46))
    } else if eq_chars(w, &chars_of("/tsumugi")) {
        Some((e, 8))
    } else if eq_chars(w, &chars_of("/himari")) {
        Some((e, 14))
    } else if eq_chars(w, &chars_of("/nurse")) {
        Some((e, 47))
    } else if eq_chars(w, &chars_of("/nurse_asmr")) {
        Some((e, 50))
    } else if eq_chars(w, &chars_of("/bii")) {
        Some((e, 58))
    } else if eq_chars(w, &chars_of("/bii_calm")) {
        Some((e, 59))
    } else if eq_chars(w, &chars_of("/bii_shy")) {
        Some((e, 60))
    } else {
        None
    }
}

#[verifier::loop_isolation(false)]
fn suffix_words(ws: &Vec<Vec<char>>, from: usize) -> (r: Vec<Vec<char>>)
    requires
        from <= ws@.len(),
    ensures
        r.deep_view() == ws.deep_view().skip(from as int),
{
    let mut out: Vec<Vec<char>> = Vec::new();
    let mut k: usize = from;
    while k < ws.len()
        invariant
            from <= k <= ws@.len(),
            out.deep_view() =~= ws.deep_view().subrange(from as int, k as int),
        decreases ws@.len() - k,
    {
        let ghost d0 = out.deep_view();
        let piece = copy_prefix(&ws[k], ws[k].len());
        proof {
            assert(piece@ =~= ws.deep_view()[k as int]);
        }
        out.push(piece);
        proof {
            assert(out.deep_view() =~~= d0.push(ws.deep_view()[k as int]));
            assert(out.deep_view() =~= ws.deep_view().subrange(from as int, k + 1));
        }
        k += 1;
    }
    proof {
        assert(ws.deep_view().subrange(from as int, ws@.len() as int) =~= ws.deep_view().skip(
            from as int,
        ));
    }
    out
}

/// Reads the leading slash commands of a comment: each known command sets a
/// playback effect or picks a voice; the first unknown command cancels the
/// comment; a comment of commands alone has nothing to say; otherwise the
/// remaining words, joined by single spaces, are what is said.
#[verifier::loop_isolation(false)]
pub fn parse_commands(text: &str, effect: AudioEffect, speaker: usize) -> (r: CommentCommand)
    ensures
        match r {
            CommentCommand::Say { text: t, effect: e, speaker: s } => parse_from(
                split_ws(text@),
                0,
                effect,
                speaker as nat,
            ) == (CommandView::Say { text: t@, effect: e, speaker: s as nat }),
            CommentCommand::Invalid { token } => parse_from(split_ws(text@), 0, effect, speaker as nat)
                == (CommandView::Invalid { token: token@ }),
            CommentCommand::CommandOnly { command } => parse_from(
                split_ws(text@),
                0,
                effect,
                speaker as nat,
            ) == (CommandView::CommandOnly { command: command@ }),
        },
{
    let cs = chars_of(text);
    let words = split_words(&cs);
    let mut e = effect;
    let mut sp = speaker;
    let mut i: usize = 0;
    loop
        invariant
            i <= words@.len(),
            words.deep_view() == split_ws(text@),
            parse_from(split_ws(text@), 0, effect, speaker as nat) == parse_from(
                split_ws(text@),
                i as int,
                e,
                sp as nat,
            ),
        decreases words@.len() - i,
    {
        if i >= words.len() {
            let joined = join_words(&words);
            return CommentCommand::CommandOnly { command: string_of(&joined) };
        }
        let is_command = words[i].len() > 0 && words[i][0] == '/';
        proof {
            assert(words.deep_view()[i as int] =~= words@[i as int]@);
            assert(is_command == is_cmd(words.deep_view()[i as int]));
        }
        if !is_command {
            let rest = suffix_words(&words, i);
            let joined = join_words(&rest);
            return CommentCommand::Say { text: string_of(&joined), effect: e, speaker: sp };
        }
        match apply_token_exec(e, sp, &words[i]) {
            None => {
                return CommentCommand::Invalid { token: string_of(&words[i]) };
            },
            Some(next) => {
                e = next.0;
                sp = next.1;
            },
        }
        i += 1;
    }
}


} // verus!
