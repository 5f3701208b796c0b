use vstd::prelude::*;

use crate::config::Config;
use crate::filter::{Filter, normal_text, sanitize_spec};
use crate::text::{chars_of, contains_chars, is_space, seq_contains, string_of};
use crate::text::is_space_char;
use crate::voicevox::{Script, ScriptView};
use vstd::utf8::is_ascii_chars;

verus! {

/// The words accumulated by scanning `s` from position `i` with the partial
/// word `cur` in hand: the whitespace-separated words, as
/// `str::split_whitespace` yields them.
pub open spec fn split_acc(s: Seq<char>, i: int, cur: Seq<char>) -> Seq<Seq<char>>
    decreases s.len() - i,
{
    if i < 0 || i >= s.len() {
        if cur.len() == 0 {
            Seq::empty()
        } else {
            seq![cur]
        }
    } else if is_space_char(s[i]) {
        if cur.len() == 0 {
            split_acc(s, i + 1, Seq::empty())
        } else {
            seq![cur] + split_acc(s, i + 1, Seq::empty())
        }
    } else {
        split_acc(s, i + 1, cur.push(s[i]))
    }
}

/// The whitespace-separated words of `s`.
pub open spec fn split_ws(s: Seq<char>) -> Seq<Seq<char>> {
    split_acc(s, 0, Seq::empty())
}

/// The words joined with a single space between consecutive words.
pub open spec fn join_spaced(ws: Seq<Seq<char>>) -> Seq<char>
    decreases ws.len(),
{
    if ws.len() == 0 {
        Seq::empty()
    } else if ws.len() == 1 {
        ws[0]
    } else {
        ws[0] + seq![' '] + join_spaced(ws.drop_first())
    }
}

proof fn lemma_join_snoc(ws: Seq<Seq<char>>, w: Seq<char>)
    ensures
        join_spaced(ws.push(w)) == if ws.len() == 0 {
            w
        } else {
            join_spaced(ws) + seq![' '] + w
        },
    decreases ws.len(),
{
    if ws.len() == 0 {
        assert(ws.push(w)[0] == w);
        assert(join_spaced(ws.push(w)) == w);
    } else {
        lemma_join_snoc(ws.drop_first(), w);
        assert(ws.push(w).drop_first() =~= ws.drop_first().push(w));
        if ws.len() == 1 {
            assert(ws.drop_first().len() == 0);
            assert(join_spaced(ws) == ws[0]);
            assert(join_spaced(ws.push(w)) == ws[0] + seq![' '] + w);
        } else {
            assert(join_spaced(ws.push(w)) == ws[0] + seq![' '] + join_spaced(
                ws.drop_first().push(w),
            ));
            assert(ws[0] + seq![' '] + (join_spaced(ws.drop_first()) + seq![' '] + w) =~= (ws[0]
                + seq![' '] + join_spaced(ws.drop_first())) + seq![' '] + w);
        }
    }
}

/// A sentence-ending character: the ASCII enders for ASCII text, and the
/// fullwidth enders together with `'!'` and `'?'` otherwise.
pub open spec fn is_end_char(c: char, ascii: bool) -> bool {
    if ascii {
        c == '.' || c == '!' || c == '?'
    } else {
        c == '。' || c == '！' || c == '？' || c == '!' || c == '?'
    }
}

/// The position of the last sentence-ending character of `s`, or `-1` if
/// there is none.
pub open spec fn last_ender(s: Seq<char>, ascii: bool) -> int
    decreases s.len(),
{
    if s.len() == 0 {
        -1
    } else if is_end_char(s[s.len() - 1], ascii) {
        s.len() - 1
    } else {
        last_ender(s.drop_last(), ascii)
    }
}

/// `s` truncated just after its last sentence-ending character, or unchanged
/// when it has none.
pub open spec fn cut_after_ender(s: Seq<char>, ascii: bool) -> Seq<char> {
    if last_ender(s, ascii) >= 0 {
        s.subrange(0, last_ender(s, ascii) + 1)
    } else {
        s
    }
}

/// What `prettier` returns: ASCII text is cut to its first `max_en` words,
/// re-joined by single spaces and truncated after the last ASCII sentence
/// ender; other text is re-joined the same way, cut to its first `max_ja`
/// characters and truncated after the last fullwidth or ASCII ender.
pub open spec fn prettier_spec(s: Seq<char>, max_en: nat, max_ja: nat) -> Seq<char> {
    if is_ascii_chars(s) {
        let ws = split_ws(s);
        let kept = if ws.len() <= max_en {
            ws
        } else {
            ws.take(max_en as int)
        };
        cut_after_ender(join_spaced(kept), true)
    } else {
        let t = join_spaced(split_ws(s));
        let kept = if t.len() <= max_ja {
            t
        } else {
            t.take(max_ja as int)
        };
        cut_after_ender(kept, false)
    }
}

pub(crate) fn copy_prefix(s: &Vec<char>, n: usize) -> (r: Vec<char>)
    requires
        n <= s@.len(),
    ensures
        r@ == s@.take(n as int),
{
    let mut out: Vec<char> = Vec::new();
    let mut i: usize = 0;
    while i < n
        invariant
            i <= n <= s@.len(),
            out@ =~= s@.take(i as int),
        decreases n - i,
    {
        out.push(s[i]);
        assert(out@ =~= s@.take(i + 1));
        i += 1;
    }
    out
}

#[verifier::loop_isolation(false)]
pub(crate) fn split_words(s: &Vec<char>) -> (r: Vec<Vec<char>>)
    ensures
        r.deep_view() == split_ws(s@),
{
    let mut words: Vec<Vec<char>> = Vec::new();
    let mut cur: Vec<char> = Vec::new();
    let mut i: usize = 0;
    proof {
        assert(words.deep_view() + split_acc(s@, 0, cur@) =~= split_ws(s@));
    }
    while i < s.len()
        invariant
            i <= s@.len(),
            words.deep_view() + split_acc(s@, i as int, cur@) == split_ws(s@),
        decreases s@.len() - i,
    {
        let ghost words0 = words.deep_view();
        let ghost cur0 = cur@;
        let c = s[i];
        if is_space(c) {
            if cur.len() > 0 {
                words.push(cur);
                cur = Vec::new();
                proof {
                    assert(words.deep_view() =~~= words0.push(cur0));
                    assert(split_acc(s@, i as int, cur0) == seq![cur0] + split_acc(
                        s@,
                        i + 1,
                        Seq::empty(),
                    ));
                    assert(words0.push(cur0) + split_acc(s@, i + 1, cur@) =~= words0 + (seq![cur0]
                        + split_acc(s@, i + 1, cur@)));
                }
            } else {
                proof {
                    assert(cur@ =~= Seq::<char>::empty());
                }
            }
        } else {
            cur.push(c);
            proof {
                assert(split_acc(s@, i as int, cur0) == split_acc(s@, i + 1, cur0.push(s@[i as int])));
                assert(cur@ =~= cur0.push(s@[i as int]));
            }
        }
        i += 1;
    }
    if cur.len() > 0 {
        let ghost words0 = words.deep_view();
        let ghost cur0 = cur@;
        words.push(cur);
        proof {
            assert(words.deep_view() =~~= words0.push(cur0));
            assert(split_acc(s@, s@.len() as int, cur0) == seq![cur0]);
            assert(words0.push(cur0) =~= words0 + seq![cur0]);
        }
    } else {
        proof {
            assert(split_acc(s@, s@.len() as int, cur@) =~= Seq::<Seq<char>>::empty());
            assert(words.deep_view() + Seq::<Seq<char>>::empty() =~= words.deep_view());
        }
    }
    words
}

#[verifier::loop_isolation(false)]
pub(crate) fn join_words(ws: &Vec<Vec<char>>) -> (r: Vec<char>)
    ensures
        r@ == join_spaced(ws.deep_view()),
{
    let mut out: Vec<char> = Vec::new();
    let mut k: usize = 0;
    proof {
        assert(ws.deep_view().take(0) =~= Seq::<Seq<char>>::empty());
    }
    while k < ws.len()
        invariant
            k <= ws@.len(),
            out@ == join_spaced(ws.deep_view().take(k as int)),
        decreases ws@.len() - k,
    {
        let ghost done = ws.deep_view().take(k as int);
        if k > 0 {
            out.push(' ');
        }
        let mut piece = copy_prefix(&ws[k], ws[k].len());
        proof {
            assert(piece@ =~= ws.deep_view()[k as int]);
        }
        out.append(&mut piece);
        proof {
            lemma_join_snoc(done, ws.deep_view()[k as int]);
            assert(ws.deep_view().take(k + 1) =~= done.push(ws.deep_view()[k as int]));
            if k > 0 {
                assert(out@ =~= join_spaced(done) + seq![' '] + ws.deep_view()[k as int]);
            } else {
                assert(done.len() == 0);
                assert(out@ =~= ws.deep_view()[k as int]);
            }
        }
        k += 1;
    }
    proof {
        assert(ws.deep_view().take(ws@.len() as int) =~= ws.deep_view());
    }
    out
}

#[verifier::loop_isolation(false)]
fn take_words(ws: &Vec<Vec<char>>, n: usize) -> (r: Vec<Vec<char>>)
    ensures
        r.deep_view() == if ws.deep_view().len() <= n {
            ws.deep_view()
        } else {
            ws.deep_view().take(n as int)
        },
{
    let limit = if n < ws.len() {
        n
    } else {
        ws.len()
    };
    let mut out: Vec<Vec<char>> = Vec::new();
    let mut k: usize = 0;
    while k < limit
        invariant
            k <= limit <= ws@.len(),
            out.deep_view() =~= ws.deep_view().take(k as int),
        decreases limit - k,
    {
        let ghost out0 = out.deep_view();
        let piece = copy_prefix(&ws[k], ws[k].len());
        proof {
            assert(piece@ =~= ws.deep_view()[k as int]);
        }
        out.push(piece);
        proof {
            assert(out.deep_view() =~~= out0.push(ws.deep_view()[k as int]));
            assert(out.deep_view() =~= ws.deep_view().take(k + 1));
        }
        k += 1;
    }
    proof {
        if ws.deep_view().len() <= n {
            assert(ws.deep_view().take(ws@.len() as int) =~= ws.deep_view());
        }
    }
    out
}

fn is_end(c: char, ascii: bool) -> (r: bool)
    ensures
        r == is_end_char(c, ascii),
{
    if ascii {
        c == '.' || c == '!' || c == '?'
    } else {
        c == '。' || c == '！' || c == '？' || c == '!' || c == '?'
    }
}

#[verifier::loop_isolation(false)]
fn cut_after(s: &Vec<char>, ascii: bool) -> (r: Vec<char>)
    ensures
        r@ == cut_after_ender(s@, ascii),
{
    let mut j: usize = s.len();
    proof {
        assert(s@.take(j as int) =~= s@);
    }
    while j > 0
        invariant
            j <= s@.len(),
            last_ender(s@, ascii) == last_ender(s@.take(j as int), ascii),
        decreases j,
    {
        if is_end(s[j - 1], ascii) {
            proof {
                assert(s@.take(j as int)[j - 1] == s@[j - 1]);
                assert(last_ender(s@.take(j as int), ascii) == j - 1);
            }
            return copy_prefix(s, j);
        }
        proof {
            assert(s@.take(j as int).drop_last() =~= s@.take(j - 1));
            assert(last_ender(s@.take(j as int), ascii) == last_ender(s@.take(j - 1), ascii));
        }
        j -= 1;
    }
    proof {
        assert(s@.take(0) =~= Seq::<char>::empty());
        assert(last_ender(s@, ascii) == -1);
    }
    copy_prefix(s, s.len())
}

/// Tidies a completion before delivery: ASCII answers are limited to
/// `max_tokens_en` words, other answers to `max_tokens_ja` characters, and
/// either is truncated just after its last sentence-ending character when it
/// has one.
pub fn prettier(res: String, max_tokens_en: usize, max_tokens_ja: usize) -> (r: String)
    ensures
        r@ == prettier_spec(res@, max_tokens_en as nat, max_tokens_ja as nat),
{
    let cs = chars_of(res.as_str());
    let ascii = res.as_str().is_ascii();
    let words = split_words(&cs);
    if ascii {
        let kept = take_words(&words, max_tokens_en);
        let joined = join_words(&kept);
        let cut = cut_after(&joined, true);
        string_of(&cut)
    } else {
        let joined = join_words(&words);
        let kept = if joined.len() <= max_tokens_ja {
            joined
        } else {
            copy_prefix(&joined, max_tokens_ja)
        };
        let cut = cut_after(&kept, false);
        string_of(&cut)
    }
}

/// A script transformed as `fetch` delivers it: tidied by `prettier`, with
/// its effects and voice untouched.
pub open spec fn transform_spec(v: ScriptView, en: nat, ja: nat) -> ScriptView {
    ScriptView { script: prettier_spec(v.script, en, ja), ..v }
}

/// The content of a result cell that is known to be filled.
pub open spec fn cell_view(c: Option<Script>) -> ScriptView {
    match c {
        Some(s) => s@,
        None => arbitrary(),
    }
}

/// The length of the contiguous run of filled cells starting at `start`.
pub open spec fn run_len(buf: Seq<Option<Script>>, start: int) -> nat
    decreases buf.len() - start,
{
    if start < 0 || start >= buf.len() || buf[start] is None {
        0
    } else {
        1 + run_len(buf, start + 1)
    }
}

/// No premature delivery: while the cell at the read cursor is empty the run
/// is empty, even when later cells are already filled; and the run otherwise
/// covers every filled cell up to the first empty one.
pub proof fn lemma_no_premature_delivery(buf: Seq<Option<Script>>, start: int)
    requires
        0 <= start <= buf.len(),
    ensures
        start < buf.len() && buf[start] is None ==> run_len(buf, start) == 0,
        forall|i: int| start <= i < start + run_len(buf, start) ==> buf[i] is Some,
        start + run_len(buf, start) <= buf.len(),
        start + run_len(buf, start) == buf.len() || buf[start + run_len(buf, start)] is None,
    decreases buf.len() - start,
{
    if start < buf.len() && buf[start] is Some {
        lemma_no_premature_delivery(buf, start + 1);
    }
}

/// One unit of dispatched work: the sequence number assigned at submission
/// and the (sanitized) script to complete.
pub struct WorkItem {
    pub sequence: usize,
    pub script: Script,
}

/// What a completion task does with the service's answer: record a result
/// into the item's cell, or retry the call once.
pub enum TaskAction {
    Record { text: String },
    RetryOnce,
}

/// What one call of the completion service came to.
pub enum CallOutcome {
    Success { text: String },
    Failure { body: String },
}

/// Decides a completion task's next step from the call's outcome: a success
/// is recorded as it is; a failure naming the quota marker records the quota
/// sentinel at once; any other failure is retried exactly once while still
/// inside the retry window, and recorded as the error sentinel otherwise.
/// Every path ends in a recorded value, so no cell stays empty forever.
pub fn classify_completion(outcome: CallOutcome, has_retried: bool, within_retry_window: bool) -> (r:
    TaskAction)
    ensures
        match outcome {
            CallOutcome::Success { text } => (r matches TaskAction::Record { text: t } && t@
                == text@),
            CallOutcome::Failure { body } => {
                if seq_contains(body@, "\"type\": \"insufficient_quota\""@) {
                    r matches TaskAction::Record { text: t } && t@ == "QUOTA_ERROR"@
                } else if !has_retried && within_retry_window {
                    r is RetryOnce
                } else {
                    r matches TaskAction::Record { text: t } && t@ == "ERROR"@
                }
            },
        },
{
    match outcome {
        CallOutcome::Success { text } => TaskAction::Record { text },
        CallOutcome::Failure { body } => {
            let cs = chars_of(body.as_str());
            let marker = chars_of("\"type\": \"insufficient_quota\"");
            if contains_chars(&cs, &marker) {
                TaskAction::Record { text: String::from_str("QUOTA_ERROR") }
            } else if !has_retried && within_retry_window {
                TaskAction::RetryOnce
            } else {
                TaskAction::Record { text: String::from_str("ERROR") }
            }
        },
    }
}

/// The token budget for one prompt: the Western-language budget for pure
/// ASCII prompts, the other budget otherwise.
pub fn choose_max_tokens(prompt: &str, max_tokens_en: usize, max_tokens_ja: usize) -> (r: usize)
    ensures
        r == if is_ascii_chars(prompt@) {
            max_tokens_en
        } else {
            max_tokens_ja
        },
{
    if prompt.is_ascii() {
        max_tokens_en
    } else {
        max_tokens_ja
    }
}

/// The order-preserving dispatcher: submissions get strictly increasing
/// sequence numbers and a result cell each; completions fill cells in any
/// order, each cell exactly once; `fetch` delivers the contiguous completed
/// prefix, so results leave in submission order.
pub struct ChatGPT {
    pub enabled: bool,
    pub filter: Filter,
    pub max_tokens_en: usize,
    pub max_tokens_ja: usize,
    pub buf: Vec<Option<Script>>,
    pub next_unread_index: usize,
}

impl ChatGPT {
    /// Every cell below the read cursor is filled, and a disabled dispatcher
    /// holds no cells.
    pub open spec fn wf(&self) -> bool {
        &&& self.next_unread_index <= self.buf@.len()
        &&& forall|i: int| 0 <= i < self.next_unread_index ==> self.buf@[i] is Some
        &&& (!self.enabled ==> self.buf@.len() == 0)
    }

    /// The next sequence number `push` will assign.
    pub open spec fn next_index(&self) -> int {
        self.buf@.len() as int
    }

    /// Everything delivered so far: the transformed completion of every
    /// sequence below the read cursor, in submission order.
    pub open spec fn delivered(&self) -> Seq<ScriptView> {
        Seq::new(
            self.next_unread_index as nat,
            |i: int|
                transform_spec(
                    cell_view(self.buf@[i]),
                    self.max_tokens_en as nat,
                    self.max_tokens_ja as nat,
                ),
        )
    }

    pub fn new(config: &Config, filter: Filter) -> (r: Self)
        ensures
            r.wf(),
            r.enabled == config.chatgpt.enabled,
            r.filter@ == filter@,
            r.max_tokens_en == config.chatgpt.model.max_tokens_en,
            r.max_tokens_ja == config.chatgpt.model.max_tokens_ja,
            r.next_index() == 0,
            r.next_unread_index == 0,
    {
        ChatGPT {
            enabled: config.chatgpt.enabled,
            filter,
            max_tokens_en: config.chatgpt.model.max_tokens_en,
            max_tokens_ja: config.chatgpt.model.max_tokens_ja,
            buf: Vec::new(),
            next_unread_index: 0,
        }
    }

    /// Submits a script: it gets the next sequence number and an empty result
    /// cell, its text sanitized first when it holds a forbidden word.  The
    /// returned item is what the caller dispatches to the completion service;
    /// nothing already delivered changes.  A disabled dispatcher does
    /// nothing.
    pub fn push(&mut self, script: Script) -> (r: Option<WorkItem>)
        requires
            old(self).wf(),
        ensures
            final(self).wf(),
            final(self).enabled == old(self).enabled,
            final(self).filter@ == old(self).filter@,
            final(self).max_tokens_en == old(self).max_tokens_en,
            final(self).max_tokens_ja == old(self).max_tokens_ja,
            final(self).next_unread_index == old(self).next_unread_index,
            final(self).delivered() == old(self).delivered(),
            !old(self).enabled ==> final(self).buf@ == old(self).buf@ && r is None,
            old(self).enabled ==> {
                &&& final(self).buf@ == old(self).buf@.push(None)
                &&& match r {
                    Some(item) => {
                        &&& item.sequence == old(self).next_index()
                        &&& item.script.effect == script.effect
                        &&& item.script.speaker == script.speaker
                        &&& item.script.script@ == (if normal_text(
                            old(self).filter@,
                            script.script@,
                        ) {
                            script.script@
                        } else {
                            sanitize_spec(old(self).filter@, script.script@)
                        })
                    },
                    None => false,
                }
            },
    {
        if !self.enabled {
            return None;
        }
        let sequence = self.buf.len();
        let text = if self.filter.is_normal(script.script.as_str()) {
            script.script
        } else {
            self.filter.sanitize(script.script.as_str())
        };
        self.buf.push(None);
        proof {
            assert(self.delivered() =~= old(self).delivered());
        }
        Some(
            WorkItem {
                sequence,
                script: Script { script: text, effect: script.effect, speaker: script.speaker },
            },
        )
    }

    /// Records the completion of the item with the given sequence number.
    /// The cell is written only if it exists and is still empty: a filled
    /// cell is never overwritten, and what was already delivered never
    /// changes.
    pub fn complete(&mut self, sequence: usize, script: Script)
        requires
            old(self).wf(),
        ensures
            final(self).wf(),
            final(self).enabled == old(self).enabled,
            final(self).filter@ == old(self).filter@,
            final(self).max_tokens_en == old(self).max_tokens_en,
            final(self).max_tokens_ja == old(self).max_tokens_ja,
            final(self).next_unread_index == old(self).next_unread_index,
            final(self).delivered() == old(self).delivered(),
            if sequence < old(self).buf@.len() && old(self).buf@[sequence as int] is None {
                final(self).buf@ == old(self).buf@.update(sequence as int, Some(script))
            } else {
                final(self).buf@ == old(self).buf@
            },
    {
        if sequence < self.buf.len() {
            let empty = match &self.buf[sequence] {
                None => true,
                Some(_) => false,
            };
            if empty {
                self.buf.set(sequence, Some(script));
            }
        }
        proof {
            assert(final(self).delivered() =~= old(self).delivered());
        }
    }

    /// Delivers the contiguous completed run at the read cursor, tidied by
    /// `prettier`, and advances the cursor past it: an empty cell at the
    /// cursor delivers nothing however many later cells are filled, and what
    /// is delivered is appended to `delivered` in submission order.
    pub fn fetch(&mut self) -> (r: Vec<Script>)
        requires
            old(self).wf(),
        ensures
            final(self).wf(),
            final(self).enabled == old(self).enabled,
            final(self).filter@ == old(self).filter@,
            final(self).max_tokens_en == old(self).max_tokens_en,
            final(self).max_tokens_ja == old(self).max_tokens_ja,
            final(self).buf@ == old(self).buf@,
            r@.len() == run_len(old(self).buf@, old(self).next_unread_index as int),
            final(self).next_unread_index == old(self).next_unread_index + r@.len(),
            final(self).next_unread_index == final(self).buf@.len()
                || final(self).buf@[final(self).next_unread_index as int] is None,
            forall|i: int|
                0 <= i < r@.len() ==> #[trigger] r@[i]@ == transform_spec(
                    cell_view(old(self).buf@[old(self).next_unread_index + i]),
                    old(self).max_tokens_en as nat,
                    old(self).max_tokens_ja as nat,
                ),
            final(self).delivered() == old(self).delivered() + r@.map_values(|s: Script| s@),
    {
        let ghost start = self.next_unread_index as int;
        let ghost buf0 = self.buf@;
        let mut ret: Vec<Script> = Vec::new();
        loop
            invariant
                self.wf(),
                self.enabled == old(self).enabled,
                self.filter == old(self).filter,
                self.max_tokens_en == old(self).max_tokens_en,
                self.max_tokens_ja == old(self).max_tokens_ja,
                self.buf@ == buf0,
                start == old(self).next_unread_index as int,
                self.next_unread_index as int == start + ret@.len(),
                run_len(buf0, start) == ret@.len() + run_len(buf0, self.next_unread_index as int),
                forall|i: int|
                    0 <= i < ret@.len() ==> #[trigger] ret@[i]@ == transform_spec(
                        cell_view(buf0[start + i]),
                        self.max_tokens_en as nat,
                        self.max_tokens_ja as nat,
                    ),
            ensures
                run_len(buf0, self.next_unread_index as int) == 0,
            decreases buf0.len() - self.next_unread_index,
        {
            let idx = self.next_unread_index;
            if idx >= self.buf.len() {
                assert(run_len(buf0, idx as int) == 0);
                break;
            }
            let (text, effect, speaker) = match &self.buf[idx] {
                None => {
                    assert(run_len(buf0, idx as int) == 0);
                    break;
                },
                Some(s) => (s.script.clone(), s.effect, s.speaker),
            };
            let tidy = prettier(text, self.max_tokens_en, self.max_tokens_ja);
            ret.push(Script { script: tidy, effect, speaker });
            self.next_unread_index = idx + 1;
        }
        proof {
            assert(final(self).delivered() =~~= old(self).delivered() + ret@.map_values(
                |s: Script| s@,
            ));
        }
        ret
    }
}

/// Ordering invariant: what a well-formed dispatcher has delivered is exactly
/// the transformed completion of every sequence number below the read cursor,
/// in submission order — and since `push`, `complete` and `fetch` each state
/// that `delivered` only ever grows by appending, repeated fetches never
/// reorder, duplicate or skip a result.
pub proof fn lemma_delivery_in_order(d: ChatGPT)
    requires
        d.wf(),
    ensures
        d.delivered().len() == d.next_unread_index as int,
        forall|i: int|
            0 <= i < d.next_unread_index ==> d.buf@[i] is Some && #[trigger] d.delivered()[i]
                == transform_spec(
                cell_view(d.buf@[i]),
                d.max_tokens_en as nat,
                d.max_tokens_ja as nat,
            ),
{
}

} // verus!
