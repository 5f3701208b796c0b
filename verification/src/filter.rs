use vstd::prelude::*;

use crate::text::{chars_of, contains_chars, match_at, seq_contains, string_of};

verus! {

/// No word of `words` occurs in `s`.
pub open spec fn normal_text(words: Seq<Seq<char>>, s: Seq<char>) -> bool {
    forall|k: int| 0 <= k < words.len() ==> !seq_contains(s, words[k])
}

/// `s` with every occurrence of `w` replaced by one `'*'` per character of
/// `w`, scanning left to right over non-overlapping occurrences, as
/// `str::replace` does; an empty `w` leaves `s` unchanged.
pub open spec fn replace_starred(s: Seq<char>, w: Seq<char>) -> Seq<char>
    decreases s.len(),
{
    if w.len() == 0 || s.len() < w.len() {
        s
    } else if s.subrange(0, w.len() as int) == w {
        Seq::new(w.len(), |i: int| '*') + replace_starred(s.subrange(w.len() as int, s.len() as int), w)
    } else {
        seq![s[0]] + replace_starred(s.subrange(1, s.len() as int), w)
    }
}

/// `s` with the words replaced by stars, one word after the other, each pass
/// scanning the outcome of the previous one.
pub open spec fn sanitize_spec(words: Seq<Seq<char>>, s: Seq<char>) -> Seq<char>
    decreases words.len(),
{
    if words.len() == 0 {
        s
    } else {
        sanitize_spec(words.drop_first(), replace_starred(s, words.first()))
    }
}

#[verifier::loop_isolation(false)]
fn replace_word(s: &Vec<char>, w: &Vec<char>) -> (r: Vec<char>)
    requires
        w@.len() >= 1,
    ensures
        r@ == replace_starred(s@, w@),
{
    let mut out: Vec<char> = Vec::new();
    let mut p: usize = 0;
    proof {
        assert(s@.skip(0) =~= s@);
        assert(out@ + replace_starred(s@, w@) =~= replace_starred(s@, w@));
    }
    while p < s.len()
        invariant
            p <= s@.len(),
            replace_starred(s@, w@) == out@ + replace_starred(s@.skip(p as int), w@),
        decreases s@.len() - p,
    {
        let ghost t = s@.skip(p as int);
        if match_at(s, w, p) {
            proof {
                assert(t.subrange(0, w@.len() as int) =~= s@.subrange(
                    p as int,
                    p + w@.len() as int,
                ));
                assert(t.subrange(w@.len() as int, t.len() as int) =~= s@.skip(
                    p + w@.len() as int,
                ));
            }
            let ghost out0 = out@;
            let mut j: usize = 0;
            while j < w.len()
                invariant
                    j <= w@.len(),
                    out@ =~= out0 + Seq::new(j as nat, |i: int| '*'),
                decreases w@.len() - j,
            {
                out.push('*');
                assert(out@ =~= out0 + Seq::new((j + 1) as nat, |i: int| '*'));
                j += 1;
            }
            p = p + w.len();
            proof {
                assert(out@ =~= out0 + Seq::new(w@.len(), |i: int| '*'));
                assert(replace_starred(t, w@) == Seq::new(w@.len(), |i: int| '*')
                    + replace_starred(s@.skip(p as int), w@));
                assert(replace_starred(s@, w@) == out@ + replace_starred(s@.skip(p as int), w@));
            }
        } else {
            out.push(s[p]);
            p = p + 1;
            proof {
                assert(t =~= seq![t[0]] + s@.skip(p as int));
                if t.len() < w@.len() {
                    assert(replace_starred(t, w@) == t);
                    assert(replace_starred(s@.skip(p as int), w@) == s@.skip(p as int));
                } else {
                    assert(t.subrange(0, w@.len() as int) =~= s@.subrange(
                        (p - 1) as int,
                        p - 1 + w@.len() as int,
                    ));
                    assert(t.subrange(0, w@.len() as int) != w@);
                    assert(t.subrange(1, t.len() as int) =~= s@.skip(p as int));
                    assert(replace_starred(t, w@) == seq![t[0]] + replace_starred(
                        s@.skip(p as int),
                        w@,
                    ));
                }
                assert(replace_starred(s@, w@) == out@ + replace_starred(s@.skip(p as int), w@));
            }
        }
    }
    proof {
        assert(s@.skip(p as int) =~= Seq::<char>::empty());
        assert(replace_starred(s@.skip(p as int), w@) == Seq::<char>::empty());
        assert(out@ =~= out@ + Seq::<char>::empty());
    }
    out
}

/// Replaces forbidden words in texts before they are spoken or posted.
pub struct Filter {
    forbidden_words: Vec<String>,
}

impl View for Filter {
    type V = Seq<Seq<char>>;

    closed spec fn view(&self) -> Seq<Seq<char>> {
        self.forbidden_words.deep_view()
    }
}

impl Filter {
    #[verifier::loop_isolation(false)]
    pub fn new(forbidden_words: &[String]) -> (r: Self)
        ensures
            r@ == forbidden_words.deep_view(),
    {
        let mut words: Vec<String> = Vec::new();
        let mut i: usize = 0;
        while i < forbidden_words.len()
            invariant
                i <= forbidden_words@.len(),
                words@.len() == i,
                forall|k: int| 0 <= k < i ==> words@[k]@ == forbidden_words@[k]@,
            decreases forbidden_words@.len() - i,
        {
            words.push(forbidden_words[i].clone());
            i += 1;
        }
        let r = Filter { forbidden_words: words };
        proof {
            assert(r@ =~= forbidden_words.deep_view());
        }
        r
    }

    /// Reports whether `s` is free of every forbidden word.
    #[verifier::loop_isolation(false)]
    pub fn is_normal(&self, s: &str) -> (r: bool)
        ensures
            r == normal_text(self@, s@),
    {
        let cs = chars_of(s);
        let mut k: usize = 0;
        while k < self.forbidden_words.len()
            invariant
                k <= self@.len(),
                forall|j: int| 0 <= j < k ==> !seq_contains(cs@, self@[j]),
            decreases self@.len() - k,
        {
            let w = chars_of(self.forbidden_words[k].as_str());
            if contains_chars(&cs, &w) {
                assert(seq_contains(s@, self@[k as int]));
                return false;
            }
            k += 1;
        }
        true
    }

    /// Replaces every occurrence of every forbidden word by stars, one star
    /// per character of the word.
    #[verifier::loop_isolation(false)]
    pub fn sanitize(&self, s: &str) -> (r: String)
        ensures
            r@ == sanitize_spec(self@, s@),
    {
        let mut cur: Vec<char> = chars_of(s);
        let mut k: usize = 0;
        proof {
            assert(self@.skip(0) =~= self@);
        }
        while k < self.forbidden_words.len()
            invariant
                k <= self@.len(),
                sanitize_spec(self@.skip(k as int), cur@) == sanitize_spec(self@, s@),
            decreases self@.len() - k,
        {
            let ghost pre = cur@;
            let w = chars_of(self.forbidden_words[k].as_str());
            if w.len() > 0 {
                cur = replace_word(&cur, &w);
            }
            proof {
                let rest = self@.skip(k as int);
                assert(rest.first() == self@[k as int]);
                assert(rest.drop_first() =~= self@.skip(k + 1));
                if w@.len() == 0 {
                    assert(replace_starred(pre, w@) == pre);
                }
                assert(cur@ == replace_starred(pre, self@[k as int]));
                assert(sanitize_spec(rest, pre) == sanitize_spec(self@.skip(k + 1), cur@));
            }
            k += 1;
        }
        proof {
            assert(self@.skip(k as int) =~= Seq::<Seq<char>>::empty());
        }
        string_of(&cur)
    }
}

} // verus!
