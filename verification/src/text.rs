use vstd::prelude::*;

verus! {

/// A character with the Unicode `White_Space` property, the class that
/// `str::split_whitespace` splits on.
pub open spec fn is_space_char(c: char) -> bool {
    (0x9 <= c as u32 && c as u32 <= 0xd) || c as u32 == 0x20 || c as u32 == 0x85
        || c as u32 == 0xa0 || c as u32 == 0x1680
        || (0x2000 <= c as u32 && c as u32 <= 0x200a) || c as u32 == 0x2028
        || c as u32 == 0x2029 || c as u32 == 0x202f || c as u32 == 0x205f
        || c as u32 == 0x3000
}

pub fn is_space(c: char) -> (r: bool)
    ensures
        r == is_space_char(c),
{
    let u = c as u32;
    (0x9 <= u && u <= 0xd) || u == 0x20 || u == 0x85 || u == 0xa0 || u == 0x1680
        || (0x2000 <= u && u <= 0x200a) || u == 0x2028 || u == 0x2029 || u == 0x202f
        || u == 0x205f || u == 0x3000
}

/// Relies on str::chars: the iterator yields exactly the characters of the string.
#[verifier::external_body]
pub fn chars_of(s: &str) -> (r: Vec<char>)
    ensures
        r@ == s@,
{
    s.chars().collect()
}

/// Relies on String's FromIterator impl over char: collecting yields exactly the
/// characters that were iterated, in order.
#[verifier::external_body]
pub fn string_of(v: &Vec<char>) -> (r: String)
    ensures
        r@ == v@,
{
    v.iter().collect()
}

pub fn push_str_chars(out: &mut Vec<char>, s: &str)
    ensures
        final(out)@ == old(out)@ + s@,
{
    let mut cs = chars_of(s);
    out.append(&mut cs);
}

pub open spec fn dec_digit(d: int) -> char
    recommends
        0 <= d < 10,
{
    if d == 0 {
        '0'
    } else if d == 1 {
        '1'
    } else if d == 2 {
        '2'
    } else if d == 3 {
        '3'
    } else if d == 4 {
        '4'
    } else if d == 5 {
        '5'
    } else if d == 6 {
        '6'
    } else if d == 7 {
        '7'
    } else if d == 8 {
        '8'
    } else {
        '9'
    }
}

/// The decimal rendering of `n`, most significant digit first, no leading zeros
/// (a single `'0'` for zero).
pub open spec fn dec_chars(n: nat) -> Seq<char>
    decreases n,
{
    if n < 10 {
        seq![dec_digit(n as int)]
    } else {
        dec_chars(n / 10).push(dec_digit((n % 10) as int))
    }
}

/// The decimal rendering of `n` padded with a leading `'0'` to at least two digits.
pub open spec fn dec2_chars(n: nat) -> Seq<char> {
    if n < 10 {
        seq!['0', dec_digit(n as int)]
    } else {
        dec_chars(n)
    }
}

fn digit_char(d: u64) -> (c: char)
    requires
        d < 10,
    ensures
        c == dec_digit(d as int),
{
    if d == 0 {
        '0'
    } else if d == 1 {
        '1'
    } else if d == 2 {
        '2'
    } else if d == 3 {
        '3'
    } else if d == 4 {
        '4'
    } else if d == 5 {
        '5'
    } else if d == 6 {
        '6'
    } else if d == 7 {
        '7'
    } else if d == 8 {
        '8'
    } else {
        '9'
    }
}

pub fn push_dec(out: &mut Vec<char>, n: u64)
    ensures
        final(out)@ == old(out)@ + dec_chars(n as nat),
    decreases n,
{
    if n < 10 {
        out.push(digit_char(n));
        assert(out@ =~= old(out)@ + dec_chars(n as nat));
    } else {
        push_dec(out, n / 10);
        out.push(digit_char(n % 10));
        assert(out@ =~= old(out)@ + dec_chars(n as nat));
    }
}

pub fn push_dec2(out: &mut Vec<char>, n: u64)
    ensures
        final(out)@ == old(out)@ + dec2_chars(n as nat),
{
    if n < 10 {
        out.push('0');
        out.push(digit_char(n));
        assert(out@ =~= old(out)@ + dec2_chars(n as nat));
    } else {
        push_dec(out, n);
    }
}


/// The decimal rendering of a value given in tenths: the integer part, and
/// the tenths digit after a dot only when it is not zero.
pub open spec fn tenths_chars(v: nat) -> Seq<char> {
    if v % 10 == 0 {
        dec_chars(v / 10)
    } else {
        dec_chars(v / 10) + seq!['.', dec_digit((v % 10) as int)]
    }
}

pub fn push_tenths(out: &mut Vec<char>, v: u64)
    ensures
        final(out)@ == old(out)@ + tenths_chars(v as nat),
{
    push_dec(out, v / 10);
    if v % 10 != 0 {
        out.push('.');
        out.push(digit_char(v % 10));
        assert(out@ =~= old(out)@ + tenths_chars(v as nat));
    } else {
        assert(out@ =~= old(out)@ + tenths_chars(v as nat));
    }
}

/// The decimal rendering of a value in tenths, as one string.
pub fn tenths_string(v: u64) -> (r: String)
    ensures
        r@ == tenths_chars(v as nat),
{
    let mut out: Vec<char> = Vec::new();
    push_tenths(&mut out, v);
    proof {
        assert(out@ =~= tenths_chars(v as nat));
    }
    string_of(&out)
}


/// `s` cut into consecutive pieces of `n` characters each, the last piece
/// possibly shorter; empty text has no pieces.
pub open spec fn chunks_spec(s: Seq<char>, n: nat) -> Seq<Seq<char>>
    decreases s.len(),
{
    if n == 0 || s.len() == 0 {
        Seq::empty()
    } else if s.len() <= n {
        seq![s]
    } else {
        seq![s.take(n as int)] + chunks_spec(s.skip(n as int), n)
    }
}

fn copy_range(s: &Vec<char>, from: usize, to: usize) -> (r: Vec<char>)
    requires
        from <= to <= s@.len(),
    ensures
        r@ == s@.subrange(from as int, to as int),
{
    let mut out: Vec<char> = Vec::new();
    let mut i: usize = from;
    while i < to
        invariant
            from <= i <= to <= s@.len(),
            out@ =~= s@.subrange(from as int, i as int),
        decreases to - i,
    {
        out.push(s[i]);
        assert(out@ =~= s@.subrange(from as int, i + 1));
        i += 1;
    }
    out
}

/// Cuts a text into pieces of at most `n` characters, in order.
#[verifier::loop_isolation(false)]
pub fn chunk_text(s: &str, n: usize) -> (r: Vec<String>)
    requires
        n >= 1,
    ensures
        r.deep_view() == chunks_spec(s@, n as nat),
{
    let cs = chars_of(s);
    let mut out: Vec<String> = Vec::new();
    let mut p: usize = 0;
    proof {
        assert(cs@.skip(0) =~= cs@);
        assert(out.deep_view() + chunks_spec(cs@, n as nat) =~= chunks_spec(cs@, n as nat));
    }
    while p < cs.len()
        invariant
            p <= cs@.len(),
            out.deep_view() + chunks_spec(cs@.skip(p as int), n as nat) == chunks_spec(
                cs@,
                n as nat,
            ),
        decreases cs@.len() - p,
    {
        let ghost d0 = out.deep_view();
        let ghost rest = cs@.skip(p as int);
        let end = if cs.len() - p <= n {
            cs.len()
        } else {
            p + n
        };
        let piece = copy_range(&cs, p, end);
        out.push(string_of(&piece));
        proof {
            assert(out.deep_view() =~~= d0.push(cs@.subrange(p as int, end as int)));
            if cs@.len() - p <= n {
                assert(cs@.subrange(p as int, end as int) =~= rest);
                assert(chunks_spec(rest, n as nat) == seq![rest]);
                assert(d0.push(rest) =~= d0 + seq![rest]);
                assert(cs@.skip(end as int) =~= Seq::<char>::empty());
                assert(d0.push(rest) + chunks_spec(cs@.skip(end as int), n as nat) =~= d0.push(
                    rest,
                ));
            } else {
                assert(cs@.subrange(p as int, end as int) =~= rest.take(n as int));
                assert(rest.skip(n as int) =~= cs@.skip(end as int));
                assert(chunks_spec(rest, n as nat) == seq![rest.take(n as int)] + chunks_spec(
                    cs@.skip(end as int),
                    n as nat,
                ));
                assert(d0.push(rest.take(n as int)) + chunks_spec(cs@.skip(end as int), n as nat)
                    =~= d0 + (seq![rest.take(n as int)] + chunks_spec(
                    cs@.skip(end as int),
                    n as nat,
                )));
            }
        }
        p = end;
    }
    proof {
        assert(cs@.skip(p as int) =~= Seq::<char>::empty());
        assert(out.deep_view() + Seq::<Seq<char>>::empty() =~= out.deep_view());
    }
    out
}


/// `s` without its leading run of whitespace.
pub open spec fn trim_front(s: Seq<char>) -> Seq<char>
    decreases s.len(),
{
    if s.len() > 0 && is_space_char(s[0]) {
        trim_front(s.drop_first())
    } else {
        s
    }
}

/// `s` without its trailing run of whitespace.
pub open spec fn trim_back(s: Seq<char>) -> Seq<char>
    decreases s.len(),
{
    if s.len() > 0 && is_space_char(s.last()) {
        trim_back(s.drop_last())
    } else {
        s
    }
}

/// `s` without leading and trailing whitespace, as `str::trim` yields it.
pub open spec fn trim_spec(s: Seq<char>) -> Seq<char> {
    trim_back(trim_front(s))
}

proof fn lemma_trim_front_skip(s: Seq<char>, a: int)
    requires
        0 <= a <= s.len(),
        forall|k: int| 0 <= k < a ==> is_space_char(s[k]),
        a < s.len() ==> !is_space_char(s[a]),
    ensures
        trim_front(s) == s.skip(a),
    decreases a,
{
    if a == 0 {
        assert(s.skip(0) =~= s);
    } else {
        lemma_trim_front_skip(s.drop_first(), a - 1);
        assert(s.drop_first().skip(a - 1) =~= s.skip(a));
    }
}

proof fn lemma_trim_back_take(s: Seq<char>, b: int)
    requires
        0 <= b <= s.len(),
        forall|k: int| b <= k < s.len() ==> is_space_char(s[k]),
        b > 0 ==> !is_space_char(s[b - 1]),
    ensures
        trim_back(s) == s.take(b),
    decreases s.len() - b,
{
    if b == s.len() {
        assert(s.take(b) =~= s);
    } else {
        lemma_trim_back_take(s.drop_last(), b);
        assert(s.drop_last().take(b) =~= s.take(b));
    }
}

/// `s` with leading and trailing whitespace removed.
#[verifier::loop_isolation(false)]
pub fn trim_text(s: &str) -> (r: String)
    ensures
        r@ == trim_spec(s@),
{
    let cs = chars_of(s);
    let mut a: usize = 0;
    while a < cs.len() && is_space(cs[a])
        invariant
            a <= cs@.len(),
            forall|k: int| 0 <= k < a ==> is_space_char(cs@[k]),
        decreases cs@.len() - a,
    {
        a += 1;
    }
    proof {
        lemma_trim_front_skip(cs@, a as int);
    }
    let mut b: usize = cs.len();
    while b > a && is_space(cs[b - 1])
        invariant
            a <= b <= cs@.len(),
            forall|k: int| b <= k < cs@.len() ==> is_space_char(cs@[k]),
        decreases b,
    {
        b -= 1;
    }
    proof {
        let t = cs@.skip(a as int);
        assert(forall|k: int| b - a <= k < t.len() ==> is_space_char(#[trigger] t[k]));
        if b > a {
            assert(t[b - a - 1] == cs@[b - 1]);
        }
        lemma_trim_back_take(t, b - a);
        assert(t.take(b - a) =~= cs@.subrange(a as int, b as int));
    }
    let out = copy_range(&cs, a, b);
    string_of(&out)
}

/// The word `w` occurs in `s` starting at position `i`.
pub open spec fn contains_at(s: Seq<char>, w: Seq<char>, i: int) -> bool {
    0 <= i && i + w.len() <= s.len() && s.subrange(i, i + w.len() as int) == w
}

/// The word `w` occurs somewhere in `s`, as `str::contains` reports it.
pub open spec fn seq_contains(s: Seq<char>, w: Seq<char>) -> bool {
    exists|i: int| contains_at(s, w, i)
}

/// The position of the first occurrence of a non-empty word `w` in `s` at or
/// after `i`, or `-1` if there is none.
pub open spec fn find_from(s: Seq<char>, w: Seq<char>, i: int) -> int
    decreases s.len() - i,
{
    if i < 0 || i + w.len() > s.len() || w.len() == 0 {
        -1
    } else if contains_at(s, w, i) {
        i
    } else {
        find_from(s, w, i + 1)
    }
}

pub proof fn lemma_find_from_none(s: Seq<char>, w: Seq<char>, from: int)
    requires
        0 <= from,
        w.len() >= 1,
        find_from(s, w, from) == -1,
    ensures
        forall|i: int| from <= i ==> !contains_at(s, w, i),
    decreases s.len() - from,
{
    if from + w.len() > s.len() {
    } else if contains_at(s, w, from) {
    } else {
        lemma_find_from_none(s, w, from + 1);
    }
}

pub proof fn lemma_find_from_some(s: Seq<char>, w: Seq<char>, from: int)
    requires
        0 <= from,
        w.len() >= 1,
        find_from(s, w, from) >= 0,
    ensures
        from <= find_from(s, w, from),
        find_from(s, w, from) + w.len() <= s.len(),
        contains_at(s, w, find_from(s, w, from)),
        forall|j: int| from <= j < find_from(s, w, from) ==> !contains_at(s, w, j),
    decreases s.len() - from,
{
    if from + w.len() > s.len() {
    } else if contains_at(s, w, from) {
    } else {
        lemma_find_from_some(s, w, from + 1);
    }
}

#[verifier::loop_isolation(false)]
pub fn match_at(s: &Vec<char>, w: &Vec<char>, i: usize) -> (r: bool)
    requires
        i <= s@.len(),
    ensures
        r == contains_at(s@, w@, i as int),
{
    if s.len() - i < w.len() {
        return false;
    }
    let mut j: usize = 0;
    while j < w.len()
        invariant
            j <= w@.len(),
            i + w@.len() <= s@.len(),
            forall|k: int| 0 <= k < j ==> s@[i + k] == w@[k],
        decreases w@.len() - j,
    {
        if s[i + j] != w[j] {
            return false;
        }
        j += 1;
    }
    assert(s@.subrange(i as int, i + w@.len() as int) =~= w@);
    true
}

#[verifier::loop_isolation(false)]
pub fn find_chars(s: &Vec<char>, w: &Vec<char>, from: usize) -> (r: Option<usize>)
    requires
        from <= s@.len(),
        w@.len() >= 1,
    ensures
        match r {
            Some(i) => from <= i && i as int == find_from(s@, w@, from as int),
            None => find_from(s@, w@, from as int) == -1,
        },
{
    let mut i: usize = from;
    loop
        invariant
            from <= i <= s@.len(),
            w@.len() >= 1,
            find_from(s@, w@, from as int) == find_from(s@, w@, i as int),
        decreases s@.len() - i,
    {
        if s.len() - i < w.len() {
            assert(find_from(s@, w@, i as int) == -1);
            return None;
        }
        if match_at(s, w, i) {
            return Some(i);
        }
        assert(find_from(s@, w@, i as int) == find_from(s@, w@, i + 1));
        i += 1;
    }
}

pub fn contains_chars(s: &Vec<char>, w: &Vec<char>) -> (r: bool)
    ensures
        r == seq_contains(s@, w@),
{
    if w.len() == 0 {
        assert(s@.subrange(0, 0) =~= w@);
        assert(contains_at(s@, w@, 0));
        return true;
    }
    match find_chars(s, w, 0) {
        Some(i) => {
            proof {
                lemma_find_from_some(s@, w@, 0);
            }
            true
        },
        None => {
            proof {
                lemma_find_from_none(s@, w@, 0);
            }
            false
        },
    }
}

/// `s` ends with the suffix `t`, as `str::ends_with` reports it.
pub open spec fn ends_with_spec(s: Seq<char>, t: Seq<char>) -> bool {
    t.len() <= s.len() && s.subrange(s.len() - t.len(), s.len() as int) == t
}

#[verifier::loop_isolation(false)]
pub fn ends_with_chars(s: &Vec<char>, t: &Vec<char>) -> (r: bool)
    ensures
        r == ends_with_spec(s@, t@),
{
    if t.len() > s.len() {
        return false;
    }
    let base: usize = s.len() - t.len();
    let mut j: usize = 0;
    while j < t.len()
        invariant
            j <= t@.len(),
            base == s@.len() - t@.len(),
            forall|k: int| 0 <= k < j ==> s@[base + k] == t@[k],
        decreases t@.len() - j,
    {
        if s[base + j] != t[j] {
            assert(s@.subrange(s@.len() - t@.len(), s@.len() as int)[j as int] != t@[j as int]);
            return false;
        }
        j += 1;
    }
    assert(s@.subrange(s@.len() - t@.len(), s@.len() as int) =~= t@);
    true
}

} // verus!
