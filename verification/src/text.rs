//! Character-level helpers over `str`/`String` with their models as `Seq<char>`.

use vstd::prelude::*;
use vstd::std_specs::iter::IteratorSpec;

verus! {

broadcast use vstd::string::group_string_axioms;

/// The characters of `s`, in order.
pub fn chars_of(s: &str) -> (r: Vec<char>)
    ensures
        r@ == s@,
{
    let mut out: Vec<char> = Vec::new();
    let mut it = s.chars();
    assert(it.remaining() == s@);
    loop
        invariant
            out@ + it.remaining() == s@,
            it.decrease() is Some,
        ensures
            out@ == s@,
        decreases it.decrease()->0,
    {
        match it.next() {
            Some(c) => {
                out.push(c);
            },
            None => {
                break;
            },
        }
    }
    out
}


/// `String::push`. Claimed: `c` is appended to the characters of `s`.
#[verifier::external_body]
pub(crate) fn push_char(s: &mut String, c: char)
    ensures
        final(s)@ == old(s)@.push(c),
{
    s.push(c);
}

/// A `String` holding exactly the characters of `v`.
pub fn string_of(v: &Vec<char>) -> (r: String)
    ensures
        r@ == v@,
{
    let mut out = String::new();
    let mut i: usize = 0;
    while i < v.len()
        invariant
            i <= v.len(),
            out@ == v@.take(i as int),
        decreases v.len() - i,
    {
        push_char(&mut out, v[i]);
        assert(v@.take(i + 1) =~= v@.take(i as int).push(v@[i as int]));
        i = i + 1;
    }
    assert(v@.take(v.len() as int) =~= v@);
    out
}

/// An owned copy of `s`.
pub fn owned(s: &str) -> (r: String)
    ensures
        r@ == s@,
{
    s.to_owned()
}

/// Appends the characters of `t` to `s`.
pub fn push_str(s: &mut String, t: &str)
    ensures
        final(s)@ == old(s)@ + t@,
{
    let cs = chars_of(t);
    let ghost start = s@;
    let mut i: usize = 0;
    while i < cs.len()
        invariant
            i <= cs.len(),
            cs@ == t@,
            s@ == start + cs@.take(i as int),
        decreases cs.len() - i,
    {
        push_char(s, cs[i]);
        assert(cs@.take(i + 1) =~= cs@.take(i as int).push(cs@[i as int]));
        i = i + 1;
    }
    assert(cs@.take(cs.len() as int) =~= cs@);
}

/// Unicode `White_Space`, the set that `char::is_whitespace` (and so `str::trim`
/// and `str::split_whitespace`) goes by.
pub open spec fn is_space(c: char) -> bool {
    let u = c as u32;
    ||| 0x09 <= u <= 0x0D
    ||| u == 0x20
    ||| u == 0x85
    ||| u == 0xA0
    ||| u == 0x1680
    ||| 0x2000 <= u <= 0x200A
    ||| u == 0x2028
    ||| u == 0x2029
    ||| u == 0x202F
    ||| u == 0x205F
    ||| u == 0x3000
}

pub fn is_space_char(c: char) -> (r: bool)
    ensures
        r == is_space(c),
{
    let u = c as u32;
    (0x09 <= u && u <= 0x0D) || u == 0x20 || u == 0x85 || u == 0xA0 || u == 0x1680 || (0x2000
        <= u && u <= 0x200A) || u == 0x2028 || u == 0x2029 || u == 0x202F || u == 0x205F || u
        == 0x3000
}

/// Which characters a trim strips.
#[derive(Clone, Copy)]
pub enum CharClass {
    /// Unicode whitespace, as `str::trim`.
    Space,
    /// The double quote, as `str::trim_matches('"')`.
    Quote,
}

pub open spec fn in_class(c: char, cls: CharClass) -> bool {
    match cls {
        CharClass::Space => is_space(c),
        CharClass::Quote => c == '"',
    }
}

pub fn char_in_class(c: char, cls: CharClass) -> (r: bool)
    ensures
        r == in_class(c, cls),
{
    match cls {
        CharClass::Space => is_space_char(c),
        CharClass::Quote => c == '"',
    }
}

pub open spec fn trim_start(s: Seq<char>, cls: CharClass) -> Seq<char>
    decreases s.len(),
{
    if s.len() > 0 && in_class(s[0], cls) {
        trim_start(s.drop_first(), cls)
    } else {
        s
    }
}

pub open spec fn trim_end(s: Seq<char>, cls: CharClass) -> Seq<char>
    decreases s.len(),
{
    if s.len() > 0 && in_class(s.last(), cls) {
        trim_end(s.drop_last(), cls)
    } else {
        s
    }
}

/// `s` with every leading and trailing character of class `cls` removed.
pub open spec fn trim(s: Seq<char>, cls: CharClass) -> Seq<char> {
    trim_end(trim_start(s, cls), cls)
}

/// The trim of `v`: leading, then trailing characters of class `cls` removed.
pub fn trimmed(v: &Vec<char>, cls: CharClass) -> (r: Vec<char>)
    ensures
        r@ == trim(v@, cls),
{
    let n = v.len();
    let mut i: usize = 0;
    assert(v@.skip(0) =~= v@);
    while i < n && char_in_class(v[i], cls)
        invariant
            i <= n,
            n == v.len(),
            trim_start(v@, cls) == trim_start(v@.skip(i as int), cls),
        decreases n - i,
    {
        assert(v@.skip(i as int).drop_first() =~= v@.skip(i + 1));
        i = i + 1;
    }
    assert(trim_start(v@, cls) == v@.skip(i as int));
    let mut j: usize = n;
    while j > i && char_in_class(v[j - 1], cls)
        invariant
            i <= j <= n,
            n == v.len(),
            trim_start(v@, cls) == v@.skip(i as int),
            trim(v@, cls) == trim_end(v@.subrange(i as int, j as int), cls),
        decreases j,
    {
        assert(v@.subrange(i as int, j as int).drop_last() =~= v@.subrange(i as int, j - 1));
        j = j - 1;
    }
    if i == 0 && j == n {
        assert(v@.subrange(0, n as int) =~= v@);
    } else {
        assert(v@.skip(i as int) =~= v@.subrange(i as int, n as int));
    }
    let mut out: Vec<char> = Vec::new();
    let mut k: usize = i;
    while k < j
        invariant
            i <= k <= j <= n,
            n == v.len(),
            out@ == v@.subrange(i as int, k as int),
        decreases j - k,
    {
        out.push(v[k]);
        assert(v@.subrange(i as int, k + 1) =~= v@.subrange(i as int, k as int).push(v@[k as int]));
        k = k + 1;
    }
    out
}

/// `p` is a prefix of `s`.
pub open spec fn starts_with(s: Seq<char>, p: Seq<char>) -> bool {
    p.len() <= s.len() && s.take(p.len() as int) == p
}

/// `p` is a suffix of `s`.
pub open spec fn ends_with(s: Seq<char>, p: Seq<char>) -> bool {
    p.len() <= s.len() && s.skip(s.len() - p.len()) == p
}

/// `p` occurs in `s` starting at index `i`.
pub open spec fn occurs_at(s: Seq<char>, p: Seq<char>, i: int) -> bool {
    0 <= i && i + p.len() <= s.len() && s.subrange(i, i + p.len()) == p
}

/// `p` occurs somewhere in `s`.
pub open spec fn contains(s: Seq<char>, p: Seq<char>) -> bool {
    exists|i: int| occurs_at(s, p, i)
}

/// Whether `p` occurs in `s` at index `i`.
pub fn matches_at(s: &Vec<char>, p: &Vec<char>, i: usize) -> (r: bool)
    ensures
        r == occurs_at(s@, p@, i as int),
{
    if i > s.len() || p.len() > s.len() - i {
        return false;
    }
    let mut k: usize = 0;
    while k < p.len()
        invariant
            k <= p.len(),
            i + p.len() <= s.len(),
            forall|m: int| 0 <= m < k ==> s@[i + m] == p@[m],
        decreases p.len() - k,
    {
        if s[i + k] != p[k] {
            assert(s@.subrange(i as int, i + p.len())[k as int] != p@[k as int]);
            return false;
        }
        k = k + 1;
    }
    assert(s@.subrange(i as int, i + p.len()) =~= p@);
    true
}

pub fn has_prefix(s: &Vec<char>, p: &Vec<char>) -> (r: bool)
    ensures
        r == starts_with(s@, p@),
{
    let r = matches_at(s, p, 0);
    proof {
        if p@.len() <= s@.len() {
            assert(s@.take(p@.len() as int) =~= s@.subrange(0, p@.len() as int));
        }
    }
    r
}

pub fn has_suffix(s: &Vec<char>, p: &Vec<char>) -> (r: bool)
    ensures
        r == ends_with(s@, p@),
{
    if p.len() > s.len() {
        return false;
    }
    let r = matches_at(s, p, s.len() - p.len());
    proof {
        assert(s@.skip(s@.len() - p@.len()) =~= s@.subrange(
            s@.len() - p@.len(),
            s@.len() - p@.len() + p@.len(),
        ));
    }
    r
}

pub fn has_infix(s: &Vec<char>, p: &Vec<char>) -> (r: bool)
    ensures
        r == contains(s@, p@),
{
    let mut i: usize = 0;
    loop
        invariant
            i <= s.len(),
            forall|m: int| 0 <= m < i ==> !occurs_at(s@, p@, m),
        ensures
            forall|m: int| 0 <= m <= s.len() ==> !occurs_at(s@, p@, m),
        decreases s.len() - i,
    {
        if matches_at(s, p, i) {
            return true;
        }
        if i == s.len() {
            break;
        }
        i = i + 1;
    }
    assert forall|m: int| !occurs_at(s@, p@, m) by {
        if 0 <= m && m + p@.len() <= s@.len() {
            assert(m <= s@.len());
        }
    }
    false
}

/// `w` stands in `s` as a whole whitespace-separated word starting at `i`.
pub open spec fn word_at(s: Seq<char>, w: Seq<char>, i: int) -> bool {
    &&& occurs_at(s, w, i)
    &&& (i == 0 || is_space(s[i - 1]))
    &&& (i + w.len() == s.len() || is_space(s[i + w.len()]))
}

/// `w` is one of the words of `s` (as `s.split_whitespace().any(|x| x == w)`,
/// for a nonempty `w` without whitespace).
pub open spec fn has_word(s: Seq<char>, w: Seq<char>) -> bool {
    exists|i: int| word_at(s, w, i)
}

pub fn contains_word(s: &Vec<char>, w: &Vec<char>) -> (r: bool)
    ensures
        r == has_word(s@, w@),
{
    let mut i: usize = 0;
    loop
        invariant
            i <= s.len(),
            forall|m: int| 0 <= m < i ==> !word_at(s@, w@, m),
        ensures
            forall|m: int| 0 <= m <= s.len() ==> !word_at(s@, w@, m),
        decreases s.len() - i,
    {
        if matches_at(s, w, i) {
            let before = i == 0 || is_space_char(s[i - 1]);
            let after = i + w.len() == s.len() || is_space_char(s[i + w.len()]);
            if before && after {
                assert(word_at(s@, w@, i as int));
                return true;
            }
        }
        if i == s.len() {
            break;
        }
        i = i + 1;
    }
    assert forall|m: int| !word_at(s@, w@, m) by {
        if 0 <= m && m + w@.len() <= s@.len() {
            assert(m <= s@.len());
        }
    }
    false
}

/// The decimal digit for `d < 10`.
pub open spec fn digit(d: nat) -> char {
    seq!['0', '1', '2', '3', '4', '5', '6', '7', '8', '9'][d as int]
}

/// The decimal rendering of `n`, as `u64::to_string`.
pub open spec fn decimal(n: nat) -> Seq<char>
    decreases n,
{
    if n < 10 {
        seq![digit(n)]
    } else {
        decimal(n / 10).push(digit(n % 10))
    }
}

/// The number that the decimal digits `s` spell (each character read as its
/// code minus the code of `0`).
pub open spec fn decimal_value(s: Seq<char>) -> int
    decreases s.len(),
{
    if s.len() == 0 {
        0
    } else {
        10 * decimal_value(s.drop_last()) + (s.last() as u32 - 48)
    }
}

/// Every digit is the character whose code is `48 + d` (`'0'`..`'9'`).
pub proof fn law_digit_codes(d: nat)
    requires
        d < 10,
    ensures
        digit(d) as u32 == 48 + d,
{
    assert('0' as u32 == 48);
    assert('1' as u32 == 49);
    assert('2' as u32 == 50);
    assert('3' as u32 == 51);
    assert('4' as u32 == 52);
    assert('5' as u32 == 53);
    assert('6' as u32 == 54);
    assert('7' as u32 == 55);
    assert('8' as u32 == 56);
    assert('9' as u32 == 57);
}

/// The decimal rendering of `n` consists of the characters `0`..`9` only,
/// and read back in base 10 it gives `n`.
pub proof fn law_decimal_reads_back(n: nat)
    ensures
        decimal_value(decimal(n)) == n,
        forall|i: int|
            0 <= i < decimal(n).len() ==> 48 <= #[trigger] (decimal(n)[i] as u32) <= 57,
        decimal(n).len() >= 1,
    decreases n,
{
    law_digit_codes(n % 10);
    if n < 10 {
        assert(decimal(n).drop_last() =~= Seq::<char>::empty());
        assert(decimal(n).last() == digit(n));
        assert(decimal_value(decimal(n)) == 10 * decimal_value(Seq::<char>::empty()) + (digit(
            n,
        ) as u32 - 48));
    } else {
        law_decimal_reads_back(n / 10);
        let s = decimal(n);
        assert(s.drop_last() =~= decimal(n / 10));
        assert(s.last() == digit(n % 10));
        assert(n == 10 * (n / 10) + n % 10) by (nonlinear_arith);
        assert(decimal_value(s) == 10 * decimal_value(decimal(n / 10)) + (digit(n % 10) as u32
            - 48));
        assert forall|i: int| 0 <= i < s.len() implies 48 <= #[trigger] (s[i] as u32) <= 57 by {
            if i < s.len() - 1 {
                assert(s[i] == decimal(n / 10)[i]);
            }
        }
    }
}

/// Appends the decimal rendering of `n` to `s`.
pub fn push_decimal(s: &mut String, n: u64)
    ensures
        final(s)@ == old(s)@ + decimal(n as nat),
    decreases n,
{
    let digits = ['0', '1', '2', '3', '4', '5', '6', '7', '8', '9'];
    if n >= 10 {
        push_decimal(s, n / 10);
    }
    let d = (n % 10) as usize;
    push_char(s, digits[d]);
    assert(digits@ == seq!['0', '1', '2', '3', '4', '5', '6', '7', '8', '9']);
    proof {
        if n < 10 {
            assert(old(s)@ + decimal(n as nat) =~= old(s)@.push(digit(n as nat)));
        } else {
            assert(old(s)@ + decimal(n as nat) =~= (old(s)@ + decimal((n / 10) as nat)).push(
                digit((n % 10) as nat),
            ));
        }
    }
}


/// The characters of an optional string.
pub open spec fn opt_chars(o: Option<String>) -> Option<Seq<char>> {
    match o {
        Some(s) => Some(s@),
        None => None,
    }
}

/// Whether two strings hold the same characters.
pub fn same_text(a: &str, b: &str) -> (r: bool)
    ensures
        r == (a@ == b@),
{
    owned(a) == owned(b)
}

/// `dir` joined with `comp` as `Path::join` does on Unix: an absolute `comp`
/// replaces `dir`; otherwise a `/` goes between them unless `dir` is empty or
/// already ends in one.
pub open spec fn path_join(dir: Seq<char>, comp: Seq<char>) -> Seq<char> {
    if comp.len() > 0 && comp[0] == '/' {
        comp
    } else if dir.len() > 0 && dir.last() != '/' {
        dir + seq!['/'] + comp
    } else {
        dir + comp
    }
}

pub fn join_path(dir: &str, comp: &str) -> (r: String)
    ensures
        r@ == path_join(dir@, comp@),
{
    let rel = chars_of(comp);
    if rel.len() > 0 && rel[0] == '/' {
        return owned(comp);
    }
    let cs = chars_of(dir);
    let mut out = owned(dir);
    if cs.len() > 0 && cs[cs.len() - 1] != '/' {
        push_char(&mut out, '/');
    }
    push_str(&mut out, comp);
    out
}


/// The length of the leading run of `s` that holds no `stop` character.
pub open spec fn span_until(s: Seq<char>, stop: char) -> nat
    decreases s.len(),
{
    if s.len() == 0 || s[0] == stop {
        0
    } else {
        1 + span_until(s.drop_first(), stop)
    }
}

/// The index of the first `stop` in `v` at or after `start`, or `v.len()`.
pub fn find_from(v: &Vec<char>, start: usize, stop: char) -> (k: usize)
    requires
        start <= v.len(),
    ensures
        start <= k <= v.len(),
        k - start == span_until(v@.skip(start as int), stop),
{
    let ghost rest = v@.skip(start as int);
    let mut k: usize = start;
    assert(rest.skip(0) =~= rest);
    while k < v.len() && v[k] != stop
        invariant
            start <= k <= v.len(),
            rest == v@.skip(start as int),
            span_until(rest, stop) == (k - start) + span_until(rest.skip(k - start), stop),
        decreases v.len() - k,
    {
        assert(rest.skip(k - start).drop_first() =~= rest.skip(k - start + 1));
        assert(rest.skip(k - start)[0] == v@[k as int]);
        k = k + 1;
    }
    proof {
        if k < v.len() {
            assert(rest.skip(k - start)[0] == v@[k as int]);
        }
    }
    k
}

/// The characters `v[from..to]`.
pub fn slice_chars(v: &Vec<char>, from: usize, to: usize) -> (r: Vec<char>)
    requires
        from <= to <= v.len(),
    ensures
        r@ == v@.subrange(from as int, to as int),
{
    let mut out: Vec<char> = Vec::new();
    let mut j: usize = from;
    while j < to
        invariant
            from <= j <= to <= v.len(),
            out@ == v@.subrange(from as int, j as int),
        decreases to - j,
    {
        out.push(v[j]);
        assert(v@.subrange(from as int, j + 1) =~= v@.subrange(from as int, j as int).push(
            v@[j as int],
        ));
        j = j + 1;
    }
    out
}

} // verus!
