//! Character-level string helpers shared by the rest of the library.
use vstd::prelude::*;
use vstd::string::StringExecFns;

verus! {

/// Appends one character to a string.
#[verifier::external_body]
pub(crate) fn push_char(s: &mut String, c: char)
    ensures
        final(s)@ == old(s)@.push(c),
{
    s.push(c);
}

/// The characters of `s`, in order.
pub fn chars_of(s: &str) -> (res: Vec<char>)
    ensures
        res@ == s@,
{
    let mut res: Vec<char> = Vec::new();
    for c in it: s.chars()
        invariant
            res@ == it.seq().take(it.index() as int),
    {
        res.push(c);
    }
    res
}

/// The length in bytes of the UTF-8 encoding of `s`, as `str::len` reports it.
pub open spec fn byte_len(s: Seq<char>) -> nat {
    (vstd::utf8::encode_utf8(s).len() as usize) as nat
}

/// The length in bytes of `s`.
pub fn str_byte_len(s: &str) -> (res: usize)
    ensures
        res as nat == byte_len(s@),
{
    s.len()
}

/// Builds a string from a slice of characters.
pub fn string_from_chars(cs: &[char]) -> (res: String)
    ensures
        res@ == cs@,
{
    let mut res = String::new();
    let n = cs.len();
    for i in 0..n
        invariant
            n == cs@.len(),
            res@ == cs@.take(i as int),
    {
        push_char(&mut res, cs[i]);
        assert(cs@.take(i + 1) == cs@.take(i as int).push(cs@[i as int]));
    }
    assert(cs@.take(n as int) == cs@);
    res
}

} // verus!

verus! {

/// Whether `c` has the Unicode `White_Space` property, the set that `str::trim` strips.
pub open spec fn is_whitespace(c: char) -> bool {
    ||| ('\u{9}' <= c && c <= '\u{d}')
    ||| c == ' '
    ||| c == '\u{85}'
    ||| c == '\u{a0}'
    ||| c == '\u{1680}'
    ||| ('\u{2000}' <= c && c <= '\u{200a}')
    ||| c == '\u{2028}'
    ||| c == '\u{2029}'
    ||| c == '\u{202f}'
    ||| c == '\u{205f}'
    ||| c == '\u{3000}'
}

/// Decides [`is_whitespace`].
pub fn char_is_whitespace(c: char) -> (res: bool)
    ensures
        res == is_whitespace(c),
{
    ('\u{9}' <= c && c <= '\u{d}') || c == ' ' || c == '\u{85}' || c == '\u{a0}' || c == '\u{1680}'
        || ('\u{2000}' <= c && c <= '\u{200a}') || c == '\u{2028}' || c == '\u{2029}' || c
        == '\u{202f}' || c == '\u{205f}' || c == '\u{3000}'
}

/// `s` without its leading whitespace.
pub open spec fn trim_start(s: Seq<char>) -> Seq<char>
    decreases s.len(),
{
    if s.len() > 0 && is_whitespace(s[0]) {
        trim_start(s.drop_first())
    } else {
        s
    }
}

/// `s` without its trailing whitespace.
pub open spec fn trim_end(s: Seq<char>) -> Seq<char>
    decreases s.len(),
{
    if s.len() > 0 && is_whitespace(s.last()) {
        trim_end(s.drop_last())
    } else {
        s
    }
}

/// `s` without leading and trailing whitespace.
pub open spec fn trim(s: Seq<char>) -> Seq<char> {
    trim_end(trim_start(s))
}

proof fn lemma_trim_start_skip(s: Seq<char>, i: int)
    requires
        0 <= i <= s.len(),
        forall|k: int| 0 <= k < i ==> is_whitespace(#[trigger] s[k]),
    ensures
        trim_start(s) == trim_start(s.skip(i)),
    decreases i,
{
    if i > 0 {
        assert(s.skip(1) =~= s.drop_first());
        lemma_trim_start_skip(s.drop_first(), i - 1);
        assert(s.drop_first().skip(i - 1) =~= s.skip(i));
    } else {
        assert(s.skip(0) =~= s);
    }
}

proof fn lemma_trim_end_take(s: Seq<char>, j: int)
    requires
        0 <= j <= s.len(),
        forall|k: int| j <= k < s.len() ==> is_whitespace(#[trigger] s[k]),
    ensures
        trim_end(s) == trim_end(s.take(j)),
    decreases s.len() - j,
{
    if j < s.len() {
        assert(s.drop_last() =~= s.take(s.len() - 1));
        lemma_trim_end_take(s.drop_last(), j);
        assert(s.drop_last().take(j) =~= s.take(j));
    } else {
        assert(s.take(j) =~= s);
    }
}

/// Where the trimmed part of `cs` starts and ends.
pub fn trim_bounds(cs: &[char]) -> (res: (usize, usize))
    ensures
        res.0 <= res.1 <= cs@.len(),
        cs@.subrange(res.0 as int, res.1 as int) == trim(cs@),
{
    let n = cs.len();
    let mut i: usize = 0;
    while i < n && char_is_whitespace(cs[i])
        invariant
            i <= n == cs@.len(),
            forall|k: int| 0 <= k < i ==> is_whitespace(#[trigger] cs@[k]),
        decreases n - i,
    {
        i = i + 1;
    }
    proof {
        lemma_trim_start_skip(cs@, i as int);
    }
    let ghost rest = cs@.skip(i as int);
    assert(trim_start(cs@) == rest) by {
        if rest.len() > 0 {
            assert(rest[0] == cs@[i as int]);
        }
    }
    let mut j: usize = n;
    while j > i && char_is_whitespace(cs[j - 1])
        invariant
            i <= j <= n == cs@.len(),
            forall|k: int| j <= k < n ==> is_whitespace(#[trigger] cs@[k]),
        decreases j,
    {
        j = j - 1;
    }
    proof {
        let t = j - i;
        assert forall|k: int| t <= k < rest.len() implies is_whitespace(#[trigger] rest[k]) by {
            assert(rest[k] == cs@[k + i]);
        }
        lemma_trim_end_take(rest, t);
        let r = rest.take(t);
        assert(r =~= cs@.subrange(i as int, j as int));
        if r.len() > 0 {
            assert(r.last() == cs@[j - 1]);
        }
        assert(trim_end(r) == r);
    }
    (i, j)
}

/// The characters of `s` without leading and trailing whitespace.
pub fn trim_str(s: &str) -> (res: String)
    ensures
        res@ == trim(s@),
{
    let cs = chars_of(s);
    let (a, b) = trim_bounds(cs.as_slice());
    string_from_chars(&cs.as_slice()[a..b])
}

} // verus!

verus! {

/// The decimal digit for `d < 10`.
pub open spec fn digit(d: nat) -> char {
    if d == 0 { '0' }
    else if d == 1 { '1' }
    else if d == 2 { '2' }
    else if d == 3 { '3' }
    else if d == 4 { '4' }
    else if d == 5 { '5' }
    else if d == 6 { '6' }
    else if d == 7 { '7' }
    else if d == 8 { '8' }
    else { '9' }
}

/// The decimal representation of `n`, without leading zeros.
pub open spec fn decimal(n: nat) -> Seq<char>
    decreases n,
{
    if n < 10 {
        seq![digit(n)]
    } else {
        decimal(n / 10).push(digit(n % 10))
    }
}

/// The decimal representation of a signed number.
pub open spec fn signed_decimal(n: int) -> Seq<char> {
    if n < 0 {
        seq!['-'] + decimal((-n) as nat)
    } else {
        decimal(n as nat)
    }
}

/// `n` in decimal, left-padded with zeros to at least two digits.
pub open spec fn decimal_two(n: nat) -> Seq<char> {
    if n < 10 {
        seq!['0', digit(n)]
    } else {
        decimal(n)
    }
}

fn digit_char(d: u64) -> (c: char)
    requires
        d < 10,
    ensures
        c == digit(d as nat),
{
    if d == 0 { '0' }
    else if d == 1 { '1' }
    else if d == 2 { '2' }
    else if d == 3 { '3' }
    else if d == 4 { '4' }
    else if d == 5 { '5' }
    else if d == 6 { '6' }
    else if d == 7 { '7' }
    else if d == 8 { '8' }
    else { '9' }
}

/// Appends the decimal representation of `n`.
pub fn push_decimal(out: &mut String, n: u64)
    ensures
        final(out)@ == old(out)@ + decimal(n as nat),
    decreases n,
{
    if n >= 10 {
        push_decimal(out, n / 10);
    }
    push_char(out, digit_char(n % 10));
    proof {
        if n >= 10 {
            assert(decimal(n as nat) == decimal((n / 10) as nat).push(digit((n % 10) as nat)));
        }
    }
}

/// Appends the decimal representation of a signed number.
pub fn push_signed_decimal(out: &mut String, n: i64)
    ensures
        final(out)@ == old(out)@ + signed_decimal(n as int),
{
    if n < 0 {
        push_char(out, '-');
        let m: u64 = if n == i64::MIN {
            9223372036854775808u64
        } else {
            (-n) as u64
        };
        push_decimal(out, m);
    } else {
        push_decimal(out, n as u64);
    }
}

/// Appends `n` padded with zeros to two digits.
pub fn push_decimal_two(out: &mut String, n: u64)
    ensures
        final(out)@ == old(out)@ + decimal_two(n as nat),
{
    if n < 10 {
        push_char(out, '0');
        push_char(out, digit_char(n));
    } else {
        push_decimal(out, n);
    }
}

} // verus!

verus! {

/// Whether `p` occurs in `s` at position `i`.
pub open spec fn matches_at(s: Seq<char>, p: Seq<char>, i: int) -> bool {
    0 <= i && i + p.len() <= s.len() && s.subrange(i, i + p.len()) == p
}

/// Number of non-overlapping occurrences of a non-empty `p` in `s` from `i` on,
/// scanning left to right.
pub open spec fn count_from(s: Seq<char>, p: Seq<char>, i: int) -> nat
    recommends
        p.len() > 0,
    decreases s.len() - i,
{
    if p.len() == 0 || i < 0 || i + p.len() > s.len() {
        0
    } else if matches_at(s, p, i) {
        1 + count_from(s, p, i + p.len())
    } else {
        count_from(s, p, i + 1)
    }
}

/// Number of matches of `p` in `s`, as `str::matches(..).count()` gives it:
/// the empty pattern matches at every character boundary.
pub open spec fn occurrences(s: Seq<char>, p: Seq<char>) -> nat {
    if p.len() == 0 {
        s.len() + 1
    } else {
        count_from(s, p, 0)
    }
}

/// `s` from `i` on with each non-overlapping occurrence of a non-empty `p` replaced by `r`.
pub open spec fn replace_from(s: Seq<char>, p: Seq<char>, r: Seq<char>, i: int) -> Seq<char>
    decreases s.len() - i,
{
    if p.len() == 0 || i < 0 || i >= s.len() {
        Seq::empty()
    } else if matches_at(s, p, i) {
        r + replace_from(s, p, r, i + p.len())
    } else {
        seq![s[i]] + replace_from(s, p, r, i + 1)
    }
}

/// `r` before every character of `s` and at its end: what replacing the empty pattern gives.
pub open spec fn interleave(s: Seq<char>, r: Seq<char>) -> Seq<char>
    decreases s.len(),
{
    if s.len() == 0 {
        r
    } else {
        r + seq![s[0]] + interleave(s.drop_first(), r)
    }
}

/// `s` with every match of `p` replaced by `r`, as `str::replace` gives it.
pub open spec fn replace_all(s: Seq<char>, p: Seq<char>, r: Seq<char>) -> Seq<char> {
    if p.len() == 0 {
        interleave(s, r)
    } else {
        replace_from(s, p, r, 0)
    }
}

/// Whether `p` occurs in `s` at position `i`.
pub fn matches_at_exec(s: &[char], p: &[char], i: usize) -> (res: bool)
    requires
        i <= s@.len(),
    ensures
        res == matches_at(s@, p@, i as int),
{
    if p.len() > s.len() - i {
        return false;
    }
    let sl = s.len();
    let mut k: usize = 0;
    while k < p.len()
        invariant
            sl == s@.len(),
            i + p@.len() <= s@.len(),
            k <= p@.len(),
            forall|m: int| 0 <= m < k ==> s@[i + m] == p@[m],
        decreases p@.len() - k,
    {
        if s[i + k] != p[k] {
            assert(s@.subrange(i as int, i + p@.len())[k as int] != p@[k as int]);
            return false;
        }
        k = k + 1;
    }
    assert(s@.subrange(i as int, i + p@.len()) =~= p@);
    true
}

/// Number of matches of `p` in `s`.
pub fn count_occurrences(s: &[char], p: &[char]) -> (res: usize)
    requires
        s@.len() < usize::MAX,
    ensures
        res == occurrences(s@, p@),
{
    if p.len() == 0 {
        return s.len() + 1;
    }
    let n = s.len();
    let mut i: usize = 0;
    let mut c: usize = 0;
    while i < n
        invariant
            n == s@.len(),
            p@.len() > 0,
            i <= n,
            c <= i,
            count_from(s@, p@, 0) == c + count_from(s@, p@, i as int),
        decreases n - i,
    {
        if matches_at_exec(s, p, i) {
            c = c + 1;
            i = i + p.len();
        } else {
            i = i + 1;
        }
    }
    c
}

/// `s` with every match of `p` replaced by `r`.
pub fn replace_chars(s: &[char], p: &[char], r: &[char]) -> (res: Vec<char>)
    ensures
        res@ == replace_all(s@, p@, r@),
{
    let n = s.len();
    let mut out: Vec<char> = Vec::new();
    if p.len() == 0 {
        let mut i: usize = 0;
        assert(s@.skip(0) =~= s@);
        while i < n
            invariant
                n == s@.len(),
                i <= n,
                out@ + interleave(s@.skip(i as int), r@) == interleave(s@, r@),
            decreases n - i,
        {
            let ghost before = out@;
            let mut k: usize = 0;
            while k < r.len()
                invariant
                    k <= r@.len(),
                    out@ == before + r@.take(k as int),
                decreases r@.len() - k,
            {
                out.push(r[k]);
                k = k + 1;
                assert(r@.take(k as int) =~= r@.take(k - 1).push(r@[k - 1]));
            }
            out.push(s[i]);
            proof {
                let rest = s@.skip(i as int);
                assert(rest.drop_first() =~= s@.skip(i + 1));
                assert(rest[0] == s@[i as int]);
                assert(r@.take(r@.len() as int) =~= r@);
                assert(out@ =~= before + (r@ + seq![s@[i as int]]));
                assert(interleave(rest, r@) == r@ + seq![rest[0]] + interleave(rest.drop_first(), r@));
                assert(before + interleave(rest, r@) =~= out@ + interleave(s@.skip(i + 1), r@));
            }
            i = i + 1;
        }
        let ghost before = out@;
        let mut k: usize = 0;
        while k < r.len()
            invariant
                k <= r@.len(),
                out@ == before + r@.take(k as int),
            decreases r@.len() - k,
        {
            out.push(r[k]);
            k = k + 1;
            assert(r@.take(k as int) =~= r@.take(k - 1).push(r@[k - 1]));
        }
        proof {
            assert(s@.skip(n as int) =~= Seq::<char>::empty());
            assert(r@.take(r@.len() as int) =~= r@);
        }
        return out;
    }
    let mut i: usize = 0;
    while i < n
        invariant
            n == s@.len(),
            p@.len() > 0,
            i <= n,
            out@ + replace_from(s@, p@, r@, i as int) == replace_from(s@, p@, r@, 0),
        decreases n - i,
    {
        let ghost before = out@;
        if matches_at_exec(s, p, i) {
            let mut k: usize = 0;
            while k < r.len()
                invariant
                    k <= r@.len(),
                    out@ == before + r@.take(k as int),
                decreases r@.len() - k,
            {
                out.push(r[k]);
                k = k + 1;
                assert(r@.take(k as int) =~= r@.take(k - 1).push(r@[k - 1]));
            }
            assert(r@.take(r@.len() as int) =~= r@);
            assert(out@ =~= before + r@);
            i = i + p.len();
        } else {
            out.push(s[i]);
            i = i + 1;
        }
    }
    out
}

} // verus!

verus! {

/// Whether two strings hold the same characters.
pub fn str_eq(a: &str, b: &str) -> (res: bool)
    ensures
        res == (a@ == b@),
{
    let x = String::from_str(a);
    let y = String::from_str(b);
    x == y
}

/// `name` joined under directory `dir`, as `Path::join` does it for these cases: an
/// absolute name replaces the directory, an empty directory gives the name itself,
/// otherwise one `/` separates them unless the directory already ends with one.
pub open spec fn join_path(dir: Seq<char>, name: Seq<char>) -> Seq<char> {
    if name.len() > 0 && name[0] == '/' {
        name
    } else if dir.len() == 0 {
        name
    } else if dir.last() == '/' {
        dir + name
    } else {
        dir + "/"@ + name
    }
}

/// Joins `name` under `dir`.
pub fn join(dir: &str, name: &str) -> (res: String)
    ensures
        res@ == join_path(dir@, name@),
{
    let d = chars_of(dir);
    let n = chars_of(name);
    if n.len() > 0 && n[0] == '/' {
        return String::from_str(name);
    }
    if d.len() == 0 {
        return String::from_str(name);
    }
    let mut res = String::from_str(dir);
    if d[d.len() - 1] != '/' {
        res.append("/");
    }
    res.append(name);
    res
}

} // verus!

verus! {

proof fn lemma_replace_from_self(s: Seq<char>, p: Seq<char>, i: int)
    requires
        p.len() > 0,
        0 <= i <= s.len(),
    ensures
        replace_from(s, p, p, i) == s.skip(i),
    decreases s.len() - i,
{
    if i >= s.len() {
        assert(s.skip(i) =~= Seq::<char>::empty());
    } else if matches_at(s, p, i) {
        lemma_replace_from_self(s, p, i + p.len());
        assert(s.subrange(i, i + p.len()) + s.skip(i + p.len()) =~= s.skip(i));
    } else {
        lemma_replace_from_self(s, p, i + 1);
        assert(seq![s[i]] + s.skip(i + 1) =~= s.skip(i));
    }
}

proof fn lemma_interleave_empty(s: Seq<char>)
    ensures
        interleave(s, Seq::empty()) == s,
    decreases s.len(),
{
    if s.len() > 0 {
        lemma_interleave_empty(s.drop_first());
        assert(Seq::<char>::empty() + seq![s[0]] + s.drop_first() =~= s);
    }
}

/// Replacing a string by itself changes nothing.
pub proof fn lemma_replace_self(s: Seq<char>, p: Seq<char>)
    ensures
        replace_all(s, p, p) == s,
{
    if p.len() == 0 {
        lemma_interleave_empty(s);
        assert(p =~= Seq::<char>::empty());
    } else {
        lemma_replace_from_self(s, p, 0);
        assert(s.skip(0) =~= s);
    }
}

} // verus!

verus! {

/// The first position from `i` on where `p` occurs in `s`.
pub open spec fn find_from(s: Seq<char>, p: Seq<char>, i: int) -> Option<int>
    decreases s.len() + 1 - i,
{
    if i < 0 || i + p.len() > s.len() {
        None
    } else if matches_at(s, p, i) {
        Some(i)
    } else {
        find_from(s, p, i + 1)
    }
}

/// `find_from` finds the first match at or after `i`.
pub proof fn lemma_find_first(s: Seq<char>, p: Seq<char>, i: int, k: int)
    requires
        0 <= i <= k,
        matches_at(s, p, k),
        forall|j: int| i <= j < k ==> !matches_at(s, p, j),
    ensures
        find_from(s, p, i) == Some(k),
    decreases k - i,
{
    if i < k {
        lemma_find_first(s, p, i + 1, k);
    }
}

} // verus!

verus! {

proof fn lemma_no_count_no_change(s: Seq<char>, p: Seq<char>, r: Seq<char>, j: int)
    requires
        p.len() > 0,
        0 <= j <= s.len(),
        count_from(s, p, j) == 0,
    ensures
        replace_from(s, p, r, j) == s.skip(j),
    decreases s.len() - j,
{
    if j >= s.len() {
        assert(s.skip(j) =~= Seq::<char>::empty());
    } else {
        if j + p.len() <= s.len() {
            assert(!matches_at(s, p, j));
            lemma_no_count_no_change(s, p, r, j + 1);
        } else {
            assert(!matches_at(s, p, j));
            lemma_no_count_no_change_tail(s, p, r, j + 1);
        }
        assert(seq![s[j]] + s.skip(j + 1) =~= s.skip(j));
    }
}

proof fn lemma_no_count_no_change_tail(s: Seq<char>, p: Seq<char>, r: Seq<char>, j: int)
    requires
        p.len() > 0,
        0 <= j <= s.len(),
        j + p.len() > s.len(),
    ensures
        replace_from(s, p, r, j) == s.skip(j),
    decreases s.len() - j,
{
    if j >= s.len() {
        assert(s.skip(j) =~= Seq::<char>::empty());
    } else {
        assert(!matches_at(s, p, j));
        lemma_no_count_no_change_tail(s, p, r, j + 1);
        assert(seq![s[j]] + s.skip(j + 1) =~= s.skip(j));
    }
}

proof fn lemma_first_match_split(s: Seq<char>, p: Seq<char>, r: Seq<char>, i: int, k: int)
    requires
        p.len() > 0,
        0 <= i <= k,
        find_from(s, p, i) == Some(k),
    ensures
        k + p.len() <= s.len(),
        count_from(s, p, i) == 1 + count_from(s, p, k + p.len()),
        replace_from(s, p, r, i) == s.subrange(i, k) + r + replace_from(s, p, r, k + p.len()),
    decreases k - i,
{
    lemma_find_some_matches(s, p, i);
    if i == k {
        assert(matches_at(s, p, i));
        assert(s.subrange(i, i) =~= Seq::<char>::empty());
        assert(s.subrange(i, k) + r + replace_from(s, p, r, k + p.len()) =~= r + replace_from(
            s,
            p,
            r,
            k + p.len(),
        ));
    } else {
        assert(!matches_at(s, p, i));
        lemma_first_match_split(s, p, r, i + 1, k);
        assert(seq![s[i]] + (s.subrange(i + 1, k) + r + replace_from(s, p, r, k + p.len()))
            =~= s.subrange(i, k) + r + replace_from(s, p, r, k + p.len()));
    }
}

proof fn lemma_count_finds(s: Seq<char>, p: Seq<char>, i: int)
    requires
        p.len() > 0,
        0 <= i,
        count_from(s, p, i) > 0,
    ensures
        find_from(s, p, i) is Some,
        i <= find_from(s, p, i).unwrap(),
    decreases s.len() - i,
{
    if !matches_at(s, p, i) {
        lemma_count_finds(s, p, i + 1);
    }
}

/// An occurrence that is the only one is replaced in place: what precedes it and what
/// follows it stay as they were.
pub proof fn lemma_unique_occurrence_replaced(s: Seq<char>, p: Seq<char>, r: Seq<char>)
    requires
        p.len() > 0,
        occurrences(s, p) == 1,
    ensures
        find_from(s, p, 0) is Some,
        ({
            let k = find_from(s, p, 0).unwrap();
            &&& matches_at(s, p, k)
            &&& replace_all(s, p, r) == s.take(k) + r + s.skip(k + p.len())
        }),
{
    lemma_count_finds(s, p, 0);
    let k = find_from(s, p, 0).unwrap();
    lemma_first_match_split(s, p, r, 0, k);
    lemma_no_count_no_change(s, p, r, k + p.len());
    lemma_find_some_matches(s, p, 0);
    assert(s.subrange(0, k) =~= s.take(k));
}

proof fn lemma_find_some_matches(s: Seq<char>, p: Seq<char>, i: int)
    requires
        find_from(s, p, i) is Some,
    ensures
        matches_at(s, p, find_from(s, p, i).unwrap()),
    decreases s.len() + 1 - i,
{
    if !(i < 0 || i + p.len() > s.len()) && !matches_at(s, p, i) {
        lemma_find_some_matches(s, p, i + 1);
    }
}

} // verus!
