use vstd::prelude::*;

verus! {

broadcast use vstd::string::group_string_axioms;

/// Unicode `White_Space` property, the set that `char::is_whitespace` and
/// `str::trim` use.
pub open spec fn is_ws(c: char) -> bool {
    let u = c as u32;
    ||| 9 <= u <= 13
    ||| u == 32
    ||| u == 0x85
    ||| u == 0xA0
    ||| u == 0x1680
    ||| 0x2000 <= u <= 0x200A
    ||| u == 0x2028
    ||| u == 0x2029
    ||| u == 0x202F
    ||| u == 0x205F
    ||| u == 0x3000
}

pub open spec fn is_digit(c: char) -> bool {
    '0' <= c <= '9'
}

/// `s` with leading whitespace removed.
pub open spec fn trim_start(s: Seq<char>) -> Seq<char>
    decreases s.len(),
{
    if s.len() > 0 && is_ws(s[0]) {
        trim_start(s.drop_first())
    } else {
        s
    }
}

/// `s` with trailing whitespace removed.
pub open spec fn trim_end(s: Seq<char>) -> Seq<char>
    decreases s.len(),
{
    if s.len() > 0 && is_ws(s.last()) {
        trim_end(s.drop_last())
    } else {
        s
    }
}

/// `str::trim`.
pub open spec fn trim(s: Seq<char>) -> Seq<char> {
    trim_end(trim_start(s))
}

/// `needle` occurs in `hay` starting at position `i`.
pub open spec fn match_at(hay: Seq<char>, needle: Seq<char>, i: int) -> bool {
    0 <= i && i + needle.len() <= hay.len() && hay.subrange(i, i + needle.len()) == needle
}

/// Position of the first occurrence of `needle` in `hay` at or after `i`.
pub open spec fn find_from(hay: Seq<char>, needle: Seq<char>, i: int) -> Option<int>
    decreases hay.len() + 1 - i,
{
    if i < 0 || i + needle.len() > hay.len() {
        None
    } else if match_at(hay, needle, i) {
        Some(i)
    } else {
        find_from(hay, needle, i + 1)
    }
}

/// `str::find`, counted in characters.
pub open spec fn find(hay: Seq<char>, needle: Seq<char>) -> Option<int> {
    find_from(hay, needle, 0)
}

pub open spec fn starts_with(s: Seq<char>, prefix: Seq<char>) -> bool {
    prefix.len() <= s.len() && s.subrange(0, prefix.len() as int) == prefix
}

pub open spec fn contains(hay: Seq<char>, needle: Seq<char>) -> bool {
    find(hay, needle) is Some
}

/// The longest prefix of `s` that does not contain `stop`.
pub open spec fn take_until(s: Seq<char>, stop: char) -> Seq<char>
    decreases s.len(),
{
    if s.len() > 0 && s[0] != stop {
        seq![s[0]] + take_until(s.drop_first(), stop)
    } else {
        Seq::empty()
    }
}

/// The longest prefix of `s` made of ASCII digits.
pub open spec fn take_digits(s: Seq<char>) -> Seq<char>
    decreases s.len(),
{
    if s.len() > 0 && is_digit(s[0]) {
        seq![s[0]] + take_digits(s.drop_first())
    } else {
        Seq::empty()
    }
}

/// `s` with every occurrence of `from` (left to right, not overlapping)
/// replaced by `to`, as `str::replace` does for a non-empty pattern.
pub open spec fn replace_all(s: Seq<char>, from: Seq<char>, to: Seq<char>) -> Seq<char>
    decreases s.len(),
{
    if from.len() == 0 {
        s
    } else {
        match find(s, from) {
            None => s,
            Some(i) => {
                if 0 <= i && i + from.len() <= s.len() {
                    s.take(i) + to + replace_all(s.skip(i + from.len()), from, to)
                } else {
                    s
                }
            },
        }
    }
}

/// The characters of `s`, collected into a vector.
pub fn chars_of(s: &str) -> (v: Vec<char>)
    ensures
        v@ == s@,
{
    let mut v: Vec<char> = Vec::new();
    for c in it: s.chars()
        invariant
            it.seq() == s@,
            v@ == it.seq().take(it.index() as int),
    {
        v.push(c);
        assert(it.seq().take(it.index() as int + 1) == v@);
    }
    v
}


/// `String::push`: appends one character.
#[verifier::external_body]
pub(crate) fn push_char(s: &mut String, c: char)
    ensures
        final(s)@ == old(s)@.push(c),
{
    s.push(c);
}

/// The string made of the characters in `v`.
pub fn string_of(v: &[char]) -> (s: String)
    ensures
        s@ == v@,
{
    let mut s = String::new();
    let mut i: usize = 0;
    while i < v.len()
        invariant
            i <= v.len(),
            s@ == v@.take(i as int),
        decreases v.len() - i,
    {
        push_char(&mut s, v[i]);
        i += 1;
        assert(s@ == v@.take(i as int));
    }
    assert(v@.take(v.len() as int) == v@);
    s
}

/// Appends the characters of `t` to `v`.
pub fn extend_chars(v: &mut Vec<char>, t: &[char])
    ensures
        final(v)@ == old(v)@ + t@,
{
    let mut i: usize = 0;
    while i < t.len()
        invariant
            i <= t.len(),
            v@ == old(v)@ + t@.take(i as int),
        decreases t.len() - i,
    {
        v.push(t[i]);
        i += 1;
        assert(v@ == old(v)@ + t@.take(i as int));
    }
    assert(t@.take(t.len() as int) == t@);
}

/// Appends the characters of `t` to `v`.
pub fn extend_str(v: &mut Vec<char>, t: &str)
    ensures
        final(v)@ == old(v)@ + t@,
{
    let tc = chars_of(t);
    extend_chars(v, tc.as_slice());
}

/// The characters `v[lo..hi]`.
pub fn slice_of(v: &[char], lo: usize, hi: usize) -> (r: Vec<char>)
    requires
        lo <= hi <= v.len(),
    ensures
        r@ == v@.subrange(lo as int, hi as int),
{
    let mut r: Vec<char> = Vec::new();
    let mut i = lo;
    while i < hi
        invariant
            lo <= i <= hi <= v.len(),
            r@ == v@.subrange(lo as int, i as int),
        decreases hi - i,
    {
        r.push(v[i]);
        i += 1;
        assert(r@ == v@.subrange(lo as int, i as int));
    }
    r
}

pub fn is_ws_char(c: char) -> (r: bool)
    ensures
        r == is_ws(c),
{
    let u = c as u32;
    (9 <= u && u <= 13) || u == 32 || u == 0x85 || u == 0xA0 || u == 0x1680 || (0x2000 <= u
        && u <= 0x200A) || u == 0x2028 || u == 0x2029 || u == 0x202F || u == 0x205F || u == 0x3000
}

proof fn lemma_trim_start_skip(s: Seq<char>, i: int)
    requires
        0 <= i < s.len(),
        is_ws(s[i]),
    ensures
        trim_start(s.subrange(i, s.len() as int)) == trim_start(s.subrange(i + 1, s.len() as int)),
{
    assert(s.subrange(i, s.len() as int).drop_first() == s.subrange(i + 1, s.len() as int));
}

proof fn lemma_trim_end_skip(s: Seq<char>, j: int)
    requires
        0 < j <= s.len(),
        is_ws(s[j - 1]),
    ensures
        trim_end(s.subrange(0, j)) == trim_end(s.subrange(0, j - 1)),
{
    assert(s.subrange(0, j).drop_last() == s.subrange(0, j - 1));
}

/// Bounds of `str::trim` on `s`: `s[lo..hi]` is `trim(s)`.
pub fn trim_bounds(s: &[char]) -> (r: (usize, usize))
    ensures
        r.0 <= r.1 <= s.len(),
        s@.subrange(r.0 as int, r.1 as int) == trim(s@),
{
    let n = s.len();
    let mut lo: usize = 0;
    assert(s@.subrange(0, n as int) == s@);
    while lo < n && is_ws_char(s[lo])
        invariant
            lo <= n == s.len(),
            trim_start(s@) == trim_start(s@.subrange(lo as int, n as int)),
        decreases n - lo,
    {
        proof {
            lemma_trim_start_skip(s@, lo as int);
        }
        lo += 1;
    }
    let ghost ts = s@.subrange(lo as int, n as int);
    assert(trim_start(s@) == ts);
    let mut hi: usize = n;
    assert(ts.subrange(0, (hi - lo) as int) == ts);
    while hi > lo && is_ws_char(s[hi - 1])
        invariant
            lo <= hi <= n == s.len(),
            ts == s@.subrange(lo as int, n as int),
            trim_end(ts) == trim_end(ts.subrange(0, (hi - lo) as int)),
        decreases hi,
    {
        proof {
            lemma_trim_end_skip(ts, (hi - lo) as int);
        }
        hi -= 1;
    }
    assert(ts.subrange(0, (hi - lo) as int) == s@.subrange(lo as int, hi as int));
    (lo, hi)
}

/// `str::trim` on characters.
pub fn trim_chars(s: &[char]) -> (r: Vec<char>)
    ensures
        r@ == trim(s@),
{
    let (lo, hi) = trim_bounds(s);
    slice_of(s, lo, hi)
}

/// Whether `needle` occurs in `hay` at position `i`.
pub fn matches_at(hay: &[char], needle: &[char], i: usize) -> (r: bool)
    ensures
        r == match_at(hay@, needle@, i as int),
{
    if needle.len() > hay.len() || i > hay.len() - needle.len() {
        return false;
    }
    let mut k: usize = 0;
    while k < needle.len()
        invariant
            i + needle.len() <= hay.len(),
            k <= needle.len(),
            forall|j: int| 0 <= j < k ==> hay@[i + j] == needle@[j],
        decreases needle.len() - k,
    {
        if hay[i + k] != needle[k] {
            assert(hay@.subrange(i as int, i + needle.len())[k as int] != needle@[k as int]);
            return false;
        }
        k += 1;
    }
    assert(hay@.subrange(i as int, i + needle.len()) == needle@);
    true
}

/// `str::find` starting at position `from`, counted in characters.
pub fn find_chars(hay: &[char], needle: &[char], from: usize) -> (r: Option<usize>)
    ensures
        r matches Some(p) ==> find_from(hay@, needle@, from as int) == Some(p as int),
        r is None ==> find_from(hay@, needle@, from as int) is None,
{
    if needle.len() > hay.len() || from > hay.len() - needle.len() {
        return None;
    }
    let lim = hay.len() - needle.len();
    let mut i = from;
    loop
        invariant
            from <= i <= lim,
            lim + needle.len() == hay.len(),
            find_from(hay@, needle@, from as int) == find_from(hay@, needle@, i as int),
        decreases lim - i,
    {
        if matches_at(hay, needle, i) {
            return Some(i);
        }
        if i == lim {
            assert(find_from(hay@, needle@, i as int + 1) is None);
            return None;
        }
        i += 1;
    }
}

/// Whether `s` begins with `prefix`.
pub fn starts_with_chars(s: &[char], prefix: &[char]) -> (r: bool)
    ensures
        r == starts_with(s@, prefix@),
{
    let r = matches_at(s, prefix, 0);
    r
}

/// Whether `s` begins with the text `prefix`.
pub fn starts_with_str(s: &[char], prefix: &str) -> (r: bool)
    ensures
        r == starts_with(s@, prefix@),
{
    let p = chars_of(prefix);
    starts_with_chars(s, p.as_slice())
}

/// Whether `s` is exactly the text `t`.
pub fn eq_str(s: &[char], t: &str) -> (r: bool)
    ensures
        r == (s@ == t@),
{
    let tc = chars_of(t);
    if s.len() != tc.len() {
        return false;
    }
    assert(s@.subrange(0, tc@.len() as int) == s@);
    starts_with_chars(s, tc.as_slice())
}

/// Whether `s` contains `needle`.
pub fn contains_chars(s: &[char], needle: &[char]) -> (r: bool)
    ensures
        r == contains(s@, needle@),
{
    find_chars(s, needle, 0).is_some()
}

/// Whether `s` contains the text `needle`.
pub fn contains_str(s: &[char], needle: &str) -> (r: bool)
    ensures
        r == contains(s@, needle@),
{
    let n = chars_of(needle);
    contains_chars(s, n.as_slice())
}


pub open spec fn digit_char(d: nat) -> char {
    if d == 0 { '0' }
    else if d == 1 { '1' }
    else if d == 2 { '2' }
    else if d == 3 { '3' }
    else if d == 4 { '4' }
    else if d == 5 { '5' }
    else if d == 6 { '6' }
    else if d == 7 { '7' }
    else if d == 8 { '8' }
    else { '9' }
}

pub open spec fn digit_value(c: char) -> nat {
    ((c as u32) - ('0' as u32)) as nat
}

/// Decimal rendering of `n` (what `{}` prints for an unsigned integer).
pub open spec fn decimal(n: nat) -> Seq<char>
    decreases n,
{
    if n < 10 {
        seq![digit_char(n)]
    } else {
        decimal(n / 10).push(digit_char(n % 10))
    }
}

/// Value of a sequence of decimal digits.
pub open spec fn digits_value(s: Seq<char>) -> nat
    decreases s.len(),
{
    if s.len() == 0 {
        0
    } else {
        digits_value(s.drop_last()) * 10 + digit_value(s.last())
    }
}

pub open spec fn all_digits(s: Seq<char>) -> bool {
    forall|i: int| 0 <= i < s.len() ==> is_digit(#[trigger] s[i])
}

/// What `str::parse::<u64>` accepts: an optional `+`, then one or more
/// digits, with a value that fits in 64 bits.
pub open spec fn unsigned_digits(s: Seq<char>) -> Seq<char> {
    if s.len() > 0 && s[0] == '+' { s.drop_first() } else { s }
}

pub open spec fn parse_u64_spec(s: Seq<char>) -> Option<u64> {
    let d = unsigned_digits(s);
    if d.len() > 0 && all_digits(d) && digits_value(d) <= u64::MAX {
        Some(digits_value(d) as u64)
    } else {
        None
    }
}

pub fn digit_of(d: u64) -> (c: char)
    requires
        d < 10,
    ensures
        c == digit_char(d as nat),
{
    if d == 0 { '0' }
    else if d == 1 { '1' }
    else if d == 2 { '2' }
    else if d == 3 { '3' }
    else if d == 4 { '4' }
    else if d == 5 { '5' }
    else if d == 6 { '6' }
    else if d == 7 { '7' }
    else if d == 8 { '8' }
    else { '9' }
}

/// Appends the decimal rendering of `n` to `v`.
pub fn push_decimal(v: &mut Vec<char>, n: u128)
    ensures
        final(v)@ == old(v)@ + decimal(n as nat),
    decreases n,
{
    if n < 10 {
        v.push(digit_of(n as u64));
        assert(decimal(n as nat) == seq![digit_char(n as nat)]);
    } else {
        push_decimal(v, n / 10);
        v.push(digit_of((n % 10) as u64));
        assert(decimal(n as nat) == decimal((n / 10) as nat).push(digit_char((n % 10) as nat)));
    }
}

/// The decimal rendering of `n`.
pub fn decimal_string(n: u64) -> (s: String)
    ensures
        s@ == decimal(n as nat),
{
    let mut v: Vec<char> = Vec::new();
    push_decimal(&mut v, n as u128);
    assert(v@ == decimal(n as nat));
    string_of(v.as_slice())
}

pub fn is_digit_char(c: char) -> (r: bool)
    ensures
        r == is_digit(c),
{
    '0' <= c && c <= '9'
}

/// `str::parse::<u64>`, on characters.
pub fn parse_u64_chars(s: &[char]) -> (r: Option<u64>)
    ensures
        r == parse_u64_spec(s@),
{
    let start: usize = if s.len() > 0 && s[0] == '+' { 1 } else { 0 };
    let ghost d = unsigned_digits(s@);
    assert(d == s@.subrange(start as int, s@.len() as int));
    if start >= s.len() {
        return None;
    }
    let mut acc: u64 = 0;
    let mut i = start;
    while i < s.len()
        invariant
            start <= i <= s.len(),
            d == s@.subrange(start as int, s@.len() as int),
            d == unsigned_digits(s@),
            all_digits(s@.subrange(start as int, i as int)),
            acc as nat == digits_value(s@.subrange(start as int, i as int)),
        decreases s.len() - i,
    {
        let ghost pre = s@.subrange(start as int, i as int);
        assert(s@.subrange(start as int, i + 1).drop_last() == pre);
        if !is_digit_char(s[i]) {
            assert(!all_digits(d)) by {
                assert(d[i - start] == s@[i as int]);
            }
            return None;
        }
        let dv = (s[i] as u32 - '0' as u32) as u64;
        if acc > (u64::MAX - dv) / 10 {
            proof {
                assert(d.subrange(0, (i + 1 - start) as int) == s@.subrange(start as int, i + 1));
                assert(digits_value(s@.subrange(start as int, i + 1)) == acc * 10 + dv);
                assert(acc * 10 + dv > u64::MAX) by (nonlinear_arith)
                    requires
                        acc > (u64::MAX - dv) / 10,
                        dv < 10,
                ;
                if all_digits(d) {
                    lemma_digits_value_prefix_le(d, (i + 1 - start) as int);
                }
            }
            return None;
        }
        assert(acc * 10 + dv <= u64::MAX) by (nonlinear_arith)
            requires
                acc <= (u64::MAX - dv) / 10,
                dv < 10,
        ;
        acc = acc * 10 + dv;
        i += 1;
        assert(all_digits(s@.subrange(start as int, i as int))) by {
            assert forall|j: int| 0 <= j < i - start implies is_digit(
                #[trigger] s@.subrange(start as int, i as int)[j],
            ) by {
                if j < i - 1 - start {
                    assert(s@.subrange(start as int, i as int)[j] == pre[j]);
                }
            }
        }
    }
    Some(acc)
}

proof fn lemma_digits_value_monotone(s: Seq<char>, k: int)
    requires
        0 <= k <= s.len(),
        all_digits(s),
    ensures
        digits_value(s.subrange(0, k)) <= digits_value(s),
    decreases s.len() - k,
{
    if k < s.len() {
        lemma_digits_value_monotone(s, k + 1);
        let t = s.subrange(0, k + 1);
        assert(t.drop_last() == s.subrange(0, k));
        assert(is_digit(t.last()));
        assert(digits_value(t) == digits_value(s.subrange(0, k)) * 10 + digit_value(t.last()));
    } else {
        assert(s.subrange(0, k) == s);
    }
}

proof fn lemma_digits_value_prefix_le(s: Seq<char>, k: int)
    requires
        0 <= k <= s.len(),
        all_digits(s),
    ensures
        digits_value(s.subrange(0, k)) <= digits_value(s),
{
    lemma_digits_value_monotone(s, k);
}


proof fn lemma_take_until_step(s: Seq<char>, i: int, stop: char)
    requires
        0 <= i < s.len(),
        s[i] != stop,
    ensures
        take_until(s.skip(i), stop) == seq![s[i]] + take_until(s.skip(i + 1), stop),
{
    assert(s.skip(i).drop_first() == s.skip(i + 1));
}

proof fn lemma_take_digits_step(s: Seq<char>, i: int)
    requires
        0 <= i < s.len(),
        is_digit(s[i]),
    ensures
        take_digits(s.skip(i)) == seq![s[i]] + take_digits(s.skip(i + 1)),
{
    assert(s.skip(i).drop_first() == s.skip(i + 1));
}

/// The characters of `s` from `from` up to (not including) the first `stop`.
pub fn take_until_chars(s: &[char], from: usize, stop: char) -> (r: Vec<char>)
    requires
        from <= s.len(),
    ensures
        r@ == take_until(s@.skip(from as int), stop),
{
    let mut r: Vec<char> = Vec::new();
    let mut i = from;
    while i < s.len() && s[i] != stop
        invariant
            from <= i <= s.len(),
            take_until(s@.skip(from as int), stop) == r@ + take_until(s@.skip(i as int), stop),
        decreases s.len() - i,
    {
        proof {
            lemma_take_until_step(s@, i as int, stop);
        }
        r.push(s[i]);
        i += 1;
    }
    assert(take_until(s@.skip(i as int), stop) == Seq::<char>::empty());
    r
}

/// The ASCII digits of `s` starting at `from`, up to the first other character.
pub fn take_digits_chars(s: &[char], from: usize) -> (r: Vec<char>)
    requires
        from <= s.len(),
    ensures
        r@ == take_digits(s@.skip(from as int)),
{
    let mut r: Vec<char> = Vec::new();
    let mut i = from;
    while i < s.len() && is_digit_char(s[i])
        invariant
            from <= i <= s.len(),
            take_digits(s@.skip(from as int)) == r@ + take_digits(s@.skip(i as int)),
        decreases s.len() - i,
    {
        proof {
            lemma_take_digits_step(s@, i as int);
        }
        r.push(s[i]);
        i += 1;
    }
    assert(take_digits(s@.skip(i as int)) == Seq::<char>::empty());
    r
}

/// `str::replace` for a non-empty pattern.
pub fn replace_all_chars(s: &[char], from: &[char], to: &[char]) -> (r: Vec<char>)
    requires
        from.len() > 0,
    ensures
        r@ == replace_all(s@, from@, to@),
{
    let mut r: Vec<char> = Vec::new();
    let mut i: usize = 0;
    assert(s@.skip(0) == s@);
    loop
        invariant
            i <= s.len(),
            from.len() > 0,
            replace_all(s@, from@, to@) == r@ + replace_all(s@.skip(i as int), from@, to@),
        decreases s.len() - i,
    {
        match find_chars(s, from, i) {
            None => {
                proof {
                    lemma_find_from_skip(s@, from@, i as int);
                }
                let rest = slice_of(s, i, s.len());
                assert(rest@ == s@.skip(i as int));
                extend_chars(&mut r, rest.as_slice());
                return r;
            },
            Some(p) => {
                proof {
                    lemma_find_from_skip(s@, from@, i as int);
                    lemma_find_from_bounds(s@, from@, i as int);
                    let t = s@.skip(i as int);
                    assert(t.take(p - i) == s@.subrange(i as int, p as int));
                    assert(t.skip(p - i + from@.len()) == s@.skip(p + from@.len()));
                }
                let pre = slice_of(s, i, p);
                extend_chars(&mut r, pre.as_slice());
                extend_chars(&mut r, to);
                i = p + from.len();
            },
        }
    }
}

/// A found position is at or after the start and holds the pattern.
pub proof fn lemma_found(h: Seq<char>, n: Seq<char>, i: int, p: int)
    requires
        find_from(h, n, i) == Some(p),
    ensures
        i <= p,
        p + n.len() <= h.len(),
        h.subrange(p, p + n.len()) == n,
{
    lemma_find_from_bounds(h, n, i);
}

proof fn lemma_find_from_bounds(h: Seq<char>, n: Seq<char>, i: int)
    ensures
        find_from(h, n, i) matches Some(p) ==> i <= p && match_at(h, n, p),
    decreases h.len() + 1 - i,
{
    if i < 0 || i + n.len() > h.len() {
    } else if match_at(h, n, i) {
    } else {
        lemma_find_from_bounds(h, n, i + 1);
    }
}

/// Searching from `i` is searching the suffix that starts at `i`.
pub proof fn lemma_find_from_skip(h: Seq<char>, n: Seq<char>, i: int)
    requires
        0 <= i <= h.len(),
    ensures
        find_from(h, n, i) matches Some(p) ==> find(h.skip(i), n) == Some(p - i),
        find_from(h, n, i) is None ==> find(h.skip(i), n) is None,
{
    lemma_find_from_shift(h, n, i, i);
}

proof fn lemma_find_from_shift(h: Seq<char>, n: Seq<char>, i: int, j: int)
    requires
        0 <= i <= j,
        i <= h.len(),
    ensures
        find_from(h, n, j) matches Some(p) ==> find_from(h.skip(i), n, j - i) == Some(p - i),
        find_from(h, n, j) is None ==> find_from(h.skip(i), n, j - i) is None,
    decreases h.len() + 1 - j,
{
    let t = h.skip(i);
    if j + n.len() > h.len() {
    } else {
        assert(t.subrange(j - i, j - i + n.len()) == h.subrange(j, j + n.len()));
        if match_at(h, n, j) {
        } else {
            lemma_find_from_shift(h, n, i, j + 1);
        }
    }
}


/// Position of the last occurrence of `needle` in `hay` at or before `i`.
pub open spec fn rfind_from(hay: Seq<char>, needle: Seq<char>, i: int) -> Option<int>
    decreases i + 1,
{
    if i < 0 {
        None
    } else if match_at(hay, needle, i) {
        Some(i)
    } else {
        rfind_from(hay, needle, i - 1)
    }
}

/// `str::rfind`, counted in characters.
pub open spec fn rfind(hay: Seq<char>, needle: Seq<char>) -> Option<int> {
    if needle.len() > hay.len() {
        None
    } else {
        rfind_from(hay, needle, hay.len() - needle.len())
    }
}

/// `str::rfind`, counted in characters.
pub fn rfind_chars(hay: &[char], needle: &[char]) -> (r: Option<usize>)
    ensures
        r matches Some(p) ==> rfind(hay@, needle@) == Some(p as int) && match_at(hay@, needle@, p as int),
        r is None ==> rfind(hay@, needle@) is None,
{
    if needle.len() > hay.len() {
        return None;
    }
    let mut i = hay.len() - needle.len();
    loop
        invariant
            i + needle.len() <= hay.len(),
            rfind(hay@, needle@) == rfind_from(hay@, needle@, i as int),
        decreases i,
    {
        if matches_at(hay, needle, i) {
            return Some(i);
        }
        if i == 0 {
            assert(rfind_from(hay@, needle@, -1) is None);
            return None;
        }
        i -= 1;
    }
}

/// Number of bytes in the UTF-8 encoding of `c`.
pub open spec fn utf8_width(c: char) -> nat {
    let u = c as u32;
    if u < 0x80 {
        1
    } else if u < 0x800 {
        2
    } else if u < 0x10000 {
        3
    } else {
        4
    }
}

/// Number of bytes in the UTF-8 encoding of `s`.
pub open spec fn byte_len(s: Seq<char>) -> nat
    decreases s.len(),
{
    if s.len() == 0 {
        0
    } else {
        byte_len(s.drop_last()) + utf8_width(s.last())
    }
}

/// The character position that starts at byte offset `b` of `s`, if `b`
/// falls on a character boundary.
pub open spec fn char_index_at_byte(s: Seq<char>, b: nat) -> Option<int> {
    if exists|k: int| 0 <= k <= s.len() && byte_len(#[trigger] s.take(k)) == b {
        Some(choose|k: int| 0 <= k <= s.len() && byte_len(#[trigger] s.take(k)) == b)
    } else {
        None
    }
}

pub fn utf8_width_of(c: char) -> (w: u128)
    ensures
        w == utf8_width(c),
{
    let u = c as u32;
    if u < 0x80 {
        1
    } else if u < 0x800 {
        2
    } else if u < 0x10000 {
        3
    } else {
        4
    }
}

proof fn lemma_byte_len_step(s: Seq<char>, k: int)
    requires
        0 <= k < s.len(),
    ensures
        byte_len(s.take(k + 1)) == byte_len(s.take(k)) + utf8_width(s[k]),
{
    assert(s.take(k + 1).drop_last() == s.take(k));
}

/// Later character positions start at later byte offsets.
pub proof fn lemma_byte_len_strict(s: Seq<char>, k1: int, k2: int)
    requires
        0 <= k1 < k2 <= s.len(),
    ensures
        byte_len(s.take(k1)) < byte_len(s.take(k2)),
    decreases k2 - k1,
{
    lemma_byte_len_step(s, k2 - 1);
    if k1 < k2 - 1 {
        lemma_byte_len_strict(s, k1, k2 - 1);
    }
}

/// Byte offset of character position `k` of `s`.
pub fn byte_offset(s: &[char], k: usize) -> (b: u128)
    requires
        k <= s.len(),
    ensures
        b == byte_len(s@.take(k as int)),
        b <= 4 * k,
{
    let mut acc: u128 = 0;
    let mut i: usize = 0;
    assert(s@.take(0) == Seq::<char>::empty());
    while i < k
        invariant
            i <= k <= s.len(),
            acc == byte_len(s@.take(i as int)),
            acc <= 4 * i,
        decreases k - i,
    {
        proof {
            lemma_byte_len_step(s@, i as int);
        }
        acc = acc + utf8_width_of(s[i]);
        i += 1;
    }
    acc
}

/// The character position that starts at byte offset `b` of `s`, if `b`
/// falls on a character boundary.
pub fn char_index_of_byte(s: &[char], b: u128) -> (r: Option<usize>)
    ensures
        r matches Some(k) ==> char_index_at_byte(s@, b as nat) == Some(k as int) && k <= s.len()
            && byte_len(s@.take(k as int)) == b,
        r is None ==> char_index_at_byte(s@, b as nat) is None,
{
    let mut acc: u128 = 0;
    let mut k: usize = 0;
    assert(s@.take(0) == Seq::<char>::empty());
    while k < s.len() && acc < b
        invariant
            k <= s.len(),
            acc == byte_len(s@.take(k as int)),
            acc <= 4 * k,
            forall|j: int| 0 <= j < k ==> byte_len(#[trigger] s@.take(j)) < b,
        decreases s.len() - k,
    {
        proof {
            lemma_byte_len_step(s@, k as int);
            assert forall|j: int| 0 <= j < k + 1 implies byte_len(#[trigger] s@.take(j)) < b by {
                if j == k {
                } else {
                    assert(byte_len(s@.take(j)) < b);
                }
            }
        }
        acc = acc + utf8_width_of(s[k]);
        k += 1;
    }
    if acc == b {
        proof {
            assert(byte_len(s@.take(k as int)) == b);
            let w = choose|j: int| 0 <= j <= s@.len() && byte_len(#[trigger] s@.take(j)) == b;
            if w < k {
                lemma_byte_len_strict(s@, w, k as int);
            } else if w > k {
                lemma_byte_len_strict(s@, k as int, w);
            }
        }
        Some(k)
    } else {
        proof {
            assert forall|j: int| 0 <= j <= s@.len() implies byte_len(#[trigger] s@.take(j)) != b by {
                if j < k {
                } else if j > k {
                    lemma_byte_len_strict(s@, k as int, j);
                }
            }
        }
        None
    }
}


/// What `str::to_lowercase` returns for `s` (full Unicode case mapping).
pub uninterp spec fn lowercase(s: Seq<char>) -> Seq<char>;

/// The lower-case letter of an upper-case ASCII letter; any other
/// character unchanged.
pub open spec fn ascii_lower(c: char) -> char {
    if 'A' <= c && c <= 'Z' {
        ((c as u32) + 32) as char
    } else {
        c
    }
}

/// The upper-case letter of a lower-case ASCII letter; any other
/// character unchanged.
pub open spec fn ascii_upper(c: char) -> char {
    if 'a' <= c && c <= 'z' {
        ((c as u32) - 32) as char
    } else {
        c
    }
}

/// Every character of `s` is ASCII.
pub open spec fn all_ascii(s: Seq<char>) -> bool {
    forall|i: int| 0 <= i < s.len() ==> (s[i] as u32) < 128
}

/// `str::to_lowercase`: Unicode lowercase of `s`; for ASCII text, each
/// upper-case letter is replaced by its lower-case one.
#[verifier::external_body]
pub(crate) fn to_lowercase(s: &str) -> (r: String)
    ensures
        r@ == lowercase(s@),
        all_ascii(s@) ==> r@ == s@.map_values(|c: char| ascii_lower(c)),
{
    s.to_lowercase()
}

/// What `char::to_uppercase` yields for `c` (one to three characters).
pub uninterp spec fn uppercase_char(c: char) -> Seq<char>;

/// `char::to_uppercase`, collected: Unicode uppercase of `c`; for an
/// ASCII character, its upper-case letter (or the character itself).
#[verifier::external_body]
pub(crate) fn char_to_uppercase(c: char) -> (r: String)
    ensures
        r@ == uppercase_char(c),
        (c as u32) < 128 ==> r@ == seq![ascii_upper(c)],
{
    c.to_uppercase().collect()
}

/// What `str::parse::<u32>` gives.
pub open spec fn parse_u32_spec(s: Seq<char>) -> Option<u32> {
    match parse_u64_spec(s) {
        Some(n) => if n <= u32::MAX {
            Some(n as u32)
        } else {
            None
        },
        None => None,
    }
}

/// What `str::parse::<i32>` gives: an optional sign, then digits, with a
/// value in range.
pub open spec fn parse_i32_spec(s: Seq<char>) -> Option<i32> {
    if s.len() > 0 && s[0] == '-' {
        let d = s.drop_first();
        if d.len() > 0 && all_digits(d) && digits_value(d) <= 0x8000_0000 {
            Some((0 - digits_value(d)) as i32)
        } else {
            None
        }
    } else {
        let d = unsigned_digits(s);
        if d.len() > 0 && all_digits(d) && digits_value(d) <= 0x7fff_ffff {
            Some(digits_value(d) as i32)
        } else {
            None
        }
    }
}

/// `str::parse::<u32>`, on characters.
pub fn parse_u32_chars(s: &[char]) -> (r: Option<u32>)
    ensures
        r == parse_u32_spec(s@),
{
    match parse_u64_chars(s) {
        Some(n) => if n <= 0xffff_ffff {
            Some(n as u32)
        } else {
            None
        },
        None => None,
    }
}

/// `str::parse::<i32>`, on characters.
pub fn parse_i32_chars(s: &[char]) -> (r: Option<i32>)
    ensures
        r == parse_i32_spec(s@),
{
    if s.len() > 0 && s[0] == '-' {
        let rest = slice_of(s, 1, s.len());
        assert(rest@ == s@.drop_first());
        if rest.len() == 0 || rest[0] == '+' {
            assert(!is_digit('+'));
            return None;
        }
        assert(unsigned_digits(rest@) == rest@);
        match parse_u64_chars(rest.as_slice()) {
            Some(v) => {
                if v < 0x8000_0000 {
                    Some(0i32 - (v as i32))
                } else if v == 0x8000_0000 {
                    Some(-2147483648i32)
                } else {
                    None
                }
            },
            None => None,
        }
    } else {
        match parse_u64_chars(s) {
            Some(v) => if v <= 0x7fff_ffff {
                Some(v as i32)
            } else {
                None
            },
            None => None,
        }
    }
}

/// What `char::is_alphanumeric` says of `c` (Unicode `Alphabetic` or
/// `Numeric`).
pub uninterp spec fn alphanumeric(c: char) -> bool;

/// `char::is_alphanumeric`; an ASCII character is alphanumeric exactly
/// when it is a letter or a digit.
#[verifier::external_body]
pub(crate) fn is_alphanumeric_char(c: char) -> (r: bool)
    ensures
        r == alphanumeric(c),
        (c as u32) < 128 ==> r == (('a' <= c && c <= 'z') || ('A' <= c && c <= 'Z') || ('0' <= c && c <= '9')),
{
    c.is_alphanumeric()
}

} // verus!
