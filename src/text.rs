//! Text primitives shared by the parsers: whitespace, trimming, searching
//! for a character, lines, words and decimal numbers.

use vstd::prelude::*;

verus! {

/// The decimal digit for `d` (taken modulo ten).
pub open spec fn digit_char(d: nat) -> char {
    let d = d % 10;
    if d == 0 {
        '0'
    } else if d == 1 {
        '1'
    } else if d == 2 {
        '2'
    } else if d == 3 {
        '3'
    } else if d == 4 {
        '4'
    } else if d == 5 {
        '5'
    } else if d == 6 {
        '6'
    } else if d == 7 {
        '7'
    } else if d == 8 {
        '8'
    } else {
        '9'
    }
}

/// The decimal representation of `n`, without sign or leading zeros.
pub open spec fn decimal(n: nat) -> Seq<char>
    decreases n,
{
    if n < 10 {
        seq![digit_char(n)]
    } else {
        decimal(n / 10).push(digit_char(n % 10))
    }
}

fn digit_str(d: u64) -> (r: &'static str)
    requires
        d < 10,
    ensures
        r@ == seq![digit_char(d as nat)],
{
    proof {
        reveal_strlit("0");
        reveal_strlit("1");
        reveal_strlit("2");
        reveal_strlit("3");
        reveal_strlit("4");
        reveal_strlit("5");
        reveal_strlit("6");
        reveal_strlit("7");
        reveal_strlit("8");
        reveal_strlit("9");
    }
    let r = if d == 0 {
        "0"
    } else if d == 1 {
        "1"
    } else if d == 2 {
        "2"
    } else if d == 3 {
        "3"
    } else if d == 4 {
        "4"
    } else if d == 5 {
        "5"
    } else if d == 6 {
        "6"
    } else if d == 7 {
        "7"
    } else if d == 8 {
        "8"
    } else {
        "9"
    };
    assert(r@ =~= seq![digit_char(d as nat)]);
    r
}

/// Renders `n` in decimal.
pub fn decimal_string(n: u64) -> (r: String)
    ensures
        r@ == decimal(n as nat),
    decreases n,
{
    if n < 10 {
        String::from_str(digit_str(n))
    } else {
        let mut s = decimal_string(n / 10);
        s.append(digit_str(n % 10));
        proof {
            assert(digit_char((n % 10) as nat) == digit_char(n as nat % 10));
        }
        assert(s@ =~= decimal(n as nat));
        s
    }
}

/// The characters of `s`, in order.
pub fn chars_of(s: &str) -> (r: Vec<char>)
    ensures
        r@ == s@,
{
    let mut v: Vec<char> = Vec::new();
    for c in iter: s.chars()
        invariant
            v@ == iter.seq().take(iter.index() as int),
    {
        v.push(c);
    }
    assert(v@ =~= s@);
    v
}

/// Unicode's White_Space property: the characters that `char::is_whitespace`
/// accepts, which `str::trim`, `str::lines` and `str::split_whitespace` use.
pub open spec fn is_space(c: char) -> bool {
    let u: u32 = c as u32;
    (0x9 <= u <= 0xd) || u == 0x20 || u == 0x85 || u == 0xa0 || u == 0x1680 || (0x2000 <= u
        <= 0x200a) || u == 0x2028 || u == 0x2029 || u == 0x202f || u == 0x205f || u == 0x3000
}

/// Whether `c` is white space.
pub fn space(c: char) -> (r: bool)
    ensures
        r == is_space(c),
{
    let u: u32 = c as u32;
    (0x9 <= u && u <= 0xd) || u == 0x20 || u == 0x85 || u == 0xa0 || u == 0x1680 || (0x2000 <= u
        && u <= 0x200a) || u == 0x2028 || u == 0x2029 || u == 0x202f || u == 0x205f || u == 0x3000
}

/// `s` without its leading white space.
pub open spec fn trim_start(s: Seq<char>) -> Seq<char>
    decreases s.len(),
{
    if s.len() > 0 && is_space(s[0]) {
        trim_start(s.drop_first())
    } else {
        s
    }
}

/// `s` without its trailing white space.
pub open spec fn trim_end(s: Seq<char>) -> Seq<char>
    decreases s.len(),
{
    if s.len() > 0 && is_space(s.last()) {
        trim_end(s.drop_last())
    } else {
        s
    }
}

/// `s` without leading and trailing white space.
pub open spec fn trim(s: Seq<char>) -> Seq<char> {
    trim_end(trim_start(s))
}

/// The index of the first `c` in `s`, or the length of `s` if there is none.
pub open spec fn find_char(s: Seq<char>, c: char) -> nat
    decreases s.len(),
{
    if s.len() == 0 {
        0
    } else if s[0] == c {
        0
    } else {
        1 + find_char(s.drop_first(), c)
    }
}

/// The index of the first white space in `s`, or the length of `s`.
pub open spec fn find_space(s: Seq<char>) -> nat
    decreases s.len(),
{
    if s.len() == 0 {
        0
    } else if is_space(s[0]) {
        0
    } else {
        1 + find_space(s.drop_first())
    }
}

/// The piece number `k` of `s` split at every `c`, if there are that many.
pub open spec fn piece(s: Seq<char>, c: char, k: nat) -> Option<Seq<char>>
    decreases k,
{
    let i = find_char(s, c);
    if k == 0 {
        Some(s.take(i as int))
    } else if i < s.len() {
        piece(s.skip(i as int + 1), c, (k - 1) as nat)
    } else {
        None
    }
}

/// The first word of `s`: its first run of characters that are not white
/// space, or nothing.
pub open spec fn first_word(s: Seq<char>) -> Seq<char> {
    let t = trim_start(s);
    t.take(find_space(t) as int)
}

/// What follows the first word of `s`.
pub open spec fn after_first_word(s: Seq<char>) -> Seq<char> {
    let t = trim_start(s);
    t.skip(find_space(t) as int)
}

/// The word number `k` of `s`, words being separated by white space.
pub open spec fn word(s: Seq<char>, k: nat) -> Option<Seq<char>>
    decreases k,
{
    let w = first_word(s);
    if w.len() == 0 {
        None
    } else if k == 0 {
        Some(w)
    } else {
        word(after_first_word(s), (k - 1) as nat)
    }
}

/// A line without the carriage return that ended it, if any.
pub open spec fn strip_cr(l: Seq<char>) -> Seq<char> {
    if l.len() > 0 && l.last() == '\r' {
        l.drop_last()
    } else {
        l
    }
}

/// The lines of `s`: each ended by a line feed (with a carriage return
/// before it dropped too) or by the end of `s`; no empty line after a
/// final line feed.
pub open spec fn text_lines(s: Seq<char>) -> Seq<Seq<char>>
    decreases s.len(),
{
    if s.len() == 0 {
        seq![]
    } else {
        let i = find_char(s, '\n');
        if i < s.len() {
            seq![strip_cr(s.take(i as int))] + text_lines(s.skip(i as int + 1))
        } else {
            seq![s]
        }
    }
}

/// Whether `c` is an ASCII decimal digit.
pub open spec fn is_digit(c: char) -> bool {
    '0' as u32 <= c as u32 <= '9' as u32
}

/// The value of the digits `d`, read in base ten.
pub open spec fn digits_value(d: Seq<char>) -> nat
    decreases d.len(),
{
    if d.len() == 0 {
        0
    } else {
        digits_value(d.drop_last()) * 10 + (d.last() as u32 - '0' as u32) as nat
    }
}

/// `s` without one leading `+`, if it has one.
pub open spec fn unsigned_digits(s: Seq<char>) -> Seq<char> {
    if s.len() > 0 && s[0] == '+' {
        s.drop_first()
    } else {
        s
    }
}

/// Whether every character of `d` is a decimal digit.
pub open spec fn all_digits(d: Seq<char>) -> bool {
    forall|i: int| 0 <= i < d.len() ==> is_digit(#[trigger] d[i])
}

/// The unsigned 64-bit number that `s` spells, as `str::parse::<u64>`
/// reads it: an optional `+`, then one or more decimal digits, with a value
/// that fits.
pub open spec fn u64_of(s: Seq<char>) -> Option<u64> {
    let d = unsigned_digits(s);
    if d.len() > 0 && all_digits(d) && digits_value(d) <= u64::MAX {
        Some(digits_value(d) as u64)
    } else {
        None
    }
}

/// The same for `usize`.
pub open spec fn usize_of(s: Seq<char>) -> Option<usize> {
    match u64_of(s) {
        Some(n) => if n <= usize::MAX {
            Some(n as usize)
        } else {
            None
        },
        None => None,
    }
}

proof fn lemma_find_char(s: Seq<char>, c: char, i: int)
    requires
        0 <= i <= s.len(),
        forall|j: int| 0 <= j < i ==> s[j] != c,
        i == s.len() || s[i] == c,
    ensures
        find_char(s, c) == i,
    decreases i,
{
    if i > 0 {
        lemma_find_char(s.drop_first(), c, i - 1);
    }
}

proof fn lemma_find_space(s: Seq<char>, i: int)
    requires
        0 <= i <= s.len(),
        forall|j: int| 0 <= j < i ==> !is_space(s[j]),
        i == s.len() || is_space(s[i]),
    ensures
        find_space(s) == i,
    decreases i,
{
    if i > 0 {
        lemma_find_space(s.drop_first(), i - 1);
    }
}

proof fn lemma_trim_start_at(s: Seq<char>, a: int)
    requires
        0 <= a <= s.len(),
        forall|j: int| 0 <= j < a ==> is_space(s[j]),
        a == s.len() || !is_space(s[a]),
    ensures
        trim_start(s) == s.subrange(a, s.len() as int),
    decreases a,
{
    if a == 0 {
        assert(s.subrange(0, s.len() as int) =~= s);
    } else {
        lemma_trim_start_at(s.drop_first(), a - 1);
        assert(s.drop_first().subrange(a - 1, s.len() - 1) =~= s.subrange(a, s.len() as int));
    }
}

proof fn lemma_trim_end_at(s: Seq<char>, b: int)
    requires
        0 <= b <= s.len(),
        forall|j: int| b <= j < s.len() ==> is_space(s[j]),
        b == 0 || !is_space(s[b - 1]),
    ensures
        trim_end(s) == s.subrange(0, b),
    decreases s.len() - b,
{
    if b == s.len() {
        assert(s.subrange(0, b) =~= s);
    } else {
        lemma_trim_end_at(s.drop_last(), b);
        assert(s.drop_last().subrange(0, b) =~= s.subrange(0, b));
    }
}

/// The index of the first `c` in `v[lo..hi]`, or `hi`.
pub fn find_char_in(v: &Vec<char>, c: char, lo: usize, hi: usize) -> (r: usize)
    requires
        lo <= hi <= v.len(),
    ensures
        lo <= r <= hi,
        r - lo == find_char(v@.subrange(lo as int, hi as int), c),
{
    let mut i = lo;
    while i < hi && v[i] != c
        invariant
            lo <= i <= hi <= v.len(),
            forall|j: int| lo <= j < i ==> v@[j] != c,
        decreases hi - i,
    {
        i = i + 1;
    }
    proof {
        lemma_find_char(v@.subrange(lo as int, hi as int), c, i - lo);
    }
    i
}

/// The index of the first white space in `v[lo..hi]`, or `hi`.
pub fn find_space_in(v: &Vec<char>, lo: usize, hi: usize) -> (r: usize)
    requires
        lo <= hi <= v.len(),
    ensures
        lo <= r <= hi,
        r - lo == find_space(v@.subrange(lo as int, hi as int)),
{
    let mut i = lo;
    while i < hi && !space(v[i])
        invariant
            lo <= i <= hi <= v.len(),
            forall|j: int| lo <= j < i ==> !is_space(v@[j]),
        decreases hi - i,
    {
        i = i + 1;
    }
    proof {
        lemma_find_space(v@.subrange(lo as int, hi as int), i - lo);
    }
    i
}

/// The index of the first character of `v[lo..hi]` that is not white space,
/// or `hi`; from there on the span is `v[lo..hi]` without leading white space.
pub fn skip_space_in(v: &Vec<char>, lo: usize, hi: usize) -> (r: usize)
    requires
        lo <= hi <= v.len(),
    ensures
        lo <= r <= hi,
        v@.subrange(r as int, hi as int) == trim_start(v@.subrange(lo as int, hi as int)),
{
    let mut i = lo;
    while i < hi && space(v[i])
        invariant
            lo <= i <= hi <= v.len(),
            forall|j: int| lo <= j < i ==> is_space(v@[j]),
        decreases hi - i,
    {
        i = i + 1;
    }
    proof {
        let s = v@.subrange(lo as int, hi as int);
        lemma_trim_start_at(s, i - lo);
        assert(s.subrange(i - lo, s.len() as int) =~= v@.subrange(i as int, hi as int));
    }
    i
}

/// The span of `v[lo..hi]` without leading and trailing white space.
pub fn trim_span(v: &Vec<char>, lo: usize, hi: usize) -> (r: (usize, usize))
    requires
        lo <= hi <= v.len(),
    ensures
        lo <= r.0 <= r.1 <= hi,
        v@.subrange(r.0 as int, r.1 as int) == trim(v@.subrange(lo as int, hi as int)),
{
    let a = skip_space_in(v, lo, hi);
    let mut b = hi;
    while b > a && space(v[b - 1])
        invariant
            lo <= a <= b <= hi <= v.len(),
            forall|j: int| b <= j < hi ==> is_space(v@[j]),
        decreases b - a,
    {
        b = b - 1;
    }
    proof {
        let t = v@.subrange(a as int, hi as int);
        lemma_trim_end_at(t, b - a);
        assert(t.subrange(0, b - a) =~= v@.subrange(a as int, b as int));
    }
    (a, b)
}

/// The span of piece number `k` of `v[lo..hi]` split at every `c`.
pub fn piece_span(v: &Vec<char>, c: char, lo: usize, hi: usize, k: usize) -> (r: Option<
    (usize, usize),
>)
    requires
        lo <= hi <= v.len(),
    ensures
        match r {
            Some((a, b)) => lo <= a <= b <= hi && piece(
                v@.subrange(lo as int, hi as int),
                c,
                k as nat,
            ) == Some(v@.subrange(a as int, b as int)),
            None => piece(v@.subrange(lo as int, hi as int), c, k as nat) is None,
        },
    decreases k,
{
    let i = find_char_in(v, c, lo, hi);
    let ghost s = v@.subrange(lo as int, hi as int);
    if k == 0 {
        assert(s.take(i - lo) =~= v@.subrange(lo as int, i as int));
        Some((lo, i))
    } else if i < hi {
        assert(s.skip(i - lo + 1) =~= v@.subrange(i + 1, hi as int));
        piece_span(v, c, i + 1, hi, k - 1)
    } else {
        None
    }
}

/// The span of the first word of `v[lo..hi]`; what follows it is the rest
/// of the span from its end.
pub fn first_word_span(v: &Vec<char>, lo: usize, hi: usize) -> (r: (usize, usize))
    requires
        lo <= hi <= v.len(),
    ensures
        lo <= r.0 <= r.1 <= hi,
        v@.subrange(r.0 as int, r.1 as int) == first_word(v@.subrange(lo as int, hi as int)),
        v@.subrange(r.1 as int, hi as int) == after_first_word(v@.subrange(lo as int, hi as int)),
{
    let a = skip_space_in(v, lo, hi);
    let b = find_space_in(v, a, hi);
    proof {
        let t = v@.subrange(a as int, hi as int);
        assert(t.take(b - a) =~= v@.subrange(a as int, b as int));
        assert(t.skip(b - a) =~= v@.subrange(b as int, hi as int));
    }
    (a, b)
}

/// The span of word number `k` of `v[lo..hi]`.
pub fn word_span(v: &Vec<char>, lo: usize, hi: usize, k: usize) -> (r: Option<(usize, usize)>)
    requires
        lo <= hi <= v.len(),
    ensures
        match r {
            Some((a, b)) => lo <= a <= b <= hi && word(v@.subrange(lo as int, hi as int), k as nat)
                == Some(v@.subrange(a as int, b as int)),
            None => word(v@.subrange(lo as int, hi as int), k as nat) is None,
        },
    decreases k,
{
    let (a, b) = first_word_span(v, lo, hi);
    if a == b {
        None
    } else if k == 0 {
        Some((a, b))
    } else {
        word_span(v, b, hi, k - 1)
    }
}

proof fn lemma_digits_value_grows(d: Seq<char>, i: int, j: int)
    requires
        0 <= i <= j <= d.len(),
    ensures
        digits_value(d.take(i)) <= digits_value(d.take(j)),
    decreases j - i,
{
    if i < j {
        lemma_digits_value_grows(d, i, j - 1);
        assert(d.take(j).drop_last() =~= d.take(j - 1));
    }
}

/// The number that `v[lo..hi]` spells, as `str::parse::<u64>` reads it.
pub fn parse_u64_in(v: &Vec<char>, lo: usize, hi: usize) -> (r: Option<u64>)
    requires
        lo <= hi <= v.len(),
    ensures
        r == u64_of(v@.subrange(lo as int, hi as int)),
{
    let ghost s = v@.subrange(lo as int, hi as int);
    let start = if lo < hi && v[lo] == '+' {
        lo + 1
    } else {
        lo
    };
    let ghost d = v@.subrange(start as int, hi as int);
    assert(d =~= unsigned_digits(s));
    if start == hi {
        return None;
    }
    let mut acc: u64 = 0;
    let mut i = start;
    while i < hi
        invariant
            lo <= start <= i <= hi <= v.len(),
            d == v@.subrange(start as int, hi as int),
            d == unsigned_digits(s),
            s == v@.subrange(lo as int, hi as int),
            forall|j: int| start <= j < i ==> is_digit(#[trigger] v@[j]),
            acc as nat == digits_value(d.take(i - start)),
        decreases hi - i,
    {
        let c = v[i];
        let u: u32 = c as u32;
        if !(48 <= u && u <= 57) {
            assert(d[i - start] == c);
            assert(!is_digit(d[i - start]));
            assert(!all_digits(d));
            return None;
        }
        let dv = (u - 48) as u64;
        proof {
            assert(d.take(i - start + 1).drop_last() =~= d.take(i - start));
            assert(d.take(i - start + 1).last() == c);
            assert(digits_value(d.take(i - start + 1)) == acc * 10 + dv);
        }
        if acc > (u64::MAX - dv) / 10 {
            proof {
                assert(digits_value(d.take(i - start + 1)) > u64::MAX) by (nonlinear_arith)
                    requires
                        acc > (u64::MAX - dv) / 10,
                        dv <= 9,
                        digits_value(d.take(i - start + 1)) == acc * 10 + dv,
                ;
                lemma_digits_value_grows(d, i - start + 1, d.len() as int);
                assert(d.take(d.len() as int) =~= d);
            }
            return None;
        }
        assert(acc * 10 + dv <= u64::MAX) by (nonlinear_arith)
            requires
                acc <= (u64::MAX - dv) / 10,
                dv <= 9,
        ;
        acc = acc * 10 + dv;
        i = i + 1;
    }
    assert(d.take(d.len() as int) =~= d);
    Some(acc)
}

/// The number that `v[lo..hi]` spells, as `str::parse::<usize>` reads it.
pub fn parse_usize_in(v: &Vec<char>, lo: usize, hi: usize) -> (r: Option<usize>)
    requires
        lo <= hi <= v.len(),
    ensures
        r == usize_of(v@.subrange(lo as int, hi as int)),
{
    match parse_u64_in(v, lo, hi) {
        Some(n) => if n <= usize::MAX as u64 {
            Some(n as usize)
        } else {
            None
        },
        None => None,
    }
}

/// The text of `s` from character `a` up to character `b`.
pub fn text_between(s: &str, a: usize, b: usize) -> (r: String)
    requires
        a <= b <= s@.len(),
    ensures
        r@ == s@.subrange(a as int, b as int),
{
    s.substring_char(a, b).to_owned()
}

/// `s` without leading and trailing white space.
pub fn trim_text(s: &str) -> (r: String)
    ensures
        r@ == trim(s@),
{
    let v = chars_of(s);
    let (a, b) = trim_span(&v, 0, v.len());
    assert(v@.subrange(0, v.len() as int) =~= s@);
    text_between(s, a, b)
}

/// Whether `v[lo..hi]` is the text `t`.
pub fn same_text(v: &Vec<char>, lo: usize, hi: usize, t: &str) -> (r: bool)
    requires
        lo <= hi <= v.len(),
    ensures
        r == (v@.subrange(lo as int, hi as int) == t@),
{
    let n = t.unicode_len();
    if hi - lo != n {
        return false;
    }
    let mut i: usize = 0;
    while i < n
        invariant
            lo <= hi <= v.len(),
            n == hi - lo,
            n == t@.len(),
            i <= n,
            forall|j: int| 0 <= j < i ==> v@[lo + j] == t@[j],
        decreases n - i,
    {
        if v[lo + i] != t.get_char(i) {
            assert(v@.subrange(lo as int, hi as int)[i as int] != t@[i as int]);
            return false;
        }
        i = i + 1;
    }
    assert(v@.subrange(lo as int, hi as int) =~= t@);
    true
}

/// Everything after the first colon of `s`, without surrounding white
/// space; `None` if `s` has no colon.
pub open spec fn colon_field(s: Seq<char>) -> Option<Seq<char>> {
    let i = find_char(s, ':');
    if i < s.len() {
        Some(trim(s.skip(i as int + 1)))
    } else {
        None
    }
}

/// The value of a `key: value` line, such as "hw.ncpu: 8" or
/// "model name\t: Some CPU": everything after the first colon, trimmed,
/// colons included.
pub fn field_after_colon(s: &str) -> (r: Option<String>)
    ensures
        match r {
            Some(f) => colon_field(s@) == Some(f@),
            None => colon_field(s@) is None,
        },
{
    let v = chars_of(s);
    let n = v.len();
    assert(v@.subrange(0, n as int) =~= s@);
    let i = find_char_in(&v, ':', 0, n);
    if i < n {
        assert(s@.skip(i + 1) =~= v@.subrange(i + 1, n as int));
        let (c, d) = trim_span(&v, i + 1, n);
        Some(text_between(s, c, d))
    } else {
        None
    }
}

/// Where the line that starts at `pos` in `v` ends, without its line feed
/// and the carriage return before it, and where the next line starts.
pub fn next_line(v: &Vec<char>, pos: usize) -> (r: (usize, usize))
    requires
        pos < v.len(),
    ensures
        pos <= r.0 <= r.1 <= v.len(),
        pos < r.1,
        text_lines(v@.subrange(pos as int, v.len() as int)) == seq![
            v@.subrange(pos as int, r.0 as int),
        ] + text_lines(v@.subrange(r.1 as int, v.len() as int)),
{
    let n = v.len();
    let ghost sub = v@.subrange(pos as int, n as int);
    let i = find_char_in(v, '\n', pos, n);
    let end = if i < n && i > pos && v[i - 1] == '\r' {
        i - 1
    } else {
        i
    };
    let next = if i < n {
        i + 1
    } else {
        n
    };
    proof {
        if i < n {
            assert(sub.take(i - pos) =~= v@.subrange(pos as int, i as int));
            assert(sub.skip(i - pos + 1) =~= v@.subrange(i + 1, n as int));
            assert(strip_cr(v@.subrange(pos as int, i as int)) =~= v@.subrange(
                pos as int,
                end as int,
            ));
        } else {
            assert(sub =~= v@.subrange(pos as int, end as int));
            let rest = v@.subrange(n as int, n as int);
            assert(text_lines(rest) =~= Seq::<Seq<char>>::empty());
        }
    }
    (end, next)
}

} // verus!
