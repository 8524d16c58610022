//! Character-level text handling shared by the protocol modules: Unicode
//! whitespace, trimming, splitting into words, decimal rendering and parsing.
use vstd::prelude::*;
use vstd::slice::{slice_subrange, slice_to_vec};

verus! {

broadcast use vstd::string::group_string_axioms;

// ---------------------------------------------------------------------------
// Whitespace
// ---------------------------------------------------------------------------

/// Unicode `White_Space`: the characters for which `char::is_whitespace` holds.
pub open spec fn is_ws(c: char) -> bool {
    let u = c as u32;
    ||| 0x09 <= u <= 0x0D
    ||| u == 0x20
    ||| u == 0x85
    ||| u == 0xA0
    ||| u == 0x1680
    ||| 0x2000 <= u <= 0x200A
    ||| u == 0x2028
    ||| u == 0x2029
    ||| u == 0x202F
    ||| u == 0x205F
    ||| u == 0x3000
}

/// Whether `c` is Unicode whitespace.
pub fn is_whitespace(c: char) -> (b: bool)
    ensures
        b == is_ws(c),
{
    let u = c as u32;
    (0x09 <= u && u <= 0x0D) || u == 0x20 || u == 0x85 || u == 0xA0 || u == 0x1680 || (0x2000
        <= u && u <= 0x200A) || u == 0x2028 || u == 0x2029 || u == 0x202F || u == 0x205F || u
        == 0x3000
}

/// The first index at or after `i` that does not hold whitespace.
pub open spec fn skip_ws(s: Seq<char>, i: int) -> int
    decreases s.len() - i,
{
    if 0 <= i < s.len() && is_ws(s[i]) {
        skip_ws(s, i + 1)
    } else {
        i
    }
}

/// The first index at or after `i` that holds whitespace.
pub open spec fn skip_word(s: Seq<char>, i: int) -> int
    decreases s.len() - i,
{
    if 0 <= i < s.len() && !is_ws(s[i]) {
        skip_word(s, i + 1)
    } else {
        i
    }
}

/// Going left from `j`, but not below `lo`, the first index whose
/// predecessor is not whitespace.
pub open spec fn back_ws(s: Seq<char>, lo: int, j: int) -> int
    decreases j - lo,
{
    if lo < j <= s.len() && is_ws(s[j - 1]) {
        back_ws(s, lo, j - 1)
    } else {
        j
    }
}

/// `s` with leading and trailing whitespace removed (`str::trim`).
pub open spec fn trim(s: Seq<char>) -> Seq<char> {
    let a = skip_ws(s, 0);
    s.subrange(a, back_ws(s, a, s.len() as int))
}

pub proof fn lemma_skip_ws_bounds(s: Seq<char>, i: int)
    requires
        0 <= i <= s.len(),
    ensures
        i <= skip_ws(s, i) <= s.len(),
        skip_ws(s, i) < s.len() ==> !is_ws(s[skip_ws(s, i)]),
        forall|k: int| i <= k < skip_ws(s, i) ==> is_ws(#[trigger] s[k]),
    decreases s.len() - i,
{
    if i < s.len() && is_ws(s[i]) {
        lemma_skip_ws_bounds(s, i + 1);
    }
}

pub proof fn lemma_skip_word_bounds(s: Seq<char>, i: int)
    requires
        0 <= i <= s.len(),
    ensures
        i <= skip_word(s, i) <= s.len(),
        skip_word(s, i) < s.len() ==> is_ws(s[skip_word(s, i)]),
        forall|k: int| i <= k < skip_word(s, i) ==> !is_ws(#[trigger] s[k]),
    decreases s.len() - i,
{
    if i < s.len() && !is_ws(s[i]) {
        lemma_skip_word_bounds(s, i + 1);
    }
}

pub proof fn lemma_back_ws_bounds(s: Seq<char>, lo: int, j: int)
    requires
        0 <= lo <= j <= s.len(),
    ensures
        lo <= back_ws(s, lo, j) <= j,
        lo < back_ws(s, lo, j) ==> !is_ws(s[back_ws(s, lo, j) - 1]),
    decreases j - lo,
{
    if lo < j && is_ws(s[j - 1]) {
        lemma_back_ws_bounds(s, lo, j - 1);
    }
}

/// A trimmed text neither starts nor ends with whitespace.
pub proof fn lemma_trim_edges(s: Seq<char>)
    ensures
        trim(s).len() > 0 ==> !is_ws(trim(s)[0]) && !is_ws(trim(s).last()),
{
    let a = skip_ws(s, 0);
    lemma_skip_ws_bounds(s, 0);
    lemma_back_ws_bounds(s, a, s.len() as int);
}

/// Text that neither starts nor ends with whitespace is its own trim.
pub proof fn lemma_trim_no_edges(s: Seq<char>)
    requires
        s.len() > 0,
        !is_ws(s[0]),
        !is_ws(s.last()),
    ensures
        trim(s) == s,
{
    assert(skip_ws(s, 0) == 0);
    assert(back_ws(s, 0, s.len() as int) == s.len());
    assert(s.subrange(0, s.len() as int) =~= s);
}

/// A whitespace character appended at the end does not change where a
/// word ends.
pub proof fn lemma_skip_word_push_ws(s: Seq<char>, c: char, i: int)
    requires
        is_ws(c),
        0 <= i <= s.len(),
    ensures
        skip_word(s.push(c), i) == skip_word(s, i),
    decreases s.len() - i,
{
    if i < s.len() {
        assert(s.push(c)[i] == s[i]);
        if !is_ws(s[i]) {
            lemma_skip_word_push_ws(s, c, i + 1);
        }
    } else {
        assert(s.push(c)[i] == c);
    }
}

/// A whitespace character appended at the end only moves a whitespace run
/// that already reached the end.
pub proof fn lemma_skip_ws_push_ws(s: Seq<char>, c: char, i: int)
    requires
        is_ws(c),
        0 <= i <= s.len(),
    ensures
        skip_ws(s, i) < s.len() ==> skip_ws(s.push(c), i) == skip_ws(s, i),
        skip_ws(s, i) == s.len() ==> skip_ws(s.push(c), i) == s.len() + 1,
    decreases s.len() - i,
{
    lemma_skip_ws_bounds(s, i);
    if i < s.len() {
        assert(s.push(c)[i] == s[i]);
        if is_ws(s[i]) {
            lemma_skip_ws_push_ws(s, c, i + 1);
        }
    } else {
        assert(s.push(c)[i] == c);
        assert(skip_ws(s.push(c), i + 1) == i + 1);
    }
}

/// Trailing whitespace does not change the second word.
pub proof fn lemma_second_word_push_ws(s: Seq<char>, c: char)
    requires
        is_ws(c),
    ensures
        second_word(s.push(c)) == second_word(s),
{
    let t = s.push(c);
    let n = s.len() as int;
    lemma_skip_ws_bounds(s, 0);
    lemma_skip_ws_push_ws(s, c, 0);
    let i0 = skip_ws(s, 0);
    if i0 == n {
        assert(skip_word(t, n + 1) == n + 1);
        assert(skip_ws(t, n + 1) == n + 1);
        assert(skip_word(s, n) == n);
        assert(skip_ws(s, n) == n);
    } else {
        lemma_skip_word_bounds(s, i0);
        lemma_skip_word_push_ws(s, c, i0);
        let i1 = skip_word(s, i0);
        lemma_skip_ws_bounds(s, i1);
        lemma_skip_ws_push_ws(s, c, i1);
        let i2 = skip_ws(s, i1);
        if i2 < n {
            lemma_skip_word_bounds(s, i2);
            lemma_skip_word_push_ws(s, c, i2);
            let i3 = skip_word(s, i2);
            assert(t.subrange(i2, i3) =~= s.subrange(i2, i3));
        }
    }
}

fn skip_ws_from(s: &[char], i: usize) -> (r: usize)
    requires
        i <= s@.len(),
    ensures
        r == skip_ws(s@, i as int),
        i <= r <= s@.len(),
{
    let mut j = i;
    while j < s.len() && is_whitespace(s[j])
        invariant
            i <= j <= s@.len(),
            skip_ws(s@, j as int) == skip_ws(s@, i as int),
        decreases s@.len() - j,
    {
        j = j + 1;
    }
    j
}

fn skip_word_from(s: &[char], i: usize) -> (r: usize)
    requires
        i <= s@.len(),
    ensures
        r == skip_word(s@, i as int),
        i <= r <= s@.len(),
{
    let mut j = i;
    while j < s.len() && !is_whitespace(s[j])
        invariant
            i <= j <= s@.len(),
            skip_word(s@, j as int) == skip_word(s@, i as int),
        decreases s@.len() - j,
    {
        j = j + 1;
    }
    j
}

fn back_ws_from(s: &[char], lo: usize, hi: usize) -> (r: usize)
    requires
        lo <= hi <= s@.len(),
    ensures
        r == back_ws(s@, lo as int, hi as int),
        lo <= r <= hi,
{
    let mut j = hi;
    while lo < j && is_whitespace(s[j - 1])
        invariant
            lo <= j <= hi <= s@.len(),
            back_ws(s@, lo as int, j as int) == back_ws(s@, lo as int, hi as int),
        decreases j - lo,
    {
        j = j - 1;
    }
    j
}

/// `s` with leading and trailing whitespace removed.
pub fn trim_chars(s: &[char]) -> (t: Vec<char>)
    ensures
        t@ == trim(s@),
{
    let a = skip_ws_from(s, 0);
    let b = back_ws_from(s, a, s.len());
    slice_to_vec(slice_subrange(s, a, b))
}

/// The second whitespace-separated word of `s` (`split_whitespace().nth(1)`).
pub open spec fn second_word(s: Seq<char>) -> Option<Seq<char>> {
    let i0 = skip_ws(s, 0);
    let i1 = skip_word(s, i0);
    let i2 = skip_ws(s, i1);
    if i2 >= s.len() {
        None
    } else {
        Some(s.subrange(i2, skip_word(s, i2)))
    }
}

/// The second whitespace-separated word of `s`, if it has one.
pub fn second_word_of(s: &[char]) -> (w: Option<Vec<char>>)
    ensures
        w matches Some(v) ==> second_word(s@) == Some(v@),
        w is None ==> second_word(s@) is None,
{
    let i0 = skip_ws_from(s, 0);
    let i1 = skip_word_from(s, i0);
    let i2 = skip_ws_from(s, i1);
    if i2 >= s.len() {
        None
    } else {
        let i3 = skip_word_from(s, i2);
        Some(slice_to_vec(slice_subrange(s, i2, i3)))
    }
}

// ---------------------------------------------------------------------------
// Comparison and conversion
// ---------------------------------------------------------------------------

/// Whether two character sequences are equal.
pub fn chars_eq(a: &[char], b: &[char]) -> (r: bool)
    ensures
        r == (a@ == b@),
{
    if a.len() != b.len() {
        return false;
    }
    let mut i: usize = 0;
    while i < a.len()
        invariant
            a@.len() == b@.len(),
            i <= a@.len(),
            forall|k: int| 0 <= k < i ==> a@[k] == b@[k],
        decreases a@.len() - i,
    {
        if a[i] != b[i] {
            return false;
        }
        i = i + 1;
    }
    assert(a@ =~= b@);
    true
}

/// Whether `s` starts with `p`.
pub fn starts_with_chars(s: &[char], p: &[char]) -> (r: bool)
    ensures
        r == (p@.len() <= s@.len() && s@.take(p@.len() as int) == p@),
{
    if p.len() > s.len() {
        return false;
    }
    let head = slice_subrange(s, 0, p.len());
    let r = chars_eq(head, p);
    assert(head@ == s@.take(p@.len() as int));
    r
}

/// The string holding exactly the characters of `chars`.
#[verifier::external_body]
pub(crate) fn string_from_chars(chars: &[char]) -> (s: String)
    ensures
        s@ == chars@,
{
    String::from_iter(chars.iter())
}

/// Appends the characters of `s` to `out`.
pub fn push_str(out: &mut Vec<char>, s: &str)
    ensures
        final(out)@ == old(out)@ + s@,
{
    let mut v = chars_of(s);
    out.append(&mut v);
}

/// The characters of `s`, in order.
pub fn chars_of(s: &str) -> (v: Vec<char>)
    ensures
        v@ == s@,
{
    let mut v: Vec<char> = Vec::new();
    for c in it: s.chars()
        invariant
            v@ == it.seq().take(it.index() as int),
            it.seq() == s@,
    {
        v.push(c);
    }
    v
}

// ---------------------------------------------------------------------------
// Decimal numbers
// ---------------------------------------------------------------------------

/// The character of the decimal digit `d` (for `d < 10`).
pub open spec fn digit_char(d: nat) -> char {
    (48 + d) as char
}

/// The decimal rendering of `n`, as `Display` writes an unsigned integer.
pub open spec fn decimal(n: nat) -> Seq<char>
    decreases n,
{
    if n < 10 {
        seq![digit_char(n)]
    } else {
        decimal(n / 10).push(digit_char(n % 10))
    }
}

/// Appends the decimal rendering of `n` to `out`.
pub fn push_decimal(out: &mut Vec<char>, n: u64)
    ensures
        final(out)@ == old(out)@ + decimal(n as nat),
    decreases n,
{
    if n >= 10 {
        push_decimal(out, n / 10);
    }
    let d = (n % 10) as u8;
    let c = (48u8 + d) as char;
    out.push(c);
    assert(decimal(n as nat) == if n < 10 {
        seq![digit_char(n as nat)]
    } else {
        decimal((n / 10) as nat).push(digit_char((n % 10) as nat))
    });
}

/// Whether `c` is an ASCII decimal digit.
pub open spec fn is_digit(c: char) -> bool {
    48 <= c as u32 <= 57
}

/// The value of the decimal digit `c`.
pub open spec fn digit_value(c: char) -> nat {
    (c as u32 - 48) as nat
}

/// The value of a run of decimal digits, most significant first.
pub open spec fn digits_value(s: Seq<char>) -> nat
    decreases s.len(),
{
    if s.len() == 0 {
        0
    } else {
        digits_value(s.drop_last()) * 10 + digit_value(s.last())
    }
}

/// Every character of `s` is a decimal digit.
pub open spec fn all_digits(s: Seq<char>) -> bool {
    forall|i: int| 0 <= i < s.len() ==> is_digit(#[trigger] s[i])
}

/// What `str::parse::<usize>` gives for `s`: an optional `+`, then one or
/// more decimal digits whose value fits in `usize`.
pub open spec fn parse_usize(s: Seq<char>) -> Option<usize> {
    let d = if s.len() > 0 && s[0] == '+' {
        s.drop_first()
    } else {
        s
    };
    if d.len() == 0 || !all_digits(d) || digits_value(d) > usize::MAX {
        None
    } else {
        Some(digits_value(d) as usize)
    }
}

/// A longer run of digits is worth at least as much as any of its prefixes.
pub proof fn lemma_digits_value_prefix(s: Seq<char>, k: int)
    requires
        0 <= k <= s.len(),
    ensures
        digits_value(s.take(k)) <= digits_value(s),
    decreases s.len(),
{
    if k < s.len() {
        assert(s.drop_last().take(k) =~= s.take(k));
        lemma_digits_value_prefix(s.drop_last(), k);
    } else {
        assert(s.take(k) =~= s);
    }
}

/// Parses `s` as an unsigned decimal number, as `str::parse::<usize>` does.
pub fn parse_usize_chars(s: &[char]) -> (r: Option<usize>)
    ensures
        r == parse_usize(s@),
{
    let start: usize = if s.len() > 0 && s[0] == '+' {
        1
    } else {
        0
    };
    let ghost d = if s@.len() > 0 && s@[0] == '+' {
        s@.drop_first()
    } else {
        s@
    };
    assert(d =~= s@.subrange(start as int, s@.len() as int));
    if start == s.len() {
        return None;
    }
    let mut v: usize = 0;
    let mut j: usize = start;
    while j < s.len()
        invariant
            start <= j <= s@.len(),
            d == (if s@.len() > 0 && s@[0] == '+' {
                s@.drop_first()
            } else {
                s@
            }),
            d =~= s@.subrange(start as int, s@.len() as int),
            v as nat == digits_value(d.take(j - start)),
            all_digits(d.take(j - start)),
        decreases s@.len() - j,
    {
        let cu = s[j] as u32;
        if !(48 <= cu && cu <= 57) {
            assert(!is_digit(d[j - start]));
            return None;
        }
        let dig = (cu - 48) as u128;
        let next: u128 = (v as u128) * 10 + dig;
        assert(d.take(j + 1 - start).drop_last() =~= d.take(j - start));
        assert(digits_value(d.take(j + 1 - start)) == next);
        if next > usize::MAX as u128 {
            proof {
                lemma_digits_value_prefix(d, j + 1 - start);
            }
            return None;
        }
        v = next as usize;
        j = j + 1;
        assert(all_digits(d.take(j - start))) by {
            assert forall|i: int| 0 <= i < j - start implies is_digit(#[trigger] d.take(j - start)[i]) by {
                if i < j - 1 - start {
                    assert(d.take(j - start)[i] == d.take(j - 1 - start)[i]);
                }
            }
        }
    }
    assert(d.take(j - start) =~= d);
    Some(v)
}

/// Rendering a number in decimal and parsing it back gives the number.
pub proof fn law_decimal_round_trip(n: usize)
    ensures
        parse_usize(decimal(n as nat)) == Some(n),
{
    lemma_decimal_digits(n as nat);
}

/// The decimal rendering of `n` is a non-empty run of digits worth `n`.
pub proof fn lemma_decimal_digits(n: nat)
    ensures
        decimal(n).len() > 0,
        all_digits(decimal(n)),
        digits_value(decimal(n)) == n,
        decimal(n)[0] != '+',
    decreases n,
{
    assert(digit_value(digit_char(n % 10)) == n % 10);
    if n < 10 {
        assert(decimal(n) == seq![digit_char(n)]);
        let s = decimal(n);
        assert(s.drop_last() =~= Seq::<char>::empty());
        assert(digits_value(s.drop_last()) == 0);
        assert(n % 10 == n);
        assert(s.last() == digit_char(n));
    } else {
        lemma_decimal_digits(n / 10);
        let s = decimal(n);
        assert(s.drop_last() =~= decimal(n / 10));
        assert(s.last() == digit_char(n % 10));
        assert(digits_value(s) == digits_value(decimal(n / 10)) * 10 + n % 10);
        assert(s[0] == decimal(n / 10)[0]);
        assert(n == (n / 10) * 10 + n % 10);
    }
}

} // verus!
