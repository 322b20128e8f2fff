//! Character-level text handling shared by the rules, paths and protocol code:
//! conversions between `String` and `Vec<char>`, substring search, decimal
//! rendering and parsing of integers, whitespace tokenizing and quote trimming.
use vstd::prelude::*;

verus! {

// ---------------------------------------------------------------------------
// Conversions
// ---------------------------------------------------------------------------

/// The characters of `s`, in order.
pub fn to_chars(s: &str) -> (res: Vec<char>)
    ensures
        res@ == s@,
{
    let mut res: Vec<char> = Vec::new();
    let n = s.unicode_len();
    let mut i: usize = 0;
    while i < n
        invariant
            n == s@.len(),
            i <= n,
            res@ == s@.subrange(0, i as int),
        decreases n - i,
    {
        let c = s.get_char(i);
        res.push(c);
        i = i + 1;
        assert(res@ =~= s@.subrange(0, i as int));
    }
    assert(res@ =~= s@);
    res
}

/// The characters of a slice, in a vector.
pub fn chars_of(cs: &[char]) -> (res: Vec<char>)
    ensures
        res@ == cs@,
{
    let mut res: Vec<char> = Vec::new();
    let mut i: usize = 0;
    while i < cs.len()
        invariant
            i <= cs.len(),
            res@ == cs@.subrange(0, i as int),
        decreases cs.len() - i,
    {
        res.push(cs[i]);
        i = i + 1;
        assert(res@ =~= cs@.subrange(0, i as int));
    }
    assert(res@ =~= cs@);
    res
}

/// `String::push`: appends one character.
#[verifier::external_body]
fn string_push(s: &mut String, c: char)
    ensures
        final(s)@ == old(s)@.push(c),
{
    s.push(c);
}

/// A `String` holding the given characters.
pub fn from_chars(cs: &Vec<char>) -> (res: String)
    ensures
        res@ == cs@,
{
    let mut res = String::new();
    let mut i: usize = 0;
    while i < cs.len()
        invariant
            i <= cs.len(),
            res@ == cs@.subrange(0, i as int),
        decreases cs.len() - i,
    {
        string_push(&mut res, cs[i]);
        i = i + 1;
        assert(res@ =~= cs@.subrange(0, i as int));
    }
    assert(res@ =~= cs@);
    res
}

/// A copy of `s`.
pub fn copy_string(s: &String) -> (res: String)
    ensures
        res@ == s@,
{
    s.clone()
}

/// Whether two character sequences are equal.
pub fn chars_eq(a: &Vec<char>, b: &Vec<char>) -> (res: bool)
    ensures
        res == (a@ == b@),
{
    if a.len() != b.len() {
        return false;
    }
    let mut i: usize = 0;
    while i < a.len()
        invariant
            a.len() == b.len(),
            i <= a.len(),
            forall|j: int| 0 <= j < i ==> a@[j] == b@[j],
        decreases a.len() - i,
    {
        if a[i] != b[i] {
            return false;
        }
        i = i + 1;
    }
    assert(a@ =~= b@);
    true
}

/// Whether two strings hold the same characters.
pub fn str_eq(a: &str, b: &str) -> (res: bool)
    ensures
        res == (a@ == b@),
{
    let ac = to_chars(a);
    let bc = to_chars(b);
    chars_eq(&ac, &bc)
}

/// The concatenation of `a` and `b`.
pub fn concat_chars(a: &Vec<char>, b: &Vec<char>) -> (res: Vec<char>)
    ensures
        res@ == a@ + b@,
{
    let mut res: Vec<char> = Vec::new();
    let mut i: usize = 0;
    while i < a.len()
        invariant
            i <= a.len(),
            res@ == a@.subrange(0, i as int),
        decreases a.len() - i,
    {
        res.push(a[i]);
        i = i + 1;
        assert(res@ =~= a@.subrange(0, i as int));
    }
    let mut j: usize = 0;
    while j < b.len()
        invariant
            j <= b.len(),
            res@ == a@ + b@.subrange(0, j as int),
        decreases b.len() - j,
    {
        res.push(b[j]);
        j = j + 1;
        assert(res@ =~= a@ + b@.subrange(0, j as int));
    }
    assert(b@.subrange(0, b@.len() as int) =~= b@);
    res
}

/// The characters of a network address: `protocol://host:port`.
pub fn address_chars(protocol: &str, host: &str, port: &Vec<char>) -> (res: Vec<char>)
    ensures
        res@ == protocol@ + "://"@ + host@ + seq![':'] + port@,
{
    let mut colon: Vec<char> = Vec::new();
    colon.push(':');
    assert(colon@ =~= seq![':']);
    let a = concat_chars(&to_chars(protocol), &to_chars("://"));
    let b = concat_chars(&a, &to_chars(host));
    let c = concat_chars(&b, &colon);
    concat_chars(&c, port)
}

/// The characters of `s` from index `from` on.
pub fn suffix_from(s: &Vec<char>, from: usize) -> (res: Vec<char>)
    requires
        from <= s.len(),
    ensures
        res@ == s@.subrange(from as int, s@.len() as int),
{
    let mut res: Vec<char> = Vec::new();
    let mut i: usize = from;
    while i < s.len()
        invariant
            from <= i <= s.len(),
            res@ == s@.subrange(from as int, i as int),
        decreases s.len() - i,
    {
        res.push(s[i]);
        i = i + 1;
        assert(res@ =~= s@.subrange(from as int, i as int));
    }
    res
}

/// The characters of `s` before index `to`.
pub fn prefix_to(s: &Vec<char>, to: usize) -> (res: Vec<char>)
    requires
        to <= s.len(),
    ensures
        res@ == s@.subrange(0, to as int),
{
    let mut res: Vec<char> = Vec::new();
    let mut i: usize = 0;
    while i < to
        invariant
            i <= to <= s.len(),
            res@ == s@.subrange(0, i as int),
        decreases to - i,
    {
        res.push(s[i]);
        i = i + 1;
        assert(res@ =~= s@.subrange(0, i as int));
    }
    res
}

// ---------------------------------------------------------------------------
// Substring search
// ---------------------------------------------------------------------------

/// `needle` occurs in `hay` starting at index `i`.
pub open spec fn occurs_at(hay: Seq<char>, needle: Seq<char>, i: int) -> bool {
    &&& 0 <= i
    &&& i + needle.len() <= hay.len()
    &&& hay.subrange(i, i + needle.len()) == needle
}

/// `needle` occurs somewhere in `hay`.
pub open spec fn contains_seq(hay: Seq<char>, needle: Seq<char>) -> bool {
    exists|i: int| occurs_at(hay, needle, i)
}

/// `i` is the first index at which `needle` occurs in `hay`.
pub open spec fn is_first_occurrence(hay: Seq<char>, needle: Seq<char>, i: int) -> bool {
    &&& occurs_at(hay, needle, i)
    &&& forall|j: int| 0 <= j < i ==> !occurs_at(hay, needle, j)
}

/// `prefix` is a prefix of `s`.
pub open spec fn has_prefix(s: Seq<char>, prefix: Seq<char>) -> bool {
    occurs_at(s, prefix, 0)
}

fn matches_at(hay: &Vec<char>, needle: &Vec<char>, i: usize) -> (res: bool)
    requires
        i + needle.len() <= hay.len(),
    ensures
        res == occurs_at(hay@, needle@, i as int),
{
    let mut k: usize = 0;
    while k < needle.len()
        invariant
            i + needle.len() <= hay.len(),
            k <= needle.len(),
            forall|m: int| 0 <= m < k ==> hay@[i + m] == needle@[m],
        decreases needle.len() - k,
    {
        if hay[i + k] != needle[k] {
            assert(hay@.subrange(i as int, i + needle.len())[k as int] != needle@[k as int]);
            return false;
        }
        k = k + 1;
    }
    assert(hay@.subrange(i as int, i + needle@.len()) =~= needle@);
    true
}

/// The first index at which `needle` occurs in `hay` (as `str::find`), or
/// `None` when it does not occur. An empty needle occurs at index 0.
pub fn find_chars(hay: &Vec<char>, needle: &Vec<char>) -> (res: Option<usize>)
    ensures
        match res {
            Some(i) => is_first_occurrence(hay@, needle@, i as int),
            None => !contains_seq(hay@, needle@),
        },
{
    if needle.len() > hay.len() {
        assert forall|j: int| !occurs_at(hay@, needle@, j) by {}
        return None;
    }
    let last = hay.len() - needle.len();
    let mut i: usize = 0;
    while i < last
        invariant
            last == hay.len() - needle.len(),
            needle.len() <= hay.len(),
            i <= last,
            forall|j: int| 0 <= j < i ==> !occurs_at(hay@, needle@, j),
        decreases last - i,
    {
        if matches_at(hay, needle, i) {
            return Some(i);
        }
        i = i + 1;
    }
    if matches_at(hay, needle, last) {
        return Some(last);
    }
    assert forall|j: int| !occurs_at(hay@, needle@, j) by {
        if 0 <= j <= last {
        }
    }
    None
}

/// Whether `needle` occurs in `hay` (as `str::contains`).
pub fn contains_chars(hay: &Vec<char>, needle: &Vec<char>) -> (res: bool)
    ensures
        res == contains_seq(hay@, needle@),
{
    match find_chars(hay, needle) {
        Some(_) => true,
        None => false,
    }
}

/// Whether `s` begins with `prefix`.
pub fn starts_with_chars(s: &Vec<char>, prefix: &Vec<char>) -> (res: bool)
    ensures
        res == has_prefix(s@, prefix@),
{
    if prefix.len() > s.len() {
        return false;
    }
    matches_at(s, prefix, 0)
}

// ---------------------------------------------------------------------------
// Decimal numbers
// ---------------------------------------------------------------------------

/// The decimal digit character for `d` (`0 <= d < 10`).
pub open spec fn digit_char(d: int) -> char {
    if d == 0 {
        '0'
    } else if d == 1 {
        '1'
    } else if d == 2 {
        '2'
    } else if d == 3 {
        '3'
    } else if d == 4 {
        '4'
    } else if d == 5 {
        '5'
    } else if d == 6 {
        '6'
    } else if d == 7 {
        '7'
    } else if d == 8 {
        '8'
    } else {
        '9'
    }
}

/// The value of a decimal digit character, or `None` for any other character.
pub open spec fn char_digit(c: char) -> Option<int> {
    if c == '0' {
        Some(0)
    } else if c == '1' {
        Some(1)
    } else if c == '2' {
        Some(2)
    } else if c == '3' {
        Some(3)
    } else if c == '4' {
        Some(4)
    } else if c == '5' {
        Some(5)
    } else if c == '6' {
        Some(6)
    } else if c == '7' {
        Some(7)
    } else if c == '8' {
        Some(8)
    } else if c == '9' {
        Some(9)
    } else {
        None
    }
}

/// The decimal rendering of `n`, without sign or leading zeros (as `to_string`).
pub open spec fn decimal(n: nat) -> Seq<char>
    decreases n,
{
    if n < 10 {
        seq![digit_char(n as int)]
    } else {
        decimal(n / 10).push(digit_char((n % 10) as int))
    }
}

/// The decimal rendering of a signed integer (a `-` before negative values).
pub open spec fn decimal_signed(n: int) -> Seq<char> {
    if n < 0 {
        seq!['-'] + decimal((-n) as nat)
    } else {
        decimal(n as nat)
    }
}

fn digit_to_char(d: u128) -> (c: char)
    requires
        d < 10,
    ensures
        c == digit_char(d as int),
{
    if d == 0 {
        '0'
    } else if d == 1 {
        '1'
    } else if d == 2 {
        '2'
    } else if d == 3 {
        '3'
    } else if d == 4 {
        '4'
    } else if d == 5 {
        '5'
    } else if d == 6 {
        '6'
    } else if d == 7 {
        '7'
    } else if d == 8 {
        '8'
    } else {
        '9'
    }
}

/// The decimal rendering of `n`.
pub fn decimal_chars(n: u128) -> (res: Vec<char>)
    ensures
        res@ == decimal(n as nat),
    decreases n,
{
    if n < 10 {
        let mut v: Vec<char> = Vec::new();
        v.push(digit_to_char(n));
        assert(v@ =~= seq![digit_char(n as int)]);
        v
    } else {
        let mut v = decimal_chars(n / 10);
        v.push(digit_to_char(n % 10));
        v
    }
}

/// The decimal rendering of a signed `n`.
pub fn decimal_chars_signed(n: i128) -> (res: Vec<char>)
    ensures
        res@ == decimal_signed(n as int),
{
    if n < 0 {
        let mut sign: Vec<char> = Vec::new();
        sign.push('-');
        let magnitude: u128 = if n == i128::MIN {
            0x8000_0000_0000_0000_0000_0000_0000_0000u128
        } else {
            (-n) as u128
        };
        let digits = decimal_chars(magnitude);
        let res = concat_chars(&sign, &digits);
        assert(sign@ =~= seq!['-']);
        res
    } else {
        decimal_chars(n as u128)
    }
}

/// The decimal rendering of `n` as a `String`.
pub fn decimal_string(n: u128) -> (res: String)
    ensures
        res@ == decimal(n as nat),
{
    let cs = decimal_chars(n);
    from_chars(&cs)
}

/// Every character of `s` is a decimal digit.
pub open spec fn all_digits(s: Seq<char>) -> bool {
    forall|i: int| 0 <= i < s.len() ==> (#[trigger] char_digit(s[i])) is Some
}

/// The value of a string of decimal digits.
pub open spec fn digits_value(s: Seq<char>) -> nat
    decreases s.len(),
{
    if s.len() == 0 {
        0
    } else {
        digits_value(s.drop_last()) * 10 + (char_digit(s.last()).unwrap() as nat)
    }
}

/// The digits of an unsigned integer literal: an optional `+` is dropped.
pub open spec fn unsigned_body(s: Seq<char>) -> Seq<char> {
    if s.len() > 0 && s[0] == '+' {
        s.drop_first()
    } else {
        s
    }
}

/// What `s.parse::<u64>()` gives: an optional `+`, then one or more decimal
/// digits whose value fits in a `u64`; anything else is an error (`None`).
pub open spec fn parse_u64_spec(s: Seq<char>) -> Option<u64> {
    let body = unsigned_body(s);
    if body.len() > 0 && all_digits(body) && digits_value(body) <= u64::MAX {
        Some(digits_value(body) as u64)
    } else {
        None
    }
}

/// What `s.parse::<i64>()` gives: an optional `+` or `-`, then one or more
/// decimal digits whose signed value fits in an `i64`; anything else is an
/// error (`None`).
pub open spec fn parse_i64_spec(s: Seq<char>) -> Option<i64> {
    if s.len() > 0 && s[0] == '-' {
        let body = s.drop_first();
        if body.len() > 0 && all_digits(body) && digits_value(body) <= 0x8000_0000_0000_0000 {
            Some((-(digits_value(body) as int)) as i64)
        } else {
            None
        }
    } else {
        let body = unsigned_body(s);
        if body.len() > 0 && all_digits(body) && digits_value(body) <= i64::MAX {
            Some(digits_value(body) as i64)
        } else {
            None
        }
    }
}

fn char_to_digit(c: char) -> (res: Option<u64>)
    ensures
        match res {
            Some(d) => char_digit(c) == Some(d as int) && d < 10,
            None => char_digit(c) is None,
        },
{
    if c == '0' {
        Some(0)
    } else if c == '1' {
        Some(1)
    } else if c == '2' {
        Some(2)
    } else if c == '3' {
        Some(3)
    } else if c == '4' {
        Some(4)
    } else if c == '5' {
        Some(5)
    } else if c == '6' {
        Some(6)
    } else if c == '7' {
        Some(7)
    } else if c == '8' {
        Some(8)
    } else if c == '9' {
        Some(9)
    } else {
        None
    }
}

proof fn lemma_digits_value_monotone(s: Seq<char>, i: int, j: int)
    requires
        0 <= i <= j <= s.len(),
        all_digits(s),
    ensures
        digits_value(s.subrange(0, i)) <= digits_value(s.subrange(0, j)),
    decreases j - i,
{
    if i < j {
        lemma_digits_value_monotone(s, i, j - 1);
        assert(s.subrange(0, j).drop_last() =~= s.subrange(0, j - 1));
        assert(char_digit(s[j - 1]) is Some);
    }
}

/// The value of the decimal digits `s`, or `None` when `s` is empty, holds a
/// character that is not a digit, or is greater than `limit`.
fn digits_value_upto(s: &Vec<char>, start: usize, limit: u64) -> (res: Option<u64>)
    requires
        start <= s.len(),
    ensures
        ({
            let body = s@.subrange(start as int, s@.len() as int);
            match res {
                Some(v) => body.len() > 0 && all_digits(body) && digits_value(body) == v && v
                    <= limit,
                None => !(body.len() > 0 && all_digits(body) && digits_value(body) <= limit),
            }
        }),
{
    let ghost body = s@.subrange(start as int, s@.len() as int);
    if start == s.len() {
        return None;
    }
    let mut acc: u64 = 0;
    let mut i: usize = start;
    while i < s.len()
        invariant
            start <= i <= s.len(),
            body == s@.subrange(start as int, s@.len() as int),
            all_digits(s@.subrange(start as int, i as int)),
            digits_value(s@.subrange(start as int, i as int)) == acc,
            acc <= limit,
        decreases s.len() - i,
    {
        let ghost prefix = s@.subrange(start as int, i as int);
        let ghost next = s@.subrange(start as int, i + 1);
        assert(next.drop_last() =~= prefix);
        match char_to_digit(s[i]) {
            None => {
                assert(!all_digits(body)) by {
                    assert(body[i - start] == s@[i as int]);
                }
                return None;
            },
            Some(d) => {
                assert(all_digits(next)) by {
                    assert forall|k: int| 0 <= k < next.len() implies (#[trigger] char_digit(
                        next[k],
                    )) is Some by {
                        if k < prefix.len() {
                            assert(next[k] == prefix[k]);
                        }
                    }
                }
                if d > limit {
                    assert(digits_value(next) > limit);
                    proof {
                        if all_digits(body) {
                            assert(body.subrange(0, (i + 1 - start) as int) =~= next);
                            assert(body.subrange(0, body.len() as int) =~= body);
                            lemma_digits_value_monotone(
                                body,
                                (i + 1 - start) as int,
                                body.len() as int,
                            );
                        }
                    }
                    return None;
                }
                if acc > (limit - d) / 10 {
                    assert(digits_value(next) > limit) by (nonlinear_arith)
                        requires
                            digits_value(next) == acc * 10 + d,
                            acc > (limit - d) / 10,
                            d < 10,
                    {
                    }
                    proof {
                        if all_digits(body) {
                            assert(body =~= s@.subrange(start as int, s@.len() as int));
                            assert(s@.subrange(start as int, s@.len() as int).subrange(
                                0,
                                (i + 1 - start) as int,
                            ) =~= next);
                            assert(body.subrange(0, body.len() as int) =~= body);
                            lemma_digits_value_monotone(
                                body,
                                (i + 1 - start) as int,
                                body.len() as int,
                            );
                        }
                    }
                    return None;
                }
                assert(acc * 10 + d <= limit) by (nonlinear_arith)
                    requires
                        acc <= (limit - d) / 10,
                        d <= limit,
                {
                }
                acc = acc * 10 + d;
                i = i + 1;
            },
        }
    }
    assert(s@.subrange(start as int, i as int) =~= body);
    Some(acc)
}

/// `s.parse::<u64>()`, as [`parse_u64_spec`] states it.
pub fn parse_u64(s: &Vec<char>) -> (res: Option<u64>)
    ensures
        res == parse_u64_spec(s@),
{
    let start: usize = if s.len() > 0 && s[0] == '+' {
        1
    } else {
        0
    };
    proof {
        assert(unsigned_body(s@) =~= s@.subrange(start as int, s@.len() as int));
    }
    digits_value_upto(s, start, u64::MAX)
}

/// `s.parse::<i64>()`, as [`parse_i64_spec`] states it.
pub fn parse_i64(s: &Vec<char>) -> (res: Option<i64>)
    ensures
        res == parse_i64_spec(s@),
{
    if s.len() > 0 && s[0] == '-' {
        proof {
            assert(s@.drop_first() =~= s@.subrange(1, s@.len() as int));
        }
        match digits_value_upto(s, 1, 0x8000_0000_0000_0000u64) {
            Some(v) => {
                if v == 0x8000_0000_0000_0000u64 {
                    Some(i64::MIN)
                } else {
                    Some(-(v as i64))
                }
            },
            None => None,
        }
    } else {
        let start: usize = if s.len() > 0 && s[0] == '+' {
            1
        } else {
            0
        };
        proof {
            assert(unsigned_body(s@) =~= s@.subrange(start as int, s@.len() as int));
        }
        match digits_value_upto(s, start, i64::MAX as u64) {
            Some(v) => Some(v as i64),
            None => None,
        }
    }
}

// ---------------------------------------------------------------------------
// Whitespace and separators
// ---------------------------------------------------------------------------

/// Whether `c` has the Unicode `White_Space` property (PropList.txt): the
/// controls from tab to carriage return, space, next line, no-break space,
/// Ogham space mark, the spaces from en quad to hair space, line separator,
/// paragraph separator, narrow no-break space, medium mathematical space
/// and ideographic space.
pub open spec fn unicode_whitespace(c: char) -> bool {
    let n = c as int;
    ||| 0x09 <= n <= 0x0D
    ||| n == 0x20
    ||| n == 0x85
    ||| n == 0xA0
    ||| n == 0x1680
    ||| 0x2000 <= n <= 0x200A
    ||| n == 0x2028
    ||| n == 0x2029
    ||| n == 0x202F
    ||| n == 0x205F
    ||| n == 0x3000
}

/// Whether `c` has the Unicode `White_Space` property, as
/// `char::is_whitespace` decides it.
fn is_whitespace(c: char) -> (res: bool)
    ensures
        res == unicode_whitespace(c),
{
    let n = c as u32;
    (0x09 <= n && n <= 0x0D) || n == 0x20 || n == 0x85 || n == 0xA0 || n == 0x1680 || (0x2000
        <= n && n <= 0x200A) || n == 0x2028 || n == 0x2029 || n == 0x202F || n == 0x205F || n
        == 0x3000
}

/// The whitespace-separated tokens of `s` (as `str::split_whitespace`): the
/// maximal runs of characters that are not whitespace, in order.
pub open spec fn whitespace_tokens(s: Seq<char>) -> Seq<Seq<char>>
    decreases s.len(),
{
    if s.len() == 0 {
        seq![]
    } else {
        let prev = whitespace_tokens(s.drop_last());
        let c = s.last();
        if unicode_whitespace(c) {
            prev
        } else if s.len() >= 2 && !unicode_whitespace(s[s.len() - 2]) {
            prev.update(prev.len() - 1, prev.last().push(c))
        } else {
            prev.push(seq![c])
        }
    }
}

/// The whitespace-separated tokens of `s`, as [`whitespace_tokens`] states.
pub fn split_whitespace(s: &Vec<char>) -> (res: Vec<Vec<char>>)
    ensures
        res@.len() == whitespace_tokens(s@).len(),
        forall|k: int| 0 <= k < res@.len() ==> #[trigger] res@[k]@ == whitespace_tokens(s@)[k],
{
    let mut res: Vec<Vec<char>> = Vec::new();
    let mut cur: Vec<char> = Vec::new();
    let mut in_token = false;
    let mut i: usize = 0;
    while i < s.len()
        invariant
            i <= s.len(),
            in_token == (i > 0 && !unicode_whitespace(s@[i - 1])),
            in_token ==> whitespace_tokens(s@.subrange(0, i as int)).len() >= 1,
            ({
                let toks = whitespace_tokens(s@.subrange(0, i as int));
                if in_token {
                    &&& res@.len() + 1 == toks.len()
                    &&& forall|k: int| 0 <= k < res@.len() ==> #[trigger] res@[k]@ == toks[k]
                    &&& cur@ == toks.last()
                } else {
                    &&& res@.len() == toks.len()
                    &&& forall|k: int| 0 <= k < res@.len() ==> #[trigger] res@[k]@ == toks[k]
                }
            }),
        decreases s.len() - i,
    {
        let ghost pre = s@.subrange(0, i as int);
        let ghost next = s@.subrange(0, i + 1);
        assert(next.drop_last() =~= pre);
        assert(next.last() == s@[i as int]);
        let c = s[i];
        if is_whitespace(c) {
            if in_token {
                let tok = cur;
                res.push(tok);
                cur = Vec::new();
            }
            in_token = false;
        } else {
            if in_token {
                assert(next[next.len() - 2] == s@[i - 1]);
                cur.push(c);
            } else {
                if i >= 1 {
                    assert(next[next.len() - 2] == s@[i - 1]);
                }
                cur = Vec::new();
                cur.push(c);
                assert(cur@ =~= seq![c]);
            }
            in_token = true;
        }
        i = i + 1;
    }
    assert(s@.subrange(0, s@.len() as int) =~= s@);
    if in_token {
        res.push(cur);
    }
    res
}

/// The text before the first `sep` of `s`, and the text between the first
/// and the second `sep` (or after the first, when there is only one); the
/// second part is `None` when `s` holds no `sep`. These are the first two
/// items of `str::split(sep)`.
pub open spec fn first_two_pieces(s: Seq<char>, sep: char) -> (Seq<char>, Option<Seq<char>>) {
    let first_sep = choose|i: int| 0 <= i < s.len() && s[i] == sep && (forall|j: int|
        0 <= j < i ==> s[j] != sep);
    if exists|i: int| 0 <= i < s.len() && s[i] == sep {
        let rest = s.subrange(first_sep + 1, s.len() as int);
        let second_sep = choose|i: int| 0 <= i < rest.len() && rest[i] == sep && (forall|j: int|
            0 <= j < i ==> rest[j] != sep);
        if exists|i: int| 0 <= i < rest.len() && rest[i] == sep {
            (s.subrange(0, first_sep), Some(rest.subrange(0, second_sep)))
        } else {
            (s.subrange(0, first_sep), Some(rest))
        }
    } else {
        (s, None)
    }
}

/// The index of the first `c` in `s`.
fn find_char(s: &Vec<char>, c: char, from: usize) -> (res: Option<usize>)
    requires
        from <= s.len(),
    ensures
        match res {
            Some(i) => from <= i < s.len() && s@[i as int] == c && forall|j: int|
                from <= j < i ==> s@[j] != c,
            None => forall|j: int| from <= j < s.len() ==> s@[j] != c,
        },
{
    let mut i = from;
    while i < s.len()
        invariant
            from <= i <= s.len(),
            forall|j: int| from <= j < i ==> s@[j] != c,
        decreases s.len() - i,
    {
        if s[i] == c {
            return Some(i);
        }
        i = i + 1;
    }
    None
}

/// The first two pieces of `s` split at `sep`, as [`first_two_pieces`] states.
#[verifier::rlimit(40)]
pub fn split_first_two(s: &Vec<char>, sep: char) -> (res: (Vec<char>, Option<Vec<char>>))
    ensures
        res.0@ == first_two_pieces(s@, sep).0,
        match res.1 {
            Some(p) => first_two_pieces(s@, sep).1 == Some(p@),
            None => first_two_pieces(s@, sep).1 is None,
        },
{
    match find_char(s, sep, 0) {
        None => {
            let first = prefix_to(s, s.len());
            assert(s@.subrange(0, s@.len() as int) =~= s@);
            (first, None)
        },
        Some(i) => {
            let ghost fi = choose|k: int| 0 <= k < s@.len() && s@[k] == sep && (forall|j: int|
                0 <= j < k ==> s@[j] != sep);
            assert(0 <= i < s@.len() && s@[i as int] == sep && (forall|j: int|
                0 <= j < i ==> s@[j] != sep));
            assert(fi == i) by {
                if fi < i {
                    assert(s@[fi] != sep);
                } else if fi > i {
                    assert(s@[i as int] != sep);
                }
            }
            let first = prefix_to(s, i);
            let rest = suffix_from(s, i + 1);
            let ghost r = s@.subrange(i + 1, s@.len() as int);
            match find_char(&rest, sep, 0) {
                None => {
                    assert(forall|j: int| 0 <= j < r.len() ==> r[j] != sep);
                    (first, Some(rest))
                },
                Some(k) => {
                    let ghost sk = choose|m: int| 0 <= m < r.len() && r[m] == sep && (forall|
                        j: int,
                    |
                        0 <= j < m ==> r[j] != sep);
                    assert(0 <= k < r.len() && r[k as int] == sep);
                    assert(sk == k) by {
                        if sk < k {
                            assert(r[sk] != sep);
                        } else if sk > k {
                            assert(r[k as int] != sep);
                        }
                    }
                    let second = prefix_to(&rest, k);
                    (first, Some(second))
                },
            }
        },
    }
}

/// `s` with every leading and trailing `"` removed (as `str::trim_matches('"')`).
pub open spec fn trim_quotes_spec(s: Seq<char>) -> Seq<char>
    decreases s.len(),
{
    if s.len() > 0 && s[0] == '"' {
        trim_quotes_spec(s.drop_first())
    } else if s.len() > 0 && s.last() == '"' {
        trim_quotes_spec(s.drop_last())
    } else {
        s
    }
}

proof fn lemma_trim_front(w: Seq<char>)
    requires
        w.len() > 0,
        w[0] == '"',
    ensures
        trim_quotes_spec(w) == trim_quotes_spec(w.drop_first()),
{
}

proof fn lemma_trim_back(w: Seq<char>)
    requires
        w.len() > 0,
        w[0] != '"',
        w.last() == '"',
    ensures
        trim_quotes_spec(w) == trim_quotes_spec(w.drop_last()),
{
}

proof fn lemma_trim_done(w: Seq<char>)
    requires
        w.len() > 0 ==> w[0] != '"' && w.last() != '"',
    ensures
        trim_quotes_spec(w) == w,
{
}

/// Trimming leaves neither a leading nor a trailing `"`, and what is left
/// is a contiguous part of the text.
pub proof fn lemma_trimmed_has_no_end_quotes(s: Seq<char>)
    ensures
        ({
            let t = trim_quotes_spec(s);
            &&& t.len() > 0 ==> t[0] != '"' && t.last() != '"'
            &&& exists|i: int| 0 <= i <= s.len() - t.len() && t == #[trigger] s.subrange(i, i + t.len())
        }),
    decreases s.len(),
{
    if s.len() > 0 && s[0] == '"' {
        lemma_trimmed_has_no_end_quotes(s.drop_first());
        let t = trim_quotes_spec(s);
        let i = choose|i: int| 0 <= i <= s.drop_first().len() - t.len() && t == #[trigger] s.drop_first().subrange(i, i + t.len());
        let j = i + 1;
        assert(t =~= s.subrange(j, j + t.len()));
    } else if s.len() > 0 && s.last() == '"' {
        lemma_trimmed_has_no_end_quotes(s.drop_last());
        let t = trim_quotes_spec(s);
        let i = choose|i: int| 0 <= i <= s.drop_last().len() - t.len() && t == #[trigger] s.drop_last().subrange(i, i + t.len());
        assert(t =~= s.subrange(i, i + t.len()));
    } else {
        let t = trim_quotes_spec(s);
        assert(t == s);
        let j: int = 0;
        assert(t =~= s.subrange(j, j + t.len()));
    }
}

/// `s` with its leading and trailing `"` removed, as [`trim_quotes_spec`] states.
pub fn trim_quotes(s: &Vec<char>) -> (res: Vec<char>)
    ensures
        res@ == trim_quotes_spec(s@),
{
    let mut lo: usize = 0;
    let mut hi: usize = s.len();
    assert(s@.subrange(0, s@.len() as int) =~= s@);
    while lo < hi && s[lo] == '"'
        invariant
            lo <= hi == s.len(),
            trim_quotes_spec(s@) == trim_quotes_spec(s@.subrange(lo as int, hi as int)),
        decreases hi - lo,
    {
        proof {
            let w = s@.subrange(lo as int, hi as int);
            lemma_trim_front(w);
            assert(w.drop_first() =~= s@.subrange(lo + 1, hi as int));
        }
        lo = lo + 1;
    }
    while lo < hi && s[hi - 1] == '"'
        invariant
            lo <= hi <= s.len(),
            lo < hi ==> s@[lo as int] != '"',
            trim_quotes_spec(s@) == trim_quotes_spec(s@.subrange(lo as int, hi as int)),
        decreases hi - lo,
    {
        proof {
            let w = s@.subrange(lo as int, hi as int);
            lemma_trim_back(w);
            assert(w.drop_last() =~= s@.subrange(lo as int, hi - 1));
        }
        hi = hi - 1;
    }
    let head = prefix_to(s, hi);
    let res = suffix_from(&head, lo);
    proof {
        let w = s@.subrange(lo as int, hi as int);
        assert(head@.subrange(lo as int, hi as int) =~= w);
        lemma_trim_done(w);
    }
    res
}

// ---------------------------------------------------------------------------
// Case conversion
// ---------------------------------------------------------------------------

/// What `str::to_lowercase` gives for `s` (the Unicode lowercase mapping).
pub uninterp spec fn unicode_lowercase(s: Seq<char>) -> Seq<char>;

/// `str::to_lowercase`. The contract claims only that the result is the one
/// named [`unicode_lowercase`], a function of the characters of `s` alone.
#[verifier::external_body]
pub(crate) fn to_lowercase(s: &str) -> (res: String)
    ensures
        res@ == unicode_lowercase(s@),
{
    s.to_lowercase()
}

} // verus!
