//! Text helpers shared by the validators, the error responses and the token
//! claims: character classes, UTF-8 byte length, decimal numbers in both
//! directions, and substring search.
use vstd::prelude::*;

verus! {

broadcast use vstd::string::group_string_axioms;

/// `String::push`: appends one character.
#[verifier::external_body]
pub(crate) fn string_push(s: &mut String, c: char)
    ensures
        final(s)@ == old(s)@.push(c),
{
    s.push(c);
}

/// A `String` holding exactly the characters of `s`.
pub fn owned(s: &str) -> (r: String)
    ensures
        r@ == s@,
{
    s.to_string()
}

/// The characters of `s`, in order.
pub fn to_chars(s: &str) -> (r: Vec<char>)
    ensures
        r@ == s@,
{
    let mut out: Vec<char> = Vec::new();
    for c in it: s.chars()
        invariant
            it.seq() == s@,
            out@ == it.seq().take(it.index() as int),
    {
        assert(it.seq().take(it.index() + 1) == it.seq().take(it.index() as int).push(c));
        out.push(c);
    }
    out
}

/// Appends the characters of `t` to `s`.
pub fn push_str(s: &mut String, t: &str)
    ensures
        final(s)@ == old(s)@ + t@,
{
    let ghost start = s@;
    for c in it: t.chars()
        invariant
            it.seq() == t@,
            s@ == start + it.seq().take(it.index() as int),
    {
        assert(it.seq().take(it.index() + 1) == it.seq().take(it.index() as int).push(c));
        string_push(s, c);
    }
}

/// `a` followed by `b`, as a new `String`.
pub fn concat(a: &str, b: &str) -> (r: String)
    ensures
        r@ == a@ + b@,
{
    let mut s = owned(a);
    push_str(&mut s, b);
    s
}

/// `==` on two string slices: the same characters in the same order.
pub fn str_eq(a: &str, b: &str) -> (r: bool)
    ensures
        r == (a@ == b@),
{
    let x = to_chars(a);
    let y = to_chars(b);
    if x.len() != y.len() {
        return false;
    }
    let mut i: usize = 0;
    while i < x.len()
        invariant
            x@ == a@,
            y@ == b@,
            x.len() == y.len(),
            i <= x.len(),
            forall|k: int| 0 <= k < i ==> x@[k] == y@[k],
        decreases x.len() - i,
    {
        if x[i] != y[i] {
            return false;
        }
        i = i + 1;
    }
    assert(x@ =~= y@);
    true
}

/// Whether `s` begins with `p`.
pub open spec fn has_prefix(s: Seq<char>, p: Seq<char>) -> bool {
    p.len() <= s.len() && s.subrange(0, p.len() as int) == p
}

/// Whether `c` occurs in `s`.
pub open spec fn has_char(s: Seq<char>, c: char) -> bool {
    exists|i: int| 0 <= i < s.len() && s[i] == c
}

/// `str::contains` with a `char` pattern.
pub fn contains_char(s: &str, c: char) -> (r: bool)
    ensures
        r == has_char(s@, c),
{
    let mut found = false;
    for d in it: s.chars()
        invariant
            it.seq() == s@,
            found == (exists|i: int| 0 <= i < it.index() && it.seq()[i] == c),
    {
        if d == c {
            found = true;
        }
    }
    found
}

/// Whether `needle` occurs in `hay` as a contiguous run of characters.
pub open spec fn has_substring(hay: Seq<char>, needle: Seq<char>) -> bool {
    exists|i: int| 0 <= i && i + needle.len() <= hay.len() && #[trigger] hay.subrange(i, i + needle.len()) == needle
}

/// Whether `needle` occurs in `hay` at position `i`.
fn matches_at(hay: &Vec<char>, needle: &Vec<char>, i: usize) -> (r: bool)
    requires
        i + needle.len() <= hay.len(),
    ensures
        r == (hay@.subrange(i as int, i + needle.len()) == needle@),
{
    let mut j: usize = 0;
    while j < needle.len()
        invariant
            j <= needle.len(),
            i + needle.len() <= hay.len(),
            forall|k: int| 0 <= k < j ==> hay@[i + k] == needle@[k],
        decreases needle.len() - j,
    {
        if hay[i + j] != needle[j] {
            assert(hay@.subrange(i as int, i + needle.len())[j as int] != needle@[j as int]);
            return false;
        }
        j = j + 1;
    }
    assert(hay@.subrange(i as int, i + needle.len()) =~= needle@);
    true
}

/// `str::contains` with a `&str` pattern.
pub fn contains_str(hay: &str, needle: &str) -> (r: bool)
    ensures
        r == has_substring(hay@, needle@),
{
    let h = to_chars(hay);
    let n = to_chars(needle);
    if n.len() > h.len() {
        return false;
    }
    let last = h.len() - n.len();
    let mut i: usize = 0;
    while i < last
        invariant
            h@ == hay@,
            n@ == needle@,
            last == h.len() - n.len(),
            i <= last,
            forall|k: int| 0 <= k < i ==> #[trigger] hay@.subrange(k, k + needle@.len()) != needle@,
        decreases last - i,
    {
        if matches_at(&h, &n, i) {
            return true;
        }
        i = i + 1;
    }
    if matches_at(&h, &n, last) {
        return true;
    }
    false
}

/// The number of bytes in the UTF-8 encoding of `c`.
pub open spec fn utf8_width(c: char) -> nat {
    if (c as u32) < 0x80 {
        1
    } else if (c as u32) < 0x800 {
        2
    } else if (c as u32) < 0x10000 {
        3
    } else {
        4
    }
}

/// The number of bytes in the UTF-8 encoding of `s` (what `str::len` returns).
pub open spec fn utf8_len(s: Seq<char>) -> nat
    decreases s.len(),
{
    if s.len() == 0 {
        0
    } else {
        utf8_len(s.drop_last()) + utf8_width(s.last())
    }
}

proof fn lemma_utf8_len_first(s: Seq<char>)
    requires
        s.len() > 0,
    ensures
        utf8_len(s) == utf8_width(s[0]) + utf8_len(s.drop_first()),
    decreases s.len(),
{
    if s.len() == 1 {
        assert(s.drop_last() =~= Seq::<char>::empty());
        assert(s.drop_first() =~= Seq::<char>::empty());
    } else {
        lemma_utf8_len_first(s.drop_last());
        assert(s.drop_last().drop_first() =~= s.drop_first().drop_last());
        assert(s.drop_last()[0] == s[0]);
        assert(s.drop_first().last() == s.last());
    }
}

/// `utf8_len` is the length of the UTF-8 encoding, which is what
/// `str::len` returns.
pub proof fn lemma_utf8_len_is_encoded_length(s: Seq<char>)
    ensures
        utf8_len(s) == vstd::utf8::encode_utf8(s).len(),
    decreases s.len(),
{
    if s.len() > 0 {
        lemma_utf8_len_first(s);
        lemma_utf8_len_is_encoded_length(s.drop_first());
        let c = s[0];
        vstd::utf8::char_is_scalar(c);
        assert(vstd::utf8::encode_scalar(c as u32).len() == utf8_width(c));
    }
}

/// The UTF-8 width of one character.
pub fn char_utf8_width(c: char) -> (r: usize)
    ensures
        r == utf8_width(c),
{
    let v = c as u32;
    if v < 0x80 {
        1
    } else if v < 0x800 {
        2
    } else if v < 0x10000 {
        3
    } else {
        4
    }
}

/// The UTF-8 length of `s`, counted up to `cap`: the exact length when it
/// is below `cap`, and `cap` otherwise.
pub fn utf8_len_capped(s: &str, cap: usize) -> (r: usize)
    ensures
        r == if utf8_len(s@) < cap { utf8_len(s@) } else { cap as nat },
{
    let cs = to_chars(s);
    let mut n: usize = 0;
    let mut i: usize = 0;
    while i < cs.len()
        invariant
            cs@ == s@,
            i <= cs.len(),
            n == if utf8_len(cs@.take(i as int)) < cap {
                utf8_len(cs@.take(i as int))
            } else {
                cap as nat
            },
        decreases cs.len() - i,
    {
        let c = cs[i];
        assert(cs@.take(i + 1).drop_last() == cs@.take(i as int));
        let w = char_utf8_width(c);
        if n < cap {
            if w >= cap - n {
                n = cap;
            } else {
                n = n + w;
            }
        }
        i = i + 1;
    }
    assert(cs@.take(cs.len() as int) == s@);
    n
}

/// Whether `c` is an ASCII decimal digit (`char::is_ascii_digit`).
pub open spec fn is_digit(c: char) -> bool {
    '0' <= c && c <= '9'
}

/// `char::is_ascii_digit`: `'0'..='9'`.
pub fn is_ascii_digit(c: char) -> (r: bool)
    ensures
        r == is_digit(c),
{
    '0' <= c && c <= '9'
}

/// Whether `c` has the Unicode `Uppercase` property (`char::is_uppercase`).
pub uninterp spec fn char_is_uppercase(c: char) -> bool;

/// Whether `c` has the Unicode `Lowercase` property (`char::is_lowercase`).
pub uninterp spec fn char_is_lowercase(c: char) -> bool;

/// `char::is_uppercase`. Its result is named `char_is_uppercase`; the only
/// fact stated of it is the one the documentation shows for ASCII: among
/// ASCII characters exactly `'A'..='Z'` are uppercase.
#[verifier::external_body]
pub(crate) fn is_uppercase(c: char) -> (r: bool)
    ensures
        r == char_is_uppercase(c),
        (c as u32) < 0x80 ==> (r <==> ('A' <= c && c <= 'Z')),
{
    c.is_uppercase()
}

/// `char::is_lowercase`. Its result is named `char_is_lowercase`; the only
/// fact stated of it is the one the documentation shows for ASCII: among
/// ASCII characters exactly `'a'..='z'` are lowercase.
#[verifier::external_body]
pub(crate) fn is_lowercase(c: char) -> (r: bool)
    ensures
        r == char_is_lowercase(c),
        (c as u32) < 0x80 ==> (r <==> ('a' <= c && c <= 'z')),
{
    c.is_lowercase()
}

/// Whether every character of `s` is ASCII.
pub open spec fn all_ascii(s: Seq<char>) -> bool {
    forall|i: int| 0 <= i < s.len() ==> (#[trigger] s[i] as u32) < 0x80
}

/// `c` with `'A'..='Z'` mapped to `'a'..='z'`.
pub open spec fn ascii_lower_char(c: char) -> char {
    if 'A' <= c && c <= 'Z' {
        ((c as u32) + 32) as char
    } else {
        c
    }
}

/// `s` with each ASCII capital replaced by its small letter.
pub open spec fn ascii_lower(s: Seq<char>) -> Seq<char> {
    Seq::new(s.len(), |i: int| ascii_lower_char(s[i]))
}

/// Whether `s` holds no ASCII capital letter.
pub open spec fn no_capital(s: Seq<char>) -> bool {
    forall|i: int| 0 <= i < s.len() ==> !('A' <= #[trigger] s[i] && s[i] <= 'Z')
}

/// Making the ASCII capitals of a text small leaves no capital in it.
pub proof fn lemma_ascii_lower_has_no_capital(s: Seq<char>)
    requires
        all_ascii(s),
    ensures
        no_capital(ascii_lower(s)),
{
    assert forall|i: int| 0 <= i < ascii_lower(s).len() implies !('A' <= #[trigger] ascii_lower(
        s,
    )[i] && ascii_lower(s)[i] <= 'Z') by {
        let c = s[i];
        if 'A' <= c && c <= 'Z' {
            assert((ascii_lower_char(c) as u32) == (c as u32) + 32);
        }
    }
}

/// The lowercase equivalent of `s` by the Unicode `Lowercase` mapping
/// (`str::to_lowercase`).
pub uninterp spec fn lowercase(s: Seq<char>) -> Seq<char>;

/// `str::to_lowercase`. Its result is named `lowercase`; the one fact stated
/// of it is what it does to ASCII text: the capitals `A`-`Z` become `a`-`z`
/// and every other character stays.
#[verifier::external_body]
pub(crate) fn to_lowercase(s: &str) -> (r: String)
    ensures
        r@ == lowercase(s@),
        all_ascii(s@) ==> r@ == ascii_lower(s@),
{
    s.to_lowercase()
}

/// The character of the decimal digit `d` (`d < 10`).
pub open spec fn digit_char(d: nat) -> char {
    (('0' as nat) + d) as char
}

/// The decimal numeral of `n`, without sign or leading zeros.
pub open spec fn decimal(n: nat) -> Seq<char>
    decreases n,
{
    if n < 10 {
        seq![digit_char(n)]
    } else {
        decimal(n / 10).push(digit_char(n % 10))
    }
}

/// The decimal numeral of `n`, with a `-` in front when `n` is negative
/// (what `Display` prints for an integer).
pub open spec fn signed_decimal(n: int) -> Seq<char> {
    if n < 0 {
        seq!['-'] + decimal((-n) as nat)
    } else {
        decimal(n as nat)
    }
}

fn digit(d: u64) -> (r: char)
    requires
        d < 10,
    ensures
        r == digit_char(d as nat),
{
    let b: u8 = 48u8 + (d as u8);
    let c = b as char;
    assert(c == digit_char(d as nat)) by {
        assert((b as u32) == 48 + d);
    }
    c
}

/// Appends the decimal numeral of `n`.
pub fn push_decimal(out: &mut String, n: u64)
    ensures
        final(out)@ == old(out)@ + decimal(n as nat),
    decreases n,
{
    if n >= 10 {
        push_decimal(out, n / 10);
    }
    let d = digit(n % 10);
    string_push(out, d);
    assert(old(out)@ + decimal(n as nat) == (old(out)@ + if n >= 10 {
        decimal((n / 10) as nat)
    } else {
        Seq::<char>::empty()
    }).push(d));
}

/// Appends the decimal numeral of `n`, signed.
pub fn push_signed_decimal(out: &mut String, n: i64)
    ensures
        final(out)@ == old(out)@ + signed_decimal(n as int),
{
    if n < 0 {
        string_push(out, '-');
        let m: u64 = if n == i64::MIN {
            9223372036854775808u64
        } else {
            (-n) as u64
        };
        push_decimal(out, m);
        assert(old(out)@ + signed_decimal(n as int) == old(out)@.push('-') + decimal(m as nat));
    } else {
        push_decimal(out, n as u64);
    }
}

/// The characters of `s` are all ASCII decimal digits.
pub open spec fn all_digits(s: Seq<char>) -> bool {
    forall|i: int| 0 <= i < s.len() ==> is_digit(#[trigger] s[i])
}

/// The value of a run of decimal digits.
pub open spec fn digits_value(s: Seq<char>) -> nat
    decreases s.len(),
{
    if s.len() == 0 {
        0
    } else {
        digits_value(s.drop_last()) * 10 + ((s.last() as nat) - ('0' as nat)) as nat
    }
}

/// What `str::parse::<i64>` gives: an optional `+` or `-`, then one or more
/// ASCII digits, whose value must lie in the range of `i64`.
pub open spec fn parse_i64_spec(s: Seq<char>) -> Option<i64> {
    let neg = s.len() > 0 && s[0] == '-';
    let ds = if s.len() > 0 && (s[0] == '-' || s[0] == '+') {
        s.drop_first()
    } else {
        s
    };
    if ds.len() == 0 || !all_digits(ds) {
        None
    } else {
        let v: int = if neg {
            -(digits_value(ds) as int)
        } else {
            digits_value(ds) as int
        };
        if i64::MIN <= v && v <= i64::MAX {
            Some(v as i64)
        } else {
            None
        }
    }
}

proof fn lemma_digits_value_step(s: Seq<char>, c: char)
    requires
        is_digit(c),
    ensures
        digits_value(s.push(c)) == digits_value(s) * 10 + ((c as nat) - ('0' as nat)),
        digits_value(s.push(c)) >= digits_value(s) * 10,
{
    assert(s.push(c).drop_last() == s);
}

/// Parses a decimal `i64` as `str::parse::<i64>` does.
pub fn parse_i64(s: &str) -> (r: Option<i64>)
    ensures
        r == parse_i64_spec(s@),
{
    let cs = to_chars(s);
    let n = cs.len();
    let mut start: usize = 0;
    let mut neg = false;
    if n > 0 && (cs[0] == '-' || cs[0] == '+') {
        neg = cs[0] == '-';
        start = 1;
    }
    let ghost ds = if s@.len() > 0 && (s@[0] == '-' || s@[0] == '+') {
        s@.drop_first()
    } else {
        s@
    };
    assert(ds == cs@.subrange(start as int, n as int));
    if start >= n {
        assert(ds.len() == 0);
        return None;
    }
    // magnitude of the digits read so far; `big` once it exceeds 2^63
    let mut mag: u64 = 0;
    let mut big = false;
    let mut i = start;
    while i < n
        invariant
            start <= i <= n,
            n == cs.len(),
            cs@ == s@,
            ds == cs@.subrange(start as int, n as int),
            ds == (if s@.len() > 0 && (s@[0] == '-' || s@[0] == '+') {
                s@.drop_first()
            } else {
                s@
            }),
            all_digits(cs@.subrange(start as int, i as int)),
            !big ==> mag as nat == digits_value(cs@.subrange(start as int, i as int)),
            !big ==> mag <= 9223372036854775808u64,
            big ==> digits_value(cs@.subrange(start as int, i as int)) > 9223372036854775808,
        decreases n - i,
    {
        let c = cs[i];
        if !is_ascii_digit(c) {
            assert(ds[(i - start) as int] == c);
            assert(!all_digits(ds));
            return None;
        }
        let ghost pre = cs@.subrange(start as int, i as int);
        assert(cs@.subrange(start as int, i + 1) == pre.push(c));
        proof {
            lemma_digits_value_step(pre, c);
        }
        if !big {
            let d: u64 = (c as u32 - '0' as u32) as u64;
            if mag > 922337203685477580u64 {
                big = true;
            } else {
                let next = mag * 10 + d;
                if next > 9223372036854775808u64 {
                    big = true;
                } else {
                    mag = next;
                }
            }
        }
        i = i + 1;
    }
    assert(cs@.subrange(start as int, n as int) == ds);
    if big {
        return None;
    }
    if neg {
        if mag == 9223372036854775808u64 {
            Some(i64::MIN)
        } else {
            Some(-(mag as i64))
        }
    } else {
        if mag > 9223372036854775807u64 {
            None
        } else {
            Some(mag as i64)
        }
    }
}

/// A decimal numeral is a non-empty run of digits worth its number.
pub proof fn lemma_decimal_digits(n: nat)
    ensures
        all_digits(decimal(n)),
        digits_value(decimal(n)) == n,
        decimal(n).len() > 0,
    decreases n,
{
    if n < 10 {
        assert('0' as nat == 48);
        assert(digit_char(n) as nat == 48 + n);
        assert(decimal(n).drop_last() == Seq::<char>::empty());
        assert(decimal(n).last() == digit_char(n));
        assert(digits_value(Seq::<char>::empty()) == 0);
    } else {
        lemma_decimal_digits(n / 10);
        let s = decimal(n / 10);
        assert(digit_char(n % 10) as nat == 48 + n % 10);
        assert(decimal(n) == s.push(digit_char(n % 10)));
        assert(decimal(n).drop_last() == s);
        assert forall|i: int| 0 <= i < decimal(n).len() implies is_digit(#[trigger] decimal(n)[i]) by {
            if i < s.len() {
                assert(decimal(n)[i] == s[i]);
            }
        }
    }
}

/// The value of `s` when it is a non-empty run of decimal digits worth at
/// most `u64::MAX`.
pub open spec fn digits_u64(s: Seq<char>) -> Option<u64> {
    if s.len() > 0 && all_digits(s) && digits_value(s) <= u64::MAX {
        Some(digits_value(s) as u64)
    } else {
        None
    }
}

/// Reads the characters `cs[a..b]` as an unsigned decimal number.
pub fn parse_u64_digits(cs: &Vec<char>, a: usize, b: usize) -> (r: Option<u64>)
    requires
        a <= b <= cs.len(),
    ensures
        r == digits_u64(cs@.subrange(a as int, b as int)),
{
    if a == b {
        return None;
    }
    let mut v: u64 = 0;
    let mut i = a;
    while i < b
        invariant
            a <= i <= b <= cs.len(),
            all_digits(cs@.subrange(a as int, i as int)),
            v as nat == digits_value(cs@.subrange(a as int, i as int)),
        decreases b - i,
    {
        let c = cs[i];
        let ghost pre = cs@.subrange(a as int, i as int);
        assert(cs@.subrange(a as int, i + 1) == pre.push(c));
        if !is_ascii_digit(c) {
            assert(!all_digits(cs@.subrange(a as int, b as int))) by {
                assert(cs@.subrange(a as int, b as int)[i - a] == c);
            }
            return None;
        }
        proof {
            lemma_digits_value_step(pre, c);
        }
        let d: u64 = (c as u32 - '0' as u32) as u64;
        if v > 1844674407370955161u64 || (v == 1844674407370955161u64 && d > 5) {
            // the value only grows as digits follow
            proof {
                let whole = cs@.subrange(a as int, b as int);
                if all_digits(whole) {
                    lemma_digits_value_grows(whole, i + 1 - a);
                    assert(whole.take(i + 1 - a) == cs@.subrange(a as int, i + 1));
                }
            }
            return None;
        }
        v = v * 10 + d;
        i = i + 1;
    }
    Some(v)
}

/// A run of digits is worth at least any of its prefixes.
proof fn lemma_digits_value_grows(s: Seq<char>, k: int)
    requires
        0 <= k <= s.len(),
        all_digits(s),
    ensures
        digits_value(s) >= digits_value(s.take(k)),
    decreases s.len(),
{
    if k < s.len() {
        assert(s.drop_last().take(k) == s.take(k));
        lemma_digits_value_grows(s.drop_last(), k);
    } else {
        assert(s.take(k) == s);
    }
}

/// The first index at or after `from` where `c` stands in `cs`, or the
/// length of `cs` when there is none.
pub fn find_char(cs: &Vec<char>, from: usize, c: char) -> (k: usize)
    requires
        from <= cs.len(),
    ensures
        from <= k <= cs.len(),
        forall|m: int| from <= m < k ==> cs@[m] != c,
        k < cs.len() ==> cs@[k as int] == c,
{
    let mut k = from;
    while k < cs.len()
        invariant
            from <= k <= cs.len(),
            forall|m: int| from <= m < k ==> cs@[m] != c,
        decreases cs.len() - k,
    {
        if cs[k] == c {
            return k;
        }
        k = k + 1;
    }
    k
}

/// The characters `cs[a..b]` as a `String`.
pub fn chars_between(cs: &Vec<char>, a: usize, b: usize) -> (r: String)
    requires
        a <= b <= cs.len(),
    ensures
        r@ == cs@.subrange(a as int, b as int),
{
    let mut s = String::new();
    let mut i = a;
    while i < b
        invariant
            a <= i <= b <= cs.len(),
            s@ == cs@.subrange(a as int, i as int),
        decreases b - i,
    {
        assert(cs@.subrange(a as int, i + 1) == cs@.subrange(a as int, i as int).push(cs@[i as int]));
        string_push(&mut s, cs[i]);
        i = i + 1;
    }
    s
}

/// Reading back a printed `i64` gives the same number: `parse_i64`
/// undoes `push_signed_decimal`.
pub proof fn lemma_parse_signed_decimal(n: i64)
    ensures
        parse_i64_spec(signed_decimal(n as int)) == Some(n),
{
    if n < 0 {
        let m = (-(n as int)) as nat;
        lemma_decimal_digits(m);
        let s = seq!['-'] + decimal(m);
        assert(s.drop_first() == decimal(m));
    } else {
        lemma_decimal_digits(n as nat);
        let d = decimal(n as nat);
        assert(is_digit(d[0]));
    }
}

} // verus!
