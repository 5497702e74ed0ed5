use vstd::prelude::*;
use vstd::string::*;

verus! {

/// `String::push`: appends one character at the end of the string.
pub assume_specification[ String::push ](s: &mut String, ch: char)
    ensures
        final(s)@ == old(s)@.push(ch),
;

/// The lowercase hexadecimal digit for a nibble `0..16`.
pub open spec fn hex_digit(d: int) -> char {
    if d < 10 {
        (d + 48) as char
    } else {
        (d + 87) as char
    }
}

/// Two lowercase hexadecimal digits per byte, high nibble first.
pub open spec fn hex_text(bytes: Seq<u8>) -> Seq<char> {
    Seq::new(
        2 * bytes.len(),
        |i: int|
            if i % 2 == 0 {
                hex_digit(bytes[i / 2] as int / 16)
            } else {
                hex_digit(bytes[i / 2] as int % 16)
            },
    )
}

/// The value of a lowercase hexadecimal digit.
pub open spec fn hex_value(c: char) -> int {
    if (c as u32) <= 57 {
        c as u32 - 48
    } else {
        c as u32 - 87
    }
}

/// Hex text is two digits per byte, each `0`-`9` or `a`-`f`, and every pair of digits reads back
/// as its byte, leading zero included.
pub proof fn lemma_hex_text(bytes: Seq<u8>)
    ensures
        hex_text(bytes).len() == 2 * bytes.len(),
        forall|i: int|
            0 <= i < hex_text(bytes).len() ==> ('0' <= #[trigger] hex_text(bytes)[i] <= '9') || (
            'a' <= hex_text(bytes)[i] <= 'f'),
        forall|i: int|
            0 <= i < bytes.len() ==> 16 * hex_value(hex_text(bytes)[2 * i]) + hex_value(
                hex_text(bytes)[2 * i + 1],
            ) == #[trigger] bytes[i],
{
    assert forall|i: int| 0 <= i < hex_text(bytes).len() implies ('0' <= #[trigger] hex_text(
        bytes,
    )[i] <= '9') || ('a' <= hex_text(bytes)[i] <= 'f') by {
        let d = if i % 2 == 0 {
            bytes[i / 2] as int / 16
        } else {
            bytes[i / 2] as int % 16
        };
        assert(0 <= d < 16);
        assert(hex_text(bytes)[i] == hex_digit(d));
        if d < 10 {
            assert(hex_digit(d) as u32 == d + 48);
        } else {
            assert(hex_digit(d) as u32 == d + 87);
        }
    }
    assert forall|i: int| 0 <= i < bytes.len() implies 16 * hex_value(hex_text(bytes)[2 * i])
        + hex_value(hex_text(bytes)[2 * i + 1]) == #[trigger] bytes[i] by {
        let hi = bytes[i] as int / 16;
        let lo = bytes[i] as int % 16;
        assert((2 * i) / 2 == i && (2 * i) % 2 == 0);
        assert((2 * i + 1) / 2 == i && (2 * i + 1) % 2 == 1);
        assert(hex_text(bytes)[2 * i] == hex_digit(hi));
        assert(hex_text(bytes)[2 * i + 1] == hex_digit(lo));
        if hi < 10 {
            assert(hex_digit(hi) as u32 == hi + 48);
        } else {
            assert(hex_digit(hi) as u32 == hi + 87);
        }
        if lo < 10 {
            assert(hex_digit(lo) as u32 == lo + 48);
        } else {
            assert(hex_digit(lo) as u32 == lo + 87);
        }
    }
}

/// The hex text of two byte strings put together is their hex texts put together.
pub proof fn lemma_hex_concat(a: Seq<u8>, b: Seq<u8>)
    ensures
        hex_text(a + b) == hex_text(a) + hex_text(b),
{
    let l = hex_text(a + b);
    let r = hex_text(a) + hex_text(b);
    assert forall|i: int| 0 <= i < l.len() implies #[trigger] l[i] == r[i] by {
        if i < 2 * a.len() {
            assert(i / 2 < a.len());
            assert((a + b)[i / 2] == a[i / 2]);
        } else {
            let j = i - 2 * a.len();
            assert(j / 2 == i / 2 - a.len() && j % 2 == i % 2);
            assert((a + b)[i / 2] == b[j / 2]);
        }
    }
    assert(l =~= r);
}

fn hex_digit_char(d: u8) -> (c: char)
    requires
        d < 16,
    ensures
        c == hex_digit(d as int),
{
    if d < 10 {
        (d + 48) as char
    } else {
        (d + 87) as char
    }
}

/// Encodes bytes as lowercase hexadecimal text, two digits per byte.
pub fn hex(bytes: &[u8]) -> (text: String)
    ensures
        text@ == hex_text(bytes@),
{
    let mut text = String::new();
    let mut i: usize = 0;
    while i < bytes.len()
        invariant
            i <= bytes@.len(),
            text@.len() == 2 * i,
            forall|j: int| 0 <= j < 2 * i ==> text@[j] == #[trigger] hex_text(bytes@)[j],
        decreases bytes@.len() - i,
    {
        let b = bytes[i];
        text.push(hex_digit_char(b / 16));
        text.push(hex_digit_char(b % 16));
        i = i + 1;
    }
    assert(text@ =~= hex_text(bytes@));
    text
}

/// The decimal digit for `0..10`.
pub open spec fn decimal_digit(d: int) -> char {
    (d + 48) as char
}

/// The decimal text of a natural number, without sign or leading zeros.
pub open spec fn decimal_text(n: nat) -> Seq<char>
    decreases n,
{
    if n < 10 {
        seq![decimal_digit(n as int)]
    } else {
        decimal_text(n / 10).push(decimal_digit((n % 10) as int))
    }
}

/// Appends the decimal text of `n` to `s`.
pub fn push_decimal(s: &mut String, n: u64)
    ensures
        final(s)@ == old(s)@ + decimal_text(n as nat),
    decreases n,
{
    if n >= 10 {
        push_decimal(s, n / 10);
    }
    let d = (n % 10) as u8;
    s.push((d + 48) as char);
    proof {
        if n >= 10 {
            assert(decimal_text(n as nat) == decimal_text((n / 10) as nat).push(decimal_digit((n % 10) as int)));
        } else {
            assert(decimal_text(n as nat) =~= seq![decimal_digit(n as int)]);
        }
    }
}

/// The decimal text of `n`.
pub fn decimal(n: u64) -> (text: String)
    ensures
        text@ == decimal_text(n as nat),
{
    let mut text = String::new();
    push_decimal(&mut text, n);
    assert(text@ =~= decimal_text(n as nat));
    text
}

/// The decimal text of a number is never empty.
pub proof fn lemma_decimal_nonempty(n: nat)
    ensures
        decimal_text(n).len() >= 1,
        n >= 10 ==> decimal_text(n).len() >= 2,
    decreases n,
{
    if n >= 10 {
        lemma_decimal_nonempty(n / 10);
    }
}

/// Decimal text consists of the digits `0` to `9` only.
pub proof fn lemma_decimal_digits(n: nat)
    ensures
        forall|i: int|
            0 <= i < decimal_text(n).len() ==> 48 <= (#[trigger] decimal_text(n)[i]) as u32 <= 57,
    decreases n,
{
    if n >= 10 {
        lemma_decimal_digits(n / 10);
        assert forall|i: int| 0 <= i < decimal_text(n).len() implies 48 <= (
        #[trigger] decimal_text(n)[i]) as u32 <= 57 by {
            if i < decimal_text(n / 10).len() {
                assert(decimal_text(n)[i] == decimal_text(n / 10)[i]);
            } else {
                assert(decimal_text(n)[i] == decimal_digit((n % 10) as int));
            }
        }
    } else {
        assert(decimal_text(n)[0] == decimal_digit(n as int));
    }
}

/// Different numbers have different decimal texts.
pub proof fn lemma_decimal_injective(a: nat, b: nat)
    requires
        decimal_text(a) == decimal_text(b),
    ensures
        a == b,
    decreases a,
{
    lemma_decimal_nonempty(a);
    lemma_decimal_nonempty(b);
    if a < 10 && b < 10 {
        assert(decimal_text(a)[0] == decimal_digit(a as int));
        assert(decimal_text(b)[0] == decimal_digit(b as int));
        assert(decimal_digit(a as int) as u32 == a + 48);
        assert(decimal_digit(b as int) as u32 == b + 48);
    } else if a >= 10 && b >= 10 {
        let da = decimal_text(a);
        let db = decimal_text(b);
        assert(da.last() == decimal_digit((a % 10) as int));
        assert(db.last() == decimal_digit((b % 10) as int));
        assert(decimal_digit((a % 10) as int) as u32 == a % 10 + 48);
        assert(decimal_digit((b % 10) as int) as u32 == b % 10 + 48);
        assert(da.drop_last() =~= decimal_text(a / 10));
        assert(db.drop_last() =~= decimal_text(b / 10));
        lemma_decimal_injective(a / 10, b / 10);
    }
}

/// Whether `c` has the Unicode `White_Space` property, the set that `char::is_whitespace` tests.
pub open spec fn is_white_space(c: char) -> bool {
    let u = c as u32;
    ||| 0x09 <= u <= 0x0d
    ||| u == 0x20
    ||| u == 0x85
    ||| u == 0xa0
    ||| u == 0x1680
    ||| 0x2000 <= u <= 0x200a
    ||| u == 0x2028
    ||| u == 0x2029
    ||| u == 0x202f
    ||| u == 0x205f
    ||| u == 0x3000
}

/// Whether every character of `s` is white space, i.e. `s.trim()` is empty.
pub open spec fn is_blank(s: Seq<char>) -> bool {
    forall|i: int| 0 <= i < s.len() ==> is_white_space(#[trigger] s[i])
}

pub fn white_space(c: char) -> (b: bool)
    ensures
        b == is_white_space(c),
{
    let u = c as u32;
    (0x09 <= u && u <= 0x0d) || u == 0x20 || u == 0x85 || u == 0xa0 || u == 0x1680 || (0x2000 <= u
        && u <= 0x200a) || u == 0x2028 || u == 0x2029 || u == 0x202f || u == 0x205f || u == 0x3000
}

/// Whether `s` consists of white space only (the empty string included).
pub fn blank(s: &str) -> (b: bool)
    ensures
        b == is_blank(s@),
{
    let n = s.unicode_len();
    let mut i: usize = 0;
    while i < n
        invariant
            n == s@.len(),
            i <= n,
            forall|j: int| 0 <= j < i ==> is_white_space(#[trigger] s@[j]),
        decreases n - i,
    {
        if !white_space(s.get_char(i)) {
            return false;
        }
        i = i + 1;
    }
    true
}

/// Character-wise equality of two string slices.
pub fn str_eq(a: &str, b: &str) -> (eq: bool)
    ensures
        eq == (a@ == b@),
{
    let n = a.unicode_len();
    if n != b.unicode_len() {
        return false;
    }
    let mut i: usize = 0;
    while i < n
        invariant
            n == a@.len(),
            n == b@.len(),
            i <= n,
            forall|j: int| 0 <= j < i ==> a@[j] == b@[j],
        decreases n - i,
    {
        if a.get_char(i) != b.get_char(i) {
            return false;
        }
        i = i + 1;
    }
    assert(a@ =~= b@);
    true
}

/// `s` with every leading and trailing `'/'` removed, as `str::trim_matches('/')` does.
pub open spec fn without_slashes(s: Seq<char>) -> Seq<char>
    decreases s.len(),
{
    if s.len() > 0 && s[0] == '/' {
        without_slashes(s.drop_first())
    } else if s.len() > 0 && s.last() == '/' {
        without_slashes(s.drop_last())
    } else {
        s
    }
}

/// Trimming slashes leaves no slash at either end, keeps a contiguous part of the text, and
/// trimming again changes nothing.
pub proof fn lemma_without_slashes(s: Seq<char>)
    ensures
        without_slashes(s).len() == 0 || (without_slashes(s)[0] != '/' && without_slashes(s).last()
            != '/'),
        exists|a: int, b: int|
            0 <= a <= b <= s.len() && #[trigger] s.subrange(a, b) == without_slashes(s),
        without_slashes(without_slashes(s)) == without_slashes(s),
    decreases s.len(),
{
    if s.len() > 0 && s[0] == '/' {
        lemma_without_slashes(s.drop_first());
        let (a, b) = choose|a: int, b: int|
            0 <= a <= b <= s.drop_first().len() && #[trigger] s.drop_first().subrange(a, b)
                == without_slashes(s.drop_first());
        assert(s.subrange(a + 1, b + 1) =~= s.drop_first().subrange(a, b));
    } else if s.len() > 0 && s.last() == '/' {
        lemma_without_slashes(s.drop_last());
        let (a, b) = choose|a: int, b: int|
            0 <= a <= b <= s.drop_last().len() && #[trigger] s.drop_last().subrange(a, b)
                == without_slashes(s.drop_last());
        assert(s.subrange(a, b) =~= s.drop_last().subrange(a, b));
    } else {
        assert(s.subrange(0, s.len() as int) =~= s);
    }
}

/// `s` holds no `'/'`.
pub open spec fn no_slash(s: Seq<char>) -> bool {
    forall|i: int| 0 <= i < s.len() ==> #[trigger] s[i] != '/'
}

/// A path joined at a slash splits back at its first slash: when neither first part holds a
/// slash, equal joins have equal parts.
pub proof fn lemma_split_at_slash(a: Seq<char>, b: Seq<char>, c: Seq<char>, d: Seq<char>)
    requires
        no_slash(a),
        no_slash(c),
        a + "/"@ + b == c + "/"@ + d,
    ensures
        a == c,
        b == d,
{
    reveal_strlit("/");
    let l = a + "/"@ + b;
    let r = c + "/"@ + d;
    if a.len() < c.len() {
        assert(l[a.len() as int] == '/');
        assert(r[a.len() as int] == c[a.len() as int]);
    } else if c.len() < a.len() {
        assert(r[c.len() as int] == '/');
        assert(l[c.len() as int] == a[c.len() as int]);
    } else {
        assert(a =~= l.subrange(0, a.len() as int));
        assert(c =~= r.subrange(0, c.len() as int));
        assert(b =~= l.subrange(a.len() as int + 1, l.len() as int));
        assert(d =~= r.subrange(c.len() as int + 1, r.len() as int));
    }
}

/// Removes every leading and trailing `'/'` from `s`.
pub fn trim_slashes(s: &str) -> (trimmed: String)
    ensures
        trimmed@ == without_slashes(s@),
{
    let n = s.unicode_len();
    let mut a: usize = 0;
    assert(s@.subrange(0, n as int) =~= s@);
    while a < n && s.get_char(a) == '/'
        invariant
            n == s@.len(),
            a <= n,
            without_slashes(s@) == without_slashes(s@.subrange(a as int, n as int)),
        decreases n - a,
    {
        assert(s@.subrange(a as int, n as int).drop_first() =~= s@.subrange(a + 1, n as int));
        a = a + 1;
    }
    let mut b: usize = n;
    while b > a && s.get_char(b - 1) == '/'
        invariant
            n == s@.len(),
            a <= b <= n,
            a < b ==> s@[a as int] != '/',
            without_slashes(s@) == without_slashes(s@.subrange(a as int, b as int)),
        decreases b - a,
    {
        assert(s@.subrange(a as int, b as int).drop_last() =~= s@.subrange(a as int, b - 1));
        b = b - 1;
    }
    let kept = s.substring_char(a, b);
    kept.to_owned()
}

/// What `format!("{:?}", s)` gives for a string: the text in double quotes, with escapes.
pub uninterp spec fn debug_quoted(s: Seq<char>) -> Seq<char>;

/// `format!("{:?}", s)`: the `Debug` rendering of a string slice, which the result equals
/// as `debug_quoted` of the text. How the escaping works is not stated.
#[verifier::external_body]
pub(crate) fn debug_quote(s: &str) -> (quoted: String)
    ensures
        quoted@ == debug_quoted(s@),
{
    format!("{:?}", s)
}

} // verus!
