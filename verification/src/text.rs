//! Text renderings of byte strings and integers used in API responses and
//! configuration values: lowercase hex, hex parsing of fixed-size hashes, and
//! decimal rendering of token amounts.

use vstd::prelude::*;

verus! {

/// The lowercase hex digit for a nibble.
pub open spec fn hex_digit(n: int) -> char {
    if n == 0 { '0' } else if n == 1 { '1' } else if n == 2 { '2' } else if n == 3 { '3' }
    else if n == 4 { '4' } else if n == 5 { '5' } else if n == 6 { '6' } else if n == 7 { '7' }
    else if n == 8 { '8' } else if n == 9 { '9' } else if n == 10 { 'a' } else if n == 11 { 'b' }
    else if n == 12 { 'c' } else if n == 13 { 'd' } else if n == 14 { 'e' } else { 'f' }
}

/// Lowercase hex encoding: two characters per byte, high nibble first.
pub open spec fn hex_lower(bytes: Seq<u8>) -> Seq<char>
    decreases bytes.len(),
{
    if bytes.len() == 0 {
        Seq::empty()
    } else {
        seq![hex_digit((bytes[0] / 16) as int), hex_digit((bytes[0] % 16) as int)] + hex_lower(bytes.drop_first())
    }
}

/// The value of a hex character (either case), if it is one.
pub open spec fn hex_value(c: char) -> Option<u8> {
    if '0' <= c && c <= '9' {
        Some((c as u32 - '0' as u32) as u8)
    } else if 'a' <= c && c <= 'f' {
        Some((c as u32 - 'a' as u32 + 10) as u8)
    } else if 'A' <= c && c <= 'F' {
        Some((c as u32 - 'A' as u32 + 10) as u8)
    } else {
        None
    }
}

/// Whether every character of `s` is a hex digit.
pub open spec fn all_hex(s: Seq<char>) -> bool {
    forall|i: int| 0 <= i < s.len() ==> (#[trigger] hex_value(s[i])) is Some
}

/// The bytes that a hex string of even length denotes (meaningful where `all_hex`).
pub open spec fn hex_bytes(s: Seq<char>) -> Seq<u8> {
    Seq::new(
        s.len() / 2,
        |i: int| (hex_value(s[2 * i])->0 * 16 + hex_value(s[2 * i + 1])->0) as u8,
    )
}

/// Decoding of a hex string into exactly `n` bytes: `None` unless the string
/// has `2 * n` characters, all of them hex digits.
pub open spec fn hex_decode_exact(s: Seq<char>, n: nat) -> Option<Seq<u8>> {
    if s.len() == 2 * n && all_hex(s) {
        Some(hex_bytes(s))
    } else {
        None
    }
}

/// Lowercase hex encoding of `data`.
///
/// Trusted: calls `hex::encode`, which maps each byte to the two characters of
/// the table `0123456789abcdef` for its high and its low nibble, in order.
#[verifier::external_body]
pub(crate) fn hex_encode(data: &[u8]) -> (r: String)
    ensures
        r@ == hex_lower(data@),
{
    hex::encode(data)
}

/// Parses a 28-byte hash written in hex.
///
/// Trusted: calls `FromStr` of `pallas_crypto::hash::Hash<28>`, which runs
/// `hex::decode_to_slice` into a 28-byte buffer: it fails unless the text has
/// 56 bytes, each a hex digit of either case. A non-ASCII character makes the
/// byte length differ from the character count or is itself no hex digit, so
/// the contract can speak of characters.
#[verifier::external_body]
pub(crate) fn parse_hash28(s: &str) -> (r: Option<[u8; 28]>)
    ensures
        match r {
            Some(h) => hex_decode_exact(s@, 28) == Some(h@),
            None => hex_decode_exact(s@, 28) is None,
        },
{
    match s.parse::<pallas_crypto::hash::Hash<28>>() {
        Ok(h) => Some(*h),
        Err(_) => None,
    }
}

/// The decimal digits of `n`, most significant first, without leading zeros
/// (`"0"` for zero).
pub open spec fn decimal(n: nat) -> Seq<char>
    decreases n,
{
    if n < 10 {
        seq![hex_digit(n as int)]
    } else {
        decimal(n / 10) + seq![hex_digit((n % 10) as int)]
    }
}

fn digit_str(d: u8) -> (s: &'static str)
    requires
        d < 10,
    ensures
        s@ == seq![hex_digit(d as int)],
{
    proof {
        reveal_strlit("0");
        reveal_strlit("1");
        reveal_strlit("2");
        reveal_strlit("3");
        reveal_strlit("4");
        reveal_strlit("5");
        reveal_strlit("6");
        reveal_strlit("7");
        reveal_strlit("8");
        reveal_strlit("9");
    }
    if d == 0 { "0" } else if d == 1 { "1" } else if d == 2 { "2" } else if d == 3 { "3" }
    else if d == 4 { "4" } else if d == 5 { "5" } else if d == 6 { "6" } else if d == 7 { "7" }
    else if d == 8 { "8" } else { "9" }
}

/// Decimal rendering of an amount, as `to_string` writes it.
pub fn u128_decimal(n: u128) -> (r: String)
    ensures
        r@ == decimal(n as nat),
{
    // digits, least significant first
    let mut digits: Vec<u8> = Vec::new();
    let mut m: u128 = n;
    let ghost mut rest: Seq<char> = Seq::empty();
    while m >= 10
        invariant
            m <= n,
            forall|i: int| 0 <= i < digits.len() ==> digits[i] < 10,
            decimal(n as nat) == decimal(m as nat) + rest,
            rest.len() == digits.len(),
            forall|i: int| 0 <= i < rest.len()
                ==> rest[i] == hex_digit(digits[digits.len() - 1 - i] as int),
        decreases m,
    {
        let d = (m % 10) as u8;
        proof {
            let old_rest = rest;
            rest = seq![hex_digit(d as int)] + old_rest;
            assert(decimal(n as nat) == decimal((m / 10) as nat) + rest);
        }
        digits.push(d);
        m = m / 10;
    }
    digits.push(m as u8);
    proof {
        let old_rest = rest;
        rest = seq![hex_digit(m as int)] + old_rest;
    }
    let mut r = String::new();
    let len = digits.len();
    let mut k: usize = 0;
    while k < len
        invariant
            len == digits.len(),
            k <= len,
            r@ == rest.subrange(0, k as int),
            digits.len() == rest.len(),
            forall|i: int| 0 <= i < rest.len()
                ==> rest[i] == hex_digit(digits[digits.len() - 1 - i] as int),
            forall|i: int| 0 <= i < digits.len() ==> digits[i] < 10,
        decreases len - k,
    {
        let s = digit_str(digits[len - 1 - k]);
        r.append(s);
        assert(rest.subrange(0, k + 1) == rest.subrange(0, k as int) + seq![rest[k as int]]);
        k = k + 1;
    }
    assert(rest.subrange(0, len as int) == rest);
    r
}

/// Whether `needle` occurs in `hay` as a contiguous run of characters.
pub open spec fn contains_seq(hay: Seq<char>, needle: Seq<char>) -> bool {
    exists|i: int| 0 <= i && i + needle.len() <= hay.len() && #[trigger] hay.subrange(i, i + needle.len()) == needle
}

/// Whether `needle` occurs in `hay`.
pub fn str_contains(hay: &str, needle: &str) -> (r: bool)
    ensures
        r == contains_seq(hay@, needle@),
{
    let n = hay.unicode_len();
    let m = needle.unicode_len();
    if m > n {
        assert(!contains_seq(hay@, needle@));
        return false;
    }
    let mut i: usize = 0;
    while i <= n - m
        invariant
            n == hay@.len(),
            m == needle@.len(),
            m <= n,
            i <= n - m + 1,
            forall|p: int| 0 <= p < i ==> #[trigger] hay@.subrange(p, p + m) != needle@,
        decreases n - m + 1 - i,
    {
        let mut j: usize = 0;
        let mut same = true;
        while j < m
            invariant
                j <= m,
                i + m <= n,
                n == hay@.len(),
                m == needle@.len(),
                same == (forall|q: int| 0 <= q < j ==> hay@[i + q] == needle@[q]),
            decreases m - j,
        {
            if hay.get_char(i + j) != needle.get_char(j) {
                same = false;
            }
            j = j + 1;
        }
        if same {
            assert(hay@.subrange(i as int, i + m) =~= needle@);
            return true;
        }
        proof {
            let q = choose|q: int| 0 <= q < m && hay@[i + q] != needle@[q];
            assert(hay@.subrange(i as int, i + m)[q] != needle@[q]);
        }
        i = i + 1;
    }
    proof {
        assert forall|p: int| 0 <= p && p + needle@.len() <= hay@.len() implies
            #[trigger] hay@.subrange(p, p + needle@.len()) != needle@ by {
            assert(p < i);
        }
    }
    false
}

} // verus!
