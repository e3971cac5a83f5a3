//! ASCII byte-string helpers: hex-character classification, case mapping,
//! decimal rendering of integers, and small verified vector utilities the
//! address pipeline builds on.

use vstd::prelude::*;

verus! {

/// The byte is an ASCII decimal digit (`'0'..='9'`).
pub open spec fn is_digit_byte(b: u8) -> bool {
    48 <= b <= 57
}

/// The byte is a lowercase hex character: a digit or `'a'..='f'`.
pub open spec fn is_lower_hex_byte(b: u8) -> bool {
    is_digit_byte(b) || (97 <= b <= 102)
}

/// Every byte of the sequence is a lowercase hex character.
pub open spec fn is_lower_hex(s: Seq<u8>) -> bool {
    forall|i: int| 0 <= i < s.len() ==> is_lower_hex_byte(#[trigger] s[i])
}

/// Uppercases one ASCII hex character; digits are unchanged.
pub open spec fn to_upper_hex_byte(b: u8) -> u8 {
    if 97 <= b <= 102 {
        (b - 32) as u8
    } else {
        b
    }
}

/// Lowercases one ASCII byte; everything but `'A'..='Z'` is unchanged.
pub open spec fn to_lower_byte(b: u8) -> u8 {
    if 65 <= b <= 90 {
        (b + 32) as u8
    } else {
        b
    }
}

/// The characters an ASCII byte string decodes to, byte for byte.
pub open spec fn ascii_chars(s: Seq<u8>) -> Seq<char> {
    s.map(|i: int, b: u8| b as char)
}

/// Digits of `n` in base 10, most significant first, as ASCII bytes;
/// empty for zero (the zero case is handled by `dec_bytes`).
pub open spec fn dec_rec(n: nat) -> Seq<u8>
    decreases n,
{
    if n == 0 {
        Seq::empty()
    } else {
        dec_rec(n / 10).push((48 + n % 10) as u8)
    }
}

/// The usual decimal rendering of `n` as ASCII bytes: `"0"` for zero,
/// otherwise the digits of `n` with no leading zero.
pub open spec fn dec_bytes(n: nat) -> Seq<u8> {
    if n == 0 {
        seq![48u8]
    } else {
        dec_rec(n)
    }
}

/// The decimal rendering of `n` as characters.
pub open spec fn dec_chars(n: nat) -> Seq<char> {
    ascii_chars(dec_bytes(n))
}

/// Every byte of `dec_rec(n)` is an ASCII decimal digit.
pub proof fn lemma_dec_rec_digits(n: nat)
    ensures
        forall|i: int| 0 <= i < dec_rec(n).len() ==> is_digit_byte(#[trigger] dec_rec(n)[i]),
    decreases n,
{
    if n != 0 {
        lemma_dec_rec_digits(n / 10);
        assert(dec_rec(n) == dec_rec(n / 10).push((48 + n % 10) as u8));
        assert forall|i: int| 0 <= i < dec_rec(n).len() implies is_digit_byte(
            #[trigger] dec_rec(n)[i],
        ) by {
            if i < dec_rec(n / 10).len() {
                assert(dec_rec(n)[i] == dec_rec(n / 10)[i]);
            } else {
                assert(dec_rec(n)[i] == (48 + n % 10) as u8);
            }
        }
    }
}

/// Copies the bytes of `v` between `start` and `end`.
pub fn sub_vec(v: &Vec<u8>, start: usize, end: usize) -> (r: Vec<u8>)
    requires
        start <= end <= v@.len(),
    ensures
        r@ == v@.subrange(start as int, end as int),
{
    let mut r: Vec<u8> = Vec::new();
    let mut i: usize = start;
    while i < end
        invariant
            start <= i <= end <= v@.len(),
            r@ == v@.subrange(start as int, i as int),
        decreases end - i,
    {
        r.push(v[i]);
        i = i + 1;
        proof {
            assert(r@ =~= v@.subrange(start as int, i as int));
        }
    }
    r
}

/// Compares two byte vectors for equality.
pub fn bytes_eq(a: &Vec<u8>, b: &Vec<u8>) -> (r: bool)
    ensures
        r == (a@ == b@),
{
    if a.len() != b.len() {
        proof {
            assert(a@ != b@);
        }
        return false;
    }
    let mut i: usize = 0;
    while i < a.len()
        invariant
            0 <= i <= a@.len(),
            a@.len() == b@.len(),
            forall|j: int| 0 <= j < i ==> a@[j] == b@[j],
        decreases a@.len() - i,
    {
        if a[i] != b[i] {
            return false;
        }
        i = i + 1;
    }
    proof {
        assert(a@ =~= b@);
    }
    true
}

/// Lowercases every ASCII byte of `v`.
pub fn to_lower_bytes(v: &Vec<u8>) -> (r: Vec<u8>)
    ensures
        r@ == v@.map(|i: int, b: u8| to_lower_byte(b)),
{
    let mut r: Vec<u8> = Vec::new();
    let mut i: usize = 0;
    while i < v.len()
        invariant
            0 <= i <= v@.len(),
            r@.len() == i,
            forall|j: int| 0 <= j < i ==> r@[j] == to_lower_byte(#[trigger] v@[j]),
        decreases v@.len() - i,
    {
        let b = v[i];
        if 65 <= b && b <= 90 {
            r.push(b + 32);
        } else {
            r.push(b);
        }
        i = i + 1;
    }
    proof {
        assert(r@ =~= v@.map(|i: int, b: u8| to_lower_byte(b)));
    }
    r
}

/// Relies on std's `String::from_utf8`: ASCII bytes are valid UTF-8 and
/// decode to exactly those characters, one character per byte.
#[verifier::external_body]
pub(crate) fn ascii_to_string(bytes: Vec<u8>) -> (r: String)
    requires
        forall|i: int| 0 <= i < bytes@.len() ==> bytes@[i] < 128,
    ensures
        r@ == ascii_chars(bytes@),
{
    String::from_utf8(bytes).unwrap()
}

/// Renders `n` in decimal, most significant digit first, `"0"` for zero.
pub fn u64_to_decimal(n: u64) -> (r: String)
    ensures
        r@ == dec_chars(n as nat),
{
    let mut rev: Vec<u8> = Vec::new();
    if n == 0 {
        rev.push(48);
    } else {
        let mut m: u64 = n;
        while m != 0
            invariant
                dec_rec(n as nat) == dec_rec(m as nat) + rev@.reverse(),
            decreases m,
        {
            let d: u8 = (m % 10) as u8;
            let ghost old_m = m as nat;
            let ghost old_rev = rev@;
            rev.push(48 + d);
            m = m / 10;
            proof {
                assert(dec_rec(old_m) == dec_rec(old_m / 10).push((48 + old_m % 10) as u8));
                assert(rev@.reverse() =~= seq![(48 + old_m % 10) as u8] + old_rev.reverse());
                assert(dec_rec(m as nat) + rev@.reverse() =~= dec_rec(old_m) + old_rev.reverse());
            }
        }
    }
    let mut out: Vec<u8> = Vec::new();
    let mut i: usize = rev.len();
    while i > 0
        invariant
            i <= rev@.len(),
            out@.len() == rev@.len() - i,
            forall|j: int| 0 <= j < out@.len() ==> out@[j] == rev@[rev@.len() - 1 - j],
        decreases i,
    {
        i = i - 1;
        out.push(rev[i]);
    }
    proof {
        assert(out@ =~= rev@.reverse());
        assert(out@ =~= dec_bytes(n as nat));
        lemma_dec_rec_digits(n as nat);
        assert(forall|k: int| 0 <= k < out@.len() ==> out@[k] < 128);
    }
    ascii_to_string(out)
}

} // verus!
