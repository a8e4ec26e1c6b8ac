//! Text and byte encodings used when deriving seeds and building messages.

use vstd::prelude::*;

verus! {

/// The decimal digit for a value below ten.
pub open spec fn digit_char(d: nat) -> char {
    if d == 0 {
        '0'
    } else if d == 1 {
        '1'
    } else if d == 2 {
        '2'
    } else if d == 3 {
        '3'
    } else if d == 4 {
        '4'
    } else if d == 5 {
        '5'
    } else if d == 6 {
        '6'
    } else if d == 7 {
        '7'
    } else if d == 8 {
        '8'
    } else {
        '9'
    }
}

/// Decimal notation of a natural number, most significant digit first,
/// without leading zeros.
pub open spec fn decimal(n: nat) -> Seq<char>
    decreases n,
{
    if n < 10 {
        seq![digit_char(n)]
    } else {
        decimal(n / 10).push(digit_char(n % 10))
    }
}

/// Trusted: `u128::to_string` of the standard library writes the number in
/// decimal notation, without sign, padding or leading zeros.
#[verifier::external_body]
pub(crate) fn u128_to_string(n: u128) -> (s: String)
    ensures
        s@ == decimal(n as nat),
{
    n.to_string()
}

/// What `str::trim` leaves of a text: the text without its leading and
/// trailing white space.
pub uninterp spec fn trimmed(s: Seq<char>) -> Seq<char>;

/// Trusted: `str::trim` of the standard library returns a slice of its
/// argument that depends on the characters alone.
#[verifier::external_body]
pub(crate) fn trim(s: &str) -> (r: &str)
    ensures
        r@ == trimmed(s@),
{
    s.trim()
}

/// `256` to the power `k`.
pub open spec fn pow256(k: nat) -> nat
    decreases k,
{
    if k == 0 {
        1
    } else {
        256 * pow256((k - 1) as nat)
    }
}

/// Big-endian encoding of `x` in `width` bytes: byte `i` holds the
/// `i`-th most significant base-256 digit.
pub open spec fn be_bytes(x: nat, width: nat) -> Seq<u8> {
    Seq::new(width, |i: int| ((x / pow256((width - 1 - i) as nat)) % 256) as u8)
}

/// Appends the big-endian encoding of `x` in `width` bytes to `out`.
fn push_be_bytes(out: &mut Vec<u8>, x: u64, width: u8)
    requires
        1 <= width <= 8,
    ensures
        final(out)@ == old(out)@ + be_bytes(x as nat, width as nat),
{
    let mut divisor: u64 = 1;
    let mut k: u8 = 1;
    while k < width
        invariant
            1 <= k <= width <= 8,
            divisor == pow256((k - 1) as nat),
        decreases width - k,
    {
        proof {
            lemma_pow256_monotonic((k - 1) as nat, 6);
            lemma_pow256_six();
        }
        divisor = divisor * 256;
        k = k + 1;
    }
    let mut i: u8 = 0;
    while i < width
        invariant
            i <= width <= 8,
            i < width ==> divisor == pow256((width - 1 - i) as nat),
            out@ == old(out)@ + be_bytes(x as nat, width as nat).subrange(0, i as int),
        decreases width - i,
    {
        assert(divisor > 0) by {
            lemma_pow256_positive((width - 1 - i) as nat);
        }
        let byte: u8 = ((x / divisor) % 256) as u8;
        out.push(byte);
        proof {
            let full = be_bytes(x as nat, width as nat);
            assert(full[i as int] == byte);
            assert(full.subrange(0, i as int + 1) =~= full.subrange(0, i as int).push(byte));
            assert(out@ =~= old(out)@ + full.subrange(0, i as int + 1));
            if i + 1 < width {
                assert(pow256((width - 1 - i) as nat) == 256 * pow256((width - 2 - i) as nat));
            }
        }
        if i + 1 < width {
            divisor = divisor / 256;
        }
        i = i + 1;
    }
    proof {
        let full = be_bytes(x as nat, width as nat);
        assert(full.subrange(0, width as int) =~= full);
    }
}

proof fn lemma_pow256_six()
    ensures
        pow256(6) == 0x1_0000_0000_0000,
{
    assert(pow256(0) == 1);
    assert(pow256(1) == 0x100);
    assert(pow256(2) == 0x1_0000);
    assert(pow256(3) == 0x100_0000);
    assert(pow256(4) == 0x1_0000_0000);
    assert(pow256(5) == 0x100_0000_0000);
}

proof fn lemma_pow256_positive(k: nat)
    ensures
        pow256(k) > 0,
    decreases k,
{
    if k > 0 {
        lemma_pow256_positive((k - 1) as nat);
    }
}

proof fn lemma_pow256_monotonic(a: nat, b: nat)
    requires
        a <= b,
    ensures
        pow256(a) <= pow256(b),
    decreases b,
{
    if a < b {
        lemma_pow256_monotonic(a, (b - 1) as nat);
        lemma_pow256_positive((b - 1) as nat);
    }
}

/// Appends the eight-byte big-endian encoding of `x`.
pub fn push_u64_be(out: &mut Vec<u8>, x: u64)
    ensures
        final(out)@ == old(out)@ + be_bytes(x as nat, 8),
{
    push_be_bytes(out, x, 8);
}

/// Appends the four-byte big-endian encoding of `x`.
pub fn push_u32_be(out: &mut Vec<u8>, x: u32)
    ensures
        final(out)@ == old(out)@ + be_bytes(x as nat, 4),
{
    push_be_bytes(out, x as u64, 4);
}

/// Appends the UTF-8 encoding of `s`.
pub fn push_str_bytes(out: &mut Vec<u8>, s: &str)
    ensures
        final(out)@ == old(out)@ + vstd::utf8::encode_utf8(s@),
{
    out.extend_from_slice(s.as_bytes());
}

} // verus!
