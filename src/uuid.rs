//! Canonical text form of 16-byte spatial entity identifiers.

use vstd::prelude::*;

verus! {

/// Number of bytes in a spatial entity identifier.
pub const UUID_SIZE: usize = 16;

/// The lower-case hexadecimal digit for a value below sixteen.
pub open spec fn hex_char(n: int) -> char {
    seq!['0', '1', '2', '3', '4', '5', '6', '7', '8', '9', 'a', 'b', 'c', 'd', 'e', 'f'][n]
}

/// Whether `c` is a lower-case hexadecimal digit.
pub open spec fn is_lower_hex(c: char) -> bool {
    ('0' <= c && c <= '9') || ('a' <= c && c <= 'f')
}

/// Two hex digits per byte, high nibble first, no separators.
pub open spec fn canonical(bytes: Seq<u8>) -> Seq<char> {
    Seq::new(
        2 * bytes.len(),
        |i: int|
            if i % 2 == 0 {
                hex_char(bytes[i / 2] as int / 16)
            } else {
                hex_char(bytes[i / 2] as int % 16)
            },
    )
}

/// The all-zero identifier stands for "absent".
pub open spec fn is_nil(bytes: Seq<u8>) -> bool {
    forall|i: int| 0 <= i < bytes.len() ==> bytes[i] == 0
}

proof fn lemma_hex_char(n: int)
    requires
        0 <= n < 16,
    ensures
        is_lower_hex(hex_char(n)),
        forall|m: int| 0 <= m < 16 && hex_char(m) == hex_char(n) ==> m == n,
{
}

/// The canonical form of any byte string is twice as long and made only of
/// lower-case hexadecimal digits.
pub proof fn lemma_canonical_is_lower_hex(bytes: Seq<u8>)
    ensures
        canonical(bytes).len() == 2 * bytes.len(),
        forall|i: int| 0 <= i < canonical(bytes).len() ==> is_lower_hex(#[trigger] canonical(bytes)[i]),
{
    assert forall|i: int| 0 <= i < canonical(bytes).len() implies is_lower_hex(#[trigger] canonical(bytes)[i]) by {
        lemma_hex_char(bytes[i / 2] as int / 16);
        lemma_hex_char(bytes[i / 2] as int % 16);
    }
}

/// Two identifiers have the same canonical form exactly when they hold the
/// same bytes, so the text can serve as a key.
pub proof fn lemma_canonical_injective(x: Seq<u8>, y: Seq<u8>)
    requires
        x.len() == UUID_SIZE,
        y.len() == UUID_SIZE,
    ensures
        canonical(x) == canonical(y) <==> x == y,
{
    if canonical(x) == canonical(y) {
        assert forall|k: int| 0 <= k < x.len() implies x[k] == y[k] by {
            assert(canonical(x)[2 * k] == canonical(y)[2 * k]);
            assert(canonical(x)[2 * k + 1] == canonical(y)[2 * k + 1]);
            lemma_hex_char(x[k] as int / 16);
            lemma_hex_char(x[k] as int % 16);
            lemma_hex_char(y[k] as int / 16);
            lemma_hex_char(y[k] as int % 16);
            assert(x[k] as int / 16 == y[k] as int / 16);
            assert(x[k] as int % 16 == y[k] as int % 16);
        }
        assert(x =~= y);
    }
}

/// The digit for a nibble, as a one-character string slice.
fn hex_digit(n: u8) -> (r: &'static str)
    requires
        n < 16,
    ensures
        r@ == seq![hex_char(n as int)],
{
    let digits = "0123456789abcdef";
    proof {
        reveal_strlit("0123456789abcdef");
    }
    assert(digits.is_ascii());
    let r = digits.substring_ascii(n as usize, n as usize + 1);
    assert(r@ =~= seq![hex_char(n as int)]);
    r
}

/// Lower-case hexadecimal text of an identifier: 32 characters, two per
/// byte, no separators.
pub fn canonicalize(bytes: &[u8; 16]) -> (r: String)
    ensures
        r@ == canonical(bytes@),
        r@.len() == 32,
{
    let mut s = String::new();
    let mut i: usize = 0;
    while i < UUID_SIZE
        invariant
            i <= UUID_SIZE,
            bytes@.len() == UUID_SIZE,
            s@ =~= canonical(bytes@.take(i as int)),
        decreases UUID_SIZE - i,
    {
        let b = bytes[i];
        s.append(hex_digit(b / 16));
        s.append(hex_digit(b % 16));
        assert(canonical(bytes@.take(i as int + 1)) =~= canonical(bytes@.take(i as int)) + seq![
            hex_char(b as int / 16),
            hex_char(b as int % 16),
        ]);
        i = i + 1;
    }
    assert(bytes@.take(16) =~= bytes@);
    s
}

/// Whether every byte of the identifier is zero.
pub fn is_nil_uuid(bytes: &[u8; 16]) -> (r: bool)
    ensures
        r == is_nil(bytes@),
{
    let mut i: usize = 0;
    while i < UUID_SIZE
        invariant
            i <= UUID_SIZE,
            bytes@.len() == UUID_SIZE,
            forall|j: int| 0 <= j < i ==> bytes@[j] == 0,
        decreases UUID_SIZE - i,
    {
        if bytes[i] != 0 {
            return false;
        }
        i = i + 1;
    }
    true
}

} // verus!
