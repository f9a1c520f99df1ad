//! Standard base64 without padding (RFC 4648, section 4).
use base64::Engine;
use vstd::prelude::*;

verus! {

/// The symbol of the standard base64 alphabet for a six-bit value.
pub open spec fn base64_symbol(v: int) -> char {
    if v < 26 {
        (65 + v) as char
    } else if v < 52 {
        (97 + v - 26) as char
    } else if v < 62 {
        (48 + v - 52) as char
    } else if v == 62 {
        '+'
    } else {
        '/'
    }
}

/// The standard base64 text of `b`, without `=` padding: each group of three
/// bytes gives four symbols, a final group of one or two bytes gives two or
/// three symbols.
pub open spec fn base64_text(b: Seq<u8>) -> Seq<char>
    decreases b.len(),
{
    let x = b[0] as int;
    let y = b[1] as int;
    let z = b[2] as int;
    if b.len() == 0 {
        Seq::empty()
    } else if b.len() == 1 {
        seq![base64_symbol(x / 4), base64_symbol((x % 4) * 16)]
    } else if b.len() == 2 {
        seq![
            base64_symbol(x / 4),
            base64_symbol((x % 4) * 16 + y / 16),
            base64_symbol((y % 16) * 4),
        ]
    } else {
        seq![
            base64_symbol(x / 4),
            base64_symbol((x % 4) * 16 + y / 16),
            base64_symbol((y % 16) * 4 + z / 64),
            base64_symbol(z % 64),
        ] + base64_text(b.subrange(3, b.len() as int))
    }
}

/// The length of the unpadded base64 text of `n` bytes.
pub open spec fn base64_len(n: nat) -> nat {
    (n / 3) * 4 + if n % 3 == 0 {
        0nat
    } else if n % 3 == 1 {
        2nat
    } else {
        3nat
    }
}

/// The encoded text is `base64_len` long.
pub proof fn lemma_base64_len(b: Seq<u8>)
    ensures
        base64_text(b).len() == base64_len(b.len()),
    decreases b.len(),
{
    if b.len() >= 3 {
        lemma_base64_len(b.subrange(3, b.len() as int));
    }
}

/// `base64::engine::general_purpose::STANDARD_NO_PAD.encode(bytes)`: the
/// standard alphabet, no padding. The crate panics when the output length
/// overflows `usize`, which the precondition rules out.
#[verifier::external_body]
pub fn base64_encode(bytes: &[u8]) -> (s: String)
    requires
        base64_len(bytes@.len()) <= usize::MAX,
    ensures
        s@ == base64_text(bytes@),
{
    base64::engine::general_purpose::STANDARD_NO_PAD.encode(bytes)
}

} // verus!
