//! Lowercase hex spelling of byte strings, used for linking identifiers.

use vstd::prelude::*;

verus! {

/// The lowercase hex digit for a nibble value below 16.
pub open spec fn hex_digit(n: u8) -> char {
    if n == 0 {
        '0'
    } else if n == 1 {
        '1'
    } else if n == 2 {
        '2'
    } else if n == 3 {
        '3'
    } else if n == 4 {
        '4'
    } else if n == 5 {
        '5'
    } else if n == 6 {
        '6'
    } else if n == 7 {
        '7'
    } else if n == 8 {
        '8'
    } else if n == 9 {
        '9'
    } else if n == 10 {
        'a'
    } else if n == 11 {
        'b'
    } else if n == 12 {
        'c'
    } else if n == 13 {
        'd'
    } else if n == 14 {
        'e'
    } else {
        'f'
    }
}

/// Each byte becomes two lowercase hex digits, high nibble first.
pub open spec fn hex_of(bytes: Seq<u8>) -> Seq<char>
    decreases bytes.len(),
{
    if bytes.len() == 0 {
        Seq::empty()
    } else {
        seq![hex_digit(bytes[0] / 16), hex_digit(bytes[0] % 16)] + hex_of(bytes.drop_first())
    }
}

/// A lowercase hex digit.
pub open spec fn is_hex_digit(c: char) -> bool {
    c == '0' || c == '1' || c == '2' || c == '3' || c == '4' || c == '5' || c == '6' || c == '7'
        || c == '8' || c == '9' || c == 'a' || c == 'b' || c == 'c' || c == 'd' || c == 'e' || c
        == 'f'
}

/// The hex spelling is twice as long as the input and made of hex digits.
pub proof fn lemma_hex_of_shape(bytes: Seq<u8>)
    ensures
        hex_of(bytes).len() == 2 * bytes.len(),
        forall|i: int| 0 <= i < hex_of(bytes).len() ==> is_hex_digit(#[trigger] hex_of(bytes)[i]),
    decreases bytes.len(),
{
    if bytes.len() > 0 {
        lemma_hex_of_shape(bytes.drop_first());
    }
}

/// Two byte strings of one length with the same hex spelling are the same.
pub proof fn lemma_hex_of_injective(x: Seq<u8>, y: Seq<u8>)
    requires
        x.len() == y.len(),
        hex_of(x) == hex_of(y),
    ensures
        x == y,
    decreases x.len(),
{
    if x.len() > 0 {
        lemma_hex_of_shape(x.drop_first());
        lemma_hex_of_shape(y.drop_first());
        assert(hex_of(x)[0] == hex_digit(x[0] / 16) && hex_of(x)[1] == hex_digit(x[0] % 16));
        assert(hex_of(y)[0] == hex_digit(y[0] / 16) && hex_of(y)[1] == hex_digit(y[0] % 16));
        assert(x[0] == y[0]);
        assert(hex_of(x.drop_first()) =~= hex_of(x).skip(2));
        assert(hex_of(y.drop_first()) =~= hex_of(y).skip(2));
        lemma_hex_of_injective(x.drop_first(), y.drop_first());
        assert forall|i: int| 0 <= i < x.len() implies x[i] == y[i] by {
            if i > 0 {
                assert(x.drop_first()[i - 1] == y.drop_first()[i - 1]);
            }
        }
        assert(x =~= y);
    } else {
        assert(x =~= y);
    }
}

/// Relies on `hex::encode`: it writes each input byte as two lowercase hex
/// digits, high nibble first, in input order.
#[verifier::external_body]
pub(crate) fn hex_encode(bytes: &Vec<u8>) -> (r: String)
    ensures
        r@ == hex_of(bytes@),
{
    hex::encode(bytes.as_slice())
}

} // verus!
