//! Byte-level encodings: hexadecimal text and fixed-width byte strings.

use vstd::prelude::*;

verus! {

/// The sixteen lowercase hexadecimal digits, in order of value.
pub open spec fn hex_digits() -> Seq<char> {
    seq!['0', '1', '2', '3', '4', '5', '6', '7', '8', '9', 'a', 'b', 'c', 'd', 'e', 'f']
}

/// True for the characters that occur in lowercase hexadecimal text.
pub open spec fn is_hex_digit(c: char) -> bool {
    hex_digits().contains(c)
}

/// Lowercase hexadecimal text of `bytes`: two digits per byte, high nibble first.
pub open spec fn hex_string(bytes: Seq<u8>) -> Seq<char> {
    Seq::new(
        2 * bytes.len(),
        |i: int|
            if i % 2 == 0 {
                hex_digits()[bytes[i / 2] as int / 16]
            } else {
                hex_digits()[bytes[i / 2] as int % 16]
            },
    )
}

/// Calls `alloy::hex::encode`. Trusted: the text returned is the lowercase
/// hexadecimal rendering of the input, two digits for each byte and no prefix.
#[verifier::external_body]
pub(crate) fn hex_encode(bytes: &[u8]) -> (text: String)
    ensures
        text@ == hex_string(bytes@),
{
    alloy::hex::encode(bytes)
}

/// Calls `alloy::primitives::FixedBytes::<N>::try_from` on a slice. Trusted: the
/// conversion succeeds exactly when the slice holds `N` bytes, and then keeps them.
#[verifier::external_body]
pub(crate) fn fixed_bytes<const N: usize>(bytes: &[u8]) -> (fixed: Option<[u8; N]>)
    ensures
        fixed is Some <==> bytes@.len() == N,
        fixed is Some ==> fixed->0@ == bytes@,
{
    match alloy::primitives::FixedBytes::<N>::try_from(bytes) {
        Ok(value) => Some(value.0),
        Err(_) => None,
    }
}

/// Every character of hexadecimal text is a hexadecimal digit, and the text
/// is twice as long as the bytes it renders.
pub proof fn lemma_hex_string_shape(bytes: Seq<u8>)
    ensures
        hex_string(bytes).len() == 2 * bytes.len(),
        forall|i: int| 0 <= i < hex_string(bytes).len() ==> is_hex_digit(#[trigger] hex_string(bytes)[i]),
{
    assert forall|i: int| 0 <= i < hex_string(bytes).len() implies is_hex_digit(
        #[trigger] hex_string(bytes)[i],
    ) by {
        let b = bytes[i / 2] as int;
        let n = if i % 2 == 0 { b / 16 } else { b % 16 };
        assert(0 <= n < 16);
        assert(hex_string(bytes)[i] == hex_digits()[n]);
    }
}

} // verus!
