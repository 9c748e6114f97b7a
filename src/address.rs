use vstd::prelude::*;
use crate::error::ConnectorError;
use vstd::utf8::encode_utf8;

verus! {

/// A 20-byte address on the source chain.
pub type EthAddress = [u8; 20];

/// The value of a hex digit byte, either case, or `None` for any other byte.
pub open spec fn hex_digit_value(c: u8) -> Option<u8> {
    if 48 <= c <= 57 {
        Some((c - 48) as u8)
    } else if 97 <= c <= 102 {
        Some((c - 87) as u8)
    } else if 65 <= c <= 70 {
        Some((c - 55) as u8)
    } else {
        None
    }
}

/// Hex text to bytes: an even number of hex digits, two per byte, high digit first.
pub open spec fn hex_decode_spec(s: Seq<u8>) -> Option<Seq<u8>> {
    if s.len() % 2 == 0 && forall|i: int| 0 <= i < s.len() ==> (#[trigger] hex_digit_value(s[i])) is Some {
        Some(Seq::new((s.len() / 2) as nat, |i: int|
            (16 * hex_digit_value(s[2 * i])->0 + hex_digit_value(s[2 * i + 1])->0) as u8))
    } else {
        None
    }
}

/// The address that hex text names, if it is 40 hex digits.
pub open spec fn eth_address_spec(s: Seq<u8>) -> Option<Seq<u8>> {
    match hex_decode_spec(s) {
        Some(b) => if b.len() == 20 { Some(b) } else { None },
        None => None,
    }
}

/// The lower-case hex digit for a value below 16.
pub open spec fn lower_hex_digit(v: u8) -> char {
    if v < 10 {
        (v + '0' as u8) as char
    } else {
        (v - 10 + 'a' as u8) as char
    }
}

/// Bytes to lower-case hex text, two digits per byte, high digit first.
pub open spec fn hex_encode_spec(b: Seq<u8>) -> Seq<char> {
    Seq::new(2 * b.len(), |i: int|
        if i % 2 == 0 { lower_hex_digit(b[i / 2] / 16) } else { lower_hex_digit(b[i / 2] % 16) })
}

/// Relies on hex::decode: both cases accepted, an odd length or a non-hex
/// character is an error.
#[verifier::external_body]
fn hex_decode(s: &[u8]) -> (r: Option<Vec<u8>>)
    ensures
        match r {
            Some(b) => hex_decode_spec(s@) == Some(b@),
            None => hex_decode_spec(s@) is None,
        },
{
    hex::decode(s).ok()
}

/// Relies on hex::encode: two lower-case digits for each byte.
#[verifier::external_body]
fn hex_encode(b: &[u8]) -> (r: String)
    ensures
        r@ == hex_encode_spec(b@),
{
    hex::encode(b)
}

/// Reads an address from the bytes of its hex text.
pub fn decode_eth_address(text: &[u8]) -> (r: Result<EthAddress, ConnectorError>)
    ensures
        match eth_address_spec(text@) {
            Some(b) => r matches Ok(a) && a@ == b,
            None => r == Err::<EthAddress, ConnectorError>(ConnectorError::InvalidAddressFormat),
        },
{
    let data = match hex_decode(text) {
        Some(d) => d,
        None => return Err(ConnectorError::InvalidAddressFormat),
    };
    if data.len() != 20 {
        return Err(ConnectorError::InvalidAddressFormat);
    }
    let mut result: EthAddress = [0u8; 20];
    let mut i: usize = 0;
    while i < 20
        invariant
            i <= 20,
            data@.len() == 20,
            forall|j: int| 0 <= j < i ==> result@[j] == data@[j],
        decreases 20 - i,
    {
        result[i] = data[i];
        i = i + 1;
    }
    assert(result@ =~= data@);
    Ok(result)
}

/// Validates an address written as hex text and returns its 20 bytes.
pub fn validate_eth_address(address: String) -> (r: Result<EthAddress, ConnectorError>)
    ensures
        match eth_address_spec(encode_utf8(address@)) {
            Some(b) => r matches Ok(a) && a@ == b,
            None => r == Err::<EthAddress, ConnectorError>(ConnectorError::InvalidAddressFormat),
        },
{
    decode_eth_address(address.as_str().as_bytes())
}

/// Writes an address as 40 lower-case hex digits.
pub fn encode_eth_address(address: &EthAddress) -> (r: String)
    ensures
        r@ == hex_encode_spec(address@),
        r@.len() == 40,
{
    hex_encode(address.as_slice())
}

} // verus!
