use vstd::prelude::*;

verus! {

/// Relies on ethabi::ParamType: a public enum whose variants are read as
/// they are declared.
#[verifier::external_type_specification]
pub struct ExParamType(ethabi::ParamType);

/// Relies on ethereum_types::H160: a public tuple struct of 20 bytes.
#[verifier::external_type_specification]
pub struct ExH160(ethabi::ethereum_types::H160);

/// Relies on ethereum_types::U256: a public tuple struct of four 64-bit
/// limbs, least significant first.
#[verifier::external_type_specification]
pub struct ExU256(ethabi::ethereum_types::U256);

/// Relies on ethabi::Token: a public enum whose variants are read as they
/// are declared.
#[verifier::external_type_specification]
pub struct ExToken(ethabi::Token);

/// The primitive kinds an event field can have.
#[derive(Debug, Clone, Copy, PartialEq, Eq, Structural)]
pub enum ParamKind {
    Address,
    Bytes,
    Int(usize),
    Uint(usize),
    Bool,
    String,
    FixedBytes(usize),
}

impl ParamKind {
    /// The same kind as ethabi names it.
    pub fn to_abi(&self) -> (r: ethabi::ParamType)
        ensures
            r == match *self {
                ParamKind::Address => ethabi::ParamType::Address,
                ParamKind::Bytes => ethabi::ParamType::Bytes,
                ParamKind::Int(n) => ethabi::ParamType::Int(n),
                ParamKind::Uint(n) => ethabi::ParamType::Uint(n),
                ParamKind::Bool => ethabi::ParamType::Bool,
                ParamKind::String => ethabi::ParamType::String,
                ParamKind::FixedBytes(n) => ethabi::ParamType::FixedBytes(n),
            },
    {
        match self {
            ParamKind::Address => ethabi::ParamType::Address,
            ParamKind::Bytes => ethabi::ParamType::Bytes,
            ParamKind::Int(n) => ethabi::ParamType::Int(*n),
            ParamKind::Uint(n) => ethabi::ParamType::Uint(*n),
            ParamKind::Bool => ethabi::ParamType::Bool,
            ParamKind::String => ethabi::ParamType::String,
            ParamKind::FixedBytes(n) => ethabi::ParamType::FixedBytes(*n),
        }
    }
}

/// A decoded field value, one variant per field kind: an address, bytes,
/// signed and unsigned integers as four 64-bit limbs (least significant
/// first, two's complement for signed ones), a flag, a string, fixed-size
/// bytes; and arrays or tuples, which no field kind here declares.
pub enum TokenValue {
    Address([u8; 20]),
    Bytes(Vec<u8>),
    Int([u64; 4]),
    Uint([u64; 4]),
    Bool(bool),
    String(String),
    FixedBytes(Vec<u8>),
    Composite,
}

impl TokenValue {
    /// The value ethabi decoded, as this library holds it.
    pub fn from_abi(t: ethabi::Token) -> (r: TokenValue)
        ensures
            r == match t {
                ethabi::Token::Address(a) => TokenValue::Address(a.0),
                ethabi::Token::Bytes(b) => TokenValue::Bytes(b),
                ethabi::Token::Int(u) => TokenValue::Int(u.0),
                ethabi::Token::Uint(u) => TokenValue::Uint(u.0),
                ethabi::Token::Bool(b) => TokenValue::Bool(b),
                ethabi::Token::String(s) => TokenValue::String(s),
                ethabi::Token::FixedBytes(b) => TokenValue::FixedBytes(b),
                _ => TokenValue::Composite,
            },
    {
        match t {
            ethabi::Token::Address(a) => TokenValue::Address(a.0),
            ethabi::Token::Bytes(b) => TokenValue::Bytes(b),
            ethabi::Token::Int(u) => TokenValue::Int(u.0),
            ethabi::Token::Uint(u) => TokenValue::Uint(u.0),
            ethabi::Token::Bool(b) => TokenValue::Bool(b),
            ethabi::Token::String(s) => TokenValue::String(s),
            ethabi::Token::FixedBytes(b) => TokenValue::FixedBytes(b),
            _ => TokenValue::Composite,
        }
    }
}

/// A kind that ethabi decodes without arithmetic overflow: fixed-size bytes
/// are `bytes1` to `bytes32`.
pub open spec fn kind_supported(k: ParamKind) -> bool {
    match k {
        ParamKind::FixedBytes(n) => 1 <= n <= 32,
        _ => true,
    }
}

/// Whether ethabi can decode this kind without arithmetic overflow.
pub fn is_supported_kind(k: &ParamKind) -> (r: bool)
    ensures
        r == kind_supported(*k),
{
    match k {
        ParamKind::FixedBytes(n) => 1 <= *n && *n <= 32,
        _ => true,
    }
}

} // verus!
