use vstd::prelude::*;
use crate::abi::{ParamKind, TokenValue};
use crate::address::{encode_eth_address, hex_encode_spec, EthAddress};
use crate::error::ConnectorError;
use crate::event::{decode_event_spec, named_values_view, params_view, EthEvent, EventParamSpec};

verus! {

/// The address a field value holds, if it is an address.
pub open spec fn token_address_spec(v: TokenValue) -> Option<Seq<u8>> {
    match v {
        TokenValue::Address(a) => Some(a@),
        _ => None,
    }
}

/// The amount an unsigned 256-bit field value holds, if it is one and fits in 128 bits.
pub open spec fn token_u128_spec(v: TokenValue) -> Option<u128> {
    match v {
        TokenValue::Uint(limbs) => if limbs@[2] == 0 && limbs@[3] == 0 {
            Some((limbs@[0] as int + limbs@[1] as int * 0x1_0000_0000_0000_0000) as u128)
        } else {
            None
        },
        _ => None,
    }
}

/// The text a field value holds, if it is a string.
pub open spec fn token_string_spec(v: TokenValue) -> Option<Seq<char>> {
    match v {
        TokenValue::String(s) => Some(s@),
        _ => None,
    }
}

fn token_address(v: &TokenValue) -> (r: Option<EthAddress>)
    ensures
        match r {
            Some(a) => token_address_spec(*v) == Some(a@),
            None => token_address_spec(*v) is None,
        },
{
    match v {
        TokenValue::Address(a) => Some(*a),
        _ => None,
    }
}

fn token_u128(v: &TokenValue) -> (r: Option<u128>)
    ensures
        r == token_u128_spec(*v),
{
    match v {
        TokenValue::Uint(limbs) => {
            if limbs[2] == 0 && limbs[3] == 0 {
                Some(limbs[0] as u128 + (limbs[1] as u128) * 0x1_0000_0000_0000_0000u128)
            } else {
                None
            }
        },
        _ => None,
    }
}

fn token_string(v: &TokenValue) -> (r: Option<String>)
    ensures
        match r {
            Some(s) => token_string_spec(*v) == Some(s@),
            None => token_string_spec(*v) is None,
        },
{
    match v {
        TokenValue::String(s) => Some(s.clone()),
        _ => None,
    }
}

/// A transfer event as plain values: emitting contract, token and sender
/// addresses as hex text, amount and recipient account.
pub struct TransferEventView {
    pub custodian: Seq<u8>,
    pub token: Seq<char>,
    pub sender: Seq<char>,
    pub amount: u128,
    pub recipient: Seq<char>,
}

/// The shape of the `Locked` event: token and sender in topics, amount and
/// recipient in the payload.
pub open spec fn locked_event_shape() -> Seq<(Seq<char>, ParamKind, bool)> {
    seq![
        ("token"@, ParamKind::Address, true),
        ("sender"@, ParamKind::Address, true),
        ("amount"@, ParamKind::Uint(256), false),
        ("recipient"@, ParamKind::String, false),
    ]
}

/// The field values alone, in declared order.
pub open spec fn values_of(params: Seq<(Seq<char>, TokenValue)>) -> Seq<TokenValue> {
    params.map_values(|p: (Seq<char>, TokenValue)| p.1)
}

/// What the decoded fields of a `Locked` event say, for an event emitted by
/// `custodian`.
pub open spec fn locked_fields_spec(custodian: Seq<u8>, v: Seq<TokenValue>) -> Result<TransferEventView, ConnectorError> {
    if v.len() == 4 && token_address_spec(v[0]) is Some && token_address_spec(v[1]) is Some
        && token_u128_spec(v[2]) is Some && token_string_spec(v[3]) is Some {
        Ok(TransferEventView {
            custodian,
            token: hex_encode_spec(token_address_spec(v[0])->0),
            sender: hex_encode_spec(token_address_spec(v[1])->0),
            amount: token_u128_spec(v[2])->0,
            recipient: token_string_spec(v[3])->0,
        })
    } else {
        Err(ConnectorError::EventShapeMismatch)
    }
}

/// What a log entry says as a `Locked` event.
pub open spec fn locked_event_spec(data: Seq<u8>) -> Result<TransferEventView, ConnectorError> {
    match decode_event_spec("Locked"@, locked_event_shape(), data) {
        Err(e) => Err(e),
        Ok(d) => locked_fields_spec(d.0, values_of(d.1)),
    }
}

/// The shape of the `Unlocked` event: token account and recipient in the
/// payload, sender in a topic.
pub open spec fn unlocked_event_shape() -> Seq<(Seq<char>, ParamKind, bool)> {
    seq![
        ("token"@, ParamKind::String, false),
        ("sender"@, ParamKind::Address, true),
        ("amount"@, ParamKind::Uint(256), false),
        ("recipient"@, ParamKind::String, false),
    ]
}

/// What the decoded fields of an `Unlocked` event say, for an event emitted
/// by `custodian`.
pub open spec fn unlocked_fields_spec(custodian: Seq<u8>, v: Seq<TokenValue>) -> Result<TransferEventView, ConnectorError> {
    if v.len() == 4 && token_string_spec(v[0]) is Some && token_address_spec(v[1]) is Some
        && token_u128_spec(v[2]) is Some && token_string_spec(v[3]) is Some {
        Ok(TransferEventView {
            custodian,
            token: token_string_spec(v[0])->0,
            sender: hex_encode_spec(token_address_spec(v[1])->0),
            amount: token_u128_spec(v[2])->0,
            recipient: token_string_spec(v[3])->0,
        })
    } else {
        Err(ConnectorError::EventShapeMismatch)
    }
}

/// What a log entry says as an `Unlocked` event.
pub open spec fn unlocked_event_spec(data: Seq<u8>) -> Result<TransferEventView, ConnectorError> {
    match decode_event_spec("Unlocked"@, unlocked_event_shape(), data) {
        Err(e) => Err(e),
        Ok(d) => unlocked_fields_spec(d.0, values_of(d.1)),
    }
}

fn param(name: &str, kind: ParamKind, indexed: bool) -> (r: EventParamSpec)
    ensures
        r.name@ == name@,
        r.kind == kind,
        r.indexed == indexed,
{
    EventParamSpec { name: name.to_owned(), kind, indexed }
}

/// A transfer event read from a source-chain log entry.
pub struct EthTransferEvent {
    pub eth_custodian_address: EthAddress,
    pub token: String,
    pub sender: String,
    pub amount: u128,
    pub recipient: String,
}

impl EthTransferEvent {
    pub open spec fn view(&self) -> TransferEventView {
        TransferEventView {
            custodian: self.eth_custodian_address@,
            token: self.token@,
            sender: self.sender@,
            amount: self.amount,
            recipient: self.recipient@,
        }
    }

    /// The fields of the `Locked` event, in declared order.
    pub fn locked_event_params() -> (r: Vec<EventParamSpec>)
        ensures
            params_view(r@) == locked_event_shape(),
    {
        let r = vec![
            param("token", ParamKind::Address, true),
            param("sender", ParamKind::Address, true),
            param("amount", ParamKind::Uint(256), false),
            param("recipient", ParamKind::String, false),
        ];
        assert(params_view(r@) =~= locked_event_shape());
        r
    }

    /// The fields of the `Unlocked` event, in declared order.
    pub fn unlocked_event_params() -> (r: Vec<EventParamSpec>)
        ensures
            params_view(r@) == unlocked_event_shape(),
    {
        let r = vec![
            param("token", ParamKind::String, false),
            param("sender", ParamKind::Address, true),
            param("amount", ParamKind::Uint(256), false),
            param("recipient", ParamKind::String, false),
        ];
        assert(params_view(r@) =~= unlocked_event_shape());
        r
    }

    /// Reads the fields of a decoded `Locked` event.
    pub fn from_locked_event(event: &EthEvent) -> (r: Result<EthTransferEvent, ConnectorError>)
        ensures
            match locked_fields_spec(event.eth_custodian_address@, values_of(named_values_view(event.params@))) {
                Ok(v) => r matches Ok(e) && e.view() == v,
                Err(err) => r matches Err(x) && x == err,
            },
    {
        let v = &event.params;
        let ghost vals = values_of(named_values_view(event.params@));
        assert(vals.len() == v@.len());
        if v.len() != 4 {
            return Err(ConnectorError::EventShapeMismatch);
        }
        assert(vals[0] == v@[0].1 && vals[1] == v@[1].1 && vals[2] == v@[2].1 && vals[3] == v@[3].1);
        let token = match token_address(&v[0].1) {
            Some(a) => encode_eth_address(&a),
            None => return Err(ConnectorError::EventShapeMismatch),
        };
        let sender = match token_address(&v[1].1) {
            Some(a) => encode_eth_address(&a),
            None => return Err(ConnectorError::EventShapeMismatch),
        };
        let amount = match token_u128(&v[2].1) {
            Some(x) => x,
            None => return Err(ConnectorError::EventShapeMismatch),
        };
        let recipient = match token_string(&v[3].1) {
            Some(s) => s,
            None => return Err(ConnectorError::EventShapeMismatch),
        };
        Ok(EthTransferEvent { eth_custodian_address: event.eth_custodian_address, token, sender, amount, recipient })
    }

    /// Reads the fields of a decoded `Unlocked` event.
    pub fn from_unlocked_event(event: &EthEvent) -> (r: Result<EthTransferEvent, ConnectorError>)
        ensures
            match unlocked_fields_spec(event.eth_custodian_address@, values_of(named_values_view(event.params@))) {
                Ok(v) => r matches Ok(e) && e.view() == v,
                Err(err) => r matches Err(x) && x == err,
            },
    {
        let v = &event.params;
        let ghost vals = values_of(named_values_view(event.params@));
        assert(vals.len() == v@.len());
        if v.len() != 4 {
            return Err(ConnectorError::EventShapeMismatch);
        }
        assert(vals[0] == v@[0].1 && vals[1] == v@[1].1 && vals[2] == v@[2].1 && vals[3] == v@[3].1);
        let token = match token_string(&v[0].1) {
            Some(s) => s,
            None => return Err(ConnectorError::EventShapeMismatch),
        };
        let sender = match token_address(&v[1].1) {
            Some(a) => encode_eth_address(&a),
            None => return Err(ConnectorError::EventShapeMismatch),
        };
        let amount = match token_u128(&v[2].1) {
            Some(x) => x,
            None => return Err(ConnectorError::EventShapeMismatch),
        };
        let recipient = match token_string(&v[3].1) {
            Some(s) => s,
            None => return Err(ConnectorError::EventShapeMismatch),
        };
        Ok(EthTransferEvent { eth_custodian_address: event.eth_custodian_address, token, sender, amount, recipient })
    }

    /// Reads a `Locked` event: tokens locked on the source chain for a
    /// recipient here.
    pub fn from_locked_log_entry_data(data: &[u8]) -> (r: Result<EthTransferEvent, ConnectorError>)
        ensures
            match locked_event_spec(data@) {
                Ok(v) => r matches Ok(e) && e.view() == v,
                Err(err) => r matches Err(x) && x == err,
            },
    {
        let event = EthEvent::from_log_entry_data("Locked", Self::locked_event_params(), data)?;
        Self::from_locked_event(&event)
    }

    /// Reads an `Unlocked` event: tokens released on the source chain to be
    /// handed back to a recipient here.
    pub fn from_unlocked_log_entry_data(data: &[u8]) -> (r: Result<EthTransferEvent, ConnectorError>)
        ensures
            match unlocked_event_spec(data@) {
                Ok(v) => r matches Ok(e) && e.view() == v,
                Err(err) => r matches Err(x) && x == err,
            },
    {
        let event = EthEvent::from_log_entry_data("Unlocked", Self::unlocked_event_params(), data)?;
        Self::from_unlocked_event(&event)
    }
}

} // verus!
