use vstd::prelude::*;
use crate::abi::{is_supported_kind, kind_supported, ParamKind, TokenValue};
use crate::address::EthAddress;
use crate::error::ConnectorError;

verus! {

/// One declared field of an event: its name, its kind, and whether it is
/// carried in a topic (indexed) or in the payload.
#[derive(Debug, Clone)]
pub struct EventParamSpec {
    pub name: String,
    pub kind: ParamKind,
    pub indexed: bool,
}

/// The declared shape of an event, as plain values.
pub open spec fn params_view(params: Seq<EventParamSpec>) -> Seq<(Seq<char>, ParamKind, bool)> {
    params.map_values(|p: EventParamSpec| (p.name@, p.kind, p.indexed))
}

/// Field names and values as plain values.
pub open spec fn named_values_view(v: Seq<(String, TokenValue)>) -> Seq<(Seq<char>, TokenValue)> {
    v.map_values(|p: (String, TokenValue)| (p.0@, p.1))
}

/// What an RLP-encoded log entry holds: the number of items of the outer
/// list, the bytes of items 0 and 2, and the byte strings of the list at
/// item 1; or `None` where the bytes are no such list.
pub uninterp spec fn rlp_log_entry_of(data: Seq<u8>) -> Option<(usize, Seq<u8>, Seq<Seq<u8>>, Seq<u8>)>;

/// The named field values that the ABI decoding of an event with the given
/// name and fields reads from topics and payload, in declared order, or
/// `None` where they do not fit.
pub uninterp spec fn abi_log_params_of(
    name: Seq<char>,
    params: Seq<(Seq<char>, ParamKind, bool)>,
    topics: Seq<Seq<u8>>,
    data: Seq<u8>,
) -> Option<Seq<(Seq<char>, TokenValue)>>;

/// Relies on rlp::Rlp::item_count, rlp::Rlp::val_at and rlp::Rlp::list_at:
/// counts the items of the outer list, reads items 0 and 2 as byte strings
/// and item 1 as a list of byte strings.
#[verifier::external_body]
fn rlp_log_entry(data: &[u8]) -> (r: Option<(usize, Vec<u8>, Vec<Vec<u8>>, Vec<u8>)>)
    ensures
        match r {
            Some(e) => rlp_log_entry_of(data@) == Some(
                (e.0, e.1@, e.2@.map_values(|t: Vec<u8>| t@), e.3@),
            ),
            None => rlp_log_entry_of(data@) is None,
        },
{
    let rlp = rlp::Rlp::new(data);
    match (rlp.item_count(), rlp.val_at(0), rlp.list_at(1), rlp.val_at(2)) {
        (Ok(count), Ok(address), Ok(topics), Ok(payload)) => Some((count, address, topics, payload)),
        _ => None,
    }
}

/// Relies on ethabi::Event::parse_log for a non-anonymous event: checks the
/// signature topic and yields one value per declared field, named as the
/// field, in declared order. Its decoder adds offsets and lengths read from
/// the payload, which cannot overflow a 64-bit `usize`; a fixed-size bytes
/// field longer than 32 could.
#[verifier::external_body]
fn abi_parse_log(
    name: &String,
    params: &Vec<EventParamSpec>,
    topics: &Vec<Vec<u8>>,
    data: &Vec<u8>,
) -> (r: Option<Vec<(String, TokenValue)>>)
    requires
        usize::MAX == u64::MAX,
        forall|i: int| 0 <= i < topics@.len() ==> (#[trigger] topics@[i])@.len() == 32,
        forall|i: int| 0 <= i < params@.len() ==> kind_supported((#[trigger] params@[i]).kind),
    ensures
        match r {
            Some(v) => abi_log_params_of(name@, params_view(params@), topics@.map_values(|t: Vec<u8>| t@), data@)
                == Some(named_values_view(v@))
                && v@.len() == params@.len()
                && forall|i: int| 0 <= i < v@.len() ==> (#[trigger] v@[i]).0@ == params@[i].name@,
            None => abi_log_params_of(name@, params_view(params@), topics@.map_values(|t: Vec<u8>| t@), data@) is None,
        },
{
    let inputs = params.iter().map(|p| ethabi::EventParam { name: p.name.clone(), kind: p.kind.to_abi(), indexed: p.indexed });
    let event = ethabi::Event { name: name.clone(), inputs: inputs.collect(), anonymous: false };
    let topics = topics.iter().map(|t| ethabi::Hash::from_slice(t)).collect();
    let log = event.parse_log(ethabi::RawLog { topics, data: data.clone() }).ok()?;
    Some(log.params.into_iter().map(|p| (p.name, TokenValue::from_abi(p.value))).collect())
}

/// The outer list is a 3-tuple with a 20-byte address and 32-byte topics.
pub open spec fn log_entry_well_formed(item_count: usize, address: Seq<u8>, topics: Seq<Seq<u8>>) -> bool {
    &&& item_count == 3
    &&& address.len() == 20
    &&& forall|i: int| 0 <= i < topics.len() ==> (#[trigger] topics[i]).len() == 32
}

/// Every declared field has a kind that can be decoded.
pub open spec fn params_supported(params: Seq<(Seq<char>, ParamKind, bool)>) -> bool {
    forall|i: int| 0 <= i < params.len() ==> kind_supported((#[trigger] params[i]).1)
}

/// The outcome of decoding a log entry against a declared event shape: the
/// emitting address and the named field values in declared order.
pub open spec fn decode_event_spec(
    name: Seq<char>,
    params: Seq<(Seq<char>, ParamKind, bool)>,
    data: Seq<u8>,
) -> Result<(Seq<u8>, Seq<(Seq<char>, TokenValue)>), ConnectorError> {
    match rlp_log_entry_of(data) {
        None => Err(ConnectorError::MalformedLogEncoding),
        Some(entry) => {
            if !log_entry_well_formed(entry.0, entry.1, entry.2) {
                Err(ConnectorError::MalformedLogEncoding)
            } else if usize::MAX != u64::MAX {
                Err(ConnectorError::UnsupportedTarget)
            } else if !params_supported(params) {
                Err(ConnectorError::EventShapeMismatch)
            } else {
                match abi_log_params_of(name, params, entry.2, entry.3) {
                    None => Err(ConnectorError::EventShapeMismatch),
                    Some(values) => Ok((entry.1, values)),
                }
            }
        },
    }
}

/// Decoding hands back what the log entry holds: where the RLP decoding
/// reads a 3-item list with a 20-byte address and 32-byte topics, the field
/// kinds can be decoded, and the ABI decoding reads named field values from
/// those topics and the payload, the event carries exactly that address and
/// exactly those names and values, in declared order.
pub proof fn lemma_decode_event_recovers_entry(
    name: Seq<char>,
    params: Seq<(Seq<char>, ParamKind, bool)>,
    data: Seq<u8>,
    address: Seq<u8>,
    topics: Seq<Seq<u8>>,
    payload: Seq<u8>,
    values: Seq<(Seq<char>, TokenValue)>,
)
    requires
        rlp_log_entry_of(data) == Some((3usize, address, topics, payload)),
        usize::MAX == u64::MAX,
        address.len() == 20,
        forall|i: int| 0 <= i < topics.len() ==> (#[trigger] topics[i]).len() == 32,
        params_supported(params),
        abi_log_params_of(name, params, topics, payload) == Some(values),
    ensures
        decode_event_spec(name, params, data) == Ok::<(Seq<u8>, Seq<(Seq<char>, TokenValue)>), ConnectorError>((address, values)),
{
}

/// An event read from a source-chain log entry.
pub struct EthEvent {
    /// The contract that emitted the event.
    pub eth_custodian_address: EthAddress,
    /// The field names and values, in declared order.
    pub params: Vec<(String, TokenValue)>,
}

/// Checks the outer shape of a decoded log entry and returns its address.
pub fn log_entry_address(item_count: usize, address: &Vec<u8>, topics: &Vec<Vec<u8>>) -> (r: Result<EthAddress, ConnectorError>)
    ensures
        log_entry_well_formed(item_count, address@, topics@.map_values(|t: Vec<u8>| t@))
            ==> (r matches Ok(a) && a@ == address@),
        !log_entry_well_formed(item_count, address@, topics@.map_values(|t: Vec<u8>| t@))
            ==> r == Err::<EthAddress, ConnectorError>(ConnectorError::MalformedLogEncoding),
{
    let ghost topics_view = topics@.map_values(|t: Vec<u8>| t@);
    if item_count != 3 || address.len() != 20 {
        return Err(ConnectorError::MalformedLogEncoding);
    }
    let mut i: usize = 0;
    while i < topics.len()
        invariant
            i <= topics@.len(),
            topics_view == topics@.map_values(|t: Vec<u8>| t@),
            forall|j: int| 0 <= j < i ==> (#[trigger] topics@[j])@.len() == 32,
        decreases topics@.len() - i,
    {
        if topics[i].len() != 32 {
            assert(topics_view[i as int].len() != 32);
            return Err(ConnectorError::MalformedLogEncoding);
        }
        i = i + 1;
    }
    assert(forall|j: int| 0 <= j < topics_view.len() ==> (#[trigger] topics_view[j]).len() == 32);
    let mut result: EthAddress = [0u8; 20];
    let mut k: usize = 0;
    while k < 20
        invariant
            k <= 20,
            address@.len() == 20,
            forall|j: int| 0 <= j < k ==> result@[j] == address@[j],
        decreases 20 - k,
    {
        result[k] = address[k];
        k = k + 1;
    }
    assert(result@ =~= address@);
    Ok(result)
}

/// Whether every declared field has a kind that can be decoded.
pub fn check_params_supported(params: &Vec<EventParamSpec>) -> (r: bool)
    ensures
        r == params_supported(params_view(params@)),
{
    let mut i: usize = 0;
    while i < params.len()
        invariant
            i <= params@.len(),
            forall|j: int| 0 <= j < i ==> kind_supported((#[trigger] params@[j]).kind),
        decreases params@.len() - i,
    {
        if !is_supported_kind(&params[i].kind) {
            assert(params_view(params@)[i as int].1 == params@[i as int].kind);
            return false;
        }
        i = i + 1;
    }
    assert forall|j: int| 0 <= j < params_view(params@).len() implies kind_supported((#[trigger] params_view(params@)[j]).1) by {
        assert(params_view(params@)[j].1 == params@[j].kind);
    }
    true
}

impl EthEvent {
    /// Decodes an RLP-encoded log entry against the declared event name and fields.
    pub fn from_log_entry_data(name: &str, params: Vec<EventParamSpec>, data: &[u8]) -> (r: Result<EthEvent, ConnectorError>)
        ensures
            match decode_event_spec(name@, params_view(params@), data@) {
                Ok(d) => r matches Ok(e) && e.eth_custodian_address@ == d.0 && named_values_view(e.params@) == d.1
                    && e.params@.len() == params@.len()
                    && forall|i: int| 0 <= i < e.params@.len() ==> (#[trigger] e.params@[i]).0@ == params@[i].name@,
                Err(err) => r matches Err(x) && x == err,
            },
    {
        let (count, address, topics, payload) = match rlp_log_entry(data) {
            Some(entry) => entry,
            None => return Err(ConnectorError::MalformedLogEncoding),
        };
        let eth_custodian_address = log_entry_address(count, &address, &topics)?;
        if (usize::MAX as u64) < u64::MAX {
            return Err(ConnectorError::UnsupportedTarget);
        }
        if !check_params_supported(&params) {
            return Err(ConnectorError::EventShapeMismatch);
        }
        assert forall|i: int| 0 <= i < topics@.len() implies (#[trigger] topics@[i])@.len() == 32 by {
            assert(topics@.map_values(|t: Vec<u8>| t@)[i] == topics@[i]@);
        }
        assert forall|i: int| 0 <= i < params@.len() implies kind_supported((#[trigger] params@[i]).kind) by {
            assert(params_view(params@)[i].1 == params@[i].kind);
        }
        let name_text = name.to_string();
        let values = match abi_parse_log(&name_text, &params, &topics, &payload) {
            Some(v) => v,
            None => return Err(ConnectorError::EventShapeMismatch),
        };
        Ok(EthEvent { eth_custodian_address, params: values })
    }
}

} // verus!
