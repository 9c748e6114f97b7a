use ethabi::ethereum_types::{H160, U256};
use ethabi::{ParamType, Token};
use evm_fungible_token::abi::{ParamKind, TokenValue};
use evm_fungible_token::address::{encode_eth_address, validate_eth_address};
use evm_fungible_token::connector::{
    assert_self, is_promise_success, CallContext, EthConnector, ResultType,
};
use evm_fungible_token::error::ConnectorError;
use evm_fungible_token::eth_proof::Proof;
use evm_fungible_token::event::{EthEvent, EventParamSpec};
use evm_fungible_token::lock_event::EthTransferEvent;

const CUSTODIAN: &str = "6BFaD42cFC4EfC96f529D786D643Ff4A8B89FA52";
const CONNECTOR: &str = "connector.near";

fn custodian_bytes() -> [u8; 20] {
    let v = hex::decode(CUSTODIAN).unwrap();
    let mut a = [0u8; 20];
    a.copy_from_slice(&v);
    a
}

fn ctx(predecessor: &str, attached_deposit: u128) -> CallContext {
    CallContext {
        predecessor_account_id: predecessor.to_string(),
        current_account_id: CONNECTOR.to_string(),
        attached_deposit,
    }
}

fn address_topic(a: [u8; 20]) -> Vec<u8> {
    ethabi::encode(&[Token::Address(H160::from(a))])
}

fn rlp_log(address: &[u8], topics: &[Vec<u8>], data: &[u8]) -> Vec<u8> {
    let mut s = rlp::RlpStream::new_list(3);
    s.append(&address.to_vec());
    s.begin_list(topics.len());
    for t in topics {
        s.append(t);
    }
    s.append(&data.to_vec());
    s.out().to_vec()
}

fn locked_log(custodian: [u8; 20], amount: u64, recipient: &str) -> Vec<u8> {
    let signature = ethabi::long_signature(
        "Locked",
        &[ParamType::Address, ParamType::Address, ParamType::Uint(256), ParamType::String],
    );
    let topics = vec![
        signature.as_bytes().to_vec(),
        address_topic([0x11; 20]),
        address_topic([0x22; 20]),
    ];
    let data = ethabi::encode(&[Token::Uint(U256::from(amount)), Token::String(recipient.to_string())]);
    rlp_log(&custodian, &topics, &data)
}

fn proof_with(log_entry_data: Vec<u8>, log_index: u64, header: Vec<u8>) -> Proof {
    Proof {
        log_index,
        log_entry_data,
        receipt_index: 3,
        receipt_data: vec![1, 2, 3],
        header_data: header,
        proof: vec![vec![4, 5], vec![6]],
    }
}

fn connector() -> EthConnector {
    EthConnector::new("prover.near".to_string(), CUSTODIAN.to_string(), false).unwrap()
}

#[test]
fn validate_address_accepts_mixed_case_hex() {
    assert_eq!(validate_eth_address(CUSTODIAN.to_string()), Ok(custodian_bytes()));
}

#[test]
fn validate_address_rejects_bad_text() {
    assert_eq!(validate_eth_address("6BFaD42c".to_string()), Err(ConnectorError::InvalidAddressFormat));
    assert_eq!(
        validate_eth_address("zzFaD42cFC4EfC96f529D786D643Ff4A8B89FA52".to_string()),
        Err(ConnectorError::InvalidAddressFormat)
    );
    assert_eq!(
        validate_eth_address("6BFaD42cFC4EfC96f529D786D643Ff4A8B89FA5".to_string()),
        Err(ConnectorError::InvalidAddressFormat)
    );
    assert_eq!(validate_eth_address(String::new()), Err(ConnectorError::InvalidAddressFormat));
}

#[test]
fn encode_address_is_lower_case_hex() {
    assert_eq!(encode_eth_address(&custodian_bytes()), CUSTODIAN.to_lowercase());
}

#[test]
fn fingerprint_input_is_indices_then_header() {
    let p = proof_with(vec![], 1, vec![9, 8]);
    let mut expected = vec![1, 0, 0, 0, 0, 0, 0, 0, 3, 0, 0, 0, 0, 0, 0, 0];
    expected.extend(vec![9, 8]);
    assert_eq!(p.fingerprint_input(), expected);
    let big = proof_with(vec![], 0x0102030405060708, vec![]);
    assert_eq!(&big.fingerprint_input()[0..8], &[8, 7, 6, 5, 4, 3, 2, 1]);
}

#[test]
fn fingerprint_is_sha256_of_input() {
    let mut p = proof_with(vec![], 0, vec![]);
    p.receipt_index = 0;
    assert_eq!(
        hex::encode(p.fingerprint()),
        "374708fff7719dd5979ec875d56cd2286f6d3cf7ec317a3b25632aab28ec37bb"
    );
}

#[test]
fn fingerprint_depends_on_indices_and_header_only() {
    let a = proof_with(vec![1], 5, vec![7, 7]);
    let mut same = proof_with(vec![2, 2], 5, vec![7, 7]);
    same.receipt_data = vec![9];
    same.proof = vec![];
    assert_eq!(a.fingerprint(), same.fingerprint());
    assert_ne!(a.fingerprint(), proof_with(vec![1], 6, vec![7, 7]).fingerprint());
    let mut other_receipt = proof_with(vec![1], 5, vec![7, 7]);
    other_receipt.receipt_index = 4;
    assert_ne!(a.fingerprint(), other_receipt.fingerprint());
    assert_ne!(a.fingerprint(), proof_with(vec![1], 5, vec![7, 8]).fingerprint());
}

#[test]
fn decode_locked_event_recovers_fields() {
    let data = locked_log(custodian_bytes(), 1000, "alice.near");
    let e = EthTransferEvent::from_locked_log_entry_data(&data).unwrap();
    assert_eq!(e.eth_custodian_address, custodian_bytes());
    assert_eq!(e.token, hex::encode([0x11u8; 20]));
    assert_eq!(e.sender, hex::encode([0x22u8; 20]));
    assert_eq!(e.amount, 1000);
    assert_eq!(e.recipient, "alice.near");
}

#[test]
fn decode_generic_event_recovers_values_in_declared_order() {
    let data = locked_log(custodian_bytes(), 77, "bob.near");
    let e = EthEvent::from_log_entry_data("Locked", EthTransferEvent::locked_event_params(), &data).unwrap();
    assert_eq!(e.eth_custodian_address, custodian_bytes());
    assert_eq!(e.params.len(), 4);
    let names: Vec<&str> = e.params.iter().map(|p| p.0.as_str()).collect();
    assert_eq!(names, vec!["token", "sender", "amount", "recipient"]);
    assert!(matches!(e.params[0].1, TokenValue::Address(a) if a == [0x11; 20]));
    assert!(matches!(e.params[1].1, TokenValue::Address(a) if a == [0x22; 20]));
    assert!(matches!(e.params[2].1, TokenValue::Uint(l) if l == [77, 0, 0, 0]));
    assert!(matches!(&e.params[3].1, TokenValue::String(s) if s == "bob.near"));
}

#[test]
fn permuted_field_spec_is_a_shape_mismatch() {
    let data = locked_log(custodian_bytes(), 77, "bob.near");
    let mut params = EthTransferEvent::locked_event_params();
    params.swap(2, 3);
    assert_eq!(
        EthEvent::from_log_entry_data("Locked", params, &data).err(),
        Some(ConnectorError::EventShapeMismatch)
    );
    let wrong_name = vec![EventParamSpec { name: "amount".to_string(), kind: ParamKind::Uint(256), indexed: false }];
    assert_eq!(
        EthEvent::from_log_entry_data("Other", wrong_name, &data).err(),
        Some(ConnectorError::EventShapeMismatch)
    );
}

#[test]
fn malformed_log_encoding_is_rejected() {
    assert_eq!(
        EthTransferEvent::from_locked_log_entry_data(&[0x01, 0x02]).err(),
        Some(ConnectorError::MalformedLogEncoding)
    );
    let short_address = rlp_log(&[1, 2, 3], &[], &[]);
    assert_eq!(
        EthTransferEvent::from_locked_log_entry_data(&short_address).err(),
        Some(ConnectorError::MalformedLogEncoding)
    );
    let short_topic = rlp_log(&custodian_bytes(), &[vec![1, 2]], &[]);
    assert_eq!(
        EthTransferEvent::from_locked_log_entry_data(&short_topic).err(),
        Some(ConnectorError::MalformedLogEncoding)
    );
}

#[test]
fn amount_above_128_bits_is_a_shape_mismatch() {
    let signature = ethabi::long_signature(
        "Locked",
        &[ParamType::Address, ParamType::Address, ParamType::Uint(256), ParamType::String],
    );
    let topics = vec![signature.as_bytes().to_vec(), address_topic([1; 20]), address_topic([2; 20])];
    let data = ethabi::encode(&[Token::Uint(U256::MAX), Token::String("a.near".to_string())]);
    let log = rlp_log(&custodian_bytes(), &topics, &data);
    assert_eq!(
        EthTransferEvent::from_locked_log_entry_data(&log).err(),
        Some(ConnectorError::EventShapeMismatch)
    );
}

#[test]
fn new_rejects_second_initialization_and_bad_address() {
    assert_eq!(
        EthConnector::new("prover.near".to_string(), CUSTODIAN.to_string(), true).err(),
        Some(ConnectorError::AlreadyInitialized)
    );
    assert_eq!(
        EthConnector::new("prover.near".to_string(), "abc".to_string(), false).err(),
        Some(ConnectorError::InvalidAddressFormat)
    );
    let c = connector();
    assert_eq!(c.prover_account(), "prover.near");
    assert_eq!(c.eth_custodian_address(), custodian_bytes());
    assert!(!c.native_token_path_enabled());
}

#[test]
fn deposit_then_finish_credits_once() {
    let mut c = connector();
    let proof = proof_with(locked_log(custodian_bytes(), 1000, "alice.near"), 2, vec![5, 5, 5]);
    let request = c.deposit(&ctx("user.near", 10_000_000_000_000_000_000_000), proof).unwrap();
    assert_eq!(request.prover_account, "prover.near");
    assert!(!request.skip_bridge_call);
    assert_eq!(request.new_owner_id, "alice.near");
    assert_eq!(request.amount, 1000);
    assert_eq!(request.attached_deposit, 10_000_000_000_000_000_000_000);
    let key = request.proof.fingerprint();
    assert!(!c.is_used(&key));
    let credit = c
        .finish_deposit(
            &ctx(CONNECTOR, request.attached_deposit),
            true,
            request.new_owner_id.clone(),
            request.amount,
            &request.proof,
        )
        .unwrap();
    assert_eq!(credit.account_id, "alice.near");
    assert_eq!(credit.amount, 1000);
    assert_eq!(credit.token, None);
    assert_eq!(credit.unused_deposit, 10_000_000_000_000_000_000_000 - 32 * 100_000_000_000_000_000_000);
    assert!(c.is_used(&key));
}

#[test]
fn resubmitted_proof_is_verified_again_but_not_credited() {
    let mut c = connector();
    let proof = proof_with(locked_log(custodian_bytes(), 1000, "alice.near"), 2, vec![5, 5, 5]);
    let first = c.deposit(&ctx("user.near", 1u128 << 100), proof.clone()).unwrap();
    assert!(c.finish_deposit(&ctx(CONNECTOR, 1u128 << 100), true, first.new_owner_id, first.amount, &first.proof).is_ok());
    let second = c.deposit(&ctx("user.near", 1u128 << 100), proof).unwrap();
    assert_eq!(second.amount, 1000);
    assert_eq!(
        c.finish_deposit(&ctx(CONNECTOR, 1u128 << 100), true, second.new_owner_id, second.amount, &second.proof).err(),
        Some(ConnectorError::ProofAlreadyUsed)
    );
}

#[test]
fn custodian_off_by_one_byte_is_rejected_before_verification() {
    let c = connector();
    let mut other = custodian_bytes();
    other[19] ^= 1;
    let proof = proof_with(locked_log(other, 1000, "alice.near"), 2, vec![5]);
    assert_eq!(c.deposit(&ctx("user.near", 0), proof).err(), Some(ConnectorError::CustodianMismatch));
}

#[test]
fn finish_from_another_account_is_rejected() {
    let mut c = connector();
    let proof = proof_with(locked_log(custodian_bytes(), 1000, "alice.near"), 2, vec![5]);
    assert_eq!(
        c.finish_deposit(&ctx("mallory.near", 1u128 << 100), true, "mallory.near".to_string(), 1000, &proof).err(),
        Some(ConnectorError::UnauthorizedCallback)
    );
    assert!(!c.is_used(&proof.fingerprint()));
}

#[test]
fn failed_verification_records_nothing() {
    let mut c = connector();
    let proof = proof_with(locked_log(custodian_bytes(), 1000, "alice.near"), 2, vec![5]);
    assert_eq!(
        c.finish_deposit(&ctx(CONNECTOR, 1u128 << 100), false, "alice.near".to_string(), 1000, &proof).err(),
        Some(ConnectorError::VerificationFailed)
    );
    assert!(!c.is_used(&proof.fingerprint()));
    assert!(c.finish_deposit(&ctx(CONNECTOR, 1u128 << 100), true, "alice.near".to_string(), 1000, &proof).is_ok());
}

#[test]
fn insufficient_deposit_records_nothing() {
    let mut c = connector();
    let proof = proof_with(locked_log(custodian_bytes(), 1000, "alice.near"), 2, vec![5]);
    let needed = 32 * 100_000_000_000_000_000_000u128;
    assert_eq!(
        c.record_proof(&ctx(CONNECTOR, needed - 1), &proof).err(),
        Some(ConnectorError::InsufficientDeposit)
    );
    assert!(!c.is_used(&proof.fingerprint()));
    assert_eq!(c.record_proof(&ctx(CONNECTOR, needed), &proof), Ok(0));
    assert_eq!(c.record_proof(&ctx(CONNECTOR, needed), &proof), Err(ConnectorError::ProofAlreadyUsed));
}

#[test]
fn self_check_and_callback_shape() {
    assert_eq!(assert_self(&ctx(CONNECTOR, 0)), Ok(()));
    assert_eq!(assert_self(&ctx("x.near", 0)), Err(ConnectorError::UnauthorizedCallback));
    assert_eq!(is_promise_success(&vec![true]), Ok(true));
    assert_eq!(is_promise_success(&vec![false]), Ok(false));
    assert_eq!(is_promise_success(&vec![]), Err(ConnectorError::UnexpectedCallbackShape));
    assert_eq!(is_promise_success(&vec![true, true]), Err(ConnectorError::UnexpectedCallbackShape));
}

#[test]
fn withdraw_from_token_sub_account() {
    let c = connector();
    let token = "1111111111111111111111111111111111111111";
    let caller = format!("{}.{}", token, CONNECTOR);
    let r = c.finish_withdraw(&ctx(&caller, 0), 500, CUSTODIAN.to_string()).unwrap();
    assert_eq!(r, (ResultType::Withdraw, 500, [0x11; 20], custodian_bytes()));
}

#[test]
fn withdraw_from_other_accounts_is_rejected() {
    let c = connector();
    let token = "1111111111111111111111111111111111111111";
    assert_eq!(
        c.finish_withdraw(&ctx("alice.near", 0), 1, CUSTODIAN.to_string()).err(),
        Some(ConnectorError::UnauthorizedWithdrawal)
    );
    assert_eq!(
        c.finish_withdraw(&ctx(&format!("{}.x.{}", token, CONNECTOR), 0), 1, CUSTODIAN.to_string()).err(),
        Some(ConnectorError::UnauthorizedWithdrawal)
    );
    assert_eq!(
        c.finish_withdraw(&ctx(CONNECTOR, 0), 1, CUSTODIAN.to_string()).err(),
        Some(ConnectorError::UnauthorizedWithdrawal)
    );
    assert_eq!(
        c.finish_withdraw(&ctx(&format!("abc.{}", CONNECTOR), 0), 1, CUSTODIAN.to_string()).err(),
        Some(ConnectorError::InvalidAddressFormat)
    );
    assert_eq!(
        c.finish_withdraw(&ctx(&format!("{}.{}", token, CONNECTOR), 0), 1, "xyz".to_string()).err(),
        Some(ConnectorError::InvalidAddressFormat)
    );
}

#[test]
fn bridge_token_account_is_lower_case() {
    let c = connector();
    assert_eq!(
        c.get_bridge_token_account_id(&ctx(CONNECTOR, 0), CUSTODIAN.to_string()),
        Ok(format!("{}.{}", CUSTODIAN.to_lowercase(), CONNECTOR))
    );
    assert_eq!(
        c.get_bridge_token_account_id(&ctx(CONNECTOR, 0), String::new()),
        Err(ConnectorError::InvalidAddressFormat)
    );
}

#[test]
fn lock_path_is_disabled_by_default() {
    let mut c = connector();
    assert_eq!(
        c.lock(&ctx("alice.near", 0), "tok.near".to_string(), 5, CUSTODIAN.to_string()).err(),
        Some(ConnectorError::PathDisabled)
    );
    assert_eq!(
        c.finish_lock(&ctx(CONNECTOR, 0), &vec![true], 5, [1; 20], "tok.near".to_string()).err(),
        Some(ConnectorError::PathDisabled)
    );
    let proof = proof_with(vec![], 0, vec![]);
    assert_eq!(c.unlock(&ctx("alice.near", 0), proof.clone()).err(), Some(ConnectorError::PathDisabled));
    assert_eq!(
        c.finish_unlock(&ctx(CONNECTOR, 1u128 << 100), true, "tok.near".to_string(), "alice.near".to_string(), 5, &proof).err(),
        Some(ConnectorError::PathDisabled)
    );
}

#[test]
fn lock_path_when_enabled() {
    let mut c = connector();
    c.set_native_token_path_enabled(true);
    let q = c.lock(&ctx("alice.near", 7), "tok.near".to_string(), 5, CUSTODIAN.to_string()).unwrap();
    assert_eq!((q.token.as_str(), q.sender.as_str(), q.amount, q.recipient, q.attached_deposit), ("tok.near", "alice.near", 5, custodian_bytes(), 7));
    assert_eq!(
        c.finish_lock(&ctx(CONNECTOR, 0), &vec![true], 5, [1; 20], "tok.near".to_string()),
        Ok((ResultType::Lock, "tok.near".to_string(), 5, [1; 20]))
    );
    assert_eq!(
        c.finish_lock(&ctx(CONNECTOR, 0), &vec![false], 5, [1; 20], "tok.near".to_string()).err(),
        Some(ConnectorError::PromiseFailed)
    );
    assert_eq!(
        c.finish_lock(&ctx("x.near", 0), &vec![true], 5, [1; 20], "tok.near".to_string()).err(),
        Some(ConnectorError::UnauthorizedCallback)
    );
    let proof = proof_with(vec![], 4, vec![1]);
    let credit = c
        .finish_unlock(&ctx(CONNECTOR, 1u128 << 100), true, "tok.near".to_string(), "alice.near".to_string(), 5, &proof)
        .unwrap();
    assert_eq!(credit.token, Some("tok.near".to_string()));
    assert_eq!(credit.account_id, "alice.near");
    assert_eq!(
        c.finish_unlock(&ctx(CONNECTOR, 1u128 << 100), true, "tok.near".to_string(), "alice.near".to_string(), 5, &proof).err(),
        Some(ConnectorError::ProofAlreadyUsed)
    );
}

#[test]
fn unlock_reads_unlocked_event() {
    let mut c = connector();
    c.set_native_token_path_enabled(true);
    let signature = ethabi::long_signature(
        "Unlocked",
        &[ParamType::String, ParamType::Address, ParamType::Uint(256), ParamType::String],
    );
    let topics = vec![signature.as_bytes().to_vec(), address_topic([3; 20])];
    let data = ethabi::encode(&[
        Token::String("tok.near".to_string()),
        Token::Uint(U256::from(42u64)),
        Token::String("bob.near".to_string()),
    ]);
    let proof = proof_with(rlp_log(&custodian_bytes(), &topics, &data), 1, vec![2]);
    let q = c.unlock(&ctx("bob.near", 9), proof).unwrap();
    assert_eq!((q.token.as_str(), q.recipient.as_str(), q.amount, q.attached_deposit), ("tok.near", "bob.near", 42, 9));
}

fn spec(name: &str, kind: ParamKind, indexed: bool) -> EventParamSpec {
    EventParamSpec { name: name.to_string(), kind, indexed }
}

#[test]
fn decode_event_keeps_every_kind_of_value() {
    let kinds = [ParamType::Bool, ParamType::Int(256), ParamType::Bytes, ParamType::FixedBytes(4)];
    let signature = ethabi::long_signature("Mixed", &kinds);
    let topics = vec![signature.as_bytes().to_vec(), ethabi::encode(&[Token::Bool(true)])];
    let data = ethabi::encode(&[
        Token::Int(U256::from(5u64)),
        Token::Bytes(vec![1, 2, 3]),
        Token::FixedBytes(vec![9, 8, 7, 6]),
    ]);
    let log = rlp_log(&custodian_bytes(), &topics, &data);
    let params = vec![
        spec("flag", ParamKind::Bool, true),
        spec("delta", ParamKind::Int(256), false),
        spec("blob", ParamKind::Bytes, false),
        spec("tag", ParamKind::FixedBytes(4), false),
    ];
    let e = EthEvent::from_log_entry_data("Mixed", params, &log).unwrap();
    let names: Vec<&str> = e.params.iter().map(|p| p.0.as_str()).collect();
    assert_eq!(names, vec!["flag", "delta", "blob", "tag"]);
    assert!(matches!(e.params[0].1, TokenValue::Bool(true)));
    assert!(matches!(e.params[1].1, TokenValue::Int(l) if l == [5, 0, 0, 0]));
    assert!(matches!(&e.params[2].1, TokenValue::Bytes(b) if *b == vec![1, 2, 3]));
    assert!(matches!(&e.params[3].1, TokenValue::FixedBytes(b) if *b == vec![9, 8, 7, 6]));
}

#[test]
fn oversized_fixed_bytes_field_is_a_shape_mismatch() {
    let data = locked_log(custodian_bytes(), 77, "bob.near");
    let params = vec![spec("amount", ParamKind::Uint(256), false), spec("tag", ParamKind::FixedBytes(usize::MAX), false)];
    assert_eq!(
        EthEvent::from_log_entry_data("Locked", params, &data).err(),
        Some(ConnectorError::EventShapeMismatch)
    );
    let params = vec![spec("tag", ParamKind::FixedBytes(0), false)];
    assert_eq!(
        EthEvent::from_log_entry_data("Locked", params, &data).err(),
        Some(ConnectorError::EventShapeMismatch)
    );
}

#[test]
fn log_entry_with_extra_items_is_malformed() {
    let mut s = rlp::RlpStream::new_list(4);
    s.append(&custodian_bytes().to_vec());
    s.begin_list(0);
    s.append(&Vec::<u8>::new());
    s.append(&Vec::<u8>::new());
    let log = s.out().to_vec();
    assert_eq!(
        EthTransferEvent::from_locked_log_entry_data(&log).err(),
        Some(ConnectorError::MalformedLogEncoding)
    );
}

#[test]
fn locked_fields_from_decoded_event() {
    let data = locked_log(custodian_bytes(), 1000, "alice.near");
    let event = EthEvent::from_log_entry_data("Locked", EthTransferEvent::locked_event_params(), &data).unwrap();
    let e = EthTransferEvent::from_locked_event(&event).unwrap();
    assert_eq!((e.amount, e.recipient.as_str()), (1000, "alice.near"));
    assert_eq!(
        EthTransferEvent::from_unlocked_event(&event).err(),
        Some(ConnectorError::EventShapeMismatch)
    );
}
