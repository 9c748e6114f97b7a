use vstd::prelude::*;
use vstd::utf8::encode_utf8;
use crate::address::{decode_eth_address, encode_eth_address, eth_address_spec, hex_encode_spec, validate_eth_address, EthAddress};
use crate::error::ConnectorError;
use crate::eth_proof::Proof;
use crate::lock_event::{locked_event_spec, unlocked_event_spec, EthTransferEvent};
use crate::replay::{bytes_equal, record_storage_bytes, UsedEvents};

verus! {

/// Price of one byte of storage, in yoctoNEAR.
pub const STORAGE_PRICE_PER_BYTE: u128 = 100_000_000_000_000_000_000;

/// What a report for the relayer on the source chain describes.
#[derive(Debug, Clone, Copy, PartialEq, Eq, Structural)]
pub enum ResultType {
    Withdraw,
    Lock,
}

/// What the host tells about the call being served.
pub struct CallContext {
    /// The account that made this call.
    pub predecessor_account_id: String,
    /// The account of the connector itself.
    pub current_account_id: String,
    /// The funds attached to this call.
    pub attached_deposit: u128,
}

impl CallContext {
    /// The call comes from the connector itself.
    pub open spec fn is_self(&self) -> bool {
        self.predecessor_account_id@ == self.current_account_id@
    }
}

/// Fails unless the call comes from the connector itself.
pub fn assert_self(ctx: &CallContext) -> (r: Result<(), ConnectorError>)
    ensures
        ctx.is_self() ==> r is Ok,
        !ctx.is_self() ==> r == Err::<(), ConnectorError>(ConnectorError::UnauthorizedCallback),
{
    if ctx.predecessor_account_id == ctx.current_account_id {
        Ok(())
    } else {
        Err(ConnectorError::UnauthorizedCallback)
    }
}

/// Whether the one call a callback waited on succeeded; `results` holds one
/// entry per result the callback received.
pub fn is_promise_success(results: &Vec<bool>) -> (r: Result<bool, ConnectorError>)
    ensures
        results@.len() == 1 ==> r == Ok::<bool, ConnectorError>(results@[0]),
        results@.len() != 1 ==> r == Err::<bool, ConnectorError>(ConnectorError::UnexpectedCallbackShape),
{
    if results.len() != 1 {
        return Err(ConnectorError::UnexpectedCallbackShape);
    }
    Ok(results[0])
}

/// The deposit that a growth of the replay set's storage by `bytes` bytes
/// requires.
pub open spec fn required_deposit(bytes: nat) -> int {
    bytes * STORAGE_PRICE_PER_BYTE
}

/// The outcome of recording fingerprint `fp` into `used` with `attached`
/// funds: the funds left over, or why nothing is recorded.
pub open spec fn record_outcome(used: Set<Seq<u8>>, fp: Seq<u8>, attached: u128) -> Result<u128, ConnectorError> {
    if used.contains(fp) {
        Err(ConnectorError::ProofAlreadyUsed)
    } else if (attached as int) < required_deposit(record_storage_bytes(fp)) {
        Err(ConnectorError::InsufficientDeposit)
    } else {
        Ok((attached - required_deposit(record_storage_bytes(fp))) as u128)
    }
}

/// The outcome of a finishing call: who called, what the verifier said, then
/// the replay check and the storage charge.
pub open spec fn finish_outcome(
    used: Set<Seq<u8>>,
    from_self: bool,
    verified: bool,
    fp: Seq<u8>,
    attached: u128,
) -> Result<u128, ConnectorError> {
    if !from_self {
        Err(ConnectorError::UnauthorizedCallback)
    } else if !verified {
        Err(ConnectorError::VerificationFailed)
    } else {
        record_outcome(used, fp, attached)
    }
}

/// The account name before the first `.` of `account`, where what follows
/// that `.` is exactly `parent`.
pub open spec fn sub_account_prefix(account: Seq<u8>, parent: Seq<u8>) -> Option<Seq<u8>> {
    if exists|i: int| is_first_dot(account, i) && account.subrange(i + 1, account.len() as int) == parent {
        let i = choose|i: int| is_first_dot(account, i) && account.subrange(i + 1, account.len() as int) == parent;
        Some(account.subrange(0, i))
    } else {
        None
    }
}

pub open spec fn is_first_dot(s: Seq<u8>, i: int) -> bool {
    &&& 0 <= i < s.len()
    &&& s[i] == 46
    &&& forall|j: int| 0 <= j < i ==> s[j] != 46
}

/// Ask the verifier about `proof`, then call back the finishing step of a
/// deposit with these arguments.
pub struct DepositRequest {
    pub prover_account: String,
    pub proof: Proof,
    pub skip_bridge_call: bool,
    pub new_owner_id: String,
    pub amount: u128,
    pub attached_deposit: u128,
}

/// Ask the verifier about `proof`, then call back the finishing step of an
/// unlock with these arguments.
pub struct UnlockRequest {
    pub prover_account: String,
    pub proof: Proof,
    pub skip_bridge_call: bool,
    pub token: String,
    pub recipient: String,
    pub amount: u128,
    pub attached_deposit: u128,
}

/// Credit `amount` to `account_id`; `unused_deposit` of the attached funds
/// was not spent on storage.
pub struct CreditRequest {
    pub token: Option<String>,
    pub account_id: String,
    pub amount: u128,
    pub unused_deposit: u128,
}

/// Move `amount` of `token` from `sender` to the connector, then call back
/// the finishing step of a lock.
pub struct LockRequest {
    pub token: String,
    pub sender: String,
    pub amount: u128,
    pub recipient: EthAddress,
    pub attached_deposit: u128,
}

/// The bridge endpoint: its configuration and the fingerprints of the
/// proofs it has credited.
pub struct EthConnector {
    prover_account: String,
    eth_custodian_address: EthAddress,
    used_events: UsedEvents,
    native_token_path_enabled: bool,
}

fn addresses_equal(a: &EthAddress, b: &EthAddress) -> (r: bool)
    ensures
        r == (a@ == b@),
{
    bytes_equal(a.as_slice(), b.as_slice())
}

impl EthConnector {
    /// The fingerprints recorded so far.
    pub closed spec fn used(&self) -> Set<Seq<u8>> {
        self.used_events@
    }

    /// The account of the verifier.
    pub closed spec fn prover(&self) -> Seq<char> {
        self.prover_account@
    }

    /// The custodian contract on the source chain.
    pub closed spec fn custodian(&self) -> Seq<u8> {
        self.eth_custodian_address@
    }

    /// Whether the lock and unlock path is switched on.
    pub closed spec fn path_enabled(&self) -> bool {
        self.native_token_path_enabled
    }

    /// The account of the verifier.
    pub fn prover_account(&self) -> (r: &String)
        ensures
            r@ == self.prover(),
    {
        &self.prover_account
    }

    /// The custodian contract on the source chain.
    pub fn eth_custodian_address(&self) -> (r: EthAddress)
        ensures
            r@ == self.custodian(),
    {
        self.eth_custodian_address
    }

    /// Whether the lock and unlock path is switched on.
    pub fn native_token_path_enabled(&self) -> (r: bool)
        ensures
            r == self.path_enabled(),
    {
        self.native_token_path_enabled
    }

    /// Switches the lock and unlock path on or off.
    pub fn set_native_token_path_enabled(&mut self, enabled: bool)
        ensures
            final(self).path_enabled() == enabled,
            final(self).used() == old(self).used(),
            final(self).prover() == old(self).prover(),
            final(self).custodian() == old(self).custodian(),
    {
        self.native_token_path_enabled = enabled;
    }

    /// Sets up the connector with the verifier's account and the custodian
    /// address as hex text; fails if the host already holds a connector.
    pub fn new(prover_account: String, eth_custodian_address: String, state_exists: bool) -> (r: Result<EthConnector, ConnectorError>)
        ensures
            state_exists ==> r == Err::<EthConnector, ConnectorError>(ConnectorError::AlreadyInitialized),
            !state_exists ==> match eth_address_spec(encode_utf8(eth_custodian_address@)) {
                Some(b) => r matches Ok(c) && c.prover() == prover_account@
                    && c.custodian() == b && c.used() == Set::<Seq<u8>>::empty()
                    && !c.path_enabled(),
                None => r == Err::<EthConnector, ConnectorError>(ConnectorError::InvalidAddressFormat),
            },
    {
        if state_exists {
            return Err(ConnectorError::AlreadyInitialized);
        }
        let eth_custodian_address = validate_eth_address(eth_custodian_address)?;
        Ok(EthConnector {
            prover_account,
            eth_custodian_address,
            used_events: UsedEvents::new(),
            native_token_path_enabled: false,
        })
    }

    /// Rebuilds a connector from stored state.
    pub fn from_parts(
        prover_account: String,
        eth_custodian_address: EthAddress,
        used_keys: Vec<Vec<u8>>,
        native_token_path_enabled: bool,
    ) -> (r: EthConnector)
        ensures
            r.prover() == prover_account@,
            r.custodian() == eth_custodian_address@,
            r.path_enabled() == native_token_path_enabled,
            forall|k: Seq<u8>| #[trigger] r.used().contains(k)
                <==> exists|i: int| 0 <= i < used_keys@.len() && (#[trigger] used_keys@[i])@ == k,
    {
        EthConnector {
            prover_account,
            eth_custodian_address,
            used_events: UsedEvents::from_keys(used_keys),
            native_token_path_enabled,
        }
    }

    /// Takes a connector apart for storage.
    pub fn into_parts(self) -> (r: (String, EthAddress, Vec<Vec<u8>>, bool))
        ensures
            r.0@ == self.prover(),
            r.1@ == self.custodian(),
            r.3 == self.path_enabled(),
            forall|k: Seq<u8>| #[trigger] self.used().contains(k)
                <==> exists|i: int| 0 <= i < r.2@.len() && (#[trigger] r.2@[i])@ == k,
    {
        let EthConnector { prover_account, eth_custodian_address, used_events, native_token_path_enabled } = self;
        let keys = used_events.into_keys();
        assert forall|k: Seq<u8>| #[trigger] self.used().contains(k)
            <==> exists|i: int| 0 <= i < keys@.len() && (#[trigger] keys@[i])@ == k by {
            assert(self.used().contains(k) == used_events@.contains(k));
        }
        let r = (prover_account, eth_custodian_address, keys, native_token_path_enabled);
        assert forall|k: Seq<u8>| #[trigger] self.used().contains(k)
            <==> exists|i: int| 0 <= i < r.2@.len() && (#[trigger] r.2@[i])@ == k by {
            if self.used().contains(k) {
                let i = choose|i: int| 0 <= i < keys@.len() && (#[trigger] keys@[i])@ == k;
                assert(r.2@[i]@ == k);
            }
        }
        r
    }

    /// Whether the proof with fingerprint `key` was credited.
    pub fn is_used(&self, key: &[u8]) -> (r: bool)
        ensures
            r == self.used().contains(key@),
    {
        self.used_events.contains(key)
    }

    /// Starts a deposit: reads the `Locked` event of the proof, checks that
    /// the configured custodian emitted it, and asks for verification.
    pub fn deposit(&self, ctx: &CallContext, proof: Proof) -> (r: Result<DepositRequest, ConnectorError>)
        ensures
            match locked_event_spec(proof.log_entry_data@) {
                Err(e) => r == Err::<DepositRequest, ConnectorError>(e),
                Ok(v) => if v.custodian != self.custodian() {
                    r == Err::<DepositRequest, ConnectorError>(ConnectorError::CustodianMismatch)
                } else {
                    r matches Ok(q) && q.prover_account@ == self.prover() && q.proof == proof
                        && !q.skip_bridge_call && q.new_owner_id@ == v.recipient && q.amount == v.amount
                        && q.attached_deposit == ctx.attached_deposit
                },
            },
    {
        let event = EthTransferEvent::from_locked_log_entry_data(proof.log_entry_data.as_slice())?;
        if !addresses_equal(&event.eth_custodian_address, &self.eth_custodian_address) {
            return Err(ConnectorError::CustodianMismatch);
        }
        Ok(DepositRequest {
            prover_account: self.prover_account.clone(),
            proof,
            skip_bridge_call: false,
            new_owner_id: event.recipient,
            amount: event.amount,
            attached_deposit: ctx.attached_deposit,
        })
    }

    /// Records the fingerprint of `proof`, so that it is never credited
    /// again, and returns the attached funds that storing it leaves over.
    pub fn record_proof(&mut self, ctx: &CallContext, proof: &Proof) -> (r: Result<u128, ConnectorError>)
        ensures
            match finish_outcome(old(self).used(), ctx.is_self(), true, proof.fingerprint_spec(), ctx.attached_deposit) {
                Ok(left) => r == Ok::<u128, ConnectorError>(left)
                    && proof.fingerprint_spec().len() == 32
                    && final(self).used() == old(self).used().insert(proof.fingerprint_spec()),
                Err(e) => r == Err::<u128, ConnectorError>(e) && final(self).used() == old(self).used(),
            },
            proof.fingerprint_spec().len() == 32,
            final(self).prover() == old(self).prover(),
            final(self).custodian() == old(self).custodian(),
            final(self).path_enabled() == old(self).path_enabled(),
    {
        let key = proof.fingerprint();
        assert_self(ctx)?;
        if self.used_events.contains(key.as_slice()) {
            return Err(ConnectorError::ProofAlreadyUsed);
        }
        let growth = self.used_events.storage_growth(key.as_slice());
        let required_deposit = growth * STORAGE_PRICE_PER_BYTE;
        if ctx.attached_deposit < required_deposit {
            return Err(ConnectorError::InsufficientDeposit);
        }
        self.used_events.insert(key);
        Ok(ctx.attached_deposit - required_deposit)
    }

    /// Finishes a deposit once the verifier has answered: only the connector
    /// itself may call it, and a proof is credited at most once.
    pub fn finish_deposit(
        &mut self,
        ctx: &CallContext,
        verification_success: bool,
        new_owner_id: String,
        amount: u128,
        proof: &Proof,
    ) -> (r: Result<CreditRequest, ConnectorError>)
        ensures
            match finish_outcome(old(self).used(), ctx.is_self(), verification_success, proof.fingerprint_spec(), ctx.attached_deposit) {
                Ok(left) => r matches Ok(c) && c.token is None && c.account_id == new_owner_id
                    && proof.fingerprint_spec().len() == 32
                    && c.amount == amount && c.unused_deposit == left
                    && final(self).used() == old(self).used().insert(proof.fingerprint_spec()),
                Err(e) => r matches Err(x) && x == e && final(self).used() == old(self).used(),
            },
            final(self).prover() == old(self).prover(),
            final(self).custodian() == old(self).custodian(),
            final(self).path_enabled() == old(self).path_enabled(),
    {
        assert_self(ctx)?;
        if !verification_success {
            return Err(ConnectorError::VerificationFailed);
        }
        let unused_deposit = self.record_proof(ctx, proof)?;
        Ok(CreditRequest { token: None, account_id: new_owner_id, amount, unused_deposit })
    }

    /// Reports a burn for the relayer: the caller must be the sub-account
    /// `<token address>.<connector>`, and the recipient an address in hex.
    pub fn finish_withdraw(&self, ctx: &CallContext, amount: u128, recipient: String)
        -> (r: Result<(ResultType, u128, EthAddress, EthAddress), ConnectorError>)
        ensures
            match sub_account_prefix(encode_utf8(ctx.predecessor_account_id@), encode_utf8(ctx.current_account_id@)) {
                None => r == Err::<(ResultType, u128, EthAddress, EthAddress), ConnectorError>(ConnectorError::UnauthorizedWithdrawal),
                Some(prefix) => match (eth_address_spec(prefix), eth_address_spec(encode_utf8(recipient@))) {
                    (Some(t), Some(a)) => r matches Ok(x) && x.0 == ResultType::Withdraw && x.1 == amount
                        && x.2@ == t && x.3@ == a,
                    _ => r == Err::<(ResultType, u128, EthAddress, EthAddress), ConnectorError>(ConnectorError::InvalidAddressFormat),
                },
            },
    {
        let account = ctx.predecessor_account_id.as_str().as_bytes();
        let parent = ctx.current_account_id.as_str().as_bytes();
        let prefix = match sub_account_prefix_of(account, parent) {
            Some(p) => p,
            None => return Err(ConnectorError::UnauthorizedWithdrawal),
        };
        let token_address = decode_eth_address(prefix.as_slice())?;
        let recipient_address = validate_eth_address(recipient)?;
        Ok((ResultType::Withdraw, amount, token_address, recipient_address))
    }

    /// The account of the bridged token for a source-chain token address:
    /// the address in lower-case hex, a `.`, then the connector's account.
    pub fn get_bridge_token_account_id(&self, ctx: &CallContext, address: String) -> (r: Result<String, ConnectorError>)
        ensures
            match eth_address_spec(encode_utf8(address@)) {
                Some(b) => r matches Ok(s) && s@ == hex_encode_spec(b) + "."@ + ctx.current_account_id@,
                None => r == Err::<String, ConnectorError>(ConnectorError::InvalidAddressFormat),
            },
    {
        let a = validate_eth_address(address)?;
        let name = encode_eth_address(&a);
        Ok(name.concat(".").concat(ctx.current_account_id.as_str()))
    }

    /// Starts a lock of a token held here, to be minted on the source chain
    /// for `recipient`; only while the lock path is switched on.
    pub fn lock(&mut self, ctx: &CallContext, token: String, amount: u128, recipient: String) -> (r: Result<LockRequest, ConnectorError>)
        ensures
            !old(self).path_enabled() ==> r == Err::<LockRequest, ConnectorError>(ConnectorError::PathDisabled),
            old(self).path_enabled() ==> match eth_address_spec(encode_utf8(recipient@)) {
                Some(a) => r matches Ok(q) && q.token == token && q.sender == ctx.predecessor_account_id
                    && q.amount == amount && q.recipient@ == a && q.attached_deposit == ctx.attached_deposit,
                None => r == Err::<LockRequest, ConnectorError>(ConnectorError::InvalidAddressFormat),
            },
            final(self).used() == old(self).used(),
            final(self).prover() == old(self).prover(),
            final(self).custodian() == old(self).custodian(),
            final(self).path_enabled() == old(self).path_enabled(),
    {
        if !self.native_token_path_enabled {
            return Err(ConnectorError::PathDisabled);
        }
        let address = validate_eth_address(recipient)?;
        Ok(LockRequest {
            token,
            sender: ctx.predecessor_account_id.clone(),
            amount,
            recipient: address,
            attached_deposit: ctx.attached_deposit,
        })
    }

    /// Finishes a lock once the transfer to the connector has answered, and
    /// reports it for the relayer.
    pub fn finish_lock(&self, ctx: &CallContext, promise_results: &Vec<bool>, amount: u128, recipient: EthAddress, token: String)
        -> (r: Result<(ResultType, String, u128, EthAddress), ConnectorError>)
        ensures
            !self.path_enabled() ==> r == Err::<(ResultType, String, u128, EthAddress), ConnectorError>(ConnectorError::PathDisabled),
            self.path_enabled() && !ctx.is_self()
                ==> r == Err::<(ResultType, String, u128, EthAddress), ConnectorError>(ConnectorError::UnauthorizedCallback),
            self.path_enabled() && ctx.is_self() && promise_results@.len() != 1
                ==> r == Err::<(ResultType, String, u128, EthAddress), ConnectorError>(ConnectorError::UnexpectedCallbackShape),
            self.path_enabled() && ctx.is_self() && promise_results@ == seq![false]
                ==> r == Err::<(ResultType, String, u128, EthAddress), ConnectorError>(ConnectorError::PromiseFailed),
            self.path_enabled() && ctx.is_self() && promise_results@ == seq![true]
                ==> (r matches Ok(x) && x.0 == ResultType::Lock && x.1 == token && x.2 == amount && x.3 == recipient),
    {
        if !self.native_token_path_enabled {
            return Err(ConnectorError::PathDisabled);
        }
        assert_self(ctx)?;
        if !is_promise_success(promise_results)? {
            return Err(ConnectorError::PromiseFailed);
        }
        Ok((ResultType::Lock, token, amount, recipient))
    }

    /// Starts an unlock: reads the `Unlocked` event of the proof, checks that
    /// the configured custodian emitted it, and asks for verification; only
    /// while the lock path is switched on.
    pub fn unlock(&self, ctx: &CallContext, proof: Proof) -> (r: Result<UnlockRequest, ConnectorError>)
        ensures
            !self.path_enabled() ==> r == Err::<UnlockRequest, ConnectorError>(ConnectorError::PathDisabled),
            self.path_enabled() ==> match unlocked_event_spec(proof.log_entry_data@) {
                Err(e) => r == Err::<UnlockRequest, ConnectorError>(e),
                Ok(v) => if v.custodian != self.custodian() {
                    r == Err::<UnlockRequest, ConnectorError>(ConnectorError::CustodianMismatch)
                } else {
                    r matches Ok(q) && q.prover_account@ == self.prover() && q.proof == proof
                        && !q.skip_bridge_call && q.token@ == v.token && q.recipient@ == v.recipient
                        && q.amount == v.amount && q.attached_deposit == ctx.attached_deposit
                },
            },
    {
        if !self.native_token_path_enabled {
            return Err(ConnectorError::PathDisabled);
        }
        let event = EthTransferEvent::from_unlocked_log_entry_data(proof.log_entry_data.as_slice())?;
        if !addresses_equal(&event.eth_custodian_address, &self.eth_custodian_address) {
            return Err(ConnectorError::CustodianMismatch);
        }
        Ok(UnlockRequest {
            prover_account: self.prover_account.clone(),
            proof,
            skip_bridge_call: false,
            token: event.token,
            recipient: event.recipient,
            amount: event.amount,
            attached_deposit: ctx.attached_deposit,
        })
    }

    /// Finishes an unlock once the verifier has answered, by the same rules
    /// as a deposit; only while the lock path is switched on.
    pub fn finish_unlock(
        &mut self,
        ctx: &CallContext,
        verification_success: bool,
        token: String,
        recipient: String,
        amount: u128,
        proof: &Proof,
    ) -> (r: Result<CreditRequest, ConnectorError>)
        ensures
            !old(self).path_enabled() ==> r == Err::<CreditRequest, ConnectorError>(ConnectorError::PathDisabled)
                && final(self).used() == old(self).used(),
            old(self).path_enabled() ==> match finish_outcome(old(self).used(), ctx.is_self(), verification_success, proof.fingerprint_spec(), ctx.attached_deposit) {
                Ok(left) => r matches Ok(c) && c.token == Some(token) && c.account_id == recipient
                    && proof.fingerprint_spec().len() == 32
                    && c.amount == amount && c.unused_deposit == left
                    && final(self).used() == old(self).used().insert(proof.fingerprint_spec()),
                Err(e) => r matches Err(x) && x == e && final(self).used() == old(self).used(),
            },
            final(self).prover() == old(self).prover(),
            final(self).custodian() == old(self).custodian(),
            final(self).path_enabled() == old(self).path_enabled(),
    {
        if !self.native_token_path_enabled {
            return Err(ConnectorError::PathDisabled);
        }
        assert_self(ctx)?;
        if !verification_success {
            return Err(ConnectorError::VerificationFailed);
        }
        let unused_deposit = self.record_proof(ctx, proof)?;
        Ok(CreditRequest { token: Some(token), account_id: recipient, amount, unused_deposit })
    }
}

/// The part of `account` before its first `.`, where the rest is exactly
/// `.` followed by `parent`.
pub fn sub_account_prefix_of(account: &[u8], parent: &[u8]) -> (r: Option<Vec<u8>>)
    ensures
        match sub_account_prefix(account@, parent@) {
            Some(p) => r matches Some(v) && v@ == p,
            None => r is None,
        },
{
    let mut i: usize = 0;
    while i < account.len() && account[i] != 46
        invariant
            i <= account@.len(),
            forall|j: int| 0 <= j < i ==> account@[j] != 46,
        decreases account@.len() - i,
    {
        i = i + 1;
    }
    if i == account.len() {
        assert forall|k: int| !is_first_dot(account@, k) by {
            if 0 <= k < account@.len() {
                assert(account@[k] != 46);
            }
        }
        return None;
    }
    assert(is_first_dot(account@, i as int));
    assert forall|k: int| is_first_dot(account@, k) implies k == i by {
        if k < i {
            assert(account@[k] != 46);
        } else if k > i {
            assert(account@[i as int] != 46);
        }
    }
    let rest = account.len() - i - 1;
    if rest != parent.len() {
        assert(account@.subrange(i + 1, account@.len() as int).len() != parent@.len());
        return None;
    }
    let mut k: usize = 0;
    while k < rest
        invariant
            k <= rest,
            rest == parent@.len(),
            i + 1 + rest == account@.len(),
            account@.len() <= usize::MAX,
            forall|j: int| 0 <= j < k ==> account@[i + 1 + j] == parent@[j],
        decreases rest - k,
    {
        if account[i + 1 + k] != parent[k] {
            assert(account@.subrange(i + 1, account@.len() as int)[k as int] != parent@[k as int]);
            return None;
        }
        k = k + 1;
    }
    assert(account@.subrange(i + 1, account@.len() as int) =~= parent@);
    let mut prefix: Vec<u8> = Vec::new();
    let mut m: usize = 0;
    while m < i
        invariant
            m <= i,
            i < account@.len(),
            prefix@ == account@.subrange(0, m as int),
        decreases i - m,
    {
        prefix.push(account[m]);
        m = m + 1;
        assert(prefix@ =~= account@.subrange(0, m as int));
    }
    Some(prefix)
}

/// No proof is credited twice. Once a finishing call has recorded the
/// fingerprint of a proof, every later replay set still holds it, and then
/// a finishing call with that fingerprint fails, whoever makes it, whatever
/// the verifier said and whatever funds come with it.
pub proof fn lemma_no_double_credit(
    used: Set<Seq<u8>>,
    fp: Seq<u8>,
    attached: u128,
    later: Set<Seq<u8>>,
    from_self: bool,
    verified: bool,
    later_attached: u128,
)
    requires
        finish_outcome(used, true, true, fp, attached) is Ok,
        used.insert(fp).subset_of(later),
    ensures
        !used.contains(fp),
        finish_outcome(later, from_self, verified, fp, later_attached) is Err,
{
    assert(later.contains(fp));
}

} // verus!
