use vstd::prelude::*;

verus! {

/// A proof that a log entry was included in a block of the source chain.
#[derive(Debug, Clone)]
pub struct Proof {
    pub log_index: u64,
    pub log_entry_data: Vec<u8>,
    pub receipt_index: u64,
    pub receipt_data: Vec<u8>,
    pub header_data: Vec<u8>,
    pub proof: Vec<Vec<u8>>,
}

/// The SHA-256 digest of a byte sequence.
pub uninterp spec fn sha256_of(data: Seq<u8>) -> Seq<u8>;

/// Relies on sha2::Sha256::digest (the implementation the NEAR host's
/// `sha256` uses): the SHA-256 digest of `data`, which is 32 bytes long.
#[verifier::external_body]
pub(crate) fn sha256(data: &Vec<u8>) -> (r: Vec<u8>)
    ensures
        r@ == sha256_of(data@),
        r@.len() == 32,
{
    <sha2::Sha256 as sha2::Digest>::digest(data).to_vec()
}

/// The 8 little-endian bytes of `x`, as borsh writes a `u64`.
pub open spec fn u64_le_bytes(x: u64) -> Seq<u8> {
    Seq::new(8, |i: int| ((x >> (8 * i) as u64) & 0xff) as u8)
}

/// The bytes that identify one log entry of one block: the log index, the
/// receipt index, then the block header.
pub open spec fn fingerprint_input(log_index: u64, receipt_index: u64, header_data: Seq<u8>) -> Seq<u8> {
    u64_le_bytes(log_index) + u64_le_bytes(receipt_index) + header_data
}

/// The replay key of a proof.
pub open spec fn fingerprint_of(log_index: u64, receipt_index: u64, header_data: Seq<u8>) -> Seq<u8> {
    sha256_of(fingerprint_input(log_index, receipt_index, header_data))
}

impl Proof {
    pub open spec fn fingerprint_spec(&self) -> Seq<u8> {
        fingerprint_of(self.log_index, self.receipt_index, self.header_data@)
    }

    /// The bytes hashed into the replay key of this proof.
    pub fn fingerprint_input(&self) -> (r: Vec<u8>)
        ensures
            r@ == fingerprint_input(self.log_index, self.receipt_index, self.header_data@),
    {
        let mut data = push_u64_le(Vec::new(), self.log_index);
        data = push_u64_le(data, self.receipt_index);
        let mut i: usize = 0;
        let ghost start = data@;
        while i < self.header_data.len()
            invariant
                i <= self.header_data@.len(),
                data@ == start + self.header_data@.subrange(0, i as int),
            decreases self.header_data@.len() - i,
        {
            data.push(self.header_data[i]);
            i = i + 1;
            assert(self.header_data@.subrange(0, i as int) =~= self.header_data@.subrange(0, i - 1) + seq![self.header_data@[i - 1]]);
        }
        assert(self.header_data@.subrange(0, i as int) =~= self.header_data@);
        assert(data@ =~= fingerprint_input(self.log_index, self.receipt_index, self.header_data@));
        data
    }

    /// The replay key of this proof: the SHA-256 digest of its log index,
    /// receipt index and block header.
    pub fn fingerprint(&self) -> (r: Vec<u8>)
        ensures
            r@ == self.fingerprint_spec(),
            r@.len() == 32,
    {
        sha256(&self.fingerprint_input())
    }
}

/// Appends the little-endian bytes of `x` to `data`.
fn push_u64_le(data: Vec<u8>, x: u64) -> (r: Vec<u8>)
    ensures
        r@ == data@ + u64_le_bytes(x),
{
    let mut data = data;
    let ghost start = data@;
    let mut i: u64 = 0;
    while i < 8
        invariant
            i <= 8,
            data@ == start + u64_le_bytes(x).subrange(0, i as int),
        decreases 8 - i,
    {
        data.push(((x >> (8 * i)) & 0xff) as u8);
        i = i + 1;
        assert(u64_le_bytes(x).subrange(0, i as int) =~= u64_le_bytes(x).subrange(0, i - 1) + seq![u64_le_bytes(x)[i - 1]]);
    }
    assert(u64_le_bytes(x).subrange(0, 8) =~= u64_le_bytes(x));
    data
}

/// Two integers with the same little-endian bytes are equal.
pub proof fn lemma_u64_le_bytes_injective(x: u64, y: u64)
    requires
        u64_le_bytes(x) == u64_le_bytes(y),
    ensures
        x == y,
{
    let bx = u64_le_bytes(x);
    let by_ = u64_le_bytes(y);
    assert forall|k: int| 0 <= k < 8 implies
        #[trigger] ((x >> (8 * k) as u64) & 0xff) as u8 == ((y >> (8 * k) as u64) & 0xff) as u8 by {
        assert(bx[k] == by_[k]);
    }
    assert(((x >> (8 * 0int) as u64) & 0xff) as u8 == ((y >> (8 * 0int) as u64) & 0xff) as u8);
    assert(((x >> (8 * 1int) as u64) & 0xff) as u8 == ((y >> (8 * 1int) as u64) & 0xff) as u8);
    assert(((x >> (8 * 2int) as u64) & 0xff) as u8 == ((y >> (8 * 2int) as u64) & 0xff) as u8);
    assert(((x >> (8 * 3int) as u64) & 0xff) as u8 == ((y >> (8 * 3int) as u64) & 0xff) as u8);
    assert(((x >> (8 * 4int) as u64) & 0xff) as u8 == ((y >> (8 * 4int) as u64) & 0xff) as u8);
    assert(((x >> (8 * 5int) as u64) & 0xff) as u8 == ((y >> (8 * 5int) as u64) & 0xff) as u8);
    assert(((x >> (8 * 6int) as u64) & 0xff) as u8 == ((y >> (8 * 6int) as u64) & 0xff) as u8);
    assert(((x >> (8 * 7int) as u64) & 0xff) as u8 == ((y >> (8 * 7int) as u64) & 0xff) as u8);
    assert(x == y) by (bit_vector)
        requires
            ((x >> 0u64) & 0xff) as u8 == ((y >> 0u64) & 0xff) as u8,
            ((x >> 8u64) & 0xff) as u8 == ((y >> 8u64) & 0xff) as u8,
            ((x >> 16u64) & 0xff) as u8 == ((y >> 16u64) & 0xff) as u8,
            ((x >> 24u64) & 0xff) as u8 == ((y >> 24u64) & 0xff) as u8,
            ((x >> 32u64) & 0xff) as u8 == ((y >> 32u64) & 0xff) as u8,
            ((x >> 40u64) & 0xff) as u8 == ((y >> 40u64) & 0xff) as u8,
            ((x >> 48u64) & 0xff) as u8 == ((y >> 48u64) & 0xff) as u8,
            ((x >> 56u64) & 0xff) as u8 == ((y >> 56u64) & 0xff) as u8,
    ;
}

/// The replay key is a function of log index, receipt index and header alone,
/// and what is hashed into it differs as soon as one of the three differs.
pub proof fn lemma_fingerprint_determined(
    log_index_a: u64, receipt_index_a: u64, header_a: Seq<u8>,
    log_index_b: u64, receipt_index_b: u64, header_b: Seq<u8>,
)
    ensures
        (log_index_a == log_index_b && receipt_index_a == receipt_index_b && header_a == header_b)
            ==> fingerprint_of(log_index_a, receipt_index_a, header_a)
                == fingerprint_of(log_index_b, receipt_index_b, header_b),
        fingerprint_input(log_index_a, receipt_index_a, header_a)
            == fingerprint_input(log_index_b, receipt_index_b, header_b)
            <==> (log_index_a == log_index_b && receipt_index_a == receipt_index_b && header_a == header_b),
{
    let ia = fingerprint_input(log_index_a, receipt_index_a, header_a);
    let ib = fingerprint_input(log_index_b, receipt_index_b, header_b);
    if ia == ib {
        assert(ia.subrange(0, 8) =~= u64_le_bytes(log_index_a));
        assert(ib.subrange(0, 8) =~= u64_le_bytes(log_index_b));
        assert(ia.subrange(8, 16) =~= u64_le_bytes(receipt_index_a));
        assert(ib.subrange(8, 16) =~= u64_le_bytes(receipt_index_b));
        assert(ia.subrange(16, ia.len() as int) =~= header_a);
        assert(ib.subrange(16, ib.len() as int) =~= header_b);
        lemma_u64_le_bytes_injective(log_index_a, log_index_b);
        lemma_u64_le_bytes_injective(receipt_index_a, receipt_index_b);
    }
}

} // verus!
