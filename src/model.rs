//! Blocks, headers and transactions, with the commitments computed over them.
use vstd::prelude::*;
use fuel_merkle::binary::root_calculator::MerkleRootCalculator;

verus! {

/// A 32-byte hash, root or identity.
pub type Bytes32 = [u8; 32];

/// Height of a block on this chain.
pub type BlockHeight = u32;

/// Height of a block on the external (DA) chain.
pub type DaBlockHeight = u64;

/// A pending transaction, as far as block production reads it.
#[derive(Clone, Copy, Debug, PartialEq, Eq)]
pub struct Transaction {
    pub id: Bytes32,
    pub gas_limit: u64,
}

#[derive(Clone, Copy, Debug, PartialEq, Eq)]
pub struct BlockHeader {
    pub height: BlockHeight,
    /// The DA height that this block references.
    pub number: DaBlockHeight,
    pub parent_hash: Bytes32,
    pub prev_root: Bytes32,
    pub transactions_root: Bytes32,
    /// Unix timestamp in seconds.
    pub time: i64,
    pub producer: Bytes32,
    pub metadata: Option<Bytes32>,
}

#[derive(Clone, Debug, PartialEq, Eq)]
pub struct Block {
    pub header: BlockHeader,
    pub transactions: Vec<Transaction>,
}

/// The all-zero value used for the parent links of the first block.
pub open spec fn zero32() -> Seq<u8> {
    Seq::new(32, |i: int| 0u8)
}

pub open spec fn be_u32(x: u32) -> Seq<u8> {
    seq![(x >> 24u32) as u8, (x >> 16u32) as u8, (x >> 8u32) as u8, x as u8]
}

pub open spec fn be_u64(x: u64) -> Seq<u8> {
    seq![
        (x >> 56u64) as u8, (x >> 48u64) as u8, (x >> 40u64) as u8, (x >> 32u64) as u8,
        (x >> 24u64) as u8, (x >> 16u64) as u8, (x >> 8u64) as u8, x as u8,
    ]
}

/// The bytes that a header's identifier commits to; the metadata is left out.
pub open spec fn header_bytes(h: BlockHeader) -> Seq<u8> {
    be_u32(h.height) + be_u64(h.number) + h.parent_hash@ + h.prev_root@ + h.transactions_root@
        + be_u64(h.time as u64) + h.producer@
}

/// The SHA-256 digest of a byte string.
pub uninterp spec fn sha256_of(data: Seq<u8>) -> Seq<u8>;

/// The root of the binary Merkle tree whose leaves are the given byte strings, in order.
pub uninterp spec fn merkle_root_of(leaves: Seq<Seq<u8>>) -> Seq<u8>;

pub open spec fn header_id(h: BlockHeader) -> Seq<u8> {
    sha256_of(header_bytes(h))
}

pub open spec fn tx_ids(txs: Seq<Transaction>) -> Seq<Seq<u8>> {
    txs.map_values(|t: Transaction| t.id@)
}

pub open spec fn transactions_root_of(txs: Seq<Transaction>) -> Seq<u8> {
    merkle_root_of(tx_ids(txs))
}

/// Relies on fuel_crypto::Hasher::hash: the SHA-256 digest of the bytes.
#[verifier::external_body]
fn sha256(data: &Vec<u8>) -> (r: Bytes32)
    ensures
        r@ == sha256_of(data@),
{
    fuel_crypto::Hasher::hash(data.as_slice()).into()
}

/// Relies on fuel_merkle's MerkleRootCalculator::root_from_iterator: the binary
/// Merkle root over the leaves in order.
#[verifier::external_body]
fn merkle_root(leaves: &Vec<Bytes32>) -> (r: Bytes32)
    ensures
        r@ == merkle_root_of(leaves@.map_values(|l: Bytes32| l@)),
{
    MerkleRootCalculator::new().root_from_iterator(leaves.iter())
}

fn push_u32_be(out: &mut Vec<u8>, x: u32)
    ensures
        final(out)@ == old(out)@ + be_u32(x),
{
    out.push((x >> 24u32) as u8);
    out.push((x >> 16u32) as u8);
    out.push((x >> 8u32) as u8);
    out.push(x as u8);
    assert(out@ =~= old(out)@ + be_u32(x));
}

fn push_u64_be(out: &mut Vec<u8>, x: u64)
    ensures
        final(out)@ == old(out)@ + be_u64(x),
{
    out.push((x >> 56u64) as u8);
    out.push((x >> 48u64) as u8);
    out.push((x >> 40u64) as u8);
    out.push((x >> 32u64) as u8);
    out.push((x >> 24u64) as u8);
    out.push((x >> 16u64) as u8);
    out.push((x >> 8u64) as u8);
    out.push(x as u8);
    assert(out@ =~= old(out)@ + be_u64(x));
}

fn push_bytes32(out: &mut Vec<u8>, b: &Bytes32)
    ensures
        final(out)@ == old(out)@ + b@,
{
    let ghost start = out@;
    let mut i: usize = 0;
    while i < 32
        invariant
            0 <= i <= 32,
            b@.len() == 32,
            out@ == start + b@.subrange(0, i as int),
        decreases 32 - i,
    {
        out.push(b[i]);
        i = i + 1;
        assert(out@ =~= start + b@.subrange(0, i as int));
    }
    assert(b@.subrange(0, 32) =~= b@);
}

/// The all-zero 32-byte value.
pub fn zero_bytes32() -> (r: Bytes32)
    ensures
        r@ == zero32(),
{
    let r: Bytes32 = [0u8; 32];
    assert(r@ =~= zero32());
    r
}

impl BlockHeader {
    /// The bytes that the identifier is computed over.
    pub fn to_bytes(&self) -> (r: Vec<u8>)
        ensures
            r@ == header_bytes(*self),
    {
        let mut out: Vec<u8> = Vec::new();
        push_u32_be(&mut out, self.height);
        push_u64_be(&mut out, self.number);
        push_bytes32(&mut out, &self.parent_hash);
        push_bytes32(&mut out, &self.prev_root);
        push_bytes32(&mut out, &self.transactions_root);
        push_u64_be(&mut out, self.time as u64);
        push_bytes32(&mut out, &self.producer);
        out
    }

    /// The header's identifier: the SHA-256 digest of its bytes.
    pub fn id(&self) -> (r: Bytes32)
        ensures
            r@ == header_id(*self),
    {
        let bytes = self.to_bytes();
        sha256(&bytes)
    }

    /// The Merkle root over the identifiers of the transactions, in order.
    pub fn transactions_root(txs: &Vec<Transaction>) -> (r: Bytes32)
        ensures
            r@ == transactions_root_of(txs@),
    {
        let mut ids: Vec<Bytes32> = Vec::new();
        let mut i: usize = 0;
        while i < txs.len()
            invariant
                0 <= i <= txs@.len(),
                ids@.len() == i,
                forall|k: int| 0 <= k < i ==> ids@[k] == txs@[k].id,
            decreases txs@.len() - i,
        {
            ids.push(txs[i].id);
            i = i + 1;
        }
        assert(ids@.map_values(|l: Bytes32| l@) =~= tx_ids(txs@));
        merkle_root(&ids)
    }
}

impl Block {
    /// The block's identifier, which is that of its header.
    pub fn id(&self) -> (r: Bytes32)
        ensures
            r@ == header_id(self.header),
    {
        self.header.id()
    }
}

} // verus!
