use vstd::prelude::*;

use crate::hash::{aggregate_hash, decimal_bytes, decimal_digits, sha3_256_digest, zero_hash, Hash256};
use crate::merkle::{hash_values, merkle_root, merkle_root_of};
use crate::types::{BlockHeight, Timestamp};

verus! {

/// Values that have a canonical 256-bit hash.
pub trait ToHash256 {
    fn to_hash256(&self) -> Hash256;
}

impl ToHash256 for String {
    /// The hash of the string's UTF-8 bytes.
    fn to_hash256(&self) -> (h: Hash256)
        ensures
            h@ == sha3_256_digest(vstd::utf8::encode_utf8(self@)),
    {
        Hash256::hash(self.as_str().as_bytes())
    }
}

/// A transaction: a commit message (`head`, `body`) made at `timestamp`.
pub struct Transaction {
    pub timestamp: Timestamp,
    pub head: String,
    pub body: String,
}

/// An agenda: the transactions to be voted on at `height`, by their hash.
pub struct Agenda {
    pub height: BlockHeight,
    pub transactions_hash: Hash256,
}

/// The header of a block at `height`.
pub struct BlockHeader {
    pub height: BlockHeight,
}

/// The hash of a height: the hash of its decimal representation.
pub open spec fn height_hash(height: BlockHeight) -> Seq<u8> {
    sha3_256_digest(decimal_digits(height as nat))
}

/// The hashes of the encoded items.
pub open spec fn item_hashes(encodings: Seq<Vec<u8>>) -> Seq<Seq<u8>> {
    encodings.map_values(|e: Vec<u8>| sha3_256_digest(e@))
}

/// `start` aggregated with each of `items` in turn.
pub open spec fn hash_chain(start: Seq<u8>, items: Seq<Seq<u8>>) -> Seq<u8>
    decreases items.len(),
{
    if items.len() == 0 {
        start
    } else {
        aggregate_hash(hash_chain(start, items.drop_last()), items.last())
    }
}

/// The hash of `height` aggregated with the hash of each encoded item in turn.
fn chain_item_hashes(height: BlockHeight, encodings: &[Vec<u8>]) -> (h: Hash256)
    ensures
        h@ == hash_chain(height_hash(height), item_hashes(encodings@)),
{
    let digits = decimal_bytes(height);
    let mut hash = Hash256::hash(digits.as_slice());
    let n = encodings.len();
    let mut i: usize = 0;
    assert(item_hashes(encodings@).take(0) =~= Seq::<Seq<u8>>::empty());
    while i < n
        invariant
            n == encodings@.len(),
            0 <= i <= n,
            hash@ == hash_chain(height_hash(height), item_hashes(encodings@).take(i as int)),
        decreases n - i,
    {
        let item = Hash256::hash(encodings[i].as_slice());
        hash = hash.aggregate(&item);
        assert(item_hashes(encodings@).take(i + 1).drop_last() =~= item_hashes(encodings@).take(
            i as int,
        ));
        i = i + 1;
    }
    assert(item_hashes(encodings@).take(n as int) =~= item_hashes(encodings@));
    hash
}

impl Transaction {
    /// The hash of the transaction's body, which is what the Merkle tree holds.
    pub fn merkle_hash(&self) -> (h: Hash256)
        ensures
            h@ == sha3_256_digest(vstd::utf8::encode_utf8(self.body@)),
    {
        Hash256::hash(self.body.as_str().as_bytes())
    }
}

impl Agenda {
    /// The hash of the transactions of an agenda at `height`: the hash of the
    /// height aggregated with the hash of each transaction in turn. Each entry
    /// of `transactions` is a transaction's canonical JSON encoding.
    pub fn calculate_hash(height: BlockHeight, transactions: &[Vec<u8>]) -> (h: Hash256)
        ensures
            h@ == hash_chain(height_hash(height), item_hashes(transactions@)),
    {
        chain_item_hashes(height, transactions)
    }
}

/// The hashes of the encoded items, as hash values.
fn hashes_of(encodings: &[Vec<u8>]) -> (hashes: Vec<Hash256>)
    ensures
        hash_values(hashes@) == item_hashes(encodings@),
{
    let mut hashes: Vec<Hash256> = Vec::new();
    let n = encodings.len();
    let mut i: usize = 0;
    while i < n
        invariant
            n == encodings@.len(),
            0 <= i <= n,
            hashes@.len() == i,
            forall|j: int| 0 <= j < i ==> #[trigger] hashes@[j]@ == sha3_256_digest(encodings@[j]@),
        decreases n - i,
    {
        hashes.push(Hash256::hash(encodings[i].as_slice()));
        i = i + 1;
    }
    assert(hash_values(hashes@) =~= item_hashes(encodings@));
    hashes
}

impl BlockHeader {
    /// The hash of the commits of the block: the hash of its height aggregated
    /// with the hash of each commit in turn. The commits are not checked. Each
    /// entry of `commits` is the canonical JSON encoding of what a commit holds
    /// (a block header, transaction, agenda, agenda proof, extra-agenda
    /// transaction or chat log).
    pub fn calculate_commit_hash(&self, commits: &[Vec<u8>]) -> (h: Hash256)
        ensures
            h@ == hash_chain(height_hash(self.height), item_hashes(commits@)),
    {
        chain_item_hashes(self.height, commits)
    }

    /// The root of the Merkle tree over the hashes of the transactions. Each
    /// entry of `transactions` is a transaction's canonical JSON encoding.
    pub fn calculate_tx_merkle_root(&self, transactions: &[Vec<u8>]) -> (h: Hash256)
        ensures
            h@ == merkle_root(item_hashes(transactions@)),
    {
        let hashes = hashes_of(transactions);
        merkle_root_of(hashes.as_slice())
    }

    /// The Merkle root of the chat logs, which is the zero hash whatever they hold.
    pub fn calculate_chat_merkle_root(&self, _chat_logs: &[Vec<u8>]) -> (h: Hash256)
        ensures
            h@ == zero_hash(),
    {
        Hash256::zero()
    }
}

} // verus!
