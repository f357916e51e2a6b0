//! The ledger's data model: chains of blocks, blocks of transactions.
use vstd::prelude::*;
use crate::canonical::{
    cbor_array, cbor_byte_array, cbor_bytes, cbor_head, cbor_text, cbor_uint, push_array,
    push_byte_array, push_bytes, push_head, push_text, push_uint, Canonical, MAJOR_MAP,
};
use crate::crypto::{PublicKey, Signature};
use crate::sha256::digest_value;
use crate::time::Timestamp;
use crate::uint256::U256;

verus! {

/// A 128-bit identifier that tells apart outputs that are otherwise equal.
#[derive(Clone, Copy, Debug, PartialEq, Eq)]
pub struct UniqueId(pub [u8; 16]);

impl Canonical for UniqueId {
    /// An identifier is written as the byte string of its 16 bytes.
    open spec fn canonical(&self) -> Seq<u8> {
        cbor_bytes(self.0@)
    }

    fn encode(&self, out: &mut Vec<u8>) {
        push_bytes(self.0.as_slice(), out);
    }
}

/// A spend of an output of an earlier transaction.
#[derive(Clone, Copy, Debug)]
pub struct TransactionInput {
    pub prev_transaction_hash: [u8; 32],
    pub signature: Signature,
}

impl Canonical for TransactionInput {
    open spec fn canonical(&self) -> Seq<u8> {
        cbor_head(MAJOR_MAP, 2) + cbor_text("prev_transaction_hash"@) + cbor_byte_array(
            self.prev_transaction_hash@,
        ) + cbor_text("signature"@) + self.signature.canonical()
    }

    fn encode(&self, out: &mut Vec<u8>) {
        push_head(MAJOR_MAP, 2, out);
        push_text("prev_transaction_hash", out);
        push_byte_array(self.prev_transaction_hash.as_slice(), out);
        push_text("signature", out);
        self.signature.encode(out);
        assert(final(out)@ =~= old(out)@ + self.canonical());
    }
}

/// An amount paid to a public key.
#[derive(Clone, Debug)]
pub struct TransactionOutput {
    pub value: u64,
    pub unique_id: UniqueId,
    pub pubkey: PublicKey,
}

impl Canonical for TransactionOutput {
    open spec fn canonical(&self) -> Seq<u8> {
        cbor_head(MAJOR_MAP, 3) + cbor_text("value"@) + cbor_uint(self.value) + cbor_text(
            "unique_id"@,
        ) + self.unique_id.canonical() + cbor_text("pubkey"@) + self.pubkey.canonical()
    }

    fn encode(&self, out: &mut Vec<u8>) {
        push_head(MAJOR_MAP, 3, out);
        push_text("value", out);
        push_uint(self.value, out);
        push_text("unique_id", out);
        self.unique_id.encode(out);
        push_text("pubkey", out);
        self.pubkey.encode(out);
        assert(final(out)@ =~= old(out)@ + self.canonical());
    }
}

impl TransactionOutput {
    /// The hash of the output.
    pub fn hash(&self) -> (r: crate::sha256::Hash)
        ensures
            r.value() == digest_value(self.canonical()),
    {
        crate::sha256::Hash::hash(self)
    }
}

/// Inputs spent and outputs created, both in order.
#[derive(Clone, Debug)]
pub struct Transaction {
    pub inputs: Vec<TransactionInput>,
    pub outputs: Vec<TransactionOutput>,
}

impl Canonical for Transaction {
    open spec fn canonical(&self) -> Seq<u8> {
        cbor_head(MAJOR_MAP, 2) + cbor_text("inputs"@) + cbor_array(self.inputs@) + cbor_text(
            "outputs"@,
        ) + cbor_array(self.outputs@)
    }

    fn encode(&self, out: &mut Vec<u8>) {
        push_head(MAJOR_MAP, 2, out);
        push_text("inputs", out);
        push_array(&self.inputs, out);
        push_text("outputs", out);
        push_array(&self.outputs, out);
        assert(final(out)@ =~= old(out)@ + self.canonical());
    }
}

impl Transaction {
    /// A transaction of the given inputs and outputs.
    pub fn new(inputs: Vec<TransactionInput>, outputs: Vec<TransactionOutput>) -> (r: Self)
        ensures
            r.inputs@ == inputs@,
            r.outputs@ == outputs@,
    {
        Self { inputs, outputs }
    }

    /// The hash of the transaction.
    pub fn hash(&self) -> (r: crate::sha256::Hash)
        ensures
            r.value() == digest_value(self.canonical()),
    {
        crate::sha256::Hash::hash(self)
    }
}

/// The fixed-size summary of a block that is hashed for proof of work.
#[derive(Clone, Debug)]
pub struct BlockHeader {
    /// When the block was made.
    pub timestamp: Timestamp,
    /// The value a miner varies to meet the target.
    pub nonce: u64,
    /// The header hash of the block before.
    pub previous_block_hash: [u8; 32],
    /// The Merkle root of the block's transactions.
    pub merkle_root: [u8; 32],
    /// The largest header hash that counts as proof of work.
    pub target: U256,
}

impl Canonical for BlockHeader {
    open spec fn canonical(&self) -> Seq<u8> {
        cbor_head(MAJOR_MAP, 5) + cbor_text("timestamp"@) + self.timestamp.canonical()
            + cbor_text("nonce"@) + cbor_uint(self.nonce) + cbor_text("previous_block_hash"@)
            + cbor_byte_array(self.previous_block_hash@) + cbor_text("merkle_root"@)
            + cbor_byte_array(self.merkle_root@) + cbor_text("target"@) + self.target.canonical()
    }

    fn encode(&self, out: &mut Vec<u8>) {
        let ghost start = old(out)@;
        push_head(MAJOR_MAP, 5, out);
        push_text("timestamp", out);
        self.timestamp.encode(out);
        let ghost with_time = cbor_head(MAJOR_MAP, 5) + cbor_text("timestamp"@) + self.timestamp.canonical();
        assert(out@ =~= start + with_time);
        push_text("nonce", out);
        push_uint(self.nonce, out);
        let ghost with_nonce = with_time + cbor_text("nonce"@) + cbor_uint(self.nonce);
        assert(out@ =~= start + with_nonce);
        push_text("previous_block_hash", out);
        push_byte_array(self.previous_block_hash.as_slice(), out);
        let ghost with_prev = with_nonce + cbor_text("previous_block_hash"@) + cbor_byte_array(
            self.previous_block_hash@,
        );
        assert(out@ =~= start + with_prev);
        push_text("merkle_root", out);
        push_byte_array(self.merkle_root.as_slice(), out);
        let ghost with_root = with_prev + cbor_text("merkle_root"@) + cbor_byte_array(self.merkle_root@);
        assert(out@ =~= start + with_root);
        push_text("target", out);
        self.target.encode(out);
        assert(out@ =~= start + (with_root + cbor_text("target"@) + self.target.canonical()));
    }
}

impl BlockHeader {
    /// A header of the given fields.
    pub fn new(
        timestamp: Timestamp,
        nonce: u64,
        previous_block_hash: [u8; 32],
        merkle_root: [u8; 32],
        target: U256,
    ) -> (r: Self)
        ensures
            r.timestamp == timestamp,
            r.nonce == nonce,
            r.previous_block_hash == previous_block_hash,
            r.merkle_root == merkle_root,
            r.target == target,
    {
        Self { timestamp, nonce, previous_block_hash, merkle_root, target }
    }

    /// The hash of the header: the identity of its block in a chain.
    pub fn hash(&self) -> (r: crate::sha256::Hash)
        ensures
            r.value() == digest_value(self.canonical()),
    {
        crate::sha256::Hash::hash(self)
    }

    /// Whether the header is proof of work: its hash is at most its own target.
    pub fn meets_target(&self) -> (r: bool)
        ensures
            r == (digest_value(self.canonical()) <= self.target.value()),
    {
        self.hash().matches_target(self.target)
    }
}

/// A header and the transactions it summarises, in order.
#[derive(Clone, Debug)]
pub struct Block {
    pub header: BlockHeader,
    pub transaction: Vec<Transaction>,
}

impl Canonical for Block {
    open spec fn canonical(&self) -> Seq<u8> {
        cbor_head(MAJOR_MAP, 2) + cbor_text("header"@) + self.header.canonical() + cbor_text(
            "transaction"@,
        ) + cbor_array(self.transaction@)
    }

    fn encode(&self, out: &mut Vec<u8>) {
        push_head(MAJOR_MAP, 2, out);
        push_text("header", out);
        self.header.encode(out);
        push_text("transaction", out);
        push_array(&self.transaction, out);
        assert(final(out)@ =~= old(out)@ + self.canonical());
    }
}

impl Block {
    /// A block of the given header and transactions.
    pub fn new(header: BlockHeader, transaction: Vec<Transaction>) -> (r: Self)
        ensures
            r.header == header,
            r.transaction@ == transaction@,
    {
        Self { header, transaction }
    }

    /// The hash of the whole block, transactions included. This is not the
    /// header hash that links blocks into a chain.
    pub fn hash(&self) -> (r: crate::sha256::Hash)
        ensures
            r.value() == digest_value(self.canonical()),
    {
        crate::sha256::Hash::hash(self)
    }
}

/// Blocks in the order they were added.
#[derive(Clone, Debug)]
pub struct Blockchain {
    pub blocks: Vec<Block>,
}

impl Canonical for Blockchain {
    open spec fn canonical(&self) -> Seq<u8> {
        cbor_head(MAJOR_MAP, 1) + cbor_text("blocks"@) + cbor_array(self.blocks@)
    }

    fn encode(&self, out: &mut Vec<u8>) {
        push_head(MAJOR_MAP, 1, out);
        push_text("blocks", out);
        push_array(&self.blocks, out);
        assert(final(out)@ =~= old(out)@ + self.canonical());
    }
}

impl Blockchain {
    /// A chain with no blocks.
    pub fn new() -> (r: Self)
        ensures
            r.blocks@ == Seq::<Block>::empty(),
    {
        Self { blocks: Vec::new() }
    }

    /// Appends a block at the end of the chain.
    pub fn add_block(&mut self, block: Block)
        ensures
            final(self).blocks@ == old(self).blocks@.push(block),
    {
        self.blocks.push(block);
    }
}

} // verus!
