use btclib::canonical::{push_byte_array, push_bytes, push_text, push_uint, Canonical};
use btclib::crypto::{PublicKey, Signature};
use btclib::time::Timestamp;
use btclib::types::{
    Block, BlockHeader, Blockchain, Transaction, TransactionInput, TransactionOutput, UniqueId,
};
use btclib::uint256::U256;
use btclib::util::MerkleRoot;
use ciborium::value::Value;

fn cbor(v: &Value) -> Vec<u8> {
    let mut out = Vec::new();
    ciborium::into_writer(v, &mut out).unwrap();
    out
}

fn int_array(b: &[u8]) -> Value {
    Value::Array(b.iter().map(|x| Value::Integer((*x as u64).into())).collect())
}

fn text(s: &str) -> Value {
    Value::Text(s.to_string())
}

fn stamp() -> Timestamp {
    Timestamp::from_unix(1_700_000_000, 0).unwrap()
}

fn sample_output(value: u64, id: u8, key: u8) -> TransactionOutput {
    TransactionOutput {
        value,
        unique_id: UniqueId([id; 16]),
        pubkey: PublicKey([key; 33]),
    }
}

fn sample_input(prev: u8, sig: u8) -> TransactionInput {
    TransactionInput {
        prev_transaction_hash: [prev; 32],
        signature: Signature([sig; 64]),
    }
}

fn sample_header(nonce: u64) -> BlockHeader {
    BlockHeader::new(stamp(), nonce, [0u8; 32], [7u8; 32], U256::max_value())
}

fn leaf(n: u8) -> btclib::sha256::Hash {
    btclib::sha256::Hash::of_bytes(&[n])
}

fn encoded<T: Canonical>(v: &T) -> Vec<u8> {
    let mut out = Vec::new();
    v.encode(&mut out);
    out
}

#[test]
fn u256_big_endian_round_trip() {
    let mut b = [0u8; 32];
    for (i, x) in b.iter_mut().enumerate() {
        *x = (i as u8).wrapping_mul(37).wrapping_add(1);
    }
    let v = U256::from_big_endian(&b);
    assert_eq!(v.to_big_endian(), b);
    assert_eq!(v.0[3], u64::from_be_bytes(b[0..8].try_into().unwrap()));
    assert_eq!(v.0[0], u64::from_be_bytes(b[24..32].try_into().unwrap()));
}

#[test]
fn u256_order_is_numeric() {
    let mut low = [0u8; 32];
    low[31] = 0xff;
    let mut high = [0u8; 32];
    high[0] = 0x01;
    let a = U256::from_big_endian(&low);
    let b = U256::from_big_endian(&high);
    assert!(a.le(&b));
    assert!(!b.le(&a));
    assert!(a.le(&a));
    assert!(a.lt(&b));
    assert!(!b.lt(&a));
    assert!(!a.lt(&a));
    assert_eq!(a, a);
    assert_ne!(a, b);
    assert!(U256::zero().le(&a));
    assert!(b.le(&U256::max_value()));
    assert_eq!(U256::max_value().to_big_endian(), [0xffu8; 32]);
    assert_eq!(U256::zero().to_big_endian(), [0u8; 32]);
}

#[test]
fn digest_of_known_input() {
    let h = btclib::sha256::Hash::of_bytes(b"hello");
    assert_eq!(
        h.to_string(),
        "2cf24dba5fb0a30e26e83b2ac5b9e29e1b161e5c1fa7425e73043362938b9824"
    );
    assert_eq!(btclib::sha256::digest(b"hello").to_vec(), hex::decode(h.to_string()).unwrap());
}

#[test]
fn zero_hash_meets_every_target() {
    let z = btclib::sha256::Hash::zero();
    assert!(z.matches_target(U256::zero()));
    assert!(z.matches_target(U256::max_value()));
    let mut one = [0u8; 32];
    one[31] = 1;
    assert!(z.matches_target(U256::from_big_endian(&one)));
    assert_eq!(z.to_string(), "0".repeat(64));
}

#[test]
fn target_monotonicity() {
    let h = btclib::sha256::Hash::from_bytes([0x10; 32]);
    let t1 = U256::from_big_endian(&[0x20; 32]);
    let t2 = U256::from_big_endian(&[0x30; 32]);
    assert!(h.matches_target(t1));
    assert!(t1.le(&t2));
    assert!(h.matches_target(t2));
    assert!(!h.matches_target(U256::from_big_endian(&[0x0f; 32])));
    assert!(h.matches_target(U256::from_big_endian(&[0x10; 32])));
}

#[test]
fn hash_is_deterministic() {
    let a = sample_header(5);
    let b = sample_header(5);
    assert_eq!(a.hash(), a.hash());
    assert_eq!(a.hash(), b.hash());
    let tx = Transaction::new(vec![sample_input(1, 2)], vec![sample_output(9, 3, 4)]);
    assert_eq!(tx.hash(), tx.clone().hash());
}

#[test]
fn header_hash_sensitive_to_each_field() {
    let base = sample_header(0).hash();
    assert_ne!(sample_header(1).hash(), base);
    let later = BlockHeader::new(
        Timestamp::from_unix(1_700_000_001, 0).unwrap(),
        0,
        [0u8; 32],
        [7u8; 32],
        U256::max_value(),
    );
    assert_ne!(later.hash(), base);
    let other_prev = BlockHeader::new(stamp(), 0, [1u8; 32], [7u8; 32], U256::max_value());
    assert_ne!(other_prev.hash(), base);
    let other_root = BlockHeader::new(stamp(), 0, [0u8; 32], [8u8; 32], U256::max_value());
    assert_ne!(other_root.hash(), base);
    let other_target = BlockHeader::new(stamp(), 0, [0u8; 32], [7u8; 32], U256::zero());
    assert_ne!(other_target.hash(), base);
}

#[test]
fn transaction_hash_sensitive_to_each_field() {
    let base = sample_output(10, 1, 2);
    assert_ne!(sample_output(11, 1, 2).hash(), base.hash());
    assert_ne!(sample_output(10, 9, 2).hash(), base.hash());
    assert_ne!(sample_output(10, 1, 9).hash(), base.hash());
    let tx = Transaction::new(vec![sample_input(1, 2)], vec![base.clone()]);
    let tx_prev = Transaction::new(vec![sample_input(3, 2)], vec![base.clone()]);
    let tx_sig = Transaction::new(vec![sample_input(1, 3)], vec![base.clone()]);
    let tx_out = Transaction::new(vec![sample_input(1, 2)], vec![sample_output(12, 1, 2)]);
    assert_ne!(tx.hash(), tx_prev.hash());
    assert_ne!(tx.hash(), tx_sig.hash());
    assert_ne!(tx.hash(), tx_out.hash());
    let swapped = Transaction::new(
        vec![sample_input(1, 2), sample_input(3, 4)],
        vec![base.clone()],
    );
    let reordered = Transaction::new(
        vec![sample_input(3, 4), sample_input(1, 2)],
        vec![base.clone()],
    );
    assert_ne!(swapped.hash(), reordered.hash());
}

#[test]
fn block_hash_differs_from_header_hash() {
    let header = sample_header(3);
    let tx = Transaction::new(vec![sample_input(1, 2)], vec![sample_output(1, 1, 1)]);
    let block = Block::new(header.clone(), vec![tx.clone()]);
    assert_ne!(block.hash(), header.hash());
    let empty = Block::new(header.clone(), vec![]);
    assert_ne!(block.hash(), empty.hash());
}

#[test]
fn uint_encoding_matches_cbor() {
    for n in [0u64, 1, 23, 24, 255, 256, 65535, 65536, 0xffff_ffff, 0x1_0000_0000, u64::MAX] {
        let mut mine = Vec::new();
        push_uint(n, &mut mine);
        assert_eq!(mine, cbor(&Value::Integer(n.into())), "{}", n);
    }
    let mut mine = Vec::new();
    push_uint(500, &mut mine);
    assert_eq!(mine, vec![0x19, 0x01, 0xf4]);
}

#[test]
fn text_and_byte_encodings_match_cbor() {
    let mut t = Vec::new();
    push_text("prev_transaction_hash", &mut t);
    assert_eq!(t, cbor(&text("prev_transaction_hash")));
    let mut e = Vec::new();
    push_text("", &mut e);
    assert_eq!(e, vec![0x60]);
    let mut b = Vec::new();
    push_bytes(&[1, 2, 3], &mut b);
    assert_eq!(b, cbor(&Value::Bytes(vec![1, 2, 3])));
    let arr = [200u8; 32];
    let mut a = Vec::new();
    push_byte_array(&arr, &mut a);
    let mut expected = Vec::new();
    ciborium::into_writer(&arr, &mut expected).unwrap();
    assert_eq!(a, expected);
}

#[test]
fn output_encoding_matches_cbor_map() {
    let out = sample_output(1_000, 5, 6);
    let expected = Value::Map(vec![
        (text("value"), Value::Integer(1_000u64.into())),
        (text("unique_id"), Value::Bytes(vec![5; 16])),
        (text("pubkey"), int_array(&[6; 33])),
    ]);
    assert_eq!(encoded(&out), cbor(&expected));
}

#[test]
fn transaction_encoding_matches_cbor_map() {
    let tx = Transaction::new(vec![sample_input(30, 31)], vec![sample_output(7, 1, 2)]);
    let input = Value::Map(vec![
        (text("prev_transaction_hash"), int_array(&[30; 32])),
        (text("signature"), int_array(&[31; 64])),
    ]);
    let output = Value::Map(vec![
        (text("value"), Value::Integer(7u64.into())),
        (text("unique_id"), Value::Bytes(vec![1; 16])),
        (text("pubkey"), int_array(&[2; 33])),
    ]);
    let expected = Value::Map(vec![
        (text("inputs"), Value::Array(vec![input])),
        (text("outputs"), Value::Array(vec![output])),
    ]);
    assert_eq!(encoded(&tx), cbor(&expected));
}

#[test]
fn header_encoding_matches_cbor_map() {
    let h = sample_header(42);
    let expected = Value::Map(vec![
        (text("timestamp"), text("2023-11-14T22:13:20Z")),
        (text("nonce"), Value::Integer(42u64.into())),
        (text("previous_block_hash"), int_array(&[0; 32])),
        (text("merkle_root"), int_array(&[7; 32])),
        (text("target"), Value::Bytes(vec![0xff; 32])),
    ]);
    assert_eq!(encoded(&h), cbor(&expected));
}

#[test]
fn timestamp_text_matches_chrono_serde() {
    let t = Timestamp::from_unix(1_700_000_000, 250_000_000).unwrap();
    assert_eq!(t.to_rfc3339(), "2023-11-14T22:13:20.250Z");
    assert_eq!(t.secs(), 1_700_000_000);
    assert_eq!(t.nanos(), 250_000_000);
    let d = chrono::DateTime::from_timestamp(1_700_000_000, 250_000_000).unwrap();
    let mut expected = Vec::new();
    ciborium::into_writer(&d, &mut expected).unwrap();
    assert_eq!(encoded(&t), expected);
    assert!(Timestamp::from_unix(i64::MAX, 0).is_none());
}

#[test]
fn merkle_root_of_no_hashes_is_zero() {
    assert_eq!(MerkleRoot::compute(&vec![]), btclib::sha256::Hash::zero());
}

#[test]
fn merkle_root_of_one_hash_is_that_hash() {
    assert_eq!(MerkleRoot::compute(&vec![leaf(1)]), leaf(1));
}

fn joined(a: &btclib::sha256::Hash, b: &btclib::sha256::Hash) -> btclib::sha256::Hash {
    let mut bytes = a.to_bytes().to_vec();
    bytes.extend_from_slice(&b.to_bytes());
    btclib::sha256::Hash::of_bytes(&bytes)
}

#[test]
fn merkle_root_pairs_and_duplicates_last() {
    let (a, b, c) = (leaf(1), leaf(2), leaf(3));
    assert_eq!(MerkleRoot::compute(&vec![a, b]), joined(&a, &b));
    let expected = joined(&joined(&a, &b), &joined(&c, &c));
    assert_eq!(MerkleRoot::compute(&vec![a, b, c]), expected);
}

#[test]
fn merkle_root_depends_on_order() {
    let hs: Vec<_> = (1..=5).map(leaf).collect();
    let root = MerkleRoot::compute(&hs);
    let mut reversed = hs.clone();
    reversed.reverse();
    assert_ne!(MerkleRoot::compute(&reversed), root);
    let mut swapped = hs.clone();
    swapped.swap(1, 2);
    assert_ne!(MerkleRoot::compute(&swapped), root);
    assert_ne!(MerkleRoot::compute(&vec![hs[1], hs[0]]), MerkleRoot::compute(&vec![hs[0], hs[1]]));
}

#[test]
fn header_round_trip_scenario() {
    let t1 = btclib::sha256::Hash::from_bytes([0x11; 32]);
    let t2 = btclib::sha256::Hash::from_bytes([0x22; 32]);
    let root = MerkleRoot::compute(&vec![t1, t2]);
    let header = BlockHeader::new(stamp(), 0, [0u8; 32], root.to_bytes(), U256::max_value());
    let h = header.hash();
    assert!(h.matches_target(U256::max_value()));
    assert!(!h.matches_target(btclib::sha256::Hash::zero().as_u256()));
    assert!(header.meets_target());
    let hard = BlockHeader::new(stamp(), 0, [0u8; 32], root.to_bytes(), U256::zero());
    assert!(!hard.meets_target());
}

#[test]
fn hash_text_round_trips_through_hex() {
    let h = sample_header(9).hash();
    let s = h.to_string();
    assert_eq!(s.len(), 64);
    assert!(s.chars().all(|c| c.is_ascii_digit() || ('a'..='f').contains(&c)));
    let back: [u8; 32] = hex::decode(&s).unwrap().try_into().unwrap();
    assert_eq!(back, h.to_bytes());
    assert_eq!(btclib::sha256::Hash::from_bytes(back), h);
}

#[test]
fn blockchain_appends_in_order() {
    let mut chain = Blockchain::new();
    assert!(chain.blocks.is_empty());
    let first = Block::new(sample_header(1), vec![]);
    let second = Block::new(sample_header(2), vec![]);
    chain.add_block(first.clone());
    chain.add_block(second.clone());
    assert_eq!(chain.blocks.len(), 2);
    assert_eq!(chain.blocks[0].hash(), first.hash());
    assert_eq!(chain.blocks[1].hash(), second.hash());
    let mut genesis_link = sample_header(3);
    genesis_link.previous_block_hash = btclib::sha256::Hash::zero().to_bytes();
    assert_eq!(genesis_link.previous_block_hash, [0u8; 32]);
}
