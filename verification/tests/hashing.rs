use vetomint::block::{Agenda, BlockHeader, ToHash256, Transaction};
use vetomint::hash::{decimal_bytes, Hash256};
use vetomint::merkle::merkle_root_of;

fn from_hex(s: &str) -> Hash256 {
    let mut hash = [0u8; 32];
    for i in 0..32 {
        hash[i] = u8::from_str_radix(&s[2 * i..2 * i + 2], 16).unwrap();
    }
    Hash256 { hash }
}

const E1: &[u8] = br#"{"a":1}"#;
const E2: &[u8] = br#"{"b":2}"#;
const E3: &[u8] = br#"{"c":3}"#;

#[test]
fn zero_hash_is_all_zeros() {
    assert_eq!(Hash256::zero().hash, [0u8; 32]);
}

#[test]
fn hash_is_sha3_256() {
    assert_eq!(
        Hash256::hash(b"abc"),
        from_hex("3a985da74fe225b2045c172d6bd390bd855f086e3e9d525b46bfe24511431532")
    );
}

#[test]
fn aggregate_hashes_the_concatenation() {
    let a = Hash256::hash(b"abc");
    let b = Hash256::hash(b"xyz");
    assert_eq!(
        a.aggregate(&b),
        from_hex("847aac71de17587346b7cc0944a8e175d50f8614676ba757a283e8cc402a3ad6")
    );
    assert_ne!(a.aggregate(&b), b.aggregate(&a));
}

#[test]
fn decimal_bytes_match_display() {
    assert_eq!(decimal_bytes(0), b"0".to_vec());
    assert_eq!(decimal_bytes(7), b"7".to_vec());
    assert_eq!(decimal_bytes(12345), b"12345".to_vec());
    assert_eq!(decimal_bytes(u64::MAX), u64::MAX.to_string().into_bytes());
}

#[test]
fn string_to_hash256_hashes_utf8_bytes() {
    let s = String::from("abc");
    assert_eq!(s.to_hash256(), Hash256::hash(b"abc"));
}

#[test]
fn merkle_hash_hashes_the_body() {
    let tx = Transaction {
        timestamp: 0,
        head: "head".to_string(),
        body: "héllo wörld".to_string(),
    };
    assert_eq!(
        tx.merkle_hash(),
        from_hex("658e21ba6487e9c4fbb534fc5f2f0fa3217ca7b79d8168cf193536a9769c6d3f")
    );
}

#[test]
fn agenda_hash_of_no_transactions_is_the_height_hash() {
    assert_eq!(Agenda::calculate_hash(7, &[]), Hash256::hash(b"7"));
}

#[test]
fn agenda_hash_chains_transaction_hashes() {
    let txs = vec![E1.to_vec(), E2.to_vec()];
    assert_eq!(
        Agenda::calculate_hash(7, &txs),
        from_hex("84bef91e183ddf65f211b7852db1b39112760aac200084b826ebdf600dc14dc5")
    );
    let step = Hash256::hash(b"7")
        .aggregate(&Hash256::hash(E1))
        .aggregate(&Hash256::hash(E2));
    assert_eq!(Agenda::calculate_hash(7, &txs), step);
}

#[test]
fn commit_hash_uses_the_header_height() {
    let header = BlockHeader { height: 0 };
    assert_eq!(
        header.calculate_commit_hash(&[]),
        from_hex("f9e2eaaa42d9fe9e558a9b8ef1bf366f190aacaa83bad2641ee106e9041096e4")
    );
    let header = BlockHeader { height: u64::MAX };
    assert_eq!(
        header.calculate_commit_hash(&[]),
        from_hex("b24a6eca932d14afe04bd6bd21cad6c70df1a3b59b2208c9d97f8014694989ac")
    );
    let header = BlockHeader { height: 7 };
    let commits = vec![E1.to_vec(), E2.to_vec()];
    assert_eq!(
        header.calculate_commit_hash(&commits),
        Agenda::calculate_hash(7, &commits)
    );
}

#[test]
fn commit_hash_extends_by_aggregation() {
    let header = BlockHeader { height: 3 };
    let two = vec![E1.to_vec(), E2.to_vec()];
    let three = vec![E1.to_vec(), E2.to_vec(), E3.to_vec()];
    assert_eq!(
        header.calculate_commit_hash(&three),
        header.calculate_commit_hash(&two).aggregate(&Hash256::hash(E3))
    );
}

#[test]
fn tx_merkle_root_of_nothing_is_zero() {
    let header = BlockHeader { height: 1 };
    assert_eq!(header.calculate_tx_merkle_root(&[]), Hash256::zero());
}

#[test]
fn tx_merkle_root_of_one_is_its_hash() {
    let header = BlockHeader { height: 1 };
    assert_eq!(
        header.calculate_tx_merkle_root(&[E1.to_vec()]),
        from_hex("a943baa087ebafbda2490731cbe9aa91708f0b66bd4055150e814fe74ce61c4a")
    );
}

#[test]
fn tx_merkle_root_pairs_and_hashes_the_odd_one() {
    let header = BlockHeader { height: 1 };
    assert_eq!(
        header.calculate_tx_merkle_root(&[E1.to_vec(), E2.to_vec()]),
        from_hex("c0a993170c7d034fcc1d3e613f35df147049e5ccd8afedc4d9e62ae810bfa7bb")
    );
    assert_eq!(
        header.calculate_tx_merkle_root(&[E1.to_vec(), E2.to_vec(), E3.to_vec()]),
        from_hex("f4867f61f71549098a9e15ed717df1e28e24bf395f388728f40de4710a297033")
    );
}

#[test]
fn merkle_root_of_five_leaves() {
    let leaves: Vec<Hash256> = (0u8..5).map(|i| Hash256::hash(&[i])).collect();
    assert_eq!(
        merkle_root_of(&leaves),
        from_hex("17306692454134e53bebcc6c82fd2c5ec6def36fab17113c4848e166dd1a5483")
    );
}

#[test]
fn chat_merkle_root_is_zero() {
    let header = BlockHeader { height: 9 };
    assert_eq!(
        header.calculate_chat_merkle_root(&[E1.to_vec()]),
        Hash256::zero()
    );
}
