use blockchain_sim::block::Block;
use blockchain_sim::block::MineOutcome;
use blockchain_sim::chain::Blockchain;
use blockchain_sim::encoding::u64_to_string;
use blockchain_sim::encoding::to_hex;

#[test]
fn u64_to_string_renders_decimal() {
    assert_eq!(u64_to_string(0), "0");
    assert_eq!(u64_to_string(7), "7");
    assert_eq!(u64_to_string(10), "10");
    assert_eq!(u64_to_string(1234567890), "1234567890");
    assert_eq!(u64_to_string(u64::MAX), "18446744073709551615");
}

#[test]
fn to_hex_renders_bytes() {
    assert_eq!(to_hex(&vec![]), "");
    assert_eq!(to_hex(&vec![0u8, 255, 26]), "00ff1a");
    assert_eq!(to_hex(&vec![0x12u8, 0x34, 0xab]), "1234ab");
}

#[test]
fn calculate_hash_matches_reference_digest() {
    let b = Block::with_timestamp(7, "hello".to_string(), "abc".to_string(), 1234);
    assert_eq!(
        b.calculate_hash(),
        "cbfcec5b45d17c78d23d5a13724a0bbad6bc6eba68875fbdf9e0eadef6286d6a"
    );
}

#[test]
fn calculate_hash_all_zero_fields() {
    let b = Block::with_timestamp(0, String::new(), String::new(), 0);
    assert_eq!(
        b.calculate_hash(),
        "2ac9a6746aca543af8dff39894cfe8173afba21eb01c6fae33d52947222855ef"
    );
}

#[test]
fn calculate_hash_unicode_payload() {
    let b = Block::with_timestamp(1, "h\u{e9}llo\u{2603}".to_string(), "abc".to_string(), 1234);
    assert_eq!(
        b.calculate_hash(),
        "b1246f660e3053c63a9c000ac3bde44dd87441ad6284ef7bca65faa39490de3b"
    );
}

#[test]
fn calculate_hash_is_deterministic() {
    let a = Block::with_timestamp(7, "hello".to_string(), "abc".to_string(), 1234);
    let b = Block::with_timestamp(7, "hello".to_string(), "abc".to_string(), 1234);
    assert_eq!(a.calculate_hash(), a.calculate_hash());
    assert_eq!(a.calculate_hash(), b.calculate_hash());
}

#[test]
fn genesis_chain_holds_one_sentinel_block() {
    let c = Blockchain::new();
    assert_eq!(c.get_total_blocks(), 1);
    assert_eq!(c.chain.len(), 1);
    assert_eq!(c.chain[0].index, 0);
    assert_eq!(c.chain[0].previous_hash, "Genesis Block");
    assert_eq!(c.chain[0].payload, "");
    assert_eq!(c.chain[0].hash, "");
    assert_eq!(c.chain[0].nonce, 0);
}

#[test]
fn mine_at_zero_difficulty_succeeds_at_once() {
    let mut b = Block::with_timestamp(1, "x".to_string(), String::new(), 5);
    let outcome = b.mine_block(0, 10);
    assert_eq!(outcome, MineOutcome::Mined);
    assert_eq!(b.nonce, 0);
    assert_eq!(b.hash, b.calculate_hash());
}

#[test]
fn mined_block_meets_difficulty() {
    let mut b = Block::with_timestamp(1, "Alice sent to Bob".to_string(), String::new(), 1234);
    let outcome = b.mine_block(2, 100);
    assert_eq!(outcome, MineOutcome::Mined);
    assert_eq!(b.nonce, 56);
    assert_eq!(
        b.hash,
        "00414c29d4e35c089095991b068c15a8944d25ee0066a6a43950e592c2aaee30"
    );
    assert!(b.hash.starts_with("00"));
}

#[test]
fn abandoned_pass_keeps_last_digest() {
    let mut b = Block::with_timestamp(1, "Alice sent to Bob".to_string(), String::new(), 1234);
    let outcome = b.mine_block(3, 100);
    assert_eq!(outcome, MineOutcome::Abandoned);
    assert_eq!(b.nonce, 100);
    assert_eq!(
        b.hash,
        "f878c2c72ab0f523156a55783e708aac65619dad18386ca0e424d23aba591446"
    );
    assert!(!b.hash.starts_with("000"));
    // the sub-threshold digest is still the digest of the stored fields
    assert_eq!(b.hash, b.calculate_hash());
}

#[test]
fn impossible_difficulty_always_abandons() {
    let mut b = Block::with_timestamp(2, "payload".to_string(), "prev".to_string(), 99);
    let outcome = b.mine_block(65, 20);
    assert_eq!(outcome, MineOutcome::Abandoned);
    assert_eq!(b.nonce, 20);
    assert_eq!(b.hash.len(), 64);
    assert_eq!(b.hash, b.calculate_hash());
}

#[test]
fn mined_hash_is_reproducible_after_append() {
    let mut c = Blockchain::new();
    let b = Block::with_timestamp(1, "Alice sent to Bob".to_string(), String::new(), 1234);
    c.add_block(b);
    assert_eq!(c.chain[1].hash, c.chain[1].calculate_hash());
}

#[test]
fn append_grows_chain_by_one() {
    let mut c = Blockchain::new();
    assert_eq!(c.get_total_blocks(), 1);
    c.add_block(Block::new(1, "a".to_string(), String::new()));
    assert_eq!(c.get_total_blocks(), 2);
    c.add_block(Block::new(2, "b".to_string(), String::new()));
    assert_eq!(c.get_total_blocks(), 3);
}

#[test]
fn chain_linkage_after_appends() {
    let mut c = Blockchain::new();
    c.add_block(Block::new(1, "a".to_string(), String::new()));
    c.add_block(Block::new(2, "b".to_string(), String::new()));
    c.add_block(Block::new(3, "c".to_string(), String::new()));
    for i in 1..c.chain.len() {
        assert_eq!(c.chain[i].previous_hash, c.chain[i - 1].hash);
    }
}

#[test]
fn integrity_holds_after_appends() {
    let mut c = Blockchain::new();
    assert!(c.verify_integrity());
    c.add_block(Block::new(1, "a".to_string(), String::new()));
    c.add_block(Block::new(2, "b".to_string(), String::new()));
    assert!(c.verify_integrity());
}

#[test]
fn integrity_rejects_broken_linkage() {
    let mut c = Blockchain::new();
    c.add_block(Block::new(1, "a".to_string(), String::new()));
    c.chain[1].previous_hash = "tampered".to_string();
    assert!(!c.verify_integrity());
}

#[test]
fn integrity_rejects_tampered_payload() {
    let mut c = Blockchain::new();
    c.add_block(Block::new(1, "a".to_string(), String::new()));
    // the stored hash no longer matches the stored fields
    c.chain[1].payload = "b".to_string();
    assert!(!c.verify_integrity());
}

#[test]
fn two_block_scenario_at_difficulty_two() {
    let mut c = Blockchain::new();
    c.add_block(Block::new(1, "Alice sent to Bob".to_string(), String::new()));
    assert_eq!(c.get_total_blocks(), 2);
    // the genesis block is never mined, so its hash is the empty string
    assert_eq!(c.chain[1].previous_hash, c.chain[0].hash);
    assert_eq!(c.chain[1].hash.len(), 64);
    if c.chain[1].hash.starts_with("00") {
        // mined to the difficulty target before the attempt bound
        assert!(c.chain[1].nonce <= 100);
    } else {
        // the bounded-effort escape accepted the last digest
        assert_eq!(c.chain[1].nonce, 100);
    }
}
