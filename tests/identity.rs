use trinci_node::identity::{calculate_network_name, content_hash, contract_code_key, fetched_genesis_location};
use trinci_node::text::{contains, decimal_text, same_text};
use trinci_node::tracer::Tracer;

#[test]
fn network_name_is_content_derived() {
    assert_eq!(calculate_network_name(b"genesis-bytes"), "Qmb98cBzFEHvDmphRyrgkwVuAzLVpZ7Ks7dtvQ9mxSbXzm");
    assert_eq!(calculate_network_name(b"genesis-bytes"), calculate_network_name(b"genesis-bytes"));
    assert_eq!(calculate_network_name(b"genesis-bytez"), "QmZCJC7W3DHiwgJ8884tik7d9nNuiDVJR2t1zVCjhoGgVm");
    assert_ne!(calculate_network_name(b"genesis-bytes"), calculate_network_name(b"genesis-bytez"));
    assert_eq!(calculate_network_name(b""), "QmdfTbBqBPQ7VNxZEYEj14VmRuZBkqFbiwReogJgS1zR1n");
}

#[test]
fn multihash_and_code_key() {
    let h = content_hash(&[1, 2, 3]);
    assert_eq!(h[0], 0x12);
    assert_eq!(h[1], 0x20);
    assert_eq!(h.len(), 34);
    assert_eq!(
        contract_code_key(&h),
        "contracts:code:1220039058c6f2c0cb492c533b0a4d14ef77cc0f78abccced5287d84a1a2011cfb81"
    );
}

#[test]
fn fetched_genesis_file_name() {
    let (name, path) = fetched_genesis_location(b"genesis-bytes");
    assert_eq!(name, "Qmb98cBzFEHvDmphRyrgkwVuAzLVpZ7Ks7dtvQ9mxSbXzm");
    assert_eq!(path, "data/Qmb98cBzFEHvDmphRyrgkwVuAzLVpZ7Ks7dtvQ9mxSbXzm.bin");
}

#[test]
fn text_helpers() {
    assert_eq!(decimal_text(0), "0");
    assert_eq!(decimal_text(7), "7");
    assert_eq!(decimal_text(1234), "1234");
    assert_eq!(decimal_text(u64::MAX), "18446744073709551615");
    assert!(same_text("abc", "abc"));
    assert!(!same_text("abc", "abd"));
    assert!(!same_text("abc", "ab"));
    assert!(contains("/dev/tpm0", "/tpm"));
    assert!(contains("abc", ""));
    assert!(!contains("ab", "abc"));
    assert!(!contains("ecds", "ecdsa"));
}

#[test]
fn tracer_counts_from_first_block() {
    let mut t = Tracer::new();
    let first = t.update(1, 10, 5_000_000_000);
    assert_eq!(first.total, 10);
    assert_eq!(first.elapsed_secs, 0);
    let second = t.update(2, 5, 7_500_000_000);
    assert_eq!(second.total, 15);
    assert_eq!(second.height, 2);
    assert_eq!(second.count, 5);
    assert_eq!(second.elapsed_secs, 2);
    assert_eq!(t.begin, 5_000_000_000);
}
