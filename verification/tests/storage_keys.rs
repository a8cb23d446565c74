use subalfred::storager::{
    storage_double_map_key, storage_key, storage_map_key, storage_value_key, StorageHasher,
    StorageKey, StorageKeyBuilder,
};

#[test]
fn base_key_matches_known_address() {
    // The address root of the best-known storage item, byte for byte.
    let key = storage_value_key(b"System", b"Account");
    let hex: String = key.iter().map(|b| format!("{b:02x}")).collect();
    assert_eq!(
        hex,
        "26aa394eea5630e07c48ae0c9558cef7b99d880ec681799c0cf30e8886371da9"
    );
}

#[test]
fn base_key_is_deterministic_and_32_bytes() {
    let a = storage_value_key(b"Balances", b"TotalIssuance");
    let b = storage_value_key(b"Balances", b"TotalIssuance");
    assert_eq!(a, b);
    assert_eq!(a.len(), 32);
    // The first half depends on the namespace alone, the second on the item.
    let c = storage_value_key(b"Balances", b"Locks");
    assert_eq!(a[..16], c[..16]);
    assert_ne!(a[16..], c[16..]);
    // Inputs of any length still derive exactly 32 bytes.
    assert_eq!(storage_value_key(b"", b"").len(), 32);
}

#[test]
fn storage_key_wraps_base_key() {
    let raw = storage_value_key(b"System", b"Number");
    let key = storage_key(b"System", b"Number");
    assert_eq!(key.0, raw);
}

#[test]
fn hex_rendering_is_prefixed_lowercase() {
    let key = storage_key(b"System", b"Account");
    let rendered = key.to_hex_string();
    assert_eq!(
        rendered,
        "0x26aa394eea5630e07c48ae0c9558cef7b99d880ec681799c0cf30e8886371da9"
    );
    assert_eq!(StorageKey::new().to_hex_string(), "0x");
}

#[test]
fn identity_hasher_returns_data_unchanged() {
    let data = vec![0u8, 1, 2, 254, 255];
    let hashed = StorageHasher::Identity.hash(&data);
    assert_eq!(hashed.0, data);
    assert_eq!(StorageHasher::Identity.hash(b"").0, Vec::<u8>::new());
}

#[test]
fn concat_hashers_keep_the_data() {
    let data = b"some encoded key".to_vec();
    let blake = StorageHasher::Blake2_128Concat.hash(&data);
    assert_eq!(blake.0.len(), 16 + data.len());
    assert_eq!(blake.0[16..], data[..]);
    // The digest prefix is the plain 16-byte digest of the same data.
    assert_eq!(blake.0[..16], StorageHasher::Blake2_128.hash(&data).0[..]);

    let twox = StorageHasher::Twox64Concat.hash(&data);
    assert_eq!(twox.0.len(), 8 + data.len());
    assert_eq!(twox.0[8..], data[..]);
}

#[test]
fn fixed_hashers_have_fixed_widths() {
    let data = b"whatever length this input has".to_vec();
    assert_eq!(StorageHasher::Blake2_128.hash(&data).0.len(), 16);
    assert_eq!(StorageHasher::Blake2_256.hash(&data).0.len(), 32);
    assert_eq!(StorageHasher::Twox128.hash(&data).0.len(), 16);
    assert_eq!(StorageHasher::Twox256.hash(&data).0.len(), 32);
    assert_eq!(StorageHasher::Twox128.hash(b"").0.len(), 16);
    // A digest is not the input handed back.
    assert_ne!(StorageHasher::Blake2_128.hash(&data).0, data);
}

#[test]
fn map_keys_append_hashed_parameters() {
    let base = storage_value_key(b"System", b"Account");
    let param = vec![7u8, 7, 7];
    let single = storage_map_key(b"System", b"Account", (StorageHasher::Identity, &param));
    let mut expected = base.clone();
    expected.extend_from_slice(&param);
    assert_eq!(single.0, expected);

    let p2 = vec![9u8];
    let double = storage_double_map_key(
        b"System",
        b"Account",
        (StorageHasher::Identity, &param),
        (StorageHasher::Twox64Concat, &p2),
    );
    let mut expected2 = base;
    expected2.extend_from_slice(&param);
    expected2.extend_from_slice(&StorageHasher::Twox64Concat.hash(&p2).0);
    assert_eq!(double.0, expected2);
}

#[test]
fn empty_builder_builds_the_base_key() {
    let built = StorageKey::builder(b"System", b"Account").build();
    assert_eq!(built.0, storage_value_key(b"System", b"Account"));
    let built2 = StorageKeyBuilder::new(b"Balances", b"Locks").build();
    assert_eq!(built2.0, storage_value_key(b"Balances", b"Locks"));
}

#[test]
fn builder_appends_parameters_in_insertion_order() {
    let built = StorageKey::builder(b"System", b"Account")
        .param(StorageHasher::Identity, &[1u8])
        .param(StorageHasher::Identity, &[2u8])
        .build();
    let mut expected = storage_value_key(b"System", b"Account");
    expected.push(1);
    expected.push(2);
    assert_eq!(built.0, expected);
}

#[test]
fn builder_parameter_order_matters() {
    let one_two = StorageKey::builder(b"System", b"Account")
        .param(StorageHasher::Identity, &[1u8])
        .param(StorageHasher::Identity, &[2u8])
        .build();
    let two_one = StorageKey::builder(b"System", b"Account")
        .param(StorageHasher::Identity, &[2u8])
        .param(StorageHasher::Identity, &[1u8])
        .build();
    assert_ne!(one_two.0, two_one.0);
}

#[test]
fn builder_matches_map_key_derivations() {
    let param = b"\x2a\x00\x00\x00".to_vec();
    let built = StorageKey::builder(b"Balances", b"Account")
        .param(StorageHasher::Blake2_128Concat, &param)
        .build();
    let direct = storage_map_key(
        b"Balances",
        b"Account",
        (StorageHasher::Blake2_128Concat, &param),
    );
    assert_eq!(built.0, direct.0);
}
