use subalfred::storage_diff::{
    diff_storage, EntryDiff, PalletDiff, PalletStorage, StorageEntry, StorageSnapshot,
};
use subalfred::version::{diff_versions, FieldDiff, RuntimeVersion, VersionField};

fn sample_version() -> RuntimeVersion {
    RuntimeVersion {
        spec_name: b"node".to_vec(),
        impl_name: b"node".to_vec(),
        authoring_version: 10,
        spec_version: 9180,
        impl_version: 0,
        transaction_version: 14,
    }
}

#[test]
fn equal_versions_diff_to_none() {
    let x = sample_version();
    let y = sample_version();
    assert!(diff_versions(&x, &y).is_none());
}

#[test]
fn lone_spec_version_difference_names_exactly_that_field() {
    let x = sample_version();
    let mut y = sample_version();
    y.spec_version = 9181;
    let diff = diff_versions(&x, &y).expect("one field differs");
    assert_eq!(diff.fields.len(), 1);
    match &diff.fields[0] {
        FieldDiff::Number(field, left, right) => {
            assert!(matches!(field, VersionField::SpecVersion));
            assert_eq!(*left, 9180);
            assert_eq!(*right, 9181);
        },
        other => panic!("unexpected field diff {other:?}"),
    }
}

#[test]
fn version_diff_keeps_declared_field_order() {
    let x = sample_version();
    let mut y = sample_version();
    y.impl_name = b"other".to_vec();
    y.transaction_version = 15;
    y.authoring_version = 11;
    let diff = diff_versions(&x, &y).expect("three fields differ");
    assert_eq!(diff.fields.len(), 3);
    assert!(matches!(&diff.fields[0], FieldDiff::Name(VersionField::ImplName, _, _)));
    assert!(matches!(
        &diff.fields[1],
        FieldDiff::Number(VersionField::AuthoringVersion, 10, 11)
    ));
    assert!(matches!(
        &diff.fields[2],
        FieldDiff::Number(VersionField::TransactionVersion, 14, 15)
    ));
}

fn entry(name: &[u8], value: &[u8]) -> StorageEntry {
    StorageEntry { name: name.to_vec(), value: value.to_vec() }
}

fn pallet(name: &[u8], entries: Vec<StorageEntry>) -> PalletStorage {
    PalletStorage { name: name.to_vec(), entries }
}

fn sample_snapshot() -> StorageSnapshot {
    StorageSnapshot {
        pallets: vec![
            pallet(b"System", vec![entry(b"Account", b"\x01"), entry(b"Number", b"\x02")]),
            pallet(b"Balances", vec![entry(b"TotalIssuance", b"\x03")]),
        ],
    }
}

#[test]
fn identical_snapshots_diff_to_nothing() {
    let a = sample_snapshot();
    let b = sample_snapshot();
    let (pallets_diff, entries_diffs) = diff_storage(&a, &b);
    assert!(pallets_diff.is_empty());
    assert!(entries_diffs.is_empty());
}

#[test]
fn missing_pallet_is_reported_removed_with_no_entry_diffs() {
    let a = sample_snapshot();
    let b = StorageSnapshot {
        pallets: vec![
            pallet(b"System", vec![entry(b"Account", b"\x01"), entry(b"Number", b"\x02")]),
        ],
    };
    let (pallets_diff, entries_diffs) = diff_storage(&a, &b);
    assert_eq!(pallets_diff.len(), 1);
    match &pallets_diff[0] {
        PalletDiff::Removed(name) => assert_eq!(name, b"Balances"),
        other => panic!("unexpected pallet diff {other:?}"),
    }
    assert!(entries_diffs.is_empty());
}

#[test]
fn extra_right_pallet_is_reported_added() {
    let a = StorageSnapshot { pallets: vec![pallet(b"System", vec![])] };
    let b = StorageSnapshot {
        pallets: vec![pallet(b"System", vec![]), pallet(b"Vesting", vec![])],
    };
    let (pallets_diff, entries_diffs) = diff_storage(&a, &b);
    assert_eq!(pallets_diff.len(), 1);
    match &pallets_diff[0] {
        PalletDiff::Added(name) => assert_eq!(name, b"Vesting"),
        other => panic!("unexpected pallet diff {other:?}"),
    }
    assert!(entries_diffs.is_empty());
}

#[test]
fn entry_level_differences_are_grouped_by_pallet() {
    let a = StorageSnapshot {
        pallets: vec![
            pallet(b"System", vec![entry(b"Account", b"\x01"), entry(b"OnlyLeft", b"\x09")]),
            pallet(b"Balances", vec![entry(b"TotalIssuance", b"\x03")]),
        ],
    };
    let b = StorageSnapshot {
        pallets: vec![
            pallet(b"System", vec![entry(b"Account", b"\xff"), entry(b"OnlyRight", b"\x08")]),
            pallet(b"Balances", vec![entry(b"TotalIssuance", b"\x03")]),
        ],
    };
    let (pallets_diff, entries_diffs) = diff_storage(&a, &b);
    assert!(pallets_diff.is_empty());
    // Balances agrees on every entry, so only System appears.
    assert_eq!(entries_diffs.len(), 1);
    assert_eq!(entries_diffs[0].pallet, b"System");
    let diffs = &entries_diffs[0].diffs;
    assert_eq!(diffs.len(), 3);
    match &diffs[0] {
        EntryDiff::ValueDiffers { name, left, right } => {
            assert_eq!(name, b"Account");
            assert_eq!(left, b"\x01");
            assert_eq!(right, b"\xff");
        },
        other => panic!("unexpected entry diff {other:?}"),
    }
    match &diffs[1] {
        EntryDiff::OnlyInLeft { name, value } => {
            assert_eq!(name, b"OnlyLeft");
            assert_eq!(value, b"\x09");
        },
        other => panic!("unexpected entry diff {other:?}"),
    }
    match &diffs[2] {
        EntryDiff::OnlyInRight { name, value } => {
            assert_eq!(name, b"OnlyRight");
            assert_eq!(value, b"\x08");
        },
        other => panic!("unexpected entry diff {other:?}"),
    }
}
