#![allow(unused_imports)]
use mtp_rs::ptp::{ObjectHandle, StorageId, TransactionId};

#[test]
fn transaction_id_next() {
    assert_eq!(TransactionId(1).next(), TransactionId(2));
    assert_eq!(TransactionId(100).next(), TransactionId(101));
}

#[test]
fn transaction_id_wrapping() {
    // Should wrap from 0xFFFFFFFE to 0x00000001, skipping 0xFFFFFFFF and 0x00000000
    assert_eq!(TransactionId(0xFFFFFFFE).next(), TransactionId(1));
    assert_eq!(TransactionId(0xFFFFFFFD).next(), TransactionId(0xFFFFFFFE));
}

#[test]
fn object_handle_constants() {
    assert_eq!(ObjectHandle::root().0, 0);
    assert_eq!(ObjectHandle::all().0, 0xFFFFFFFF);
}

#[test]
fn storage_id_constants() {
    assert_eq!(StorageId::all().0, 0xFFFFFFFF);
}
