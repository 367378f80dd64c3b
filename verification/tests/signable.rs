use harness::signable::{count_dots, AddressSize, MemoSize};

fn address(declared: usize, written: usize) -> Option<AddressSize> {
    Some(AddressSize { declared, written })
}

#[test]
fn parts_of_a_memo_fit_their_length_bytes() {
    let memo = MemoSize { address: address(255, 255), payment_id: 255, hashes: Some(255) };
    assert!(memo.is_writable() && memo.is_sealable());
    assert!(!MemoSize { address: address(256, 256), ..memo }.is_writable());
    assert!(!MemoSize { payment_id: 256, ..memo }.is_writable());
    assert!(!MemoSize { hashes: Some(256), ..memo }.is_writable());
    assert!(!MemoSize { payment_id: 256, ..memo }.is_sealable());
    // Memos without an address have no length bytes.
    assert!(MemoSize { address: None, payment_id: 5_000, hashes: None }.is_sealable());
}

#[test]
fn sealed_memos_fill_their_buffer() {
    // 8 + 67 + 10 + 45 = 130
    let memo = MemoSize { address: address(67, 77), payment_id: 45, hashes: None };
    assert!(memo.is_sealable());
    let longer = MemoSize { payment_id: 46, ..memo };
    assert!(longer.is_writable() && !longer.is_sealable());
    assert!(MemoSize { address: address(77, 77), ..longer }.is_sealable());
    // 17 + 77 + 4 + 32 = 130
    let listing = MemoSize { address: address(67, 77), payment_id: 4, hashes: Some(1) };
    assert!(listing.is_sealable());
    assert!(!MemoSize { payment_id: 5, ..listing }.is_sealable());
    assert!(!MemoSize { hashes: Some(2), ..listing }.is_sealable());
}

#[test]
fn dots_are_counted() {
    assert_eq!(count_dots(""), 0);
    assert_eq!(count_dots("spend_key"), 0);
    assert_eq!(count_dots("derived.dh_commitment_mask.ab.view_key"), 3);
    assert_eq!(count_dots("..µ."), 3);
}
