use xrpl_hooks::{AccountType, AmountType, TransactionBuffer, TxnType};

#[test]
fn can_encode_transaction_type() {
    let txn_types = [
        (TxnType::Payment, 0u16),
        (TxnType::EscrowCreate, 1),
        (TxnType::EscrowFinish, 2),
        (TxnType::AccountSet, 3),
        (TxnType::EscrowCancel, 4),
        (TxnType::RegularKeySet, 5),
        (TxnType::OfferCreate, 7),
        (TxnType::OfferCancel, 8),
        (TxnType::TicketCreate, 10),
        (TxnType::TicketCancel, 11),
        (TxnType::SignerListSet, 12),
        (TxnType::PaychanCreate, 13),
        (TxnType::PaychanFund, 14),
        (TxnType::PaychanClaim, 15),
        (TxnType::CheckCreate, 16),
        (TxnType::CheckCash, 17),
        (TxnType::CheckCancel, 18),
        (TxnType::DepositPreauth, 19),
        (TxnType::TrustSet, 20),
        (TxnType::AccountDelete, 21),
        (TxnType::HookSet, 22),
        (TxnType::Amendment, 100),
        (TxnType::Fee, 101),
        (TxnType::UnlModify, 102),
    ];
    for (txn_type, code) in txn_types {
        assert_eq!(txn_type.code(), code);
        let mut txn_buffer = TransactionBuffer::<270>::new();
        txn_buffer.encode_txn_type(txn_type);
        assert_eq!(txn_buffer.byte(0), 0x12);
        assert_eq!(txn_buffer.byte(1), ((code >> 8) & 0xFF) as u8);
        assert_eq!(txn_buffer.byte(2), (code & 0xFF) as u8);
        assert_eq!(txn_buffer.byte(3), 0);
        assert_eq!(txn_buffer.pos(), 3);
    }
}

#[test]
fn can_encode_drops_at_buf() {
    let mut initialized_buffer = [0u8; 270];
    TransactionBuffer::<270>::encode_drops_at_buf(&mut initialized_buffer, 44, 12_u64, AmountType::Fee);
    let mut expected = [0u8; 270];
    expected[44] = 104;
    expected[45] = 64;
    expected[52] = 12;
    assert_eq!(initialized_buffer, expected);
}

#[test]
fn drops_at_buf_leaves_other_bytes() {
    let mut buf = [0xAAu8; 270];
    TransactionBuffer::<270>::encode_drops_at_buf(&mut buf, 261, 0x0102_0304_0506_0708, AmountType::Amount);
    assert!(buf[..261].iter().all(|b| *b == 0xAA));
    assert_eq!(&buf[261..], &[0x61, 0x41, 0x02, 0x03, 0x04, 0x05, 0x06, 0x07, 0x08]);
}

#[test]
fn drops_marker_overrides_top_bits() {
    let mut buf = TransactionBuffer::<9>::new();
    buf.encode_drops(u64::MAX, AmountType::Amount);
    let bytes = buf.into_bytes();
    assert_eq!(bytes, [0x61, 0x7F, 0xFF, 0xFF, 0xFF, 0xFF, 0xFF, 0xFF, 0xFF]);
}

#[test]
fn encode_drops_writes_amount_at_cursor() {
    let mut buf = TransactionBuffer::<20>::new();
    buf.encode_txn_type(TxnType::Payment);
    buf.encode_drops(1000, AmountType::Amount);
    assert_eq!(buf.pos(), 12);
    assert_eq!(
        &buf.into_bytes()[..13],
        &[0x12, 0, 0, 0x61, 0x40, 0, 0, 0, 0, 0, 0x03, 0xE8, 0]
    );
}

#[test]
fn encode_drops_at_moves_cursor_past_field() {
    let mut buf = TransactionBuffer::<30>::new();
    buf.encode_u32(7, 2);
    buf.encode_drops_at(20, 5, AmountType::Fee);
    assert_eq!(buf.pos(), 29);
    let bytes = buf.into_bytes();
    assert_eq!(&bytes[..5], &[0x22, 0, 0, 0, 7]);
    assert_eq!(&bytes[20..29], &[0x68, 0x40, 0, 0, 0, 0, 0, 0, 5]);
    assert_eq!(bytes[29], 0);
}

#[test]
fn encode_u32_common_form() {
    let mut buf = TransactionBuffer::<10>::new();
    buf.encode_u32(0xDEAD_BEEF, 0xE);
    buf.encode_u32(0x0102_0304, 0x13);
    assert_eq!(buf.pos(), 10);
    assert_eq!(
        buf.into_bytes(),
        [0x2E, 0xDE, 0xAD, 0xBE, 0xEF, 0x23, 0x01, 0x02, 0x03, 0x04]
    );
}

#[test]
fn encode_u32_general_form() {
    let mut buf = TransactionBuffer::<6>::new();
    buf.encode_u32_with_field_id(0x0065_D303, 0x1A);
    assert_eq!(buf.pos(), 6);
    assert_eq!(buf.into_bytes(), [0x20, 0x1A, 0x00, 0x65, 0xD3, 0x03]);
}

#[test]
fn encode_null_signing_key() {
    let mut buf = TransactionBuffer::<36>::new();
    buf.encode_raw(&[0xFF]);
    buf.encode_signing_pubkey_as_null();
    assert_eq!(buf.pos(), 36);
    let bytes = buf.into_bytes();
    assert_eq!(&bytes[..3], &[0xFF, 0x73, 0x21]);
    assert!(bytes[3..].iter().all(|b| *b == 0));
}

#[test]
fn encode_source_and_destination_accounts() {
    let mut id = [0u8; 20];
    for (i, b) in id.iter_mut().enumerate() {
        *b = i as u8 + 1;
    }
    let mut buf = TransactionBuffer::<44>::new();
    buf.encode_account(&id, AccountType::Account);
    buf.encode_account(&id, AccountType::Destination);
    assert_eq!(buf.pos(), 44);
    let bytes = buf.into_bytes();
    assert_eq!(&bytes[..2], &[0x81, 0x14]);
    assert_eq!(&bytes[2..22], &id);
    assert_eq!(&bytes[22..24], &[0x83, 0x14]);
    assert_eq!(&bytes[24..44], &id);
}

#[test]
fn field_codes_of_kinds_and_roles() {
    assert_eq!(AmountType::Amount.code(), 1);
    assert_eq!(AmountType::Fee.code(), 8);
    assert_eq!(AccountType::Account.code(), 1);
    assert_eq!(AccountType::Destination.code(), 3);
}
