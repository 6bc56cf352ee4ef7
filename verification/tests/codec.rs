use escrow::codec::{status_from_byte, status_to_byte};
use escrow::{EscrowAccount, EscrowError, EscrowStatus, Pubkey};

fn record() -> EscrowAccount {
    EscrowAccount {
        client: Pubkey::new_from_array([1; 32]),
        provider: Pubkey::new_from_array([2; 32]),
        amount: 1000,
        status: EscrowStatus::Delivered,
        service_type: String::from("translation"),
        created_at: 1_700_000_000,
    }
}

/// The stored form of `record()`, byte by byte.
fn stored() -> Vec<u8> {
    let mut bytes = vec![36, 69, 48, 18, 128, 225, 125, 135];
    bytes.extend([1u8; 32]);
    bytes.extend([2u8; 32]);
    bytes.extend([0xe8, 0x03, 0, 0, 0, 0, 0, 0]);
    bytes.push(1);
    bytes.extend([11, 0, 0, 0]);
    bytes.extend(*b"translation");
    bytes.extend([0x00, 0xf1, 0x53, 0x65, 0, 0, 0, 0]);
    bytes
}

#[test]
fn a_record_is_stored_field_by_field() {
    assert_eq!(record().try_serialize(), Ok(stored()));
}

#[test]
fn the_stored_form_is_as_long_as_the_space_set_aside() {
    assert_eq!(EscrowAccount::space("translation"), 104);
    assert_eq!(EscrowAccount::space(""), 93);
    assert_eq!(EscrowAccount::space(&"x".repeat(32)), 125);
    assert_eq!(EscrowAccount::space("\u{e9}"), 95);
    for service_type in ["", "a", "translation", "\u{e9}t\u{e9}", "0123456789abcdef0123456789abcdef"] {
        let stored = EscrowAccount { service_type: String::from(service_type), ..record() }
            .try_serialize()
            .unwrap();
        assert_eq!(stored.len(), EscrowAccount::space(service_type));
        assert_eq!(stored.len(), 8 + 32 + 32 + 8 + 1 + 4 + service_type.len() + 8);
    }
}

#[test]
fn what_was_written_is_read_back() {
    let statuses = [
        EscrowStatus::Created,
        EscrowStatus::Delivered,
        EscrowStatus::Released,
        EscrowStatus::Disputed,
    ];
    for status in statuses {
        for created_at in [0i64, 1, -1, 1_700_000_000, i64::MAX, i64::MIN] {
            for amount in [1u64, 1000, u64::MAX] {
                for service_type in ["", "translation", "\u{20ac}\u{e9}"] {
                    let written = EscrowAccount {
                        amount,
                        status,
                        created_at,
                        service_type: String::from(service_type),
                        ..record()
                    };
                    let stored = written.try_serialize().unwrap();
                    assert_eq!(EscrowAccount::try_deserialize(&stored), Ok(written));
                }
            }
        }
    }
}

#[test]
fn the_stored_form_is_read_field_by_field() {
    assert_eq!(EscrowAccount::try_deserialize(&stored()), Ok(record()));
}

#[test]
fn the_layout_is_the_one_of_the_ledger() {
    let written = record();
    let mut expected = vec![36u8, 69, 48, 18, 128, 225, 125, 135];
    let client = anchor_lang::prelude::Pubkey::new_from_array(written.client.to_bytes());
    let provider = anchor_lang::prelude::Pubkey::new_from_array(written.provider.to_bytes());
    anchor_lang::AnchorSerialize::serialize(&client, &mut expected).unwrap();
    anchor_lang::AnchorSerialize::serialize(&provider, &mut expected).unwrap();
    anchor_lang::AnchorSerialize::serialize(&written.amount, &mut expected).unwrap();
    anchor_lang::AnchorSerialize::serialize(&1u8, &mut expected).unwrap();
    anchor_lang::AnchorSerialize::serialize(&written.service_type, &mut expected).unwrap();
    anchor_lang::AnchorSerialize::serialize(&written.created_at, &mut expected).unwrap();
    assert_eq!(written.try_serialize(), Ok(expected));
}

#[test]
fn a_negative_time_is_stored_in_twos_complement() {
    let stored = EscrowAccount { created_at: -2, ..record() }.try_serialize().unwrap();
    assert_eq!(stored[96..], [0xfe, 0xff, 0xff, 0xff, 0xff, 0xff, 0xff, 0xff]);
    assert_eq!(EscrowAccount::try_deserialize(&stored).unwrap().created_at, -2);
}

#[test]
fn a_record_that_creation_cannot_make_is_not_written() {
    let too_long = EscrowAccount { service_type: "x".repeat(33), ..record() };
    assert_eq!(too_long.try_serialize(), Err(EscrowError::ServiceTypeTooLong));
    let empty = EscrowAccount { amount: 0, ..record() };
    assert_eq!(empty.try_serialize(), Err(EscrowError::InvalidAmount));
    let both = EscrowAccount { amount: 0, service_type: "x".repeat(33), ..record() };
    assert_eq!(both.try_serialize(), Err(EscrowError::ServiceTypeTooLong));
}

#[test]
fn foreign_bytes_hold_no_record() {
    let missing = Err(EscrowError::RecordNotFound);
    assert_eq!(EscrowAccount::try_deserialize(&[]), missing);
    assert_eq!(EscrowAccount::try_deserialize(&[0u8; 93]), missing);
    assert_eq!(EscrowAccount::try_deserialize(&stored()[..92]), missing);

    let mut other_tag = stored();
    other_tag[7] = 136;
    assert_eq!(EscrowAccount::try_deserialize(&other_tag), missing);
    let mut other_tag = stored();
    other_tag[0] = 72;
    assert_eq!(EscrowAccount::try_deserialize(&other_tag), missing);
}

#[test]
fn a_stored_form_of_the_wrong_size_holds_no_record() {
    let missing = Err(EscrowError::RecordNotFound);
    let mut longer = stored();
    longer.push(0);
    assert_eq!(EscrowAccount::try_deserialize(&longer), missing);
    let shorter = &stored()[..103];
    assert_eq!(EscrowAccount::try_deserialize(shorter), missing);

    let mut short_prefix = stored();
    short_prefix[81] = 10;
    assert_eq!(EscrowAccount::try_deserialize(&short_prefix), missing);
    let mut long_prefix = stored();
    long_prefix[81] = 12;
    assert_eq!(EscrowAccount::try_deserialize(&long_prefix), missing);
    let mut huge_prefix = stored();
    huge_prefix[84] = 1;
    assert_eq!(EscrowAccount::try_deserialize(&huge_prefix), missing);
}

#[test]
fn a_malformed_field_holds_no_record() {
    let missing = Err(EscrowError::RecordNotFound);
    let mut bad_status = stored();
    bad_status[80] = 4;
    assert_eq!(EscrowAccount::try_deserialize(&bad_status), missing);
    bad_status[80] = 255;
    assert_eq!(EscrowAccount::try_deserialize(&bad_status), missing);

    let mut no_amount = stored();
    no_amount[72] = 0;
    no_amount[73] = 0;
    assert_eq!(EscrowAccount::try_deserialize(&no_amount), missing);

    let mut not_text = stored();
    not_text[85] = 0xff;
    assert_eq!(EscrowAccount::try_deserialize(&not_text), missing);
    let mut cut_character = stored();
    cut_character[95] = 0xc3;
    assert_eq!(EscrowAccount::try_deserialize(&cut_character), missing);
}

#[test]
fn a_descriptor_of_thirty_three_bytes_is_not_read() {
    let mut bytes = vec![36, 69, 48, 18, 128, 225, 125, 135];
    bytes.extend([1u8; 32]);
    bytes.extend([2u8; 32]);
    bytes.extend([1, 0, 0, 0, 0, 0, 0, 0]);
    bytes.push(0);
    bytes.extend([33, 0, 0, 0]);
    bytes.extend([b'x'; 33]);
    bytes.extend([0u8; 8]);
    assert_eq!(EscrowAccount::try_deserialize(&bytes), Err(EscrowError::RecordNotFound));
    bytes[81] = 32;
    bytes.remove(85);
    let read = EscrowAccount::try_deserialize(&bytes).unwrap();
    assert_eq!(read.service_type, "x".repeat(32));
    assert_eq!(read.amount, 1);
    assert_eq!(read.status, EscrowStatus::Created);
    assert_eq!(read.created_at, 0);
}

#[test]
fn each_status_has_its_byte() {
    assert_eq!(status_to_byte(EscrowStatus::Created), 0);
    assert_eq!(status_to_byte(EscrowStatus::Delivered), 1);
    assert_eq!(status_to_byte(EscrowStatus::Released), 2);
    assert_eq!(status_to_byte(EscrowStatus::Disputed), 3);
    assert_eq!(status_from_byte(0), Some(EscrowStatus::Created));
    assert_eq!(status_from_byte(1), Some(EscrowStatus::Delivered));
    assert_eq!(status_from_byte(2), Some(EscrowStatus::Released));
    assert_eq!(status_from_byte(3), Some(EscrowStatus::Disputed));
    for byte in 4..=255u8 {
        assert_eq!(status_from_byte(byte), None);
    }
}
