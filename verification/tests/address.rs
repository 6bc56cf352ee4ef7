use escrow::address::{id, resolve_address};
use escrow::{EscrowError, Pubkey};

fn key(byte: u8) -> Pubkey {
    Pubkey::new_from_array([byte; 32])
}

/// The address that the ledger's own library finds for the seeds.
fn found_by_the_ledger(client: &Pubkey, provider: &Pubkey, service_type: &str) -> [u8; 32] {
    let program = anchor_lang::prelude::Pubkey::new_from_array(id().to_bytes());
    let (address, _) = anchor_lang::prelude::Pubkey::find_program_address(
        &[b"escrow", &client.to_bytes(), &provider.to_bytes(), service_type.as_bytes()],
        &program,
    );
    address.to_bytes()
}

#[test]
fn the_same_pairing_gives_the_same_address() {
    let first = escrow::address::derive(&key(1), &key(2), "translation");
    let second = escrow::address::derive(&key(1), &key(2), "translation");
    assert!(first.is_ok());
    assert_eq!(first, second);
    let copy = Pubkey::new_from_array(key(1).to_bytes());
    let text = String::from("trans") + "lation";
    assert_eq!(escrow::address::derive(&copy, &key(2), &text), first);
}

#[test]
fn a_known_pairing_has_its_known_address() {
    let address = escrow::address::derive(&key(1), &key(2), "translation").unwrap();
    assert_eq!(
        address.to_bytes(),
        [
            54, 177, 217, 205, 182, 91, 59, 150, 85, 63, 220, 76, 106, 248, 144, 6, 62, 144, 249,
            130, 86, 193, 52, 78, 152, 37, 130, 101, 131, 174, 110, 128
        ]
    );
}

#[test]
fn the_address_is_the_one_that_the_ledger_finds() {
    for service_type in ["translation", "", "a", "0123456789abcdef0123456789abcdef"] {
        for (client, provider) in [(key(1), key(2)), (key(2), key(1)), (key(0), key(255))] {
            let address = escrow::address::derive(&client, &provider, service_type).unwrap();
            assert_eq!(address.to_bytes(), found_by_the_ledger(&client, &provider, service_type));
            assert_ne!(address, client);
            assert_ne!(address, provider);
        }
    }
}

#[test]
fn each_part_of_the_pairing_counts() {
    let base = escrow::address::derive(&key(1), &key(2), "translation").unwrap();
    assert_ne!(escrow::address::derive(&key(3), &key(2), "translation").unwrap(), base);
    assert_ne!(escrow::address::derive(&key(1), &key(3), "translation").unwrap(), base);
    assert_ne!(escrow::address::derive(&key(2), &key(1), "translation").unwrap(), base);
    assert_ne!(escrow::address::derive(&key(1), &key(2), "translatio").unwrap(), base);
    assert_ne!(escrow::address::derive(&key(1), &key(2), "Translation").unwrap(), base);
}

#[test]
fn a_descriptor_of_thirty_three_bytes_is_refused_before_derivation() {
    assert!(escrow::address::derive(&key(1), &key(2), &"x".repeat(32)).is_ok());
    assert_eq!(
        escrow::address::derive(&key(1), &key(2), &"x".repeat(33)),
        Err(EscrowError::ServiceTypeTooLong)
    );
    assert_eq!(
        escrow::address::derive(&key(1), &key(2), &"\u{20ac}".repeat(11)),
        Err(EscrowError::ServiceTypeTooLong)
    );
    assert!(escrow::address::derive(&key(1), &key(2), &"\u{20ac}".repeat(10)).is_ok());
}

#[test]
fn a_failed_search_is_reported() {
    assert_eq!(resolve_address(None), Err(EscrowError::AddressNotDerivable));
    assert_eq!(resolve_address(Some((key(5), 254))), Ok(key(5)));
}

#[test]
fn the_engine_has_its_own_identity() {
    let expected: anchor_lang::prelude::Pubkey =
        "CPqN9DNQqXPcfgXaWyTTXoGMxUF2zWGaBkdMAfnf52gR".parse().unwrap();
    assert_eq!(id().to_bytes(), expected.to_bytes());
    assert_eq!(id().to_bytes()[0], 169);
    assert_eq!(id().to_bytes()[31], 50);
}

#[test]
fn keys_are_equal_where_their_bytes_are() {
    let mut bytes = [7u8; 32];
    assert_eq!(Pubkey::new_from_array(bytes), key(7));
    bytes[31] = 8;
    assert_ne!(Pubkey::new_from_array(bytes), key(7));
    bytes[31] = 7;
    bytes[0] = 6;
    assert_ne!(Pubkey::new_from_array(bytes), key(7));
    assert_eq!(escrow::pubkey::key_bytes(&key(7)), vec![7u8; 32]);
}
