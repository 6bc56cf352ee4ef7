use escrow::registry::{
    deactivate_service, derive_service_address, register_service, update_service, RegisterService,
    RegistryError, ServiceAccount, ServiceSlot, UpdateService,
};
use escrow::{Pubkey, Wallet};

fn owner() -> Pubkey {
    Pubkey::new_from_array([2; 32])
}

fn slot_key(service_type: &str) -> Pubkey {
    derive_service_address(&owner(), service_type).unwrap()
}

fn vacant(service_type: &str) -> RegisterService {
    RegisterService {
        service_account: ServiceSlot { key: slot_key(service_type), record: None },
        owner: Wallet { key: owner(), lamports: 10, is_signer: true },
    }
}

fn listing() -> ServiceAccount {
    ServiceAccount {
        owner: owner(),
        service_type: String::from("translation"),
        price: 250,
        endpoint: String::from("https://example.org/translate"),
        is_active: true,
        created_at: 1_700_000_000,
        reputation: 0,
    }
}

fn listed() -> UpdateService {
    UpdateService {
        service_account: ServiceSlot { key: slot_key("translation"), record: Some(listing()) },
        owner: Wallet { key: owner(), lamports: 10, is_signer: true },
    }
}

#[test]
fn a_service_is_listed_active_and_without_reputation() {
    let mut ctx = vacant("translation");
    let done = register_service(
        &mut ctx,
        String::from("translation"),
        250,
        String::from("https://example.org/translate"),
        1_700_000_000,
    );
    assert_eq!(done, Ok(()));
    assert_eq!(ctx.service_account.record, Some(listing()));
    assert_eq!(ctx.owner.lamports, 10);
}

#[test]
fn a_listing_is_refused_for_each_fault_of_the_request() {
    let endpoint = || String::from("https://example.org");
    let mut ctx = vacant("translation");
    let before = ctx.clone();
    assert_eq!(
        register_service(&mut ctx, "x".repeat(33), 250, endpoint(), 7),
        Err(RegistryError::ServiceTypeTooLong)
    );
    assert_eq!(
        register_service(&mut ctx, String::from("translation"), 250, "e".repeat(129), 7),
        Err(RegistryError::EndpointTooLong)
    );
    assert_eq!(
        register_service(&mut ctx, String::from("translation"), 0, endpoint(), 7),
        Err(RegistryError::InvalidPrice)
    );
    assert_eq!(
        register_service(&mut ctx, String::from("translation"), 0, "e".repeat(129), 7),
        Err(RegistryError::EndpointTooLong)
    );
    assert_eq!(
        register_service(&mut ctx, String::from("proofreading"), 250, endpoint(), 7),
        Err(RegistryError::Unauthorized)
    );
    assert_eq!(ctx, before);
    ctx.owner.is_signer = false;
    assert_eq!(
        register_service(&mut ctx, String::from("translation"), 250, endpoint(), 7),
        Err(RegistryError::Unauthorized)
    );
    assert!(ctx.service_account.record.is_none());
}

#[test]
fn the_limits_of_a_listing_are_inclusive() {
    let longest = "x".repeat(32);
    let mut ctx = vacant(&longest);
    let done = register_service(&mut ctx, longest.clone(), 1, "e".repeat(128), 7);
    assert_eq!(done, Ok(()));
    let record = ctx.service_account.record.unwrap();
    assert_eq!(record.service_type, longest);
    assert_eq!(record.endpoint.len(), 128);
    assert_eq!(record.price, 1);
}

#[test]
fn a_service_is_listed_once() {
    let mut ctx = vacant("translation");
    ctx.service_account.record = Some(listing());
    let before = ctx.clone();
    let again =
        register_service(&mut ctx, String::from("translation"), 300, String::from("x"), 9);
    assert_eq!(again, Err(RegistryError::ServiceAlreadyExists));
    assert_eq!(ctx, before);
}

#[test]
fn an_update_changes_what_it_is_given() {
    let mut ctx = listed();
    assert_eq!(update_service(&mut ctx, Some(300), None), Ok(()));
    assert_eq!(ctx.service_account.record, Some(ServiceAccount { price: 300, ..listing() }));

    let mut ctx = listed();
    assert_eq!(update_service(&mut ctx, None, Some(String::from("https://b.example"))), Ok(()));
    assert_eq!(
        ctx.service_account.record,
        Some(ServiceAccount { endpoint: String::from("https://b.example"), ..listing() })
    );

    let mut ctx = listed();
    assert_eq!(update_service(&mut ctx, Some(1), Some("e".repeat(128))), Ok(()));
    assert_eq!(
        ctx.service_account.record,
        Some(ServiceAccount { price: 1, endpoint: "e".repeat(128), ..listing() })
    );

    let mut ctx = listed();
    assert_eq!(update_service(&mut ctx, None, None), Ok(()));
    assert_eq!(ctx, listed());
}

#[test]
fn a_refused_update_changes_nothing() {
    let mut ctx = listed();
    assert_eq!(update_service(&mut ctx, Some(0), None), Err(RegistryError::InvalidPrice));
    assert_eq!(
        update_service(&mut ctx, None, Some("e".repeat(129))),
        Err(RegistryError::EndpointTooLong)
    );
    // The price would be in order, the endpoint is not: neither is written.
    assert_eq!(
        update_service(&mut ctx, Some(300), Some("e".repeat(129))),
        Err(RegistryError::EndpointTooLong)
    );
    assert_eq!(
        update_service(&mut ctx, Some(0), Some("e".repeat(129))),
        Err(RegistryError::InvalidPrice)
    );
    assert_eq!(ctx, listed());
}

#[test]
fn a_listing_is_withdrawn_and_stays_in_the_catalogue() {
    let mut ctx = listed();
    assert_eq!(deactivate_service(&mut ctx), Ok(()));
    assert_eq!(ctx.service_account.record, Some(ServiceAccount { is_active: false, ..listing() }));
    assert_eq!(deactivate_service(&mut ctx), Ok(()));
    assert_eq!(ctx.service_account.record, Some(ServiceAccount { is_active: false, ..listing() }));
}

#[test]
fn only_the_owner_changes_a_listing() {
    let mut ctx = listed();
    ctx.owner.key = Pubkey::new_from_array([3; 32]);
    let before = ctx.clone();
    assert_eq!(update_service(&mut ctx, Some(300), None), Err(RegistryError::Unauthorized));
    assert_eq!(deactivate_service(&mut ctx), Err(RegistryError::Unauthorized));
    assert_eq!(ctx, before);

    let mut ctx = listed();
    ctx.owner.is_signer = false;
    assert_eq!(update_service(&mut ctx, Some(300), None), Err(RegistryError::Unauthorized));
    assert_eq!(deactivate_service(&mut ctx), Err(RegistryError::Unauthorized));

    let mut ctx = listed();
    ctx.service_account.key = Pubkey::new_from_array([9; 32]);
    assert_eq!(update_service(&mut ctx, Some(300), None), Err(RegistryError::Unauthorized));
    assert_eq!(deactivate_service(&mut ctx), Err(RegistryError::Unauthorized));
}

#[test]
fn an_empty_slot_holds_no_listing() {
    let mut ctx = listed();
    ctx.service_account.record = None;
    assert_eq!(update_service(&mut ctx, Some(300), None), Err(RegistryError::ServiceNotFound));
    assert_eq!(deactivate_service(&mut ctx), Err(RegistryError::ServiceNotFound));
}

#[test]
fn a_listing_has_its_known_address() {
    let address = derive_service_address(&owner(), "translation").unwrap();
    assert_eq!(
        address.to_bytes(),
        [
            221, 163, 245, 24, 209, 16, 66, 194, 210, 214, 33, 11, 232, 88, 254, 186, 164, 22, 53,
            138, 9, 94, 246, 141, 199, 252, 71, 11, 167, 63, 88, 40
        ]
    );
    let program = anchor_lang::prelude::Pubkey::new_from_array(escrow::registry::id().to_bytes());
    let (found, _) = anchor_lang::prelude::Pubkey::find_program_address(
        &[b"service", &owner().to_bytes(), b"translation"],
        &program,
    );
    assert_eq!(address.to_bytes(), found.to_bytes());
    assert_eq!(
        derive_service_address(&owner(), &"x".repeat(33)),
        Err(RegistryError::ServiceTypeTooLong)
    );
    assert_eq!(
        escrow::registry::resolve_address(None),
        Err(RegistryError::AddressNotDerivable)
    );
}

#[test]
fn the_registry_has_its_own_identity() {
    let expected: anchor_lang::prelude::Pubkey =
        "CywQ7eaRAFcn2VAxKc2SxGMER2rVu48jfzLyc7oUz9iy".parse().unwrap();
    assert_eq!(escrow::registry::id().to_bytes(), expected.to_bytes());
    assert_ne!(escrow::registry::id(), escrow::address::id());
}

#[test]
fn the_room_for_a_listing_counts_the_longest_endpoint() {
    assert_eq!(ServiceAccount::space(""), 201);
    assert_eq!(ServiceAccount::space("translation"), 212);
    assert_eq!(ServiceAccount::space(&"x".repeat(32)), 233);
}
