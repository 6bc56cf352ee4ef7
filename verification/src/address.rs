//! The address of a custody record, derived from the pairing it serves.

use crate::pubkey::{key_bytes, program_address, seeds_view, try_find_program_address, Pubkey};
use crate::state::{EscrowError, MAX_SERVICE_TYPE_LEN};
use vstd::prelude::*;
use vstd::slice::slice_to_vec;
use vstd::utf8::encode_utf8;

verus! {

/// The bytes of the identity under which the engine derives its addresses.
pub open spec fn program_id() -> Seq<u8> {
    seq![
        169u8, 74, 5, 25, 52, 220, 193, 138, 245, 13, 115, 163, 231, 113, 194, 180,
        123, 179, 168, 122, 224, 251, 146, 79, 15, 73, 4, 131, 157, 197, 208, 50,
    ]
}

/// The identity under which the engine derives its addresses.
pub fn id() -> (key: Pubkey)
    ensures
        key@ == program_id(),
{
    let key = Pubkey {
        bytes: [
            169, 74, 5, 25, 52, 220, 193, 138, 245, 13, 115, 163, 231, 113, 194, 180,
            123, 179, 168, 122, 224, 251, 146, 79, 15, 73, 4, 131, 157, 197, 208, 50,
        ],
    };
    assert(key@ =~= program_id());
    key
}

/// The domain tag that opens the seeds of every custody address: `escrow` in
/// ASCII.
pub open spec fn escrow_tag() -> Seq<u8> {
    seq![101u8, 115, 99, 114, 111, 119]
}

/// The seeds of a pairing: the tag, both identities, and the service
/// descriptor as UTF-8. The variable part comes last, after parts of fixed
/// length, so that no two pairings share their concatenation.
pub open spec fn escrow_seeds(client: Pubkey, provider: Pubkey, service_type: Seq<char>) -> Seq<Seq<u8>> {
    seq![escrow_tag(), client@, provider@, encode_utf8(service_type)]
}

/// The custody address of a pairing. A service descriptor of more than 32
/// bytes is refused before anything is derived.
pub open spec fn escrow_address(client: Pubkey, provider: Pubkey, service_type: Seq<char>) -> Result<Seq<u8>, EscrowError> {
    if encode_utf8(service_type).len() > MAX_SERVICE_TYPE_LEN {
        Err(EscrowError::ServiceTypeTooLong)
    } else {
        match program_address(escrow_seeds(client, provider, service_type), program_id()) {
            Some((address, _)) => Ok(address),
            None => Err(EscrowError::AddressNotDerivable),
        }
    }
}

/// Why a slot at `key` cannot be the custody slot of the pairing, if it
/// cannot: no address can be derived for the pairing, or another one is.
pub open spec fn misplaced(key: Pubkey, client: Pubkey, provider: Pubkey, service_type: Seq<char>) -> Option<EscrowError> {
    match escrow_address(client, provider, service_type) {
        Err(e) => Some(e),
        Ok(address) => if address == key@ {
            None
        } else {
            Some(EscrowError::Unauthorized)
        },
    }
}

/// What becomes of the address search for a pairing whose descriptor has
/// passed the length check.
pub open spec fn address_found(found: Option<(Pubkey, u8)>) -> Result<Pubkey, EscrowError> {
    match found {
        Some((address, _)) => Ok(address),
        None => Err(EscrowError::AddressNotDerivable),
    }
}

/// Turns the outcome of the address search into the engine's answer.
pub fn resolve_address(found: Option<(Pubkey, u8)>) -> (address: Result<Pubkey, EscrowError>)
    ensures
        address == address_found(found),
{
    match found {
        Some((address, _)) => Ok(address),
        None => Err(EscrowError::AddressNotDerivable),
    }
}

/// Derives the custody address of a pairing. The same pairing always gives
/// the same address.
pub fn derive(client: &Pubkey, provider: &Pubkey, service_type: &str) -> (address: Result<Pubkey, EscrowError>)
    ensures
        match address {
            Ok(key) => escrow_address(*client, *provider, service_type@) matches Ok(found) && found
                == key@,
            Err(e) => escrow_address(*client, *provider, service_type@) matches Err(refusal)
                && refusal == e,
        },
{
    let service = service_type.as_bytes();
    if service.len() > MAX_SERVICE_TYPE_LEN {
        return Err(EscrowError::ServiceTypeTooLong);
    }
    let mut tag: Vec<u8> = Vec::new();
    tag.push(101);
    tag.push(115);
    tag.push(99);
    tag.push(114);
    tag.push(111);
    tag.push(119);
    assert(tag@ =~= escrow_tag());
    let mut seeds: Vec<Vec<u8>> = Vec::new();
    seeds.push(tag);
    seeds.push(key_bytes(client));
    seeds.push(key_bytes(provider));
    seeds.push(slice_to_vec(service));
    assert(seeds_view(seeds@) =~= escrow_seeds(*client, *provider, service_type@));
    let program = id();
    resolve_address(try_find_program_address(&seeds, &program))
}

} // verus!
