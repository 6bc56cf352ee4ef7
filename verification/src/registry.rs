//! The service registry: a catalogue in which a provider lists a service
//! under its own identity, with a price and an endpoint, and may later
//! change or withdraw the listing.

use crate::context::Wallet;
use crate::pubkey::{key_bytes, program_address, seeds_view, try_find_program_address, Pubkey};
use vstd::prelude::*;
use vstd::slice::slice_to_vec;
use vstd::utf8::encode_utf8;

verus! {

/// The longest service descriptor, in bytes, that a listing may carry.
pub const MAX_SERVICE_TYPE_LEN: usize = 32;

/// The longest endpoint, in bytes, that a listing may carry.
pub const MAX_ENDPOINT_LEN: usize = 128;

/// Why the registry refused an operation. A refused operation changes
/// nothing.
#[derive(Clone, Copy, Debug, PartialEq, Eq, Structural)]
pub enum RegistryError {
    /// The service descriptor is longer than 32 bytes.
    ServiceTypeTooLong,
    /// The endpoint is longer than 128 bytes.
    EndpointTooLong,
    /// The price is zero.
    InvalidPrice,
    /// A listing already stands at the address derived for the owner and
    /// the service.
    ServiceAlreadyExists,
    /// No listing stands at the address.
    ServiceNotFound,
    /// The caller did not sign, is not the owner of the listing, or the slot
    /// handed in is not the one derived for the owner and the service.
    Unauthorized,
    /// No address can be derived for the owner and the service.
    AddressNotDerivable,
}

/// One listing of the catalogue.
#[derive(Clone, Debug, PartialEq, Eq)]
pub struct ServiceAccount {
    pub owner: Pubkey,
    pub service_type: String,
    pub price: u64,
    pub endpoint: String,
    pub is_active: bool,
    pub created_at: i64,
    pub reputation: u64,
}

impl ServiceAccount {
    /// The room to set aside for a stored listing: the fixed fields, the
    /// service descriptor behind its four-byte length, and an endpoint of
    /// the greatest length behind its own.
    pub open spec fn spec_space(service_type: Seq<char>) -> nat {
        8 + 32 + (4 + encode_utf8(service_type).len()) + 8 + (4 + 128) + 1 + 8 + 8
    }

    /// The room to set aside for a listing of `service_type`, in bytes.
    pub fn space(service_type: &str) -> (size: usize)
        requires
            Self::spec_space(service_type@) <= usize::MAX,
        ensures
            size == Self::spec_space(service_type@),
    {
        8 + 32 + 4 + service_type.len() + 8 + 4 + 128 + 1 + 8 + 8
    }
}

/// The slot of the ledger at one address of the catalogue, and the listing
/// that stands there, if any.
#[derive(Clone, Debug, PartialEq, Eq)]
pub struct ServiceSlot {
    pub key: Pubkey,
    pub record: Option<ServiceAccount>,
}

/// The accounts of `register_service`: the slot to fill and the owner, who
/// must have signed.
#[derive(Clone, Debug, PartialEq, Eq)]
pub struct RegisterService {
    pub service_account: ServiceSlot,
    pub owner: Wallet,
}

/// The accounts of `update_service` and `deactivate_service`: the listing's
/// slot and the owner, who must have signed.
#[derive(Clone, Debug, PartialEq, Eq)]
pub struct UpdateService {
    pub service_account: ServiceSlot,
    pub owner: Wallet,
}

/// The bytes of the identity under which the registry derives its addresses.
pub open spec fn program_id() -> Seq<u8> {
    seq![
        178u8, 6, 151, 17, 109, 104, 126, 242, 252, 72, 51, 122, 0, 17, 51, 251,
        250, 3, 233, 226, 175, 173, 218, 180, 199, 250, 125, 34, 255, 50, 183, 250,
    ]
}

/// The identity under which the registry derives its addresses.
pub fn id() -> (key: Pubkey)
    ensures
        key@ == program_id(),
{
    let key = Pubkey {
        bytes: [
            178, 6, 151, 17, 109, 104, 126, 242, 252, 72, 51, 122, 0, 17, 51, 251,
            250, 3, 233, 226, 175, 173, 218, 180, 199, 250, 125, 34, 255, 50, 183, 250,
        ],
    };
    assert(key@ =~= program_id());
    key
}

/// The domain tag that opens the seeds of every listing: `service` in ASCII.
pub open spec fn service_tag() -> Seq<u8> {
    seq![115u8, 101, 114, 118, 105, 99, 101]
}

/// The address of the listing of `service_type` by `owner`. A service
/// descriptor of more than 32 bytes is refused before anything is derived.
pub open spec fn service_address(owner: Pubkey, service_type: Seq<char>) -> Result<Seq<u8>, RegistryError> {
    if encode_utf8(service_type).len() > MAX_SERVICE_TYPE_LEN {
        Err(RegistryError::ServiceTypeTooLong)
    } else {
        match program_address(seq![service_tag(), owner@, encode_utf8(service_type)], program_id()) {
            Some((address, _)) => Ok(address),
            None => Err(RegistryError::AddressNotDerivable),
        }
    }
}

/// Why a slot at `key` cannot be the slot of the listing, if it cannot: no
/// address can be derived for the listing, or another one is.
pub open spec fn misplaced(key: Pubkey, owner: Pubkey, service_type: Seq<char>) -> Option<RegistryError> {
    match service_address(owner, service_type) {
        Err(e) => Some(e),
        Ok(address) => if address == key@ {
            None
        } else {
            Some(RegistryError::Unauthorized)
        },
    }
}

/// What becomes of the address search for a listing whose descriptor has
/// passed the length check.
pub open spec fn address_found(found: Option<(Pubkey, u8)>) -> Result<Pubkey, RegistryError> {
    match found {
        Some((address, _)) => Ok(address),
        None => Err(RegistryError::AddressNotDerivable),
    }
}

/// Turns the outcome of the address search into the registry's answer.
pub fn resolve_address(found: Option<(Pubkey, u8)>) -> (address: Result<Pubkey, RegistryError>)
    ensures
        address == address_found(found),
{
    match found {
        Some((address, _)) => Ok(address),
        None => Err(RegistryError::AddressNotDerivable),
    }
}

/// Derives the address of the listing of `service_type` by `owner`.
pub fn derive_service_address(owner: &Pubkey, service_type: &str) -> (address: Result<Pubkey, RegistryError>)
    ensures
        match address {
            Ok(key) => service_address(*owner, service_type@) matches Ok(found) && found == key@,
            Err(e) => service_address(*owner, service_type@) matches Err(refusal) && refusal == e,
        },
{
    let service = service_type.as_bytes();
    if service.len() > MAX_SERVICE_TYPE_LEN {
        return Err(RegistryError::ServiceTypeTooLong);
    }
    let mut tag: Vec<u8> = Vec::new();
    tag.push(115);
    tag.push(101);
    tag.push(114);
    tag.push(118);
    tag.push(105);
    tag.push(99);
    tag.push(101);
    assert(tag@ =~= service_tag());
    let mut seeds: Vec<Vec<u8>> = Vec::new();
    seeds.push(tag);
    seeds.push(key_bytes(owner));
    seeds.push(slice_to_vec(service));
    assert(seeds_view(seeds@) =~= seq![service_tag(), owner@, encode_utf8(service_type@)]);
    let program = id();
    resolve_address(try_find_program_address(&seeds, &program))
}

/// Admits a slot only at the address derived for the owner and the service.
pub fn check_location(key: &Pubkey, owner: &Pubkey, service_type: &str) -> (admitted: Result<(), RegistryError>)
    ensures
        match admitted {
            Ok(()) => misplaced(*key, *owner, service_type@) is None,
            Err(e) => misplaced(*key, *owner, service_type@) == Some(e),
        },
{
    match derive_service_address(owner, service_type) {
        Err(e) => Err(e),
        Ok(address) => if address == *key {
            Ok(())
        } else {
            Err(RegistryError::Unauthorized)
        },
    }
}

/// The owner's account is the one on record, and its holder signed.
pub open spec fn owner_authorized(owner: Wallet, record: ServiceAccount) -> bool {
    owner.is_signer && owner.key == record.owner
}

impl RegisterService {
    /// The first reason, in the order of the checks, for which registration
    /// is refused; `None` where it goes through.
    pub open spec fn refusal(self, service_type: Seq<char>, price: u64, endpoint: Seq<char>) -> Option<RegistryError> {
        if encode_utf8(service_type).len() > MAX_SERVICE_TYPE_LEN {
            Some(RegistryError::ServiceTypeTooLong)
        } else if misplaced(self.service_account.key, self.owner.key, service_type) is Some {
            misplaced(self.service_account.key, self.owner.key, service_type)
        } else if !self.owner.is_signer {
            Some(RegistryError::Unauthorized)
        } else if self.service_account.record is Some {
            Some(RegistryError::ServiceAlreadyExists)
        } else if encode_utf8(endpoint).len() > MAX_ENDPOINT_LEN {
            Some(RegistryError::EndpointTooLong)
        } else if price == 0 {
            Some(RegistryError::InvalidPrice)
        } else {
            None
        }
    }

    /// The accounts after registration: the new listing stands in the slot,
    /// active and without reputation.
    pub open spec fn registered(self, service_type: String, price: u64, endpoint: String, now: i64) -> RegisterService {
        RegisterService {
            service_account: ServiceSlot {
                key: self.service_account.key,
                record: Some(
                    ServiceAccount {
                        owner: self.owner.key,
                        service_type,
                        price,
                        endpoint,
                        is_active: true,
                        created_at: now,
                        reputation: 0,
                    },
                ),
            },
            owner: self.owner,
        }
    }
}

impl UpdateService {
    /// Why the owner's accounts are not in order for a change to the
    /// listing, if they are not.
    pub open spec fn barred(self) -> Option<RegistryError> {
        match self.service_account.record {
            None => Some(RegistryError::ServiceNotFound),
            Some(record) => if !owner_authorized(self.owner, record) {
                Some(RegistryError::Unauthorized)
            } else {
                misplaced(self.service_account.key, record.owner, record.service_type@)
            },
        }
    }

    /// The first reason for which `update_service` is refused; `None` where
    /// it goes through.
    pub open spec fn refusal(self, price: Option<u64>, endpoint: Option<Seq<char>>) -> Option<RegistryError> {
        if self.barred() is Some {
            self.barred()
        } else if price == Some(0u64) {
            Some(RegistryError::InvalidPrice)
        } else if endpoint matches Some(text) && encode_utf8(text).len() > MAX_ENDPOINT_LEN {
            Some(RegistryError::EndpointTooLong)
        } else {
            None
        }
    }

    /// The accounts after an update: the listing carries the new price and
    /// the new endpoint, each where one was given.
    pub open spec fn updated(self, price: Option<u64>, endpoint: Option<String>) -> UpdateService {
        let record = self.service_account.record.unwrap();
        UpdateService {
            service_account: ServiceSlot {
                key: self.service_account.key,
                record: Some(
                    ServiceAccount {
                        price: match price {
                            Some(price) => price,
                            None => record.price,
                        },
                        endpoint: match endpoint {
                            Some(endpoint) => endpoint,
                            None => record.endpoint,
                        },
                        ..record
                    },
                ),
            },
            owner: self.owner,
        }
    }

    /// The accounts after the listing is withdrawn: it is no longer active.
    pub open spec fn deactivated(self) -> UpdateService {
        let record = self.service_account.record.unwrap();
        UpdateService {
            service_account: ServiceSlot {
                key: self.service_account.key,
                record: Some(ServiceAccount { is_active: false, ..record }),
            },
            owner: self.owner,
        }
    }

    /// Checks that the listing exists, that the caller is its owner, and
    /// that the slot is the listing's own.
    fn check(&self) -> (cleared: Result<(), RegistryError>)
        ensures
            match cleared {
                Ok(()) => self.barred() is None,
                Err(e) => self.barred() == Some(e),
            },
    {
        match &self.service_account.record {
            None => Err(RegistryError::ServiceNotFound),
            Some(record) => {
                proof {
                    self.owner.key.lemma_view_injective(record.owner);
                }
                if !(self.owner.is_signer && self.owner.key == record.owner) {
                    return Err(RegistryError::Unauthorized);
                }
                check_location(&self.service_account.key, &record.owner, record.service_type.as_str())
            },
        }
    }
}

/// Lists a service: writes the listing, active and with no reputation, into
/// the slot at the address derived for the owner and the service.
pub fn register_service(
    ctx: &mut RegisterService,
    service_type: String,
    price: u64,
    endpoint: String,
    now: i64,
) -> (done: Result<(), RegistryError>)
    ensures
        match done {
            Ok(()) => {
                &&& old(ctx).refusal(service_type@, price, endpoint@) is None
                &&& *final(ctx) == old(ctx).registered(service_type, price, endpoint, now)
            },
            Err(e) => old(ctx).refusal(service_type@, price, endpoint@) == Some(e) && *final(ctx)
                == *old(ctx),
        },
{
    if service_type.as_str().as_bytes().len() > MAX_SERVICE_TYPE_LEN {
        return Err(RegistryError::ServiceTypeTooLong);
    }
    check_location(&ctx.service_account.key, &ctx.owner.key, service_type.as_str())?;
    if !ctx.owner.is_signer {
        return Err(RegistryError::Unauthorized);
    }
    if ctx.service_account.record.is_some() {
        return Err(RegistryError::ServiceAlreadyExists);
    }
    if endpoint.as_str().as_bytes().len() > MAX_ENDPOINT_LEN {
        return Err(RegistryError::EndpointTooLong);
    }
    if price == 0 {
        return Err(RegistryError::InvalidPrice);
    }
    ctx.service_account.record = Some(
        ServiceAccount {
            owner: ctx.owner.key,
            service_type,
            price,
            endpoint,
            is_active: true,
            created_at: now,
            reputation: 0,
        },
    );
    Ok(())
}

/// Changes the price, the endpoint, or both. Both are checked before either
/// is written.
pub fn update_service(ctx: &mut UpdateService, price: Option<u64>, endpoint: Option<String>) -> (done: Result<(), RegistryError>)
    ensures
        match done {
            Ok(()) => {
                &&& old(ctx).refusal(price, endpoint_view(endpoint)) is None
                &&& *final(ctx) == old(ctx).updated(price, endpoint)
            },
            Err(e) => old(ctx).refusal(price, endpoint_view(endpoint)) == Some(e) && *final(ctx)
                == *old(ctx),
        },
{
    ctx.check()?;
    if let Some(price) = price {
        if price == 0 {
            return Err(RegistryError::InvalidPrice);
        }
    }
    if let Some(text) = &endpoint {
        if text.as_str().as_bytes().len() > MAX_ENDPOINT_LEN {
            return Err(RegistryError::EndpointTooLong);
        }
    }
    match &mut ctx.service_account.record {
        Some(record) => {
            if let Some(price) = price {
                record.price = price;
            }
            if let Some(text) = endpoint {
                record.endpoint = text;
            }
        },
        None => {},
    }
    Ok(())
}

/// Withdraws the listing: it stays in the catalogue, no longer active.
pub fn deactivate_service(ctx: &mut UpdateService) -> (done: Result<(), RegistryError>)
    ensures
        match done {
            Ok(()) => old(ctx).barred() is None && *final(ctx) == old(ctx).deactivated(),
            Err(e) => old(ctx).barred() == Some(e) && *final(ctx) == *old(ctx),
        },
{
    ctx.check()?;
    match &mut ctx.service_account.record {
        Some(record) => {
            record.is_active = false;
        },
        None => {},
    }
    Ok(())
}

/// The characters of an endpoint, where one is given.
pub open spec fn endpoint_view(endpoint: Option<String>) -> Option<Seq<char>> {
    match endpoint {
        Some(text) => Some(text@),
        None => None,
    }
}

} // verus!
