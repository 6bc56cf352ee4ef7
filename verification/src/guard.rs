//! The authorisation guard: who may call what, and on which accounts.

use crate::address::misplaced;
use crate::context::Wallet;
use crate::pubkey::Pubkey;
use crate::state::{EscrowAccount, EscrowError};
use vstd::prelude::*;

verus! {

/// The provider's account is the one on record, and its holder signed.
pub open spec fn provider_authorized(provider: Wallet, record: EscrowAccount) -> bool {
    provider.is_signer && provider.key == record.provider
}

/// The client's account is the one on record and its holder signed, and the
/// provider's account handed in beside it is the one on record.
pub open spec fn client_authorized(client: Wallet, provider: Wallet, record: EscrowAccount) -> bool {
    client.is_signer && client.key == record.client && provider.key == record.provider
}

/// Admits the provider on record, and nobody else.
pub fn check_provider(provider: &Wallet, record: &EscrowAccount) -> (admitted: Result<(), EscrowError>)
    ensures
        admitted is Ok <==> provider_authorized(*provider, *record),
        admitted matches Err(e) ==> e == EscrowError::Unauthorized,
{
    proof {
        provider.key.lemma_view_injective(record.provider);
    }
    if provider.is_signer && provider.key == record.provider {
        Ok(())
    } else {
        Err(EscrowError::Unauthorized)
    }
}

/// Admits the client on record, and nobody else, and only beside the
/// provider on record.
pub fn check_client(client: &Wallet, provider: &Wallet, record: &EscrowAccount) -> (admitted: Result<(), EscrowError>)
    ensures
        admitted is Ok <==> client_authorized(*client, *provider, *record),
        admitted matches Err(e) ==> e == EscrowError::Unauthorized,
{
    proof {
        client.key.lemma_view_injective(record.client);
        provider.key.lemma_view_injective(record.provider);
    }
    if client.is_signer && client.key == record.client && provider.key == record.provider {
        Ok(())
    } else {
        Err(EscrowError::Unauthorized)
    }
}

/// Admits a slot only at the address derived from the pairing.
pub fn check_location(key: &Pubkey, client: &Pubkey, provider: &Pubkey, service_type: &str) -> (admitted: Result<(), EscrowError>)
    ensures
        match admitted {
            Ok(()) => misplaced(*key, *client, *provider, service_type@) is None,
            Err(e) => misplaced(*key, *client, *provider, service_type@) == Some(e),
        },
{
    match crate::address::derive(client, provider, service_type) {
        Err(e) => Err(e),
        Ok(address) => if address == *key {
            Ok(())
        } else {
            Err(EscrowError::Unauthorized)
        },
    }
}

} // verus!
