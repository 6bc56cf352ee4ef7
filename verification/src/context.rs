//! The accounts that the ledger hands to an operation, as plain values.

use crate::address::misplaced;
use crate::pubkey::Pubkey;
use crate::state::EscrowAccount;
use vstd::prelude::*;

verus! {

/// A party's account on the ledger: its identity, its balance, and whether
/// the ledger has verified that its holder authorised the request.
#[derive(Clone, Debug, PartialEq, Eq)]
pub struct Wallet {
    pub key: Pubkey,
    pub lamports: u64,
    pub is_signer: bool,
}

/// The slot of the ledger at one address: the value held in custody there,
/// and the record that stands there, if any.
#[derive(Clone, Debug, PartialEq, Eq)]
pub struct Custody {
    pub key: Pubkey,
    pub lamports: u64,
    pub record: Option<EscrowAccount>,
}

impl Custody {
    /// Custody holds exactly the amount of a record that is still open, and
    /// nothing where no record stands or the record is settled.
    pub open spec fn wf(self) -> bool {
        match self.record {
            None => self.lamports == 0,
            Some(record) => {
                &&& record.wf()
                &&& record.status.is_terminal() ==> self.lamports == 0
                &&& !record.status.is_terminal() ==> self.lamports == record.amount
            },
        }
    }

    /// The record, if there is one, stands at the address derived from its
    /// own pairing.
    pub open spec fn located(self) -> bool {
        self.record matches Some(record) ==> misplaced(
            self.key,
            record.client,
            record.provider,
            record.service_type@,
        ) is None
    }
}

/// The accounts of `create_escrow`: the slot to fill, the client who pays
/// and must have signed, and the provider to be paid.
#[derive(Clone, Debug, PartialEq, Eq)]
pub struct CreateEscrow {
    pub escrow_account: Custody,
    pub client: Wallet,
    pub provider: Wallet,
}

/// The accounts of `complete_service`: the record's slot and the provider,
/// who must have signed.
#[derive(Clone, Debug, PartialEq, Eq)]
pub struct ProviderAction {
    pub escrow_account: Custody,
    pub provider: Wallet,
}

/// The accounts of `release_payment` and `dispute`: the record's slot, the
/// client, who must have signed, and the provider.
#[derive(Clone, Debug, PartialEq, Eq)]
pub struct ClientAction {
    pub escrow_account: Custody,
    pub client: Wallet,
    pub provider: Wallet,
}

impl CreateEscrow {
    /// All the value held by the accounts of the context.
    pub open spec fn funds(self) -> int {
        self.escrow_account.lamports + self.client.lamports + self.provider.lamports
    }
}

impl ClientAction {
    /// All the value held by the accounts of the context.
    pub open spec fn funds(self) -> int {
        self.escrow_account.lamports + self.client.lamports + self.provider.lamports
    }
}

} // verus!
