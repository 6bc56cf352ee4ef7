//! The custody record, its status and the errors of the engine.

use crate::pubkey::Pubkey;
use vstd::prelude::*;
use vstd::utf8::encode_utf8;

verus! {

/// The longest service descriptor, in bytes, that a record may carry.
pub const MAX_SERVICE_TYPE_LEN: usize = 32;

/// Why an operation was refused. A refused operation changes nothing.
#[derive(Clone, Copy, Debug, PartialEq, Eq, Structural)]
pub enum EscrowError {
    /// The service descriptor is longer than 32 bytes.
    ServiceTypeTooLong,
    /// The amount to place in custody is zero.
    InvalidAmount,
    /// A record already stands at the address derived for the pairing.
    RecordAlreadyExists,
    /// No record stands at the address.
    RecordNotFound,
    /// The caller did not sign, is not the party that the operation is
    /// reserved for, or an account handed in is not the one on record.
    Unauthorized,
    /// The operation is not legal in the record's current status.
    InvalidStatus,
    /// The balance to debit does not cover the amount.
    InsufficientFunds,
    /// No address can be derived for the pairing: none of the bump seeds
    /// gives one off the curve.
    AddressNotDerivable,
}

/// Where an escrow stands in its life cycle.
#[derive(Clone, Copy, Debug, PartialEq, Eq, Structural)]
pub enum EscrowStatus {
    Created,
    Delivered,
    Released,
    Disputed,
}

/// The operations that act on an existing record.
#[derive(Clone, Copy, Debug, PartialEq, Eq, Structural)]
pub enum Operation {
    CompleteService,
    ReleasePayment,
    Dispute,
}

impl EscrowStatus {
    /// The transition table: the status that `op` leads to from `self`, if
    /// `op` is legal there.
    pub open spec fn next(self, op: Operation) -> Option<EscrowStatus> {
        match (self, op) {
            (EscrowStatus::Created, Operation::CompleteService) => Some(EscrowStatus::Delivered),
            (EscrowStatus::Delivered, Operation::ReleasePayment) => Some(EscrowStatus::Released),
            (EscrowStatus::Created, Operation::Dispute) => Some(EscrowStatus::Disputed),
            (EscrowStatus::Delivered, Operation::Dispute) => Some(EscrowStatus::Disputed),
            _ => None,
        }
    }

    /// Paid out or refunded: nothing may follow.
    pub open spec fn is_terminal(self) -> bool {
        self == EscrowStatus::Released || self == EscrowStatus::Disputed
    }

    /// How far along the life cycle a status lies.
    pub open spec fn rank(self) -> nat {
        match self {
            EscrowStatus::Created => 0,
            EscrowStatus::Delivered => 1,
            EscrowStatus::Released => 2,
            EscrowStatus::Disputed => 2,
        }
    }

    /// Checks `op` against the transition table.
    pub fn transition(self, op: Operation) -> (to: Result<EscrowStatus, EscrowError>)
        ensures
            match to {
                Ok(status) => self.next(op) == Some(status),
                Err(e) => self.next(op) is None && e == EscrowError::InvalidStatus,
            },
    {
        match (self, op) {
            (EscrowStatus::Created, Operation::CompleteService) => Ok(EscrowStatus::Delivered),
            (EscrowStatus::Delivered, Operation::ReleasePayment) => Ok(EscrowStatus::Released),
            (EscrowStatus::Created, Operation::Dispute) => Ok(EscrowStatus::Disputed),
            (EscrowStatus::Delivered, Operation::Dispute) => Ok(EscrowStatus::Disputed),
            _ => Err(EscrowError::InvalidStatus),
        }
    }
}

/// One escrow agreement: who pays whom how much for what, and how far it has
/// come. Only `status` changes after creation.
#[derive(Clone, Debug, PartialEq, Eq)]
pub struct EscrowAccount {
    pub client: Pubkey,
    pub provider: Pubkey,
    pub amount: u64,
    pub status: EscrowStatus,
    pub service_type: String,
    pub created_at: i64,
}

impl EscrowAccount {
    /// The size of the stored record in bytes: the fixed fields, and the
    /// service descriptor behind its four-byte length.
    pub open spec fn spec_space(service_type: Seq<char>) -> nat {
        8 + 32 + 32 + 8 + 1 + (4 + encode_utf8(service_type).len()) + 8
    }

    /// The size of the stored record for a service descriptor, in bytes.
    pub fn space(service_type: &str) -> (size: usize)
        requires
            Self::spec_space(service_type@) <= usize::MAX,
        ensures
            size == Self::spec_space(service_type@),
    {
        8 + 32 + 32 + 8 + 1 + 4 + service_type.len() + 8
    }

    /// What creation guarantees of a record: a positive amount and a service
    /// descriptor of at most 32 bytes.
    pub open spec fn wf(self) -> bool {
        &&& self.amount > 0
        &&& encode_utf8(self.service_type@).len() <= MAX_SERVICE_TYPE_LEN
    }
}

} // verus!
