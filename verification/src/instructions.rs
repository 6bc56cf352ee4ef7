//! The four operations of the engine. Each either takes full effect or is
//! refused and changes nothing.

use crate::address::misplaced;
use crate::context::{ClientAction, CreateEscrow, Custody, ProviderAction, Wallet};
use crate::guard::{
    check_client, check_location, check_provider, client_authorized, provider_authorized,
};
use crate::pubkey::Pubkey;
use crate::state::{EscrowAccount, EscrowError, EscrowStatus, Operation, MAX_SERVICE_TYPE_LEN};
use vstd::prelude::*;
use vstd::utf8::encode_utf8;

verus! {

impl Custody {
    /// The slot with its record, if any, moved to `status`.
    pub open spec fn with_status(self, status: EscrowStatus) -> Custody {
        Custody {
            record: match self.record {
                Some(record) => Some(EscrowAccount { status, ..record }),
                None => None,
            },
            ..self
        }
    }

    /// Moves the record to `status`.
    fn set_status(&mut self, status: EscrowStatus)
        ensures
            *final(self) == old(self).with_status(status),
    {
        match &mut self.record {
            Some(record) => {
                record.status = status;
            },
            None => {},
        }
    }
}

impl CreateEscrow {
    /// The first reason, in the order of the checks, for which creation is
    /// refused; `None` where it goes through.
    pub open spec fn refusal(self, service_type: Seq<char>, amount: u64) -> Option<EscrowError> {
        if encode_utf8(service_type).len() > MAX_SERVICE_TYPE_LEN {
            Some(EscrowError::ServiceTypeTooLong)
        } else if misplaced(self.escrow_account.key, self.client.key, self.provider.key, service_type)
            is Some {
            misplaced(self.escrow_account.key, self.client.key, self.provider.key, service_type)
        } else if !self.client.is_signer {
            Some(EscrowError::Unauthorized)
        } else if self.escrow_account.record is Some {
            Some(EscrowError::RecordAlreadyExists)
        } else if amount == 0 {
            Some(EscrowError::InvalidAmount)
        } else if self.client.lamports < amount {
            Some(EscrowError::InsufficientFunds)
        } else {
            None
        }
    }

    /// The accounts after creation: the amount has moved from the client
    /// into custody, and the new record stands in the slot.
    pub open spec fn created(self, service_type: String, amount: u64, now: i64) -> CreateEscrow {
        CreateEscrow {
            escrow_account: Custody {
                key: self.escrow_account.key,
                lamports: (self.escrow_account.lamports + amount) as u64,
                record: Some(
                    EscrowAccount {
                        client: self.client.key,
                        provider: self.provider.key,
                        amount,
                        status: EscrowStatus::Created,
                        service_type,
                        created_at: now,
                    },
                ),
            },
            client: Wallet { lamports: (self.client.lamports - amount) as u64, ..self.client },
            provider: self.provider,
        }
    }
}

impl ProviderAction {
    /// The first reason for which `complete_service` is refused; `None`
    /// where it goes through.
    pub open spec fn refusal(self) -> Option<EscrowError> {
        match self.escrow_account.record {
            None => Some(EscrowError::RecordNotFound),
            Some(record) => if !provider_authorized(self.provider, record) {
                Some(EscrowError::Unauthorized)
            } else if misplaced(
                self.escrow_account.key,
                record.client,
                record.provider,
                record.service_type@,
            ) is Some {
                misplaced(
                    self.escrow_account.key,
                    record.client,
                    record.provider,
                    record.service_type@,
                )
            } else if record.status.next(Operation::CompleteService) is None {
                Some(EscrowError::InvalidStatus)
            } else {
                None
            },
        }
    }

    /// The accounts after delivery: the record is `Delivered`, and no value
    /// has moved.
    pub open spec fn delivered(self) -> ProviderAction {
        ProviderAction {
            escrow_account: self.escrow_account.with_status(EscrowStatus::Delivered),
            provider: self.provider,
        }
    }
}

impl ClientAction {
    /// The first reason for which the client's operation `op` is refused;
    /// `None` where it goes through.
    pub open spec fn refusal(self, op: Operation) -> Option<EscrowError> {
        match self.escrow_account.record {
            None => Some(EscrowError::RecordNotFound),
            Some(record) => if !client_authorized(self.client, self.provider, record) {
                Some(EscrowError::Unauthorized)
            } else if misplaced(
                self.escrow_account.key,
                record.client,
                record.provider,
                record.service_type@,
            ) is Some {
                misplaced(
                    self.escrow_account.key,
                    record.client,
                    record.provider,
                    record.service_type@,
                )
            } else if record.status.next(op) is None {
                Some(EscrowError::InvalidStatus)
            } else if self.escrow_account.lamports < record.amount {
                Some(EscrowError::InsufficientFunds)
            } else {
                None
            },
        }
    }

    /// The accounts after payout: the record is `Released`, and its full
    /// amount has moved from custody to the provider.
    pub open spec fn released(self) -> ClientAction {
        let amount = self.escrow_account.record.unwrap().amount;
        ClientAction {
            escrow_account: Custody {
                lamports: (self.escrow_account.lamports - amount) as u64,
                ..self.escrow_account.with_status(EscrowStatus::Released)
            },
            client: self.client,
            provider: Wallet { lamports: (self.provider.lamports + amount) as u64, ..self.provider },
        }
    }

    /// The accounts after a dispute: the record is `Disputed`, and its full
    /// amount has moved from custody back to the client.
    pub open spec fn refunded(self) -> ClientAction {
        let amount = self.escrow_account.record.unwrap().amount;
        ClientAction {
            escrow_account: Custody {
                lamports: (self.escrow_account.lamports - amount) as u64,
                ..self.escrow_account.with_status(EscrowStatus::Disputed)
            },
            client: Wallet { lamports: (self.client.lamports + amount) as u64, ..self.client },
            provider: self.provider,
        }
    }

    /// Runs the checks that the client's operations share, and gives the
    /// status to move to and the amount to move.
    fn clear(&self, op: Operation) -> (go: Result<(EscrowStatus, u64), EscrowError>)
        ensures
            match go {
                Ok((status, amount)) => {
                    &&& self.refusal(op) is None
                    &&& self.escrow_account.record matches Some(record)
                    &&& record.status.next(op) == Some(status)
                    &&& record.amount == amount
                },
                Err(e) => self.refusal(op) == Some(e),
            },
    {
        match &self.escrow_account.record {
            None => Err(EscrowError::RecordNotFound),
            Some(record) => {
                check_client(&self.client, &self.provider, record)?;
                check_location(
                    &self.escrow_account.key,
                    &record.client,
                    &record.provider,
                    record.service_type.as_str(),
                )?;
                let status = record.status.transition(op)?;
                if self.escrow_account.lamports < record.amount {
                    return Err(EscrowError::InsufficientFunds);
                }
                Ok((status, record.amount))
            },
        }
    }
}

/// Opens an escrow: moves `amount` from the client into custody and writes
/// the record, `Created` at time `now`, into the slot at the address derived
/// from the pairing. Returns that address.
pub fn create_escrow(ctx: &mut CreateEscrow, service_type: String, amount: u64, now: i64) -> (opened: Result<Pubkey, EscrowError>)
    requires
        old(ctx).escrow_account.lamports + old(ctx).client.lamports <= u64::MAX,
    ensures
        match opened {
            Ok(address) => {
                &&& old(ctx).refusal(service_type@, amount) is None
                &&& *final(ctx) == old(ctx).created(service_type, amount, now)
                &&& address == old(ctx).escrow_account.key
            },
            Err(e) => old(ctx).refusal(service_type@, amount) == Some(e) && *final(ctx) == *old(ctx),
        },
        final(ctx).funds() == old(ctx).funds(),
{
    if service_type.as_str().as_bytes().len() > MAX_SERVICE_TYPE_LEN {
        return Err(EscrowError::ServiceTypeTooLong);
    }
    check_location(
        &ctx.escrow_account.key,
        &ctx.client.key,
        &ctx.provider.key,
        service_type.as_str(),
    )?;
    if !ctx.client.is_signer {
        return Err(EscrowError::Unauthorized);
    }
    if ctx.escrow_account.record.is_some() {
        return Err(EscrowError::RecordAlreadyExists);
    }
    if amount == 0 {
        return Err(EscrowError::InvalidAmount);
    }
    if ctx.client.lamports < amount {
        return Err(EscrowError::InsufficientFunds);
    }
    ctx.client.lamports = ctx.client.lamports - amount;
    ctx.escrow_account.lamports = ctx.escrow_account.lamports + amount;
    ctx.escrow_account.record = Some(
        EscrowAccount {
            client: ctx.client.key,
            provider: ctx.provider.key,
            amount,
            status: EscrowStatus::Created,
            service_type,
            created_at: now,
        },
    );
    Ok(ctx.escrow_account.key)
}

/// The provider marks the service delivered. No value moves.
pub fn complete_service(ctx: &mut ProviderAction) -> (done: Result<(), EscrowError>)
    ensures
        match done {
            Ok(()) => old(ctx).refusal() is None && *final(ctx) == old(ctx).delivered(),
            Err(e) => old(ctx).refusal() == Some(e) && *final(ctx) == *old(ctx),
        },
{
    let status = match &ctx.escrow_account.record {
        None => {
            return Err(EscrowError::RecordNotFound);
        },
        Some(record) => {
            check_provider(&ctx.provider, record)?;
            check_location(
                &ctx.escrow_account.key,
                &record.client,
                &record.provider,
                record.service_type.as_str(),
            )?;
            record.status.transition(Operation::CompleteService)?
        },
    };
    ctx.escrow_account.set_status(status);
    Ok(())
}

/// The client accepts the delivery: the full amount leaves custody for the
/// provider, and the record is `Released`.
pub fn release_payment(ctx: &mut ClientAction) -> (done: Result<(), EscrowError>)
    requires
        old(ctx).escrow_account.lamports + old(ctx).provider.lamports <= u64::MAX,
    ensures
        match done {
            Ok(()) => old(ctx).refusal(Operation::ReleasePayment) is None && *final(ctx) == old(
                ctx,
            ).released(),
            Err(e) => old(ctx).refusal(Operation::ReleasePayment) == Some(e) && *final(ctx) == *old(
                ctx,
            ),
        },
        final(ctx).funds() == old(ctx).funds(),
{
    let (status, amount) = ctx.clear(Operation::ReleasePayment)?;
    ctx.escrow_account.set_status(status);
    ctx.escrow_account.lamports = ctx.escrow_account.lamports - amount;
    ctx.provider.lamports = ctx.provider.lamports + amount;
    Ok(())
}

/// The client disputes the escrow: the full amount leaves custody for the
/// client, and the record is `Disputed`.
pub fn dispute(ctx: &mut ClientAction) -> (done: Result<(), EscrowError>)
    requires
        old(ctx).escrow_account.lamports + old(ctx).client.lamports <= u64::MAX,
    ensures
        match done {
            Ok(()) => old(ctx).refusal(Operation::Dispute) is None && *final(ctx) == old(
                ctx,
            ).refunded(),
            Err(e) => old(ctx).refusal(Operation::Dispute) == Some(e) && *final(ctx) == *old(ctx),
        },
        final(ctx).funds() == old(ctx).funds(),
{
    let (status, amount) = ctx.clear(Operation::Dispute)?;
    ctx.escrow_account.set_status(status);
    ctx.escrow_account.lamports = ctx.escrow_account.lamports - amount;
    ctx.client.lamports = ctx.client.lamports + amount;
    Ok(())
}

} // verus!
