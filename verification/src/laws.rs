//! What holds of the engine as a whole, proved from the contracts of its
//! operations.

use crate::address::{escrow_address, escrow_seeds, misplaced};
use crate::context::{ClientAction, CreateEscrow, ProviderAction};
use crate::guard::{client_authorized, provider_authorized};
use crate::pubkey::Pubkey;
use crate::state::{EscrowError, EscrowStatus, Operation};
use vstd::prelude::*;
use vstd::utf8::{encode_utf8, encode_utf8_decode_utf8};

verus! {

/// The derived address depends on the pairing alone: the same client,
/// provider and service descriptor give the same address, or the same
/// refusal, every time.
pub proof fn lemma_derive_is_deterministic(
    client: Pubkey,
    provider: Pubkey,
    service_type: Seq<char>,
    client_again: Pubkey,
    provider_again: Pubkey,
    service_type_again: Seq<char>,
)
    requires
        client@ == client_again@,
        provider@ == provider_again@,
        service_type == service_type_again,
    ensures
        escrow_address(client, provider, service_type) == escrow_address(
            client_again,
            provider_again,
            service_type_again,
        ),
{
    client.lemma_view_injective(client_again);
    provider.lemma_view_injective(provider_again);
}

/// The bytes that the seeds of a pairing put before the digest, one seed
/// after the other.
pub open spec fn escrow_preimage(client: Pubkey, provider: Pubkey, service_type: Seq<char>) -> Seq<u8> {
    let seeds = escrow_seeds(client, provider, service_type);
    seeds[0] + seeds[1] + seeds[2] + seeds[3]
}

/// No two pairings put the same bytes before the digest: the parts of fixed
/// length come first, so the bytes fall apart into the pairing in one way
/// only.
pub proof fn lemma_pairings_are_told_apart(
    client: Pubkey,
    provider: Pubkey,
    service_type: Seq<char>,
    other_client: Pubkey,
    other_provider: Pubkey,
    other_service_type: Seq<char>,
)
    requires
        escrow_preimage(client, provider, service_type) == escrow_preimage(
            other_client,
            other_provider,
            other_service_type,
        ),
    ensures
        client == other_client,
        provider == other_provider,
        service_type == other_service_type,
{
    let bytes = escrow_preimage(client, provider, service_type);
    let other = escrow_preimage(other_client, other_provider, other_service_type);
    assert(bytes.subrange(6, 38) =~= client@);
    assert(other.subrange(6, 38) =~= other_client@);
    assert(bytes.subrange(38, 70) =~= provider@);
    assert(other.subrange(38, 70) =~= other_provider@);
    assert(bytes.subrange(70, bytes.len() as int) =~= encode_utf8(service_type));
    assert(other.subrange(70, other.len() as int) =~= encode_utf8(other_service_type));
    client.lemma_view_injective(other_client);
    provider.lemma_view_injective(other_provider);
    encode_utf8_decode_utf8(service_type);
    encode_utf8_decode_utf8(other_service_type);
}

/// Creation deposits: where it goes through into a slot that held nothing,
/// the client has paid exactly the amount, custody holds exactly the amount,
/// and the record stands `Created` at the address derived from its pairing.
pub proof fn lemma_creation_deposits(ctx: CreateEscrow, service_type: String, amount: u64, now: i64)
    requires
        ctx.escrow_account.wf(),
        ctx.refusal(service_type@, amount) is None,
    ensures
        ({
            let after = ctx.created(service_type, amount, now);
            &&& after.client.lamports == ctx.client.lamports - amount
            &&& after.escrow_account.lamports == amount
            &&& after.provider.lamports == ctx.provider.lamports
            &&& after.escrow_account.record matches Some(record) && record.status
                == EscrowStatus::Created
            &&& after.escrow_account.wf()
            &&& after.escrow_account.located()
        }),
{
}

/// A pairing has one record: once creation has gone through, creating again
/// for the same pairing is refused with `RecordAlreadyExists`, whatever the
/// amount and the time.
pub proof fn lemma_second_creation_is_refused(
    ctx: CreateEscrow,
    service_type: String,
    amount: u64,
    now: i64,
    amount_again: u64,
)
    requires
        ctx.refusal(service_type@, amount) is None,
    ensures
        ctx.created(service_type, amount, now).refusal(service_type@, amount_again) == Some(
            EscrowError::RecordAlreadyExists,
        ),
{
}

/// Creation into an occupied slot is refused with `RecordAlreadyExists`
/// whenever the request is otherwise in order, whatever the amount and
/// whatever has happened to the record since it was written.
pub proof fn lemma_occupied_slot_refuses_creation(ctx: CreateEscrow, service_type: Seq<char>, amount: u64)
    requires
        ctx.escrow_account.record is Some,
        ctx.client.is_signer,
        misplaced(ctx.escrow_account.key, ctx.client.key, ctx.provider.key, service_type) is None,
    ensures
        ctx.refusal(service_type, amount) == Some(EscrowError::RecordAlreadyExists),
{
}

/// The transition table moves forward only: every legal transition raises
/// the rank of the status, and none leaves a terminal status.
pub proof fn lemma_transitions_move_forward(status: EscrowStatus, op: Operation)
    ensures
        status.next(op) matches Some(to) ==> status.rank() < to.rank(),
        status.is_terminal() ==> status.next(op) is None,
        status.next(op) is Some <==> {
            ||| (status == EscrowStatus::Created && op == Operation::CompleteService)
            ||| (status == EscrowStatus::Delivered && op == Operation::ReleasePayment)
            ||| (status == EscrowStatus::Created && op == Operation::Dispute)
            ||| (status == EscrowStatus::Delivered && op == Operation::Dispute)
        },
{
}

/// For the provider on record, at the record's own address,
/// `complete_service` goes through exactly where the table allows it, leads
/// to the status that the table names, and is refused with `InvalidStatus`
/// everywhere else.
pub proof fn lemma_complete_service_follows_the_table(ctx: ProviderAction)
    requires
        ctx.escrow_account.record matches Some(record) && provider_authorized(ctx.provider, record),
        ctx.escrow_account.located(),
    ensures
        ({
            let from = ctx.escrow_account.record.unwrap().status;
            match from.next(Operation::CompleteService) {
                Some(to) => ctx.refusal() is None && ctx.delivered().escrow_account.record.unwrap().status
                    == to,
                None => ctx.refusal() == Some(EscrowError::InvalidStatus),
            }
        }),
{
}

/// For the client on record, at the record's own address and with the
/// record's amount in custody, `release_payment` and `dispute` go through
/// exactly where the table allows them, lead to the status that the table
/// names, and are refused with `InvalidStatus` everywhere else.
pub proof fn lemma_settlement_follows_the_table(ctx: ClientAction, op: Operation)
    requires
        op != Operation::CompleteService,
        ctx.escrow_account.record matches Some(record) && client_authorized(
            ctx.client,
            ctx.provider,
            record,
        ),
        ctx.escrow_account.located(),
        ctx.escrow_account.wf(),
    ensures
        ({
            let from = ctx.escrow_account.record.unwrap().status;
            let after = if op == Operation::ReleasePayment {
                ctx.released()
            } else {
                ctx.refunded()
            };
            match from.next(op) {
                Some(to) => ctx.refusal(op) is None && after.escrow_account.record.unwrap().status == to,
                None => ctx.refusal(op) == Some(EscrowError::InvalidStatus),
            }
        }),
{
}

/// Only the provider on record completes the service: from any other
/// identity, and from one that did not sign, `complete_service` is refused
/// with `Unauthorized`.
pub proof fn lemma_only_the_provider_completes(ctx: ProviderAction)
    requires
        ctx.escrow_account.record matches Some(record) && (ctx.provider.key@ != record.provider@
            || !ctx.provider.is_signer),
    ensures
        ctx.refusal() == Some(EscrowError::Unauthorized),
{
}

/// Only the client on record releases or disputes: from any other identity,
/// and from one that did not sign, both are refused with `Unauthorized`. So
/// are both where the provider's account handed in is not the one on record.
pub proof fn lemma_only_the_client_settles(ctx: ClientAction, op: Operation)
    requires
        ctx.escrow_account.record matches Some(record) && (ctx.client.key@ != record.client@
            || !ctx.client.is_signer || ctx.provider.key@ != record.provider@),
    ensures
        ctx.refusal(op) == Some(EscrowError::Unauthorized),
{
}

/// One operation on the three accounts of an escrow, as the engine performs
/// it: the operation's effect where it goes through, and no change where it
/// is refused.
pub open spec fn step(world: ClientAction, op: Operation) -> ClientAction {
    match op {
        Operation::CompleteService => {
            let ctx = ProviderAction { escrow_account: world.escrow_account, provider: world.provider };
            if ctx.refusal() is None {
                ClientAction { escrow_account: ctx.delivered().escrow_account, ..world }
            } else {
                world
            }
        },
        Operation::ReleasePayment => if world.refusal(op) is None {
            world.released()
        } else {
            world
        },
        Operation::Dispute => if world.refusal(op) is None {
            world.refunded()
        } else {
            world
        },
    }
}

/// A sequence of operations, performed one after the other.
pub open spec fn run(world: ClientAction, ops: Seq<Operation>) -> ClientAction
    decreases ops.len(),
{
    if ops.len() == 0 {
        world
    } else {
        step(run(world, ops.drop_last()), ops.last())
    }
}

/// What a run has made of an open escrow: the pairing, the amount and the
/// time of creation stand as they were; no value has appeared or vanished;
/// and the amount is still in custody, or has gone whole to the provider, or
/// has gone whole to the client, as the status says.
pub open spec fn settled_from(start: ClientAction, end: ClientAction) -> bool {
    let opened = start.escrow_account.record.unwrap();
    let amount = opened.amount;
    &&& end.escrow_account.key == start.escrow_account.key
    &&& end.client.key == start.client.key
    &&& end.provider.key == start.provider.key
    &&& end.escrow_account.record matches Some(record)
    &&& record.client == opened.client
    &&& record.provider == opened.provider
    &&& record.amount == amount
    &&& record.service_type == opened.service_type
    &&& record.created_at == opened.created_at
    &&& opened.status.rank() <= record.status.rank()
    &&& end.funds() == start.funds()
    &&& match record.status {
        EscrowStatus::Released => {
            &&& end.escrow_account.lamports == 0
            &&& end.provider.lamports == start.provider.lamports + amount
            &&& end.client.lamports == start.client.lamports
        },
        EscrowStatus::Disputed => {
            &&& end.escrow_account.lamports == 0
            &&& end.client.lamports == start.client.lamports + amount
            &&& end.provider.lamports == start.provider.lamports
        },
        _ => {
            &&& end.escrow_account.lamports == amount
            &&& end.client.lamports == start.client.lamports
            &&& end.provider.lamports == start.provider.lamports
        },
    }
}

/// On a settled record every operation is refused with `InvalidStatus` or
/// earlier, so nothing moves any more: a record pays out at most once.
pub proof fn lemma_terminal_is_final(world: ClientAction, op: Operation)
    requires
        world.escrow_account.record matches Some(record) && record.status.is_terminal(),
    ensures
        step(world, op) == world,
{
}

/// Conservation: whatever operations follow the opening of an escrow, in
/// whatever order, no value appears or vanishes; and once the record is
/// settled, exactly one of provider and client has received exactly the
/// amount, the other nothing, and custody is empty.
pub proof fn lemma_run_conserves(start: ClientAction, ops: Seq<Operation>)
    requires
        start.escrow_account.wf(),
        start.escrow_account.record matches Some(record) && !record.status.is_terminal(),
        start.funds() <= u64::MAX,
    ensures
        settled_from(start, run(start, ops)),
        run(start, ops).escrow_account.wf(),
    decreases ops.len(),
{
    if ops.len() > 0 {
        lemma_run_conserves(start, ops.drop_last());
    }
}

} // verus!
