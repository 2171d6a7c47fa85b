//! Voting weight from token deposits.
//!
//! A participant locks governing tokens into a vault held by a registrar and
//! votes with the locked balance. The ledger of deposits, the record of voting
//! weight that the governance engine reads, and the order in which deposits,
//! withdrawals and weight publication may follow one another are kept here.
//!
//! The flow is: create a registrar for a realm, create a voter ledger, deposit,
//! publish the weight right before voting, and withdraw in a later slot.
//! Tokens are moved by the token program: an operation that moves tokens hands
//! back the transfer to make, and stands only if that transfer is made.

pub mod account;
pub mod address;
pub mod context;
pub mod error;
pub mod governance;
pub mod instructions;
pub mod laws;
pub mod token;

use crate::address::{
    find_registrar_address, find_voter_address, find_voter_weight_record_address,
    registrar_address, spec_find_registrar_address, spec_find_voter_address,
    spec_find_voter_weight_record_address, spec_registrar_address, spec_voter_address,
    spec_voter_weight_record_address, voter_weight_record_address, Address,
};
use crate::context::{
    CloseVoter, CreateRegistrar, CreateVoter, Deposit, UpdateVoterWeightRecord, Withdraw,
};
use crate::error::ErrorCode;
use crate::governance::{
    governing_token_owner_record, realm_accepts_mint, spec_governing_token_owner_record,
    spec_realm_accepts_mint, TokenOwnerRecord,
};
use crate::instructions::{is_direct_top_level_call, spec_is_direct_top_level_call};
use crate::token::{Refund, TokenTransfer, TransferOutcome};
use vstd::prelude::*;

verus! {

/// The time of the runtime, of which only the slot matters here: a counter
/// that never goes back.
#[derive(Clone, Copy, Debug, PartialEq, Eq, Structural)]
pub struct Clock {
    pub slot: u64,
}

/// What the runtime hands to an operation: the address of this program, the
/// accounts, and the clock.
#[derive(Clone, Copy, Debug, PartialEq, Eq)]
pub struct Context<T> {
    pub program_id: Address,
    pub accounts: T,
    pub clock: Clock,
}

impl<T> Context<T> {
    /// Concludes an operation that asked for a transfer, once the token
    /// program has answered. `before` holds the accounts as they were before
    /// the operation. A transfer that was made lets the operation stand; one
    /// that failed undoes it, and the operation fails with what the token
    /// program found.
    pub fn settle(&mut self, before: T, outcome: TransferOutcome) -> (r: Result<(), ErrorCode>)
        ensures
            final(self).program_id == old(self).program_id,
            final(self).clock == old(self).clock,
            match outcome {
                TransferOutcome::Completed => r is Ok && final(self).accounts == old(self).accounts,
                TransferOutcome::InsufficientFunds => r == Err::<(), ErrorCode>(
                    ErrorCode::InsufficientFunds,
                ) && final(self).accounts == before,
                TransferOutcome::Unauthorized => r == Err::<(), ErrorCode>(ErrorCode::Unauthorized)
                    && final(self).accounts == before,
            },
    {
        match outcome {
            TransferOutcome::Completed => Ok(()),
            TransferOutcome::InsufficientFunds => {
                self.accounts = before;
                Err(ErrorCode::InsufficientFunds)
            },
            TransferOutcome::Unauthorized => {
                self.accounts = before;
                Err(ErrorCode::Unauthorized)
            },
        }
    }
}

/// The accounts after [`create_registrar`], or why it is refused.
pub open spec fn spec_create_registrar(ctx: Context<CreateRegistrar>, registrar_bump: u8) -> Result<
    CreateRegistrar,
    ErrorCode,
> {
    ctx.accounts.spec_process(
        registrar_bump,
        spec_find_registrar_address(ctx.accounts.realm.key, ctx.program_id),
        spec_realm_accepts_mint(
            ctx.accounts.governance_program_id,
            ctx.accounts.realm,
            ctx.accounts.realm_community_mint,
        ),
    )
}

/// Creates a new voting registrar and its vault. There can only be a single
/// registrar per governance realm: it lives at the one address that the
/// realm derives, and `registrar_bump` is the bump seed of that address.
///
/// Refused with `InvalidAddress` where the registrar's account is not at that
/// address or the bump seed is another, with `AlreadyExists` where registrar
/// or vault exist, and with `InvalidMint` where the governance engine does
/// not know the realm, the realm does not govern with the asset given, or the
/// vault is to hold another asset.
///
/// The realm and the bump seed that the registrar keeps derive its address
/// again, which is how a withdrawal proves the authority over the vault.
pub fn create_registrar(ctx: &mut Context<CreateRegistrar>, registrar_bump: u8) -> (r: Result<
    (),
    ErrorCode,
>)
    ensures
        final(ctx).program_id == old(ctx).program_id,
        final(ctx).clock == old(ctx).clock,
        match r {
            Ok(()) => spec_create_registrar(*old(ctx), registrar_bump) == Ok::<
                CreateRegistrar,
                ErrorCode,
            >(final(ctx).accounts),
            Err(e) => {
                &&& spec_create_registrar(*old(ctx), registrar_bump) == Err::<
                    CreateRegistrar,
                    ErrorCode,
                >(e)
                &&& *final(ctx) == *old(ctx)
            },
        },
        r is Ok ==> spec_registrar_address(
            final(ctx).accounts.registrar.data->0.realm,
            final(ctx).accounts.registrar.data->0.bump,
            final(ctx).program_id,
        ) == Some(final(ctx).accounts.registrar.key@),
{
    let derived = find_registrar_address(&ctx.accounts.realm.key, &ctx.program_id);
    let realm_governs = realm_accepts_mint(
        &ctx.accounts.governance_program_id,
        &ctx.accounts.realm,
        &ctx.accounts.realm_community_mint,
    );
    ctx.accounts.process(registrar_bump, derived, realm_governs)
}

/// The accounts after [`create_voter`], or why it is refused.
pub open spec fn spec_create_voter(
    ctx: Context<CreateVoter>,
    voter_bump: u8,
    voter_weight_record_bump: u8,
) -> Result<CreateVoter, ErrorCode> {
    ctx.accounts.spec_process(
        voter_bump,
        voter_weight_record_bump,
        spec_find_voter_address(
            ctx.accounts.registrar.key,
            ctx.accounts.authority.key,
            ctx.program_id,
        ),
        spec_find_voter_weight_record_address(
            ctx.accounts.registrar.key,
            ctx.accounts.authority.key,
            ctx.program_id,
        ),
        spec_is_direct_top_level_call(ctx.accounts.instructions, ctx.program_id),
    )
}

/// Creates a new voter ledger and its weight record, both empty. There can
/// only be a single ledger per participant and registrar: ledger and record
/// live at the one address each that registrar and participant derive.
///
/// Refused with `NotFound` without a registrar, with `MissingSignature`
/// where the participant did not sign, with `InvalidAddress` where ledger or
/// record are not at those addresses or a bump seed is another, with
/// `AlreadyExists` where one of them exists, and with `ForbiddenIndirectCall`
/// where another program made the call.
///
/// The bump seeds that the ledger keeps derive both addresses again.
pub fn create_voter(ctx: &mut Context<CreateVoter>, voter_bump: u8, voter_weight_record_bump: u8) -> (r:
    Result<(), ErrorCode>)
    ensures
        final(ctx).program_id == old(ctx).program_id,
        final(ctx).clock == old(ctx).clock,
        match r {
            Ok(()) => spec_create_voter(*old(ctx), voter_bump, voter_weight_record_bump) == Ok::<
                CreateVoter,
                ErrorCode,
            >(final(ctx).accounts),
            Err(e) => {
                &&& spec_create_voter(*old(ctx), voter_bump, voter_weight_record_bump) == Err::<
                    CreateVoter,
                    ErrorCode,
                >(e)
                &&& *final(ctx) == *old(ctx)
            },
        },
        r is Ok ==> {
            let voter = final(ctx).accounts.voter.data->0;
            &&& spec_voter_address(
                voter.registrar,
                voter.authority,
                voter.voter_bump,
                final(ctx).program_id,
            ) == Some(final(ctx).accounts.voter.key@)
            &&& spec_voter_weight_record_address(
                voter.registrar,
                voter.authority,
                voter.voter_weight_record_bump,
                final(ctx).program_id,
            ) == Some(final(ctx).accounts.voter_weight_record.key@)
        },
{
    let direct_call = is_direct_top_level_call(&ctx.accounts.instructions, &ctx.program_id);
    let voter = find_voter_address(
        &ctx.accounts.registrar.key,
        &ctx.accounts.authority.key,
        &ctx.program_id,
    );
    let record = find_voter_weight_record_address(
        &ctx.accounts.registrar.key,
        &ctx.accounts.authority.key,
        &ctx.program_id,
    );
    ctx.accounts.process(voter_bump, voter_weight_record_bump, voter, record, direct_call)
}

/// Deposits `amount` units into the ledger, in the slot of the clock, and
/// hands back the transfer into the vault that the participant signs. The
/// ledger is changed first; the deposit stands only if the transfer is made
/// (see [`Context::settle`]). The weight record is left alone: the weight is
/// published by [`update_voter_weight_record`]. A deposit of nothing moves
/// nothing and still marks the slot.
///
/// Refused for the accounts as [`Deposit::spec_check`] says, and with
/// `ArithmeticOverflow` where the balance would not fit.
pub fn deposit(ctx: &mut Context<Deposit>, amount: u64) -> (r: Result<TokenTransfer, ErrorCode>)
    ensures
        final(ctx).program_id == old(ctx).program_id,
        final(ctx).clock == old(ctx).clock,
        match r {
            Ok(transfer) => {
                &&& old(ctx).accounts.spec_process(amount, old(ctx).clock.slot) == Ok::<
                    Deposit,
                    ErrorCode,
                >(final(ctx).accounts)
                &&& transfer@ == old(ctx).accounts.spec_transfer(amount)
            },
            Err(e) => {
                &&& old(ctx).accounts.spec_process(amount, old(ctx).clock.slot) == Err::<
                    Deposit,
                    ErrorCode,
                >(e)
                &&& *final(ctx) == *old(ctx)
            },
        },
{
    let slot = ctx.clock.slot;
    ctx.accounts.process(amount, slot)
}

/// The address that the realm and bump seed of the registrar in `ctx`
/// derive: the authority over the vault.
pub open spec fn spec_custody_authority(ctx: Context<Withdraw>) -> Option<Seq<u8>> {
    spec_registrar_address(
        ctx.accounts.registrar.data->0.realm,
        ctx.accounts.registrar.data->0.bump,
        ctx.program_id,
    )
}

/// The governance engine's record of the participant in `ctx`.
pub open spec fn spec_withdrawal_record(ctx: Context<Withdraw>) -> Option<TokenOwnerRecord> {
    spec_governing_token_owner_record(
        ctx.accounts.registrar.data->0.governance_program_id,
        ctx.accounts.token_owner_record,
        ctx.accounts.registrar.data->0.realm,
        ctx.accounts.registrar.data->0.realm_community_mint,
        ctx.accounts.authority.key,
    )
}

/// The accounts after [`withdraw`], or why it is refused.
pub open spec fn spec_withdraw(ctx: Context<Withdraw>, amount: u64) -> Result<Withdraw, ErrorCode> {
    ctx.accounts.spec_process(
        amount,
        ctx.clock.slot,
        spec_custody_authority(ctx),
        spec_withdrawal_record(ctx),
    )
}

/// Withdraws `amount` units from the ledger, in the slot of the clock, and
/// hands back the transfer out of the vault, signed by the registrar's
/// address through its seeds. The ledger is changed first; the withdrawal
/// stands only if the transfer is made (see [`Context::settle`]).
///
/// Refused for the accounts as [`Withdraw::spec_check`] says; with
/// `InvalidAddress` where realm and bump seed of the registrar do not derive
/// its address; then, in this order, with `WithdrawalRestricted` where the
/// governance engine has no record of the participant or the record shows an
/// unrelinquished vote or an outstanding proposal, with
/// `SameStepDepositWithdraw` in the slot of the latest deposit, and with
/// `InsufficientBalance` where `amount` exceeds the balance.
pub fn withdraw(ctx: &mut Context<Withdraw>, amount: u64) -> (r: Result<TokenTransfer, ErrorCode>)
    ensures
        final(ctx).program_id == old(ctx).program_id,
        final(ctx).clock == old(ctx).clock,
        match r {
            Ok(transfer) => {
                &&& spec_withdraw(*old(ctx), amount) == Ok::<Withdraw, ErrorCode>(final(ctx).accounts)
                &&& transfer@ == old(ctx).accounts.spec_transfer(amount)
            },
            Err(e) => {
                &&& spec_withdraw(*old(ctx), amount) == Err::<Withdraw, ErrorCode>(e)
                &&& *final(ctx) == *old(ctx)
            },
        },
{
    let slot = ctx.clock.slot;
    match ctx.accounts.registrar.data {
        Some(registrar) => {
            let custody_authority = registrar_address(&registrar.realm, registrar.bump, &ctx.program_id);
            let record = governing_token_owner_record(
                &registrar.governance_program_id,
                &ctx.accounts.token_owner_record,
                &registrar.realm,
                &registrar.realm_community_mint,
                &ctx.accounts.authority.key,
            );
            ctx.accounts.process(amount, slot, custody_authority, record)
        },
        None => ctx.accounts.process(amount, slot, None, None),
    }
}

/// The address that the seeds of the weight record in `ctx` derive with the
/// bump seed kept in the ledger.
pub open spec fn spec_record_address(ctx: Context<UpdateVoterWeightRecord>) -> Option<Seq<u8>> {
    spec_voter_weight_record_address(
        ctx.accounts.registrar.key,
        ctx.accounts.authority,
        ctx.accounts.voter.data->0.voter_weight_record_bump,
        ctx.program_id,
    )
}

/// Calculates the voting power of the ledger (exactly the number of
/// deposited tokens) and writes it into the weight record, fresh for the slot
/// of the clock. To be called in the same transaction, immediately before
/// voting.
///
/// Refused, with `NotFound`, only where the accounts do not hold the ledger
/// of the participant with the registrar and that ledger's weight record.
pub fn update_voter_weight_record(ctx: &mut Context<UpdateVoterWeightRecord>) -> (r: Result<
    (),
    ErrorCode,
>)
    ensures
        final(ctx).program_id == old(ctx).program_id,
        final(ctx).clock == old(ctx).clock,
        match r {
            Ok(()) => old(ctx).accounts.spec_process(
                old(ctx).clock.slot,
                spec_record_address(*old(ctx)),
            ) == Ok::<UpdateVoterWeightRecord, ErrorCode>(final(ctx).accounts),
            Err(e) => {
                &&& old(ctx).accounts.spec_process(
                    old(ctx).clock.slot,
                    spec_record_address(*old(ctx)),
                ) == Err::<UpdateVoterWeightRecord, ErrorCode>(e)
                &&& *final(ctx) == *old(ctx)
            },
        },
{
    let slot = ctx.clock.slot;
    match ctx.accounts.voter.data {
        Some(voter) => {
            let record = voter_weight_record_address(
                &ctx.accounts.registrar.key,
                &ctx.accounts.authority,
                voter.voter_weight_record_bump,
                &ctx.program_id,
            );
            ctx.accounts.process(slot, record)
        },
        None => ctx.accounts.process(slot, None),
    }
}

/// Closes the voter ledger and hands back the lamports that backed it, for
/// the destination. Only a ledger with no remaining deposits can be closed.
///
/// Refused with `NotFound` without a ledger, with `MissingSignature` where
/// the participant did not sign, with `InvalidAuthority` for the ledger of
/// another participant, and with `NonZeroBalance` while the ledger holds a
/// balance.
pub fn close_voter(ctx: &mut Context<CloseVoter>) -> (r: Result<Refund, ErrorCode>)
    ensures
        final(ctx).program_id == old(ctx).program_id,
        final(ctx).clock == old(ctx).clock,
        match r {
            Ok(refund) => {
                &&& old(ctx).accounts.spec_process() == Ok::<CloseVoter, ErrorCode>(
                    final(ctx).accounts,
                )
                &&& refund == old(ctx).accounts.spec_refund()
            },
            Err(e) => {
                &&& old(ctx).accounts.spec_process() == Err::<CloseVoter, ErrorCode>(e)
                &&& *final(ctx) == *old(ctx)
            },
        },
{
    ctx.accounts.process()
}

} // verus!
