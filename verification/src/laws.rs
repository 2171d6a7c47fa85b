//! What holds of the operations together: balances add up, tokens in the
//! vault match the ledger, and a deposit cannot be taken back in its slot.

use crate::context::{CloseVoter, CreateRegistrar, CreateVoter, Deposit, UpdateVoterWeightRecord, Withdraw};
use crate::error::ErrorCode;
use crate::governance::TokenOwnerRecord;
use crate::token::spec_balance_after;
use vstd::prelude::*;

verus! {

/// The sum of `amounts`.
pub open spec fn spec_sum(amounts: Seq<u64>) -> int
    decreases amounts.len(),
{
    if amounts.len() == 0 {
        0
    } else {
        spec_sum(amounts.drop_last()) + amounts.last()
    }
}

/// The accounts after the deposits `amounts`, made one after the other, the
/// `i`-th in the slot `slots[i]`; the first refusal where one is refused.
pub open spec fn spec_deposits(accounts: Deposit, amounts: Seq<u64>, slots: Seq<u64>) -> Result<
    Deposit,
    ErrorCode,
>
    decreases amounts.len(),
{
    if amounts.len() == 0 {
        Ok(accounts)
    } else {
        match spec_deposits(accounts, amounts.drop_last(), slots.drop_last()) {
            Ok(before) => before.spec_process(amounts.last(), slots.last()),
            Err(e) => Err(e),
        }
    }
}

/// The balance of the vault once the transfers that the deposits `amounts`
/// ask for are made, where it was `balance` before.
pub open spec fn spec_vault_after_deposits(accounts: Deposit, balance: int, amounts: Seq<u64>) -> int
    decreases amounts.len(),
{
    if amounts.len() == 0 {
        balance
    } else {
        spec_balance_after(
            spec_vault_after_deposits(accounts, balance, amounts.drop_last()),
            accounts.exchange_vault.key,
            accounts.spec_transfer(amounts.last()),
        )
    }
}

/// Deposits add up, on the ledger and in the vault. Where the accounts are
/// those of a deposit, the deposits `amounts` all succeed exactly if their sum
/// fits on top of the balance; the ledger then holds that sum more, and so
/// does the vault once the transfers are made, unless tokens are sent from
/// the vault to itself. On a new ledger and an empty vault, both hold the sum.
pub proof fn law_deposits_add_up(accounts: Deposit, balance: int, amounts: Seq<u64>, slots: Seq<u64>)
    requires
        accounts.spec_check() is None,
        amounts.len() == slots.len(),
    ensures
        spec_deposits(accounts, amounts, slots) is Ok
            <==> accounts.voter.data->0.amount_deposited + spec_sum(amounts) <= u64::MAX,
        spec_deposits(accounts, amounts, slots) matches Ok(after) ==> {
            &&& after.spec_check() is None
            &&& after.voter.data->0.amount_deposited == accounts.voter.data->0.amount_deposited
                + spec_sum(amounts)
            &&& after == (Deposit { voter: after.voter, ..accounts })
        },
        spec_deposits(accounts, amounts, slots) matches Err(e) ==> e == ErrorCode::ArithmeticOverflow,
        accounts.deposit_token.key != accounts.exchange_vault.key ==> spec_vault_after_deposits(
            accounts,
            balance,
            amounts,
        ) == balance + spec_sum(amounts),
    decreases amounts.len(),
{
    if amounts.len() > 0 {
        law_deposits_add_up(accounts, balance, amounts.drop_last(), slots.drop_last());
    }
}

/// A deposit and a withdrawal keep the vault and the ledger in step: once
/// the transfer asked for is made, the vault has gained or lost what the
/// ledger has, unless tokens are sent from the vault to itself.
pub proof fn law_vault_follows_ledger(
    deposit: Deposit,
    withdraw: Withdraw,
    balance: int,
    amount: u64,
    slot: u64,
    custody_authority: Option<Seq<u8>>,
    record: Option<TokenOwnerRecord>,
)
    ensures
        deposit.spec_process(amount, slot) matches Ok(after) ==> (deposit.deposit_token.key
            != deposit.exchange_vault.key ==> spec_balance_after(
            balance,
            deposit.exchange_vault.key,
            deposit.spec_transfer(amount),
        ) - balance == after.voter.data->0.amount_deposited
            - deposit.voter.data->0.amount_deposited),
        withdraw.spec_process(amount, slot, custody_authority, record) matches Ok(after) ==> (
        withdraw.destination.key != withdraw.exchange_vault.key ==> spec_balance_after(
            balance,
            withdraw.exchange_vault.key,
            withdraw.spec_transfer(amount),
        ) - balance == after.voter.data->0.amount_deposited
            - withdraw.voter.data->0.amount_deposited),
{
}

/// No withdrawal in the slot of a deposit, whatever the amount. A withdrawal
/// from the ledger that a deposit in `slot` has left, in that slot or an
/// earlier one, is refused; where nothing else stands against it (the
/// accounts, the registrar's address, the governance engine), the refusal is
/// `SameStepDepositWithdraw`.
pub proof fn law_no_withdrawal_in_the_slot_of_a_deposit(
    deposit: Deposit,
    deposited: u64,
    slot: u64,
    withdraw: Withdraw,
    amount: u64,
    withdraw_slot: u64,
    custody_authority: Option<Seq<u8>>,
    record: Option<TokenOwnerRecord>,
)
    requires
        deposit.spec_process(deposited, slot) matches Ok(after) && withdraw.voter == after.voter,
        withdraw_slot <= slot,
    ensures
        withdraw.spec_process(amount, withdraw_slot, custody_authority, record) is Err,
        withdraw.spec_check() is None && custody_authority == Some(withdraw.registrar.key@) && (
        record matches Some(r) && r.spec_can_withdraw_governing_tokens()) ==> withdraw.spec_process(
            amount,
            withdraw_slot,
            custody_authority,
            record,
        ) == Err::<Withdraw, ErrorCode>(ErrorCode::SameStepDepositWithdraw),
{
}

/// A withdrawal never takes more than the ledger holds, and may take all of
/// it. More than the balance is refused; where nothing else stands against
/// the withdrawal (the accounts, the registrar's address, the governance
/// engine, the slot), the refusal is `InsufficientBalance`, and a withdrawal
/// of the whole balance succeeds and leaves the ledger at zero.
pub proof fn law_withdrawal_within_balance(
    withdraw: Withdraw,
    amount: u64,
    slot: u64,
    custody_authority: Option<Seq<u8>>,
    record: Option<TokenOwnerRecord>,
)
    requires
        withdraw.voter.data is Some,
    ensures
        amount > withdraw.voter.data->0.amount_deposited ==> withdraw.spec_process(
            amount,
            slot,
            custody_authority,
            record,
        ) is Err,
        withdraw.spec_process(amount, slot, custody_authority, record) matches Ok(after) ==> {
            &&& after.voter.data is Some
            &&& after.voter.data->0.amount_deposited == withdraw.voter.data->0.amount_deposited
                - amount
        },
        withdraw.spec_check() is None && custody_authority == Some(withdraw.registrar.key@) && (
        record matches Some(r) && r.spec_can_withdraw_governing_tokens())
            && withdraw.voter.data->0.last_deposit_slot < slot ==> {
            &&& amount > withdraw.voter.data->0.amount_deposited ==> withdraw.spec_process(
                amount,
                slot,
                custody_authority,
                record,
            ) == Err::<Withdraw, ErrorCode>(ErrorCode::InsufficientBalance)
            &&& amount == withdraw.voter.data->0.amount_deposited ==> (withdraw.spec_process(
                amount,
                slot,
                custody_authority,
                record,
            ) matches Ok(after) && after.voter.data->0.amount_deposited == 0)
        },
{
}

/// Only an empty ledger can be closed. With a balance the closing is
/// refused; where the participant signed for its own ledger, the refusal is
/// `NonZeroBalance`, and the closing of an empty ledger succeeds and leaves
/// no ledger behind.
pub proof fn law_close_only_when_empty(close: CloseVoter)
    requires
        close.voter.data is Some,
    ensures
        close.voter.data->0.amount_deposited > 0 ==> close.spec_process() is Err,
        close.authority.is_signer && close.voter.data->0.authority == close.authority.key ==> {
            &&& close.voter.data->0.amount_deposited > 0 ==> close.spec_process() == Err::<
                CloseVoter,
                ErrorCode,
            >(ErrorCode::NonZeroBalance)
            &&& close.voter.data->0.amount_deposited == 0 ==> (close.spec_process() matches Ok(
                after,
            ) && after.voter.data is None)
        },
{
}

/// Publishing the weight twice is publishing it once. After a publication
/// in `slot`, another in `later`, with no deposit or withdrawal between,
/// succeeds, shows the same weight, and is fresh for `later`; the slot of
/// freshness does not go back, the clock never going back. In the same slot
/// the second publication changes nothing.
pub proof fn law_publication_is_idempotent(
    update: UpdateVoterWeightRecord,
    slot: u64,
    later: u64,
    record_address: Option<Seq<u8>>,
)
    requires
        update.spec_process(slot, record_address) is Ok,
        slot <= later,
    ensures
        ({
            let once = update.spec_process(slot, record_address)->Ok_0;
            &&& once.voter_weight_record.data->0.voter_weight == update.voter.data->0.amount_deposited
            &&& once.spec_process(later, record_address) matches Ok(twice) && {
                &&& twice.voter_weight_record.data->0.voter_weight
                    == once.voter_weight_record.data->0.voter_weight
                &&& once.voter_weight_record.data->0.voter_weight_expiry == Some(slot)
                &&& twice.voter_weight_record.data->0.voter_weight_expiry == Some(later)
                &&& later == slot ==> twice == once
            }
        }),
{
}

/// A weight is fresh in the slot of its publication and in no later one;
/// a weight that was never published is stale.
pub proof fn law_published_weight_is_fresh_for_its_slot(
    update: UpdateVoterWeightRecord,
    slot: u64,
    now: u64,
    record_address: Option<Seq<u8>>,
)
    requires
        update.spec_process(slot, record_address) is Ok,
    ensures
        update.spec_process(slot, record_address)->Ok_0.voter_weight_record.data->0.spec_is_stale(now)
            <==> now > slot,
{
}

/// What the creations make, the other operations accept. The registrar and
/// vault of a creation, with the ledger and record of a creation for that
/// registrar, are the accounts of a deposit and of a withdrawal by the
/// participant in the registrar's asset, and of a publication once the
/// record's seeds derive its address again; the first publication shows the
/// weight zero.
pub proof fn law_created_accounts_are_accepted(
    registrar: CreateRegistrar,
    registrar_bump: u8,
    registrar_found: Option<(Seq<u8>, u8)>,
    voter: CreateVoter,
    voter_bump: u8,
    voter_weight_record_bump: u8,
    voter_found: Option<(Seq<u8>, u8)>,
    record_found: Option<(Seq<u8>, u8)>,
    deposit: Deposit,
    withdraw: Withdraw,
    slot: u64,
)
    requires
        registrar.spec_process(registrar_bump, registrar_found, true) matches Ok(made)
            && voter.registrar == made.registrar && deposit.registrar == made.registrar
            && deposit.exchange_vault == made.exchange_vault && withdraw.registrar == made.registrar
            && withdraw.exchange_vault == made.exchange_vault,
        voter.spec_process(voter_bump, voter_weight_record_bump, voter_found, record_found, true)
            matches Ok(made) && deposit.voter == made.voter && withdraw.voter == made.voter,
        deposit.authority == voter.authority,
        deposit.deposit_mint == registrar.realm_community_mint,
        deposit.deposit_token.data matches Some(tokens) && tokens.mint
            == registrar.realm_community_mint,
        withdraw.authority == voter.authority,
        withdraw.withdraw_mint == registrar.realm_community_mint,
        withdraw.destination.data is Some,
    ensures
        deposit.spec_check() is None,
        withdraw.spec_check() is None,
        ({
            let made = voter.spec_process(
                voter_bump,
                voter_weight_record_bump,
                voter_found,
                record_found,
                true,
            )->Ok_0;
            let update = UpdateVoterWeightRecord {
                registrar: made.registrar,
                voter: made.voter,
                voter_weight_record: made.voter_weight_record,
                authority: made.authority.key,
            };
            let record_address = Some(made.voter_weight_record.key@);
            &&& made.voter.data->0.amount_deposited == 0
            &&& made.voter_weight_record.data->0.voter_weight == 0
            &&& made.voter_weight_record.data->0.voter_weight_expiry is None
            &&& made.voter_weight_record.data->0.spec_is_stale(slot)
            &&& update.spec_found(record_address)
            &&& update.spec_process(slot, record_address) matches Ok(published)
                && published.voter_weight_record.data->0.voter_weight == 0
        }),
{
}

} // verus!
