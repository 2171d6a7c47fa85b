//! The records that the program keeps: registrar, voter ledger and the
//! record of voting weight that the governance engine reads.

use crate::address::Address;
use crate::error::ErrorCode;
use vstd::prelude::*;

verus! {

/// Instance of a voting rights distributor: one per governance realm.
#[derive(Clone, Copy, Debug, PartialEq, Eq)]
pub struct Registrar {
    /// Who may administer the registrar. Stored; no operation asks for it.
    pub authority: Address,
    /// The governance realm that the registrar serves.
    pub realm: Address,
    /// The governing asset of the realm, which the vault holds.
    pub realm_community_mint: Address,
    /// The governance engine that is asked whether a withdrawal is allowed.
    pub governance_program_id: Address,
    /// The bump seed of the registrar's address, which is also the address
    /// of the authority over the vault.
    pub bump: u8,
}

/// The ledger of one participant with one registrar.
#[derive(Clone, Copy, Debug, PartialEq, Eq)]
pub struct Voter {
    /// The participant, who signs deposits, withdrawals and the closing.
    pub authority: Address,
    /// The registrar that the ledger belongs to.
    pub registrar: Address,
    /// The bump seed of the ledger's address.
    pub voter_bump: u8,
    /// The bump seed of the address of the ledger's weight record.
    pub voter_weight_record_bump: u8,
    /// Units of the governing asset in custody for the participant.
    pub amount_deposited: u64,
    /// The slot of the latest deposit.
    pub last_deposit_slot: u64,
}

impl Voter {
    /// The voting weight of the ledger: its balance, unchanged.
    pub open spec fn spec_weight(self) -> u64 {
        self.amount_deposited
    }

    /// The ledger after a deposit of `amount` in `slot`.
    pub open spec fn spec_record_deposit(self, amount: u64, slot: u64) -> Result<Voter, ErrorCode> {
        if self.amount_deposited + amount > u64::MAX {
            Err(ErrorCode::ArithmeticOverflow)
        } else {
            Ok(
                Voter {
                    amount_deposited: (self.amount_deposited + amount) as u64,
                    last_deposit_slot: slot,
                    ..self
                },
            )
        }
    }

    /// The ledger after a withdrawal of `amount` in `slot`. The slot is
    /// looked at first, the balance second.
    pub open spec fn spec_record_withdrawal(self, amount: u64, slot: u64) -> Result<
        Voter,
        ErrorCode,
    > {
        if self.last_deposit_slot >= slot {
            Err(ErrorCode::SameStepDepositWithdraw)
        } else if amount > self.amount_deposited {
            Err(ErrorCode::InsufficientBalance)
        } else {
            Ok(Voter { amount_deposited: (self.amount_deposited - amount) as u64, ..self })
        }
    }

    /// The voting weight of the ledger: its balance, unchanged.
    pub fn weight(&self) -> (r: Result<u64, ErrorCode>)
        ensures
            r == Ok::<u64, ErrorCode>(self.spec_weight()),
    {
        Ok(self.amount_deposited)
    }

    /// Adds `amount` to the balance and marks `slot` as the slot of the
    /// latest deposit, or refuses where the balance would not fit.
    pub fn record_deposit(&mut self, amount: u64, slot: u64) -> (r: Result<(), ErrorCode>)
        ensures
            match r {
                Ok(()) => old(self).spec_record_deposit(amount, slot) == Ok::<Voter, ErrorCode>(
                    *final(self),
                ),
                Err(e) => old(self).spec_record_deposit(amount, slot) == Err::<Voter, ErrorCode>(e)
                    && *final(self) == *old(self),
            },
    {
        match self.amount_deposited.checked_add(amount) {
            Some(total) => {
                self.amount_deposited = total;
                self.last_deposit_slot = slot;
                Ok(())
            },
            None => Err(ErrorCode::ArithmeticOverflow),
        }
    }

    /// Takes `amount` off the balance, or refuses: in the slot of the latest
    /// deposit, and where the balance is smaller than `amount`.
    pub fn record_withdrawal(&mut self, amount: u64, slot: u64) -> (r: Result<(), ErrorCode>)
        ensures
            match r {
                Ok(()) => old(self).spec_record_withdrawal(amount, slot) == Ok::<Voter, ErrorCode>(
                    *final(self),
                ),
                Err(e) => old(self).spec_record_withdrawal(amount, slot) == Err::<Voter, ErrorCode>(
                    e,
                ) && *final(self) == *old(self),
            },
    {
        if !(self.last_deposit_slot < slot) {
            return Err(ErrorCode::SameStepDepositWithdraw);
        }
        if !(amount <= self.amount_deposited) {
            return Err(ErrorCode::InsufficientBalance);
        }
        self.amount_deposited = self.amount_deposited - amount;
        Ok(())
    }
}

/// What kind of account a weight record is, as the governance engine tags it.
#[derive(Clone, Copy, Debug, PartialEq, Eq, Structural)]
pub enum VoterWeightAccountType {
    /// Not a weight record yet.
    Uninitialized,
    /// A weight record.
    VoterWeightRecord,
}

/// The record of a participant's voting weight. This program writes it; the
/// governance engine reads it when it counts a vote.
#[derive(Clone, Copy, Debug, PartialEq, Eq)]
pub struct VoterWeightRecord {
    pub account_type: VoterWeightAccountType,
    /// The realm of the registrar that the ledger belongs to.
    pub realm: Address,
    /// The governing asset of that realm.
    pub governing_token_mint: Address,
    /// The participant.
    pub governing_token_owner: Address,
    /// The weight as last published.
    pub voter_weight: u64,
    /// The slot in which the weight was last published; `None` before the
    /// first publication. The weight is stale once the slot has passed.
    pub voter_weight_expiry: Option<u64>,
}

impl VoterWeightRecord {
    /// Whether the weight is stale in `slot`: it was never published, or
    /// the clock has passed the slot of its publication.
    pub open spec fn spec_is_stale(self, slot: u64) -> bool {
        match self.voter_weight_expiry {
            Some(expiry) => slot > expiry,
            None => true,
        }
    }

    /// Whether the weight is stale in `slot`.
    pub fn is_stale(&self, slot: u64) -> (r: bool)
        ensures
            r == self.spec_is_stale(slot),
    {
        match self.voter_weight_expiry {
            Some(expiry) => slot > expiry,
            None => true,
        }
    }
}

/// A token account, as far as this program looks at it.
#[derive(Clone, Copy, Debug, PartialEq, Eq)]
pub struct TokenAccount {
    /// The asset type that the account holds.
    pub mint: Address,
    /// Who may move tokens out of the account.
    pub owner: Address,
    /// Units held when the account was read.
    pub amount: u64,
}

/// The place of a record of type `T`: an address, the lamports that back
/// it, and the record, if there is one.
#[derive(Clone, Copy, Debug, PartialEq, Eq)]
pub struct Account<T> {
    pub key: Address,
    /// The deposit that backs the account's storage.
    pub lamports: u64,
    /// `None` where no record has been created at `key`, or none is left.
    pub data: Option<T>,
}

/// A party to an operation and whether it signed.
#[derive(Clone, Copy, Debug, PartialEq, Eq)]
pub struct Signer {
    pub key: Address,
    pub is_signer: bool,
}

/// An account of another program, as bytes.
#[derive(Clone, Debug, PartialEq, Eq)]
pub struct AccountInfo {
    pub key: Address,
    /// The program that owns the account.
    pub owner: Address,
    pub lamports: u64,
    pub data: Vec<u8>,
}

} // verus!
