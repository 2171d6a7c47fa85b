//! The accounts of each operation, the checks that they belong together,
//! and what the operation does to them.
//!
//! Each `process` takes as arguments whatever had to be derived or read
//! elsewhere (an address, the governance engine's answer), so that it decides
//! on plain values alone. An operation that is refused leaves its accounts as
//! they were.

use crate::account::{
    Account, AccountInfo, Registrar, Signer, TokenAccount, Voter, VoterWeightAccountType,
    VoterWeightRecord,
};
use crate::address::{address_view, found_view, registrar_seeds, registrar_signer_seeds, Address};
use crate::error::ErrorCode;
use crate::governance::TokenOwnerRecord;
use crate::token::{CpiContext, CpiContextView, Refund, TokenTransfer, TokenTransferView, Transfer};
use vstd::prelude::*;

verus! {

/// Whether `derived` is the address `key`.
pub fn is_at(derived: Option<Address>, key: &Address) -> (r: bool)
    ensures
        r == (address_view(derived) == Some(key@)),
{
    match derived {
        Some(a) => {
            proof {
                if a@ == key@ {
                    Address::lemma_view_injective(a, *key);
                }
            }
            a == *key
        },
        None => false,
    }
}

/// Whether `found` is the address `key` with the bump seed `bump`.
pub fn is_found_at(found: Option<(Address, u8)>, key: &Address, bump: u8) -> (r: bool)
    ensures
        r == (found_view(found) == Some((key@, bump))),
{
    match found {
        Some((a, b)) => {
            proof {
                if a@ == key@ {
                    Address::lemma_view_injective(a, *key);
                }
            }
            a == *key && b == bump
        },
        None => false,
    }
}

/// The accounts of the creation of a registrar and its vault.
#[derive(Clone, Debug, PartialEq, Eq)]
pub struct CreateRegistrar {
    pub registrar: Account<Registrar>,
    /// The governance engine that the realm belongs to.
    pub governance_program_id: Address,
    /// The realm, as the governance engine keeps it.
    pub realm: AccountInfo,
    /// The asset type that the registrar is to govern with.
    pub realm_community_mint: Address,
    pub authority: Address,
    pub exchange_vault: Account<TokenAccount>,
    /// The asset type that the vault is to hold.
    pub deposit_mint: Address,
}

impl CreateRegistrar {
    /// The registrar that a creation makes.
    pub open spec fn spec_new_registrar(self, registrar_bump: u8) -> Registrar {
        Registrar {
            authority: self.authority,
            realm: self.realm.key,
            realm_community_mint: self.realm_community_mint,
            governance_program_id: self.governance_program_id,
            bump: registrar_bump,
        }
    }

    /// The vault that a creation makes: empty, of the governing asset, in
    /// the hands of the registrar's address.
    pub open spec fn spec_new_vault(self) -> TokenAccount {
        TokenAccount { mint: self.deposit_mint, owner: self.registrar.key, amount: 0 }
    }

    /// The accounts after the creation, or why it is refused.
    /// `registrar_found` is the one address, with its bump seed, at which
    /// the registrar of the realm can be created; `realm_governs` says
    /// whether the governance engine knows the realm and the realm governs
    /// with the asset given.
    ///
    /// The checks come in this order: the registrar must be at the address
    /// found, and the bump seed given the one found; neither registrar nor
    /// vault may exist; the asset must be the realm's, and the vault's asset
    /// the same.
    pub open spec fn spec_process(
        self,
        registrar_bump: u8,
        registrar_found: Option<(Seq<u8>, u8)>,
        realm_governs: bool,
    ) -> Result<CreateRegistrar, ErrorCode> {
        if registrar_found != Some((self.registrar.key@, registrar_bump)) {
            Err(ErrorCode::InvalidAddress)
        } else if self.registrar.data is Some || self.exchange_vault.data is Some {
            Err(ErrorCode::AlreadyExists)
        } else if !realm_governs || self.deposit_mint != self.realm_community_mint {
            Err(ErrorCode::InvalidMint)
        } else {
            Ok(
                CreateRegistrar {
                    registrar: Account {
                        data: Some(self.spec_new_registrar(registrar_bump)),
                        ..self.registrar
                    },
                    exchange_vault: Account {
                        data: Some(self.spec_new_vault()),
                        ..self.exchange_vault
                    },
                    ..self
                },
            )
        }
    }

    /// Creates the registrar of the realm and its vault. `registrar_found`
    /// is what [`crate::address::find_registrar_address`] finds,
    /// `realm_governs` what [`crate::governance::realm_accepts_mint`] answers.
    pub fn process(
        &mut self,
        registrar_bump: u8,
        registrar_found: Option<(Address, u8)>,
        realm_governs: bool,
    ) -> (r: Result<(), ErrorCode>)
        ensures
            match r {
                Ok(()) => old(self).spec_process(
                    registrar_bump,
                    found_view(registrar_found),
                    realm_governs,
                ) == Ok::<CreateRegistrar, ErrorCode>(*final(self)),
                Err(e) => {
                    &&& old(self).spec_process(
                        registrar_bump,
                        found_view(registrar_found),
                        realm_governs,
                    ) == Err::<CreateRegistrar, ErrorCode>(e)
                    &&& *final(self) == *old(self)
                },
            },
    {
        if !is_found_at(registrar_found, &self.registrar.key, registrar_bump) {
            return Err(ErrorCode::InvalidAddress);
        }
        if self.registrar.data.is_some() || self.exchange_vault.data.is_some() {
            return Err(ErrorCode::AlreadyExists);
        }
        if !realm_governs || self.deposit_mint != self.realm_community_mint {
            return Err(ErrorCode::InvalidMint);
        }
        self.registrar.data = Some(
            Registrar {
                authority: self.authority,
                realm: self.realm.key,
                realm_community_mint: self.realm_community_mint,
                governance_program_id: self.governance_program_id,
                bump: registrar_bump,
            },
        );
        self.exchange_vault.data = Some(
            TokenAccount { mint: self.deposit_mint, owner: self.registrar.key, amount: 0 },
        );
        Ok(())
    }
}

/// The accounts of the creation of a ledger and its weight record.
#[derive(Clone, Debug, PartialEq, Eq)]
pub struct CreateVoter {
    pub voter: Account<Voter>,
    pub voter_weight_record: Account<VoterWeightRecord>,
    pub registrar: Account<Registrar>,
    pub authority: Signer,
    /// The account in which the runtime lays out the transaction.
    pub instructions: AccountInfo,
}

impl CreateVoter {
    /// The ledger that a creation makes: empty, never deposited into.
    pub open spec fn spec_new_voter(self, voter_bump: u8, voter_weight_record_bump: u8) -> Voter {
        Voter {
            authority: self.authority.key,
            registrar: self.registrar.key,
            voter_bump,
            voter_weight_record_bump,
            amount_deposited: 0,
            last_deposit_slot: 0,
        }
    }

    /// The weight record that a creation makes: realm and asset of the
    /// registrar, weight zero, never published.
    pub open spec fn spec_new_record(self) -> VoterWeightRecord {
        VoterWeightRecord {
            account_type: VoterWeightAccountType::VoterWeightRecord,
            realm: self.registrar.data->0.realm,
            governing_token_mint: self.registrar.data->0.realm_community_mint,
            governing_token_owner: self.authority.key,
            voter_weight: 0,
            voter_weight_expiry: None,
        }
    }

    /// The accounts after the creation, or why it is refused.
    /// `voter_found` and `record_found` are the one address each, with its
    /// bump seed, at which the ledger and the record of the participant with
    /// the registrar can be created; `direct_call` says whether the
    /// transaction itself called this program.
    ///
    /// The checks come in this order: the registrar must exist; the
    /// participant must have signed; both accounts must be at the addresses
    /// found, and the bump seeds given those found; neither may hold a record
    /// yet; the call must be direct.
    pub open spec fn spec_process(
        self,
        voter_bump: u8,
        voter_weight_record_bump: u8,
        voter_found: Option<(Seq<u8>, u8)>,
        record_found: Option<(Seq<u8>, u8)>,
        direct_call: bool,
    ) -> Result<CreateVoter, ErrorCode> {
        if self.registrar.data is None {
            Err(ErrorCode::NotFound)
        } else if !self.authority.is_signer {
            Err(ErrorCode::MissingSignature)
        } else if voter_found != Some((self.voter.key@, voter_bump)) || record_found != Some(
            (self.voter_weight_record.key@, voter_weight_record_bump),
        ) {
            Err(ErrorCode::InvalidAddress)
        } else if self.voter.data is Some || self.voter_weight_record.data is Some {
            Err(ErrorCode::AlreadyExists)
        } else if !direct_call {
            Err(ErrorCode::ForbiddenIndirectCall)
        } else {
            Ok(
                CreateVoter {
                    voter: Account {
                        data: Some(self.spec_new_voter(voter_bump, voter_weight_record_bump)),
                        ..self.voter
                    },
                    voter_weight_record: Account {
                        data: Some(self.spec_new_record()),
                        ..self.voter_weight_record
                    },
                    ..self
                },
            )
        }
    }

    /// Creates the ledger of `authority` with `registrar` and its weight
    /// record. `voter_found` is what [`crate::address::find_voter_address`]
    /// finds, `record_found` what
    /// [`crate::address::find_voter_weight_record_address`] finds, and
    /// `direct_call` what [`crate::instructions::is_direct_top_level_call`]
    /// finds.
    pub fn process(
        &mut self,
        voter_bump: u8,
        voter_weight_record_bump: u8,
        voter_found: Option<(Address, u8)>,
        record_found: Option<(Address, u8)>,
        direct_call: bool,
    ) -> (r: Result<(), ErrorCode>)
        ensures
            match r {
                Ok(()) => old(self).spec_process(
                    voter_bump,
                    voter_weight_record_bump,
                    found_view(voter_found),
                    found_view(record_found),
                    direct_call,
                ) == Ok::<CreateVoter, ErrorCode>(*final(self)),
                Err(e) => {
                    &&& old(self).spec_process(
                        voter_bump,
                        voter_weight_record_bump,
                        found_view(voter_found),
                        found_view(record_found),
                        direct_call,
                    ) == Err::<CreateVoter, ErrorCode>(e)
                    &&& *final(self) == *old(self)
                },
            },
    {
        let registrar = match self.registrar.data {
            Some(registrar) => registrar,
            None => {
                return Err(ErrorCode::NotFound);
            },
        };
        if !self.authority.is_signer {
            return Err(ErrorCode::MissingSignature);
        }
        if !is_found_at(voter_found, &self.voter.key, voter_bump) || !is_found_at(
            record_found,
            &self.voter_weight_record.key,
            voter_weight_record_bump,
        ) {
            return Err(ErrorCode::InvalidAddress);
        }
        if self.voter.data.is_some() || self.voter_weight_record.data.is_some() {
            return Err(ErrorCode::AlreadyExists);
        }
        // No ledger is created through another program: automation would
        // weaken the limits that are set on locked tokens on purpose.
        if !direct_call {
            return Err(ErrorCode::ForbiddenIndirectCall);
        }
        self.voter.data = Some(
            Voter {
                authority: self.authority.key,
                registrar: self.registrar.key,
                voter_bump,
                voter_weight_record_bump,
                amount_deposited: 0,
                last_deposit_slot: 0,
            },
        );
        self.voter_weight_record.data = Some(
            VoterWeightRecord {
                account_type: VoterWeightAccountType::VoterWeightRecord,
                realm: registrar.realm,
                governing_token_mint: registrar.realm_community_mint,
                governing_token_owner: self.authority.key,
                voter_weight: 0,
                voter_weight_expiry: None,
            },
        );
        Ok(())
    }
}

/// The accounts of a deposit.
#[derive(Clone, Copy, Debug, PartialEq, Eq)]
pub struct Deposit {
    pub registrar: Account<Registrar>,
    pub voter: Account<Voter>,
    pub exchange_vault: Account<TokenAccount>,
    pub deposit_mint: Address,
    /// The token account that gives.
    pub deposit_token: Account<TokenAccount>,
    pub authority: Signer,
    pub token_program: Address,
}

impl Deposit {
    /// The first reason, if any, why the accounts are not those of a
    /// deposit by `authority` into its ledger with `registrar`.
    pub open spec fn spec_check(self) -> Option<ErrorCode> {
        if self.registrar.data is None || self.voter.data is None || self.exchange_vault.data is None
            || self.deposit_token.data is None {
            Some(ErrorCode::NotFound)
        } else if !self.authority.is_signer {
            Some(ErrorCode::MissingSignature)
        } else if self.voter.data->0.authority != self.authority.key {
            Some(ErrorCode::InvalidAuthority)
        } else if self.voter.data->0.registrar != self.registrar.key {
            Some(ErrorCode::InvalidRegistrar)
        } else if self.exchange_vault.data->0.owner != self.registrar.key
            || self.exchange_vault.data->0.mint != self.deposit_mint {
            Some(ErrorCode::InvalidVault)
        } else if self.deposit_mint != self.registrar.data->0.realm_community_mint
            || self.deposit_token.data->0.mint != self.deposit_mint {
            Some(ErrorCode::InvalidMint)
        } else {
            None
        }
    }

    /// The accounts after a deposit of `amount` in `slot`, or why it is
    /// refused: for the accounts, or because the balance would not fit.
    pub open spec fn spec_process(self, amount: u64, slot: u64) -> Result<Deposit, ErrorCode> {
        if let Some(e) = self.spec_check() {
            Err(e)
        } else {
            match self.voter.data->0.spec_record_deposit(amount, slot) {
                Ok(voter) => Ok(Deposit { voter: Account { data: Some(voter), ..self.voter }, ..self }),
                Err(e) => Err(e),
            }
        }
    }

    /// The transfer into the vault, signed by the participant.
    pub open spec fn spec_transfer_ctx(self) -> CpiContextView<Transfer> {
        CpiContextView {
            program: self.token_program,
            accounts: Transfer {
                from: self.deposit_token.key,
                to: self.exchange_vault.key,
                authority: self.authority.key,
            },
            signer_seeds: Seq::<Seq<u8>>::empty(),
        }
    }

    /// The transfer that a deposit of `amount` asks for.
    pub open spec fn spec_transfer(self, amount: u64) -> TokenTransferView {
        TokenTransferView { ctx: self.spec_transfer_ctx(), amount }
    }

    /// The transfer into the vault, signed by the participant.
    pub fn transfer_ctx(&self) -> (ctx: CpiContext<Transfer>)
        ensures
            ctx@ == self.spec_transfer_ctx(),
    {
        let program = self.token_program;
        let accounts = Transfer {
            from: self.deposit_token.key,
            to: self.exchange_vault.key,
            authority: self.authority.key,
        };
        CpiContext::new(program, accounts)
    }

    /// The first reason, if any, why the accounts are not those of a
    /// deposit.
    pub fn check(&self) -> (r: Option<ErrorCode>)
        ensures
            r == self.spec_check(),
    {
        match (&self.registrar.data, &self.voter.data, &self.exchange_vault.data, &self.deposit_token.data) {
            (Some(registrar), Some(voter), Some(vault), Some(source)) => {
                if !self.authority.is_signer {
                    Some(ErrorCode::MissingSignature)
                } else if voter.authority != self.authority.key {
                    Some(ErrorCode::InvalidAuthority)
                } else if voter.registrar != self.registrar.key {
                    Some(ErrorCode::InvalidRegistrar)
                } else if vault.owner != self.registrar.key || vault.mint != self.deposit_mint {
                    Some(ErrorCode::InvalidVault)
                } else if self.deposit_mint != registrar.realm_community_mint || source.mint
                    != self.deposit_mint {
                    Some(ErrorCode::InvalidMint)
                } else {
                    None
                }
            },
            _ => Some(ErrorCode::NotFound),
        }
    }

    /// Deposits `amount` in `slot`: adds it to the ledger, marks the slot,
    /// and hands back the transfer to make.
    pub fn process(&mut self, amount: u64, slot: u64) -> (r: Result<TokenTransfer, ErrorCode>)
        ensures
            match r {
                Ok(transfer) => {
                    &&& old(self).spec_process(amount, slot) == Ok::<Deposit, ErrorCode>(*final(self))
                    &&& transfer@ == old(self).spec_transfer(amount)
                },
                Err(e) => {
                    &&& old(self).spec_process(amount, slot) == Err::<Deposit, ErrorCode>(e)
                    &&& *final(self) == *old(self)
                },
            },
    {
        if let Some(e) = self.check() {
            return Err(e);
        }
        let mut voter = self.voter.data.unwrap();
        match voter.record_deposit(amount, slot) {
            Ok(()) => {},
            Err(e) => {
                return Err(e);
            },
        }
        let ctx = self.transfer_ctx();
        self.voter.data = Some(voter);
        Ok(TokenTransfer { ctx, amount })
    }
}

/// The accounts of a withdrawal.
#[derive(Clone, Debug, PartialEq, Eq)]
pub struct Withdraw {
    pub registrar: Account<Registrar>,
    pub voter: Account<Voter>,
    /// The governance engine's record of the participant.
    pub token_owner_record: AccountInfo,
    pub exchange_vault: Account<TokenAccount>,
    pub withdraw_mint: Address,
    /// The token account that receives.
    pub destination: Account<TokenAccount>,
    pub authority: Signer,
    pub token_program: Address,
}

impl Withdraw {
    /// The first reason, if any, why the accounts are not those of a
    /// withdrawal by `authority` from its ledger with `registrar`.
    pub open spec fn spec_check(self) -> Option<ErrorCode> {
        if self.registrar.data is None || self.voter.data is None || self.exchange_vault.data is None
            || self.destination.data is None {
            Some(ErrorCode::NotFound)
        } else if !self.authority.is_signer {
            Some(ErrorCode::MissingSignature)
        } else if self.voter.data->0.authority != self.authority.key {
            Some(ErrorCode::InvalidAuthority)
        } else if self.voter.data->0.registrar != self.registrar.key {
            Some(ErrorCode::InvalidRegistrar)
        } else if self.exchange_vault.data->0.owner != self.registrar.key
            || self.exchange_vault.data->0.mint != self.withdraw_mint {
            Some(ErrorCode::InvalidVault)
        } else if self.withdraw_mint != self.registrar.data->0.realm_community_mint {
            Some(ErrorCode::InvalidMint)
        } else {
            None
        }
    }

    /// The accounts after a withdrawal of `amount` in `slot`, or why it is
    /// refused. `custody_authority` is the address that the registrar's realm
    /// and bump seed derive; `record` is the governance engine's record of
    /// the participant, `None` where it has none.
    ///
    /// After the accounts, the checks come in this order: the derived
    /// address must be the registrar's; the governance engine must let the
    /// participant withdraw; the latest deposit must lie in an earlier slot;
    /// the balance must cover `amount`.
    pub open spec fn spec_process(
        self,
        amount: u64,
        slot: u64,
        custody_authority: Option<Seq<u8>>,
        record: Option<TokenOwnerRecord>,
    ) -> Result<Withdraw, ErrorCode> {
        if let Some(e) = self.spec_check() {
            Err(e)
        } else if custody_authority != Some(self.registrar.key@) {
            Err(ErrorCode::InvalidAddress)
        } else if !(record matches Some(r) && r.spec_can_withdraw_governing_tokens()) {
            Err(ErrorCode::WithdrawalRestricted)
        } else {
            match self.voter.data->0.spec_record_withdrawal(amount, slot) {
                Ok(voter) => Ok(Withdraw { voter: Account { data: Some(voter), ..self.voter }, ..self }),
                Err(e) => Err(e),
            }
        }
    }

    /// The transfer out of the vault, before the registrar signs it.
    pub open spec fn spec_transfer_ctx(self) -> CpiContextView<Transfer> {
        CpiContextView {
            program: self.token_program,
            accounts: Transfer {
                from: self.exchange_vault.key,
                to: self.destination.key,
                authority: self.registrar.key,
            },
            signer_seeds: Seq::<Seq<u8>>::empty(),
        }
    }

    /// The transfer that a withdrawal of `amount` asks for: out of the
    /// vault, to the destination, signed by the registrar's address through
    /// the realm and the bump seed.
    pub open spec fn spec_transfer(self, amount: u64) -> TokenTransferView {
        TokenTransferView {
            ctx: CpiContextView {
                signer_seeds: registrar_seeds(
                    self.registrar.data->0.realm,
                    self.registrar.data->0.bump,
                ),
                ..self.spec_transfer_ctx()
            },
            amount,
        }
    }

    /// The transfer out of the vault, before the registrar signs it.
    pub fn transfer_ctx(&self) -> (ctx: CpiContext<Transfer>)
        ensures
            ctx@ == self.spec_transfer_ctx(),
    {
        let program = self.token_program;
        let accounts = Transfer {
            from: self.exchange_vault.key,
            to: self.destination.key,
            authority: self.registrar.key,
        };
        CpiContext::new(program, accounts)
    }

    /// The first reason, if any, why the accounts are not those of a
    /// withdrawal.
    pub fn check(&self) -> (r: Option<ErrorCode>)
        ensures
            r == self.spec_check(),
    {
        match (&self.registrar.data, &self.voter.data, &self.exchange_vault.data, &self.destination.data) {
            (Some(registrar), Some(voter), Some(vault), Some(_)) => {
                if !self.authority.is_signer {
                    Some(ErrorCode::MissingSignature)
                } else if voter.authority != self.authority.key {
                    Some(ErrorCode::InvalidAuthority)
                } else if voter.registrar != self.registrar.key {
                    Some(ErrorCode::InvalidRegistrar)
                } else if vault.owner != self.registrar.key || vault.mint != self.withdraw_mint {
                    Some(ErrorCode::InvalidVault)
                } else if self.withdraw_mint != registrar.realm_community_mint {
                    Some(ErrorCode::InvalidMint)
                } else {
                    None
                }
            },
            _ => Some(ErrorCode::NotFound),
        }
    }

    /// Withdraws `amount` in `slot`: takes it off the ledger and hands back
    /// the transfer to make. `custody_authority` is what
    /// [`crate::address::registrar_address`] derives from the registrar's
    /// realm and bump seed; `record` is what
    /// [`crate::governance::governing_token_owner_record`] reads.
    pub fn process(
        &mut self,
        amount: u64,
        slot: u64,
        custody_authority: Option<Address>,
        record: Option<TokenOwnerRecord>,
    ) -> (r: Result<TokenTransfer, ErrorCode>)
        ensures
            match r {
                Ok(transfer) => {
                    &&& old(self).spec_process(amount, slot, address_view(custody_authority), record)
                        == Ok::<Withdraw, ErrorCode>(*final(self))
                    &&& transfer@ == old(self).spec_transfer(amount)
                },
                Err(e) => {
                    &&& old(self).spec_process(amount, slot, address_view(custody_authority), record)
                        == Err::<Withdraw, ErrorCode>(e)
                    &&& *final(self) == *old(self)
                },
            },
    {
        if let Some(e) = self.check() {
            return Err(e);
        }
        let registrar = self.registrar.data.unwrap();
        let mut voter = self.voter.data.unwrap();
        if !is_at(custody_authority, &self.registrar.key) {
            return Err(ErrorCode::InvalidAddress);
        }
        // The governance engine may forbid withdrawals, for example while the
        // participant is engaged in a vote.
        match record {
            Some(r) => {
                if !r.can_withdraw_governing_tokens() {
                    return Err(ErrorCode::WithdrawalRestricted);
                }
            },
            None => {
                return Err(ErrorCode::WithdrawalRestricted);
            },
        }
        // No withdrawal in the slot of a deposit: else one could deposit, have
        // the weight published, withdraw, and vote.
        match voter.record_withdrawal(amount, slot) {
            Ok(()) => {},
            Err(e) => {
                return Err(e);
            },
        }
        let ctx = self.transfer_ctx().with_signer(registrar_signer_seeds(&registrar.realm, registrar.bump));
        self.voter.data = Some(voter);
        Ok(TokenTransfer { ctx, amount })
    }
}

/// The accounts of the publication of a ledger's weight.
#[derive(Clone, Copy, Debug, PartialEq, Eq)]
pub struct UpdateVoterWeightRecord {
    pub registrar: Account<Registrar>,
    pub voter: Account<Voter>,
    pub voter_weight_record: Account<VoterWeightRecord>,
    /// The participant. Publication needs no signature.
    pub authority: Address,
}

impl UpdateVoterWeightRecord {
    /// Whether the accounts hold the ledger of `authority` with `registrar`
    /// and that ledger's weight record. `record_address` is the address that
    /// the seeds of the record derive with the bump seed kept in the ledger.
    pub open spec fn spec_found(self, record_address: Option<Seq<u8>>) -> bool {
        &&& self.registrar.data is Some
        &&& self.voter.data is Some
        &&& self.voter_weight_record.data is Some
        &&& self.voter.data->0.registrar == self.registrar.key
        &&& self.voter.data->0.authority == self.authority
        &&& record_address == Some(self.voter_weight_record.key@)
        &&& self.voter_weight_record.data->0.realm == self.registrar.data->0.realm
        &&& self.voter_weight_record.data->0.governing_token_owner == self.voter.data->0.authority
    }

    /// The accounts after the weight was published in `slot`: the record
    /// shows the ledger's weight, fresh for `slot`. Refused only where the
    /// ledger and its record are not found among the accounts.
    pub open spec fn spec_process(self, slot: u64, record_address: Option<Seq<u8>>) -> Result<
        UpdateVoterWeightRecord,
        ErrorCode,
    > {
        if !self.spec_found(record_address) {
            Err(ErrorCode::NotFound)
        } else {
            Ok(
                UpdateVoterWeightRecord {
                    voter_weight_record: Account {
                        data: Some(
                            VoterWeightRecord {
                                voter_weight: self.voter.data->0.spec_weight(),
                                voter_weight_expiry: Some(slot),
                                ..self.voter_weight_record.data->0
                            },
                        ),
                        ..self.voter_weight_record
                    },
                    ..self
                },
            )
        }
    }

    /// Publishes the weight of the ledger in its record, fresh for `slot`.
    /// `record_address` is what
    /// [`crate::address::voter_weight_record_address`] derives with the bump
    /// seed kept in the ledger.
    pub fn process(&mut self, slot: u64, record_address: Option<Address>) -> (r: Result<
        (),
        ErrorCode,
    >)
        ensures
            match r {
                Ok(()) => old(self).spec_process(slot, address_view(record_address)) == Ok::<
                    UpdateVoterWeightRecord,
                    ErrorCode,
                >(*final(self)),
                Err(e) => {
                    &&& old(self).spec_process(slot, address_view(record_address)) == Err::<
                        UpdateVoterWeightRecord,
                        ErrorCode,
                    >(e)
                    &&& *final(self) == *old(self)
                },
            },
    {
        match (self.registrar.data, self.voter.data, self.voter_weight_record.data) {
            (Some(registrar), Some(voter), Some(record)) => {
                if voter.registrar != self.registrar.key || voter.authority != self.authority
                    || !is_at(record_address, &self.voter_weight_record.key) || record.realm
                    != registrar.realm || record.governing_token_owner != voter.authority {
                    return Err(ErrorCode::NotFound);
                }
                let weight = match voter.weight() {
                    Ok(weight) => weight,
                    Err(e) => {
                        return Err(e);
                    },
                };
                self.voter_weight_record.data = Some(
                    VoterWeightRecord {
                        account_type: record.account_type,
                        realm: record.realm,
                        governing_token_mint: record.governing_token_mint,
                        governing_token_owner: record.governing_token_owner,
                        voter_weight: weight,
                        voter_weight_expiry: Some(slot),
                    },
                );
                Ok(())
            },
            _ => Err(ErrorCode::NotFound),
        }
    }
}

/// The accounts of the closing of a ledger.
#[derive(Clone, Copy, Debug, PartialEq, Eq)]
pub struct CloseVoter {
    pub voter: Account<Voter>,
    pub authority: Signer,
    /// Who receives the lamports that backed the ledger.
    pub sol_destination: Address,
}

impl CloseVoter {
    /// The accounts after the closing, or why it is refused. The checks
    /// come in this order: the ledger must exist; the participant must have
    /// signed; the ledger must be the participant's; it must be empty.
    pub open spec fn spec_process(self) -> Result<CloseVoter, ErrorCode> {
        if self.voter.data is None {
            Err(ErrorCode::NotFound)
        } else if !self.authority.is_signer {
            Err(ErrorCode::MissingSignature)
        } else if self.voter.data->0.authority != self.authority.key {
            Err(ErrorCode::InvalidAuthority)
        } else if self.voter.data->0.amount_deposited != 0 {
            Err(ErrorCode::NonZeroBalance)
        } else {
            Ok(CloseVoter { voter: Account { key: self.voter.key, lamports: 0, data: None }, ..self })
        }
    }

    /// What the closing releases: the lamports of the ledger's account, to
    /// the destination.
    pub open spec fn spec_refund(self) -> Refund {
        Refund { destination: self.sol_destination, lamports: self.voter.lamports }
    }

    /// Closes the ledger: the record is gone, and the lamports that backed
    /// it are handed back for the destination.
    pub fn process(&mut self) -> (r: Result<Refund, ErrorCode>)
        ensures
            match r {
                Ok(refund) => {
                    &&& old(self).spec_process() == Ok::<CloseVoter, ErrorCode>(*final(self))
                    &&& refund == old(self).spec_refund()
                },
                Err(e) => {
                    &&& old(self).spec_process() == Err::<CloseVoter, ErrorCode>(e)
                    &&& *final(self) == *old(self)
                },
            },
    {
        let voter = match self.voter.data {
            Some(voter) => voter,
            None => {
                return Err(ErrorCode::NotFound);
            },
        };
        if !self.authority.is_signer {
            return Err(ErrorCode::MissingSignature);
        }
        if voter.authority != self.authority.key {
            return Err(ErrorCode::InvalidAuthority);
        }
        if voter.amount_deposited != 0 {
            return Err(ErrorCode::NonZeroBalance);
        }
        let refund = Refund { destination: self.sol_destination, lamports: self.voter.lamports };
        self.voter.data = None;
        self.voter.lamports = 0;
        Ok(refund)
    }
}

} // verus!
