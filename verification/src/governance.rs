//! What the governance engine says: whether a realm governs with a given
//! asset, and whether a participant may take governing tokens back.

use crate::account::AccountInfo;
use crate::address::{spec_find_program_address, try_find_program_address, Address};
use anchor_lang::prelude::Pubkey;
use vstd::prelude::*;

verus! {

/// The first seed of the addresses of the governance engine's records: the
/// bytes of `governance`.
pub const PROGRAM_AUTHORITY_SEED: [u8; 10] = [103, 111, 118, 101, 114, 110, 97, 110, 99, 101];

/// What the governance engine keeps about a participant's open business, as
/// far as a withdrawal depends on it.
#[derive(Clone, Copy, Debug, PartialEq, Eq, Structural)]
pub struct TokenOwnerRecord {
    /// Votes that the participant has cast and not relinquished.
    pub unrelinquished_votes_count: u32,
    /// Proposals of the participant that are not finished.
    pub outstanding_proposal_count: u8,
}

impl TokenOwnerRecord {
    /// Whether the participant may take governing tokens back: with no vote
    /// left to relinquish and no proposal left open.
    pub open spec fn spec_can_withdraw_governing_tokens(self) -> bool {
        self.unrelinquished_votes_count == 0 && self.outstanding_proposal_count == 0
    }

    /// Whether the participant may take governing tokens back.
    pub fn can_withdraw_governing_tokens(&self) -> (r: bool)
        ensures
            r == self.spec_can_withdraw_governing_tokens(),
    {
        self.unrelinquished_votes_count == 0 && self.outstanding_proposal_count == 0
    }
}

/// The seeds of the address at which the governance engine keeps its record
/// of `owner` for `realm` and `mint`.
pub open spec fn spec_token_owner_record_seeds(realm: Address, mint: Address, owner: Address) -> Seq<
    Seq<u8>,
> {
    seq![PROGRAM_AUTHORITY_SEED@, realm@, mint@, owner@]
}

/// The two counts of the record that `get_token_owner_record_data_for_seeds`
/// of spl-governance reads from an account, for the engine at `program_id`
/// and the seeds given: unrelinquished votes, then outstanding proposals.
/// `None` where it reads no record.
pub uninterp spec fn spec_token_owner_record_data(
    program_id: Seq<u8>,
    key: Seq<u8>,
    owner: Seq<u8>,
    lamports: u64,
    data: Seq<u8>,
    seeds: Seq<Seq<u8>>,
) -> Option<(u32, u8)>;

/// Whether `get_realm_data_for_governing_token_mint` of spl-governance, for
/// the engine at `program_id`, reads a realm from the account and accepts
/// `mint` as a governing asset of it.
pub uninterp spec fn spec_realm_governs_with(
    program_id: Seq<u8>,
    key: Seq<u8>,
    owner: Seq<u8>,
    lamports: u64,
    data: Seq<u8>,
    mint: Seq<u8>,
) -> bool;

/// The record that the engine at `engine` keeps of `owner`, as read from
/// `info`: `None` where the seeds derive no address, and where no record
/// can be read from `info` at that address.
pub open spec fn spec_governing_token_owner_record(
    engine: Address,
    info: AccountInfo,
    realm: Address,
    mint: Address,
    owner: Address,
) -> Option<TokenOwnerRecord> {
    let seeds = spec_token_owner_record_seeds(realm, mint, owner);
    if spec_find_program_address(seeds, engine@) is None {
        None
    } else {
        match spec_token_owner_record_data(
            engine@,
            info.key@,
            info.owner@,
            info.lamports,
            info.data@,
            seeds,
        ) {
            Some((votes, proposals)) => Some(
                TokenOwnerRecord {
                    unrelinquished_votes_count: votes,
                    outstanding_proposal_count: proposals,
                },
            ),
            None => None,
        }
    }
}

/// Calls `get_token_owner_record_address_seeds` of spl-governance. The
/// contract states its result in full: the seed `governance`, then the three
/// addresses.
#[verifier::external_body]
pub(crate) fn token_owner_record_address_seeds(realm: &Address, mint: &Address, owner: &Address) -> (seeds:
    Vec<Vec<u8>>)
    ensures
        seeds.deep_view() == spec_token_owner_record_seeds(*realm, *mint, *owner),
{
    let realm = Pubkey::new_from_array(realm.bytes);
    let mint = Pubkey::new_from_array(mint.bytes);
    let owner = Pubkey::new_from_array(owner.bytes);
    spl_governance::state::token_owner_record::get_token_owner_record_address_seeds(
        &realm,
        &mint,
        &owner,
    ).iter().map(|seed| seed.to_vec()).collect()
}

/// Calls `get_token_owner_record_data_for_seeds` of spl-governance on an
/// account made of the plain values in `info`, and hands out the two counts
/// of the record read. The contract names the result. The function searches
/// the bump seed itself and panics where there is none, so the contract asks
/// that one exists.
#[verifier::external_body]
pub(crate) fn token_owner_record_data_for_seeds(
    program_id: &Address,
    info: &AccountInfo,
    seeds: &Vec<Vec<u8>>,
) -> (r: Option<(u32, u8)>)
    requires
        spec_find_program_address(seeds.deep_view(), program_id@) is Some,
    ensures
        r == spec_token_owner_record_data(
            program_id@,
            info.key@,
            info.owner@,
            info.lamports,
            info.data@,
            seeds.deep_view(),
        ),
{
    let key = Pubkey::new_from_array(info.key.bytes);
    let owner = Pubkey::new_from_array(info.owner.bytes);
    let (mut lamports, mut data) = (info.lamports, info.data.clone());
    let account = anchor_lang::prelude::AccountInfo::new(&key, false, false, &mut lamports, &mut data, &owner, false, 0);
    let seeds: Vec<&[u8]> = seeds.iter().map(|s| s.as_slice()).collect();
    spl_governance::state::token_owner_record::get_token_owner_record_data_for_seeds(
        &Pubkey::new_from_array(program_id.bytes),
        &account,
        &seeds,
    ).ok().map(|record| (record.unrelinquished_votes_count, record.outstanding_proposal_count))
}

/// Calls `get_realm_data_for_governing_token_mint` of spl-governance on an
/// account made of the plain values in `realm`, and says whether it
/// succeeded. The contract names the result.
#[verifier::external_body]
pub(crate) fn realm_data_for_governing_token_mint(
    program_id: &Address,
    realm: &AccountInfo,
    mint: &Address,
) -> (r: bool)
    ensures
        r == spec_realm_governs_with(
            program_id@,
            realm.key@,
            realm.owner@,
            realm.lamports,
            realm.data@,
            mint@,
        ),
{
    let key = Pubkey::new_from_array(realm.key.bytes);
    let owner = Pubkey::new_from_array(realm.owner.bytes);
    let (mut lamports, mut data) = (realm.lamports, realm.data.clone());
    let account = anchor_lang::prelude::AccountInfo::new(&key, false, false, &mut lamports, &mut data, &owner, false, 0);
    spl_governance::state::realm::get_realm_data_for_governing_token_mint(
        &Pubkey::new_from_array(program_id.bytes),
        &account,
        &Pubkey::new_from_array(mint.bytes),
    ).is_ok()
}

/// Whether the realm in `realm`, as the engine at `engine` reads it, governs
/// with the asset `mint`.
pub open spec fn spec_realm_accepts_mint(engine: Address, realm: AccountInfo, mint: Address) -> bool {
    spec_realm_governs_with(engine@, realm.key@, realm.owner@, realm.lamports, realm.data@, mint@)
}

/// Asks the governance engine at `engine` whether the realm in `realm` is
/// one of its realms and governs with the asset `mint`.
pub fn realm_accepts_mint(engine: &Address, realm: &AccountInfo, mint: &Address) -> (r: bool)
    ensures
        r == spec_realm_accepts_mint(*engine, *realm, *mint),
{
    realm_data_for_governing_token_mint(engine, realm, mint)
}

/// Reads the record that the governance engine at `engine` keeps of `owner`
/// for `realm` and `mint`. The record must be at the address that the engine
/// derives for the three, and `info` must hold it as the engine wrote it.
pub fn governing_token_owner_record(
    engine: &Address,
    info: &AccountInfo,
    realm: &Address,
    mint: &Address,
    owner: &Address,
) -> (r: Option<TokenOwnerRecord>)
    ensures
        r == spec_governing_token_owner_record(*engine, *info, *realm, *mint, *owner),
{
    let seeds = token_owner_record_address_seeds(realm, mint, owner);
    match try_find_program_address(&seeds, engine) {
        None => None,
        Some(_) => match token_owner_record_data_for_seeds(engine, info, &seeds) {
            Some((votes, proposals)) => Some(
                TokenOwnerRecord {
                    unrelinquished_votes_count: votes,
                    outstanding_proposal_count: proposals,
                },
            ),
            None => None,
        },
    }
}

} // verus!
