use anchor_lang::prelude::Pubkey;
use anchor_lang::solana_program::sysvar::instructions::{
    construct_instructions_data, store_current_index, BorrowedInstruction,
};
use spl_governance::state::enums::{GovernanceAccountType, MintMaxVoteWeightSource};
use spl_governance::state::realm::{RealmConfig, RealmV2};
use spl_governance::state::token_owner_record::{get_token_owner_record_address, TokenOwnerRecordV2};
use voter_weight_addin_deposits::account::{
    Account, AccountInfo, Registrar, Signer, TokenAccount, Voter,
};
use voter_weight_addin_deposits::address::{
    find_registrar_address, find_voter_address, find_voter_weight_record_address,
    registrar_address, registrar_signer_seeds, voter_address, voter_weight_record_address, Address,
    ADDRESS_BYTES, MAX_SEEDS, MAX_SEED_LEN, VOTER_WEIGHT_RECORD,
};
use voter_weight_addin_deposits::context::{is_at, is_found_at, Deposit, Withdraw};
use voter_weight_addin_deposits::error::ErrorCode;
use voter_weight_addin_deposits::governance::{
    governing_token_owner_record, realm_accepts_mint, TokenOwnerRecord, PROGRAM_AUTHORITY_SEED,
};
use voter_weight_addin_deposits::instructions::{is_direct_top_level_call, INSTRUCTIONS_SYSVAR_ID};
use voter_weight_addin_deposits::token::{CpiContext, Transfer};

fn named(tag: u8) -> Address {
    let mut bytes = [0u8; 32];
    bytes[0] = tag;
    bytes[31] = 0x55;
    Address::new(bytes)
}

fn key(of: &Address) -> Pubkey {
    Pubkey::new_from_array(of.bytes)
}

fn address(of: &Pubkey) -> Address {
    Address::new(of.to_bytes())
}

fn instructions_account(called: &[Address], current: u16) -> AccountInfo {
    let programs: Vec<Pubkey> = called.iter().map(key).collect();
    let payload = [9u8; 40];
    let borrowed: Vec<BorrowedInstruction> = programs
        .iter()
        .map(|p| BorrowedInstruction { program_id: p, accounts: Vec::new(), data: &payload })
        .collect();
    let mut data = construct_instructions_data(&borrowed);
    store_current_index(&mut data, current);
    AccountInfo { key: Address::new(INSTRUCTIONS_SYSVAR_ID), owner: named(4), lamports: 1, data }
}

fn record_account(engine: &Address, votes: u32, proposals: u8, kind: GovernanceAccountType) -> AccountInfo {
    let record = TokenOwnerRecordV2 {
        account_type: kind,
        realm: key(&named(10)),
        governing_token_mint: key(&named(20)),
        governing_token_owner: key(&named(30)),
        governing_token_deposit_amount: 17,
        unrelinquished_votes_count: votes,
        total_votes_count: 40,
        outstanding_proposal_count: proposals,
        reserved: [0; 7],
        governance_delegate: Some(key(&named(31))),
        reserved_v2: [0; 128],
    };
    let mut data = Vec::new();
    record.serialize(&mut data).unwrap();
    let at = get_token_owner_record_address(
        &key(engine),
        &key(&named(10)),
        &key(&named(20)),
        &key(&named(30)),
    );
    AccountInfo { key: address(&at), owner: *engine, lamports: 1, data }
}

fn realm_account(engine: &Address, community: &Address, council: Option<Address>) -> AccountInfo {
    let realm = RealmV2 {
        account_type: GovernanceAccountType::RealmV2,
        community_mint: key(community),
        config: RealmConfig {
            use_community_voter_weight_addin: true,
            use_max_community_voter_weight_addin: false,
            reserved: [0; 6],
            min_community_weight_to_create_governance: 1,
            community_mint_max_vote_weight_source: MintMaxVoteWeightSource::SupplyFraction(1),
            council_mint: council.map(|m| key(&m)),
        },
        reserved: [0; 6],
        voting_proposal_count: 0,
        authority: None,
        name: "testrealm".to_string(),
        reserved_v2: [0; 128],
    };
    let mut data = Vec::new();
    realm.serialize(&mut data).unwrap();
    AccountInfo { key: named(10), owner: *engine, lamports: 1, data }
}

#[test]
fn constants_are_those_of_the_runtime_and_the_engine() {
    assert_eq!(ADDRESS_BYTES, 32);
    assert_eq!(ADDRESS_BYTES, anchor_lang::solana_program::pubkey::PUBKEY_BYTES);
    assert_eq!(MAX_SEED_LEN, anchor_lang::solana_program::pubkey::MAX_SEED_LEN);
    assert_eq!(MAX_SEEDS, anchor_lang::solana_program::pubkey::MAX_SEEDS);
    assert_eq!(
        INSTRUCTIONS_SYSVAR_ID,
        anchor_lang::solana_program::sysvar::instructions::id().to_bytes()
    );
    assert_eq!(&PROGRAM_AUTHORITY_SEED[..], spl_governance::PROGRAM_AUTHORITY_SEED);
    assert_eq!(&PROGRAM_AUTHORITY_SEED[..], b"governance");
    assert_eq!(&VOTER_WEIGHT_RECORD, b"voter-weight-record");
}

#[test]
fn address_keeps_its_bytes() {
    let mut bytes = [0u8; 32];
    for (i, b) in bytes.iter_mut().enumerate() {
        *b = i as u8 * 3;
    }
    let a = Address::new(bytes);
    assert_eq!(a.bytes, bytes);
    assert_eq!(a.to_vec(), bytes.to_vec());
    assert_eq!(a.to_vec().len(), 32);
}

#[test]
fn address_equality_is_by_bytes() {
    let a = named(1);
    let mut other = a.bytes;
    assert!(a == Address::new(other));
    for i in 0..32 {
        other[i] ^= 1;
        assert!(a != Address::new(other), "byte {}", i);
        other[i] ^= 1;
    }
}

#[test]
fn is_at_compares_with_a_derived_address() {
    assert!(is_at(Some(named(1)), &named(1)));
    assert!(!is_at(Some(named(2)), &named(1)));
    assert!(!is_at(None, &named(1)));
}

#[test]
fn is_found_at_compares_address_and_bump() {
    assert!(is_found_at(Some((named(1), 9)), &named(1), 9));
    assert!(!is_found_at(Some((named(1), 9)), &named(1), 8));
    assert!(!is_found_at(Some((named(2), 9)), &named(1), 9));
    assert!(!is_found_at(None, &named(1), 9));
}

#[test]
fn registrar_address_is_the_program_derived_address() {
    let (realm, program) = (named(10), named(1));
    let (expected, bump) = Pubkey::find_program_address(&[&realm.bytes], &key(&program));
    assert_eq!(registrar_address(&realm, bump, &program), Some(address(&expected)));
    assert_eq!(find_registrar_address(&realm, &program), Some((address(&expected), bump)));
    // not the realm handed back, and not the same for another realm or program
    assert_ne!(registrar_address(&realm, bump, &program), Some(realm));
    assert_ne!(
        find_registrar_address(&named(11), &program).map(|f| f.0),
        Some(address(&expected))
    );
    assert_ne!(
        find_registrar_address(&realm, &named(2)).map(|f| f.0),
        Some(address(&expected))
    );
}

#[test]
fn registrar_address_agrees_with_the_sdk_for_every_bump() {
    let (realm, program) = (named(10), named(1));
    let mut derived = 0;
    for bump in 0..=255u8 {
        let expected = Pubkey::create_program_address(&[&realm.bytes, &[bump]], &key(&program))
            .ok()
            .map(|k| address(&k));
        assert_eq!(registrar_address(&realm, bump, &program), expected);
        if expected.is_some() {
            derived += 1;
        }
    }
    // some bump seeds derive an address and some derive none
    assert!(derived > 0 && derived < 256);
}

#[test]
fn derivation_is_repeatable() {
    let (realm, program) = (named(10), named(1));
    let first = find_registrar_address(&realm, &program).unwrap();
    assert_eq!(find_registrar_address(&realm, &program), Some(first));
    assert_eq!(registrar_address(&realm, first.1, &program), Some(first.0));
    assert_eq!(registrar_address(&realm, first.1, &program), Some(first.0));
}

#[test]
fn registrar_signer_seeds_are_realm_and_bump() {
    let seeds = registrar_signer_seeds(&named(10), 254);
    assert_eq!(seeds, vec![named(10).bytes.to_vec(), vec![254u8]]);
}

#[test]
fn voter_address_is_the_program_derived_address() {
    let (registrar, authority, program) = (named(12), named(30), named(1));
    let (expected, bump) =
        Pubkey::find_program_address(&[&registrar.bytes, &authority.bytes], &key(&program));
    assert_eq!(voter_address(&registrar, &authority, bump, &program), Some(address(&expected)));
    assert_eq!(
        find_voter_address(&registrar, &authority, &program),
        Some((address(&expected), bump))
    );
    // the order of the seeds matters
    assert_ne!(
        find_voter_address(&authority, &registrar, &program).map(|f| f.0),
        Some(address(&expected))
    );
}

#[test]
fn voter_weight_record_address_is_the_program_derived_address() {
    let (registrar, authority, program) = (named(12), named(30), named(1));
    let (expected, bump) = Pubkey::find_program_address(
        &[b"voter-weight-record".as_ref(), &registrar.bytes, &authority.bytes],
        &key(&program),
    );
    assert_eq!(
        voter_weight_record_address(&registrar, &authority, bump, &program),
        Some(address(&expected))
    );
    assert_eq!(
        find_voter_weight_record_address(&registrar, &authority, &program),
        Some((address(&expected), bump))
    );
    // a ledger and its record live at different addresses
    assert_ne!(
        find_voter_address(&registrar, &authority, &program).map(|f| f.0),
        Some(address(&expected))
    );
}

#[test]
fn direct_call_is_read_from_the_instruction_in_progress() {
    let (us, other) = (named(1), named(70));
    assert!(is_direct_top_level_call(&instructions_account(&[us], 0), &us));
    assert!(!is_direct_top_level_call(&instructions_account(&[other], 0), &us));
    assert!(is_direct_top_level_call(&instructions_account(&[other, us, other], 1), &us));
    assert!(!is_direct_top_level_call(&instructions_account(&[other, us, other], 0), &us));
    assert!(!is_direct_top_level_call(&instructions_account(&[other, us, other], 2), &us));
    // beyond the last instruction
    assert!(!is_direct_top_level_call(&instructions_account(&[us, us], 2), &us));
    assert!(!is_direct_top_level_call(&instructions_account(&[us], 0x0100), &us));
}

#[test]
fn direct_call_reads_the_index_low_byte_first() {
    let us = named(1);
    let mut called = vec![named(70); 258];
    called[257] = us;
    assert!(is_direct_top_level_call(&instructions_account(&called, 257), &us));
    assert!(!is_direct_top_level_call(&instructions_account(&called, 256), &us));
    assert!(!is_direct_top_level_call(&instructions_account(&called, 1), &us));
}

#[test]
fn direct_call_needs_the_fixed_account() {
    let us = named(1);
    let mut account = instructions_account(&[us], 0);
    account.key = named(5);
    assert!(!is_direct_top_level_call(&account, &us));
    let mut account = instructions_account(&[us], 0);
    account.data = vec![];
    assert!(!is_direct_top_level_call(&account, &us));
    account.data = vec![0];
    assert!(!is_direct_top_level_call(&account, &us));
    account.data = vec![0, 0];
    assert!(!is_direct_top_level_call(&account, &us));
}

#[test]
fn token_owner_record_is_read_as_the_engine_wrote_it() {
    let engine = named(2);
    let account = record_account(&engine, 3, 1, GovernanceAccountType::TokenOwnerRecordV2);
    assert_eq!(
        governing_token_owner_record(&engine, &account, &named(10), &named(20), &named(30)),
        Some(TokenOwnerRecord { unrelinquished_votes_count: 3, outstanding_proposal_count: 1 })
    );
    let account = record_account(&engine, 0, 0, GovernanceAccountType::TokenOwnerRecordV2);
    assert_eq!(
        governing_token_owner_record(&engine, &account, &named(10), &named(20), &named(30)),
        Some(TokenOwnerRecord { unrelinquished_votes_count: 0, outstanding_proposal_count: 0 })
    );
}

#[test]
fn token_owner_record_must_be_at_its_address() {
    let engine = named(2);
    let account = record_account(&engine, 0, 0, GovernanceAccountType::TokenOwnerRecordV2);
    // asked for another participant, asset or realm
    assert_eq!(
        governing_token_owner_record(&engine, &account, &named(10), &named(20), &named(31)),
        None
    );
    assert_eq!(
        governing_token_owner_record(&engine, &account, &named(10), &named(21), &named(30)),
        None
    );
    assert_eq!(
        governing_token_owner_record(&engine, &account, &named(11), &named(20), &named(30)),
        None
    );
    let mut moved = account.clone();
    moved.key = named(6);
    assert_eq!(
        governing_token_owner_record(&engine, &moved, &named(10), &named(20), &named(30)),
        None
    );
}

#[test]
fn token_owner_record_must_be_the_engines() {
    let engine = named(2);
    let mut account = record_account(&engine, 0, 0, GovernanceAccountType::TokenOwnerRecordV2);
    account.owner = named(7);
    assert_eq!(
        governing_token_owner_record(&engine, &account, &named(10), &named(20), &named(30)),
        None
    );
    let mut account = record_account(&engine, 0, 0, GovernanceAccountType::TokenOwnerRecordV2);
    account.data[0] = 0;
    assert_eq!(
        governing_token_owner_record(&engine, &account, &named(10), &named(20), &named(30)),
        None
    );
    account.data.clear();
    assert_eq!(
        governing_token_owner_record(&engine, &account, &named(10), &named(20), &named(30)),
        None
    );
}

#[test]
fn can_withdraw_is_what_the_engine_asserts() {
    for (votes, proposals) in [(0u32, 0u8), (1, 0), (0, 1), (1, 1), (u32::MAX, 0), (0, u8::MAX)] {
        let ours = TokenOwnerRecord {
            unrelinquished_votes_count: votes,
            outstanding_proposal_count: proposals,
        };
        let theirs = TokenOwnerRecordV2 {
            account_type: GovernanceAccountType::TokenOwnerRecordV2,
            realm: key(&named(10)),
            governing_token_mint: key(&named(20)),
            governing_token_owner: key(&named(30)),
            governing_token_deposit_amount: 0,
            unrelinquished_votes_count: votes,
            total_votes_count: 0,
            outstanding_proposal_count: proposals,
            reserved: [0; 7],
            governance_delegate: None,
            reserved_v2: [0; 128],
        };
        assert_eq!(
            ours.can_withdraw_governing_tokens(),
            theirs.assert_can_withdraw_governing_tokens().is_ok()
        );
        assert_eq!(ours.can_withdraw_governing_tokens(), votes == 0 && proposals == 0);
    }
}

#[test]
fn realm_accepts_its_community_and_council_assets() {
    let engine = named(2);
    let realm = realm_account(&engine, &named(20), Some(named(21)));
    assert!(realm_accepts_mint(&engine, &realm, &named(20)));
    assert!(realm_accepts_mint(&engine, &realm, &named(21)));
    assert!(!realm_accepts_mint(&engine, &realm, &named(22)));
    let realm = realm_account(&engine, &named(20), None);
    assert!(realm_accepts_mint(&engine, &realm, &named(20)));
    assert!(!realm_accepts_mint(&engine, &realm, &named(21)));
}

#[test]
fn realm_must_be_the_engines() {
    let engine = named(2);
    let realm = realm_account(&engine, &named(20), None);
    assert!(!realm_accepts_mint(&named(8), &realm, &named(20)));
    let mut broken = realm.clone();
    broken.data.truncate(10);
    assert!(!realm_accepts_mint(&engine, &broken, &named(20)));
    broken.data.clear();
    assert!(!realm_accepts_mint(&engine, &broken, &named(20)));
    let mut other_kind = realm.clone();
    other_kind.data[0] = 0;
    assert!(!realm_accepts_mint(&engine, &other_kind, &named(20)));
}

#[test]
fn voter_weight_is_the_balance() {
    let mut voter = Voter {
        authority: named(30),
        registrar: named(12),
        voter_bump: 1,
        voter_weight_record_bump: 2,
        amount_deposited: 0,
        last_deposit_slot: 0,
    };
    assert_eq!(voter.weight(), Ok(0));
    voter.amount_deposited = 12345;
    assert_eq!(voter.weight(), Ok(12345));
    voter.amount_deposited = u64::MAX;
    assert_eq!(voter.weight(), Ok(u64::MAX));
}

#[test]
fn voter_records_deposits_and_withdrawals() {
    let mut voter = Voter {
        authority: named(30),
        registrar: named(12),
        voter_bump: 1,
        voter_weight_record_bump: 2,
        amount_deposited: 0,
        last_deposit_slot: 0,
    };
    assert_eq!(voter.record_deposit(40, 7), Ok(()));
    assert_eq!((voter.amount_deposited, voter.last_deposit_slot), (40, 7));
    assert_eq!(voter.record_deposit(2, 9), Ok(()));
    assert_eq!((voter.amount_deposited, voter.last_deposit_slot), (42, 9));
    assert_eq!(voter.record_deposit(u64::MAX - 41, 10), Err(ErrorCode::ArithmeticOverflow));
    assert_eq!((voter.amount_deposited, voter.last_deposit_slot), (42, 9));
    assert_eq!(voter.record_withdrawal(1, 9), Err(ErrorCode::SameStepDepositWithdraw));
    assert_eq!(voter.record_withdrawal(1, 8), Err(ErrorCode::SameStepDepositWithdraw));
    assert_eq!(voter.record_withdrawal(43, 10), Err(ErrorCode::InsufficientBalance));
    assert_eq!(voter.record_withdrawal(43, 9), Err(ErrorCode::SameStepDepositWithdraw));
    assert_eq!(voter.record_withdrawal(12, 10), Ok(()));
    assert_eq!((voter.amount_deposited, voter.last_deposit_slot), (30, 9));
    assert_eq!(voter.record_withdrawal(30, u64::MAX), Ok(()));
    assert_eq!((voter.amount_deposited, voter.last_deposit_slot), (0, 9));
    assert_eq!(voter.authority, named(30));
    assert_eq!(voter.registrar, named(12));
    assert_eq!((voter.voter_bump, voter.voter_weight_record_bump), (1, 2));
}

#[test]
fn cpi_context_holds_program_accounts_and_seeds() {
    let accounts = Transfer { from: named(1), to: named(2), authority: named(3) };
    let ctx = CpiContext::new(named(4), accounts);
    assert_eq!(ctx.program, named(4));
    assert_eq!(ctx.accounts, accounts);
    assert!(ctx.signer_seeds.is_empty());
    let signed = ctx.with_signer(vec![vec![1, 2], vec![3]]);
    assert_eq!(signed.program, named(4));
    assert_eq!(signed.accounts, accounts);
    assert_eq!(signed.signer_seeds, vec![vec![1u8, 2], vec![3]]);
}

fn registrar() -> Account<Registrar> {
    Account {
        key: named(12),
        lamports: 0,
        data: Some(Registrar {
            authority: named(60),
            realm: named(10),
            realm_community_mint: named(20),
            governance_program_id: named(2),
            bump: 250,
        }),
    }
}

fn voter() -> Account<Voter> {
    Account {
        key: named(13),
        lamports: 0,
        data: Some(Voter {
            authority: named(30),
            registrar: named(12),
            voter_bump: 1,
            voter_weight_record_bump: 2,
            amount_deposited: 100,
            last_deposit_slot: 5,
        }),
    }
}

fn tokens(at: u8, owner: u8) -> Account<TokenAccount> {
    Account {
        key: named(at),
        lamports: 0,
        data: Some(TokenAccount { mint: named(20), owner: named(owner), amount: 0 }),
    }
}

#[test]
fn deposit_transfer_ctx_goes_from_the_participant_to_the_vault() {
    let accounts = Deposit {
        registrar: registrar(),
        voter: voter(),
        exchange_vault: tokens(40, 12),
        deposit_mint: named(20),
        deposit_token: tokens(50, 30),
        authority: Signer { key: named(30), is_signer: true },
        token_program: named(3),
    };
    assert_eq!(accounts.check(), None);
    let ctx = accounts.transfer_ctx();
    assert_eq!(ctx.program, named(3));
    assert_eq!(ctx.accounts, Transfer { from: named(50), to: named(40), authority: named(30) });
    assert!(ctx.signer_seeds.is_empty());
}

#[test]
fn withdraw_transfer_ctx_goes_from_the_vault_to_the_destination() {
    let mut accounts = Withdraw {
        registrar: registrar(),
        voter: voter(),
        token_owner_record: AccountInfo {
            key: named(14),
            owner: named(2),
            lamports: 0,
            data: vec![],
        },
        exchange_vault: tokens(40, 12),
        withdraw_mint: named(20),
        destination: tokens(51, 33),
        authority: Signer { key: named(30), is_signer: true },
        token_program: named(3),
    };
    assert_eq!(accounts.check(), None);
    let ctx = accounts.transfer_ctx();
    assert_eq!(ctx.program, named(3));
    assert_eq!(ctx.accounts, Transfer { from: named(40), to: named(51), authority: named(12) });
    assert!(ctx.signer_seeds.is_empty());

    // the decision on plain values: address and record are handed in
    let free = TokenOwnerRecord { unrelinquished_votes_count: 0, outstanding_proposal_count: 0 };
    let busy = TokenOwnerRecord { unrelinquished_votes_count: 0, outstanding_proposal_count: 2 };
    let before = accounts.clone();
    assert_eq!(
        accounts.process(10, 6, None, Some(free)).map(|t| t.amount),
        Err(ErrorCode::InvalidAddress)
    );
    assert_eq!(
        accounts.process(10, 6, Some(named(13)), Some(free)).map(|t| t.amount),
        Err(ErrorCode::InvalidAddress)
    );
    assert_eq!(
        accounts.process(10, 6, Some(named(12)), None).map(|t| t.amount),
        Err(ErrorCode::WithdrawalRestricted)
    );
    assert_eq!(
        accounts.process(10, 6, Some(named(12)), Some(busy)).map(|t| t.amount),
        Err(ErrorCode::WithdrawalRestricted)
    );
    assert_eq!(
        accounts.process(10, 5, Some(named(12)), Some(free)).map(|t| t.amount),
        Err(ErrorCode::SameStepDepositWithdraw)
    );
    assert_eq!(
        accounts.process(101, 6, Some(named(12)), Some(free)).map(|t| t.amount),
        Err(ErrorCode::InsufficientBalance)
    );
    assert_eq!(accounts, before);
    let transfer = accounts.process(100, 6, Some(named(12)), Some(free)).unwrap();
    assert_eq!(transfer.amount, 100);
    assert_eq!(transfer.ctx.signer_seeds, vec![named(10).bytes.to_vec(), vec![250u8]]);
    assert_eq!(accounts.voter.data.unwrap().amount_deposited, 0);
}
