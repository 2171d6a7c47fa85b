//! The instructions of the transaction in progress, as the runtime lays
//! them out in the account at a fixed address, and who was called at the top
//! level.

use crate::account::AccountInfo;
use crate::address::{address_view, Address};
use anchor_lang::prelude::Pubkey;
use vstd::prelude::*;

verus! {

/// The address `Sysvar1nstructions1111111111111111111111111`, at which the
/// runtime keeps the instructions of the transaction in progress.
pub const INSTRUCTIONS_SYSVAR_ID: [u8; 32] = [
    6, 167, 213, 23, 24, 123, 209, 102, 53, 218, 212, 4, 85, 253, 194, 192, 193, 36, 198, 143, 33,
    86, 117, 165, 219, 186, 203, 95, 8, 0, 0, 0,
];

/// The number that two bytes stand for, the low byte first.
pub open spec fn spec_u16_le(low: u8, high: u8) -> u16 {
    (low + 256 * high) as u16
}

/// The index of the top-level instruction in progress: the last two bytes
/// of the account at the fixed address. `None` for another account, and for
/// one of less than two bytes.
pub open spec fn spec_current_index(instructions: AccountInfo) -> Option<u16> {
    let data = instructions.data@;
    if instructions.key@ == INSTRUCTIONS_SYSVAR_ID@ && data.len() >= 2 {
        Some(spec_u16_le(data[data.len() - 2], data[data.len() - 1]))
    } else {
        None
    }
}

/// The program that `load_instruction_at_checked` of the Solana SDK finds
/// called by the instruction at `index` in an account of these plain values,
/// or `None` where it finds no such instruction.
pub uninterp spec fn spec_instruction_program_id(
    index: u16,
    key: Seq<u8>,
    owner: Seq<u8>,
    lamports: u64,
    data: Seq<u8>,
) -> Option<Seq<u8>>;

/// Whether the top-level instruction in progress, as `instructions` lays
/// the transaction out, calls the program at `program_id`.
pub open spec fn spec_is_direct_top_level_call(instructions: AccountInfo, program_id: Address) -> bool {
    match spec_current_index(instructions) {
        Some(index) => spec_instruction_program_id(
            index,
            instructions.key@,
            instructions.owner@,
            instructions.lamports,
            instructions.data@,
        ) == Some(program_id@),
        None => false,
    }
}

/// Calls `load_current_index_checked` of the Solana SDK on an account made
/// of the plain values in `instructions`. The contract states its result in
/// full: nothing for an account at another address than the fixed one, else
/// the number in the last two bytes, low byte first. The function panics on
/// less than two bytes, so the contract asks for two.
#[verifier::external_body]
pub(crate) fn load_current_index(instructions: &AccountInfo) -> (r: Option<u16>)
    requires
        instructions.data@.len() >= 2,
    ensures
        r == spec_current_index(*instructions),
{
    let key = Pubkey::new_from_array(instructions.key.bytes);
    let owner = Pubkey::new_from_array(instructions.owner.bytes);
    let (mut lamports, mut data) = (instructions.lamports, instructions.data.clone());
    let account = anchor_lang::prelude::AccountInfo::new(&key, false, false, &mut lamports, &mut data, &owner, false, 0);
    anchor_lang::solana_program::sysvar::instructions::load_current_index_checked(&account).ok()
}

/// Calls `load_instruction_at_checked` of the Solana SDK on an account made
/// of the plain values in `instructions`, and hands out the program that
/// the instruction found calls. The contract names the result.
#[verifier::external_body]
pub(crate) fn load_instruction_program_id(index: u16, instructions: &AccountInfo) -> (r: Option<Address>)
    ensures
        address_view(r) == spec_instruction_program_id(
            index,
            instructions.key@,
            instructions.owner@,
            instructions.lamports,
            instructions.data@,
        ),
{
    let key = Pubkey::new_from_array(instructions.key.bytes);
    let owner = Pubkey::new_from_array(instructions.owner.bytes);
    let (mut lamports, mut data) = (instructions.lamports, instructions.data.clone());
    let account = anchor_lang::prelude::AccountInfo::new(&key, false, false, &mut lamports, &mut data, &owner, false, 0);
    anchor_lang::solana_program::sysvar::instructions::load_instruction_at_checked(usize::from(index), &account)
        .ok()
        .map(|instruction| Address { bytes: instruction.program_id.to_bytes() })
}

/// Whether the top-level instruction in progress calls the program at
/// `program_id`. When that program is running and the answer is no, it was
/// called by another program and not by the transaction itself.
pub fn is_direct_top_level_call(instructions: &AccountInfo, program_id: &Address) -> (r: bool)
    ensures
        r == spec_is_direct_top_level_call(*instructions, *program_id),
{
    if instructions.data.len() < 2 {
        return false;
    }
    match load_current_index(instructions) {
        None => false,
        Some(index) => match load_instruction_program_id(index, instructions) {
            None => false,
            Some(called) => {
                proof {
                    if called@ == program_id@ {
                        Address::lemma_view_injective(called, *program_id);
                    }
                }
                called == *program_id
            },
        },
    }
}

} // verus!
