//! Requests to the token program. This program moves no tokens itself: an
//! operation that moves tokens hands back the transfer to make.

use crate::address::Address;
use vstd::prelude::*;

verus! {

/// The accounts of a transfer of tokens.
#[derive(Clone, Copy, Debug, PartialEq, Eq)]
pub struct Transfer {
    /// The token account that gives.
    pub from: Address,
    /// The token account that receives.
    pub to: Address,
    /// Who authorises the transfer: the owner of `from`.
    pub authority: Address,
}

/// A call into another program: the program, the accounts it works on,
/// and the seeds of the derived address that signs, if one does.
#[derive(Clone, Debug, PartialEq, Eq)]
pub struct CpiContext<T> {
    pub program: Address,
    pub accounts: T,
    /// Empty where a key holder signs.
    pub signer_seeds: Vec<Vec<u8>>,
}

/// A [`CpiContext`] with its seeds as sequences of bytes.
pub struct CpiContextView<T> {
    pub program: Address,
    pub accounts: T,
    pub signer_seeds: Seq<Seq<u8>>,
}

impl<T> View for CpiContext<T> {
    type V = CpiContextView<T>;

    open spec fn view(&self) -> CpiContextView<T> {
        CpiContextView {
            program: self.program,
            accounts: self.accounts,
            signer_seeds: self.signer_seeds.deep_view(),
        }
    }
}

impl<T> CpiContext<T> {
    /// A call that no derived address signs.
    pub fn new(program: Address, accounts: T) -> (ctx: CpiContext<T>)
        ensures
            ctx@ == (CpiContextView { program, accounts, signer_seeds: Seq::<Seq<u8>>::empty() }),
    {
        let ctx = CpiContext { program, accounts, signer_seeds: Vec::new() };
        assert(ctx.signer_seeds.deep_view() =~= Seq::<Seq<u8>>::empty());
        ctx
    }

    /// The same call, signed by the address that `signer_seeds` derive.
    pub fn with_signer(self, signer_seeds: Vec<Vec<u8>>) -> (ctx: CpiContext<T>)
        ensures
            ctx@ == (CpiContextView { signer_seeds: signer_seeds.deep_view(), ..self@ }),
    {
        CpiContext { program: self.program, accounts: self.accounts, signer_seeds }
    }
}

/// A transfer of `amount` units for the token program to make.
#[derive(Clone, Debug, PartialEq, Eq)]
pub struct TokenTransfer {
    pub ctx: CpiContext<Transfer>,
    pub amount: u64,
}

/// A [`TokenTransfer`] with its seeds as sequences of bytes.
pub struct TokenTransferView {
    pub ctx: CpiContextView<Transfer>,
    pub amount: u64,
}

impl View for TokenTransfer {
    type V = TokenTransferView;

    open spec fn view(&self) -> TokenTransferView {
        TokenTransferView { ctx: self.ctx@, amount: self.amount }
    }
}

/// What the token program made of a transfer.
#[derive(Clone, Copy, Debug, PartialEq, Eq, Structural)]
pub enum TransferOutcome {
    /// The units have moved.
    Completed,
    /// The account that gives holds too few units.
    InsufficientFunds,
    /// The token program did not accept who authorised the transfer.
    Unauthorized,
}

/// Lamports to hand to `destination` when an account is closed.
#[derive(Clone, Copy, Debug, PartialEq, Eq)]
pub struct Refund {
    pub destination: Address,
    pub lamports: u64,
}

/// The balance of the token account at `account` once `transfer` is made,
/// where it was `balance` before: the units leave `from` and reach `to`.
pub open spec fn spec_balance_after(balance: int, account: Address, transfer: TokenTransferView) -> int {
    balance + (if transfer.ctx.accounts.to == account {
        transfer.amount as int
    } else {
        0
    }) - (if transfer.ctx.accounts.from == account {
        transfer.amount as int
    } else {
        0
    })
}

} // verus!
