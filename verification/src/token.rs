//! A model of the balance-holding accounts and of the custodial transfer
//! primitive that the ledger collaborator provides.

use crate::ident::Pubkey;
use vstd::prelude::*;

verus! {

/// A balance-holding account for one fungible asset: its controlling
/// identity, the asset it holds, and the held quantity.
#[derive(PartialEq, Eq, Structural, Clone, Copy, Debug)]
pub struct TokenAccount {
    pub owner: Pubkey,
    pub mint: Pubkey,
    pub amount: u64,
}

/// Both accounts keep their owner and asset; only balances move.
pub open spec fn token_frame(pre: TokenAccount, post: TokenAccount) -> bool {
    &&& post.owner == pre.owner
    &&& post.mint == pre.mint
}

/// Moves `amount` of the shared asset from `from` to `to`.
///
/// This models the collaborator's atomic transfer primitive: the ledger
/// rejects the whole enclosing operation when `from` lacks the balance or
/// the asset kinds differ, so a caller reaches this point only with a
/// sufficiently funded, matching pair of accounts.
pub fn transfer(from: &mut TokenAccount, to: &mut TokenAccount, amount: u64)
    requires
        old(from).mint == old(to).mint,
        old(from).amount >= amount,
        old(to).amount + amount <= u64::MAX,
    ensures
        *final(from) == (TokenAccount { amount: (old(from).amount - amount) as u64, ..*old(from) }),
        *final(to) == (TokenAccount { amount: (old(to).amount + amount) as u64, ..*old(to) }),
{
    from.amount = from.amount - amount;
    to.amount = to.amount + amount;
}

} // verus!
