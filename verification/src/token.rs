//! Model of the fungible-token collaborator: accounts with owners and
//! balances, a mint with a circulating supply, and the two capabilities the
//! vote transition consumes — moving tokens between accounts and destroying
//! them. Both are all-or-nothing and both demand the account owner's
//! authority.

use vstd::prelude::*;

use crate::state::AccountId;
use crate::state::ErrorCode;

verus! {

/// One token account: its address, the identity holding authority over it,
/// the mint its balance belongs to, and the balance itself.
#[derive(Clone, Copy, Debug, PartialEq, Eq, Structural)]
pub struct TokenAccount {
    pub id: AccountId,
    pub owner: AccountId,
    pub mint: AccountId,
    pub amount: u64,
}

/// The token kind: its address and its circulating supply.
#[derive(Clone, Copy, Debug, PartialEq, Eq, Structural)]
pub struct Mint {
    pub id: AccountId,
    pub supply: u64,
}

/// Whether two account values are the same account in every respect but the
/// balance.
pub open spec fn same_identity(a: TokenAccount, b: TokenAccount) -> bool {
    a.id == b.id && a.owner == b.owner && a.mint == b.mint
}

/// Moves `amount` tokens from `from` to `to`, authorized by `authority`.
/// Succeeds exactly when the authority owns the source account and the
/// source balance covers the amount; a failure changes nothing.
pub fn transfer(from: &mut TokenAccount, to: &mut TokenAccount, authority: AccountId, amount: u64)
    -> (r: Result<(), ErrorCode>)
    requires
        old(to).amount + amount <= u64::MAX,
    ensures
        r is Ok <==> old(from).owner == authority && amount <= old(from).amount,
        r == Err::<(), ErrorCode>(ErrorCode::Unauthorized) <==> old(from).owner != authority,
        r == Err::<(), ErrorCode>(ErrorCode::InsufficientFunds) <==> old(from).owner == authority
            && amount > old(from).amount,
        r is Err ==> *final(from) == *old(from) && *final(to) == *old(to),
        r is Ok ==> same_identity(*final(from), *old(from)) && same_identity(
            *final(to),
            *old(to),
        ),
        r is Ok ==> final(from).amount == old(from).amount - amount,
        r is Ok ==> final(to).amount == old(to).amount + amount,
{
    if from.owner != authority {
        return Err(ErrorCode::Unauthorized);
    }
    if amount > from.amount {
        return Err(ErrorCode::InsufficientFunds);
    }
    from.amount = from.amount - amount;
    to.amount = to.amount + amount;
    Ok(())
}

/// Destroys `amount` tokens held by `from`, authorized by `authority`,
/// removing them from the mint's circulating supply. Succeeds exactly when
/// the authority owns the account and the balance covers the amount; a
/// failure changes nothing.
pub fn burn(mint: &mut Mint, from: &mut TokenAccount, authority: AccountId, amount: u64) -> (r:
    Result<(), ErrorCode>)
    requires
        old(from).mint == old(mint).id,
        old(from).amount <= old(mint).supply,
    ensures
        r is Ok <==> old(from).owner == authority && amount <= old(from).amount,
        r == Err::<(), ErrorCode>(ErrorCode::Unauthorized) <==> old(from).owner != authority,
        r == Err::<(), ErrorCode>(ErrorCode::InsufficientFunds) <==> old(from).owner == authority
            && amount > old(from).amount,
        r is Err ==> *final(from) == *old(from) && *final(mint) == *old(mint),
        r is Ok ==> same_identity(*final(from), *old(from)) && final(mint).id == old(mint).id,
        r is Ok ==> final(from).amount == old(from).amount - amount,
        r is Ok ==> final(mint).supply == old(mint).supply - amount,
{
    if from.owner != authority {
        return Err(ErrorCode::Unauthorized);
    }
    if amount > from.amount {
        return Err(ErrorCode::InsufficientFunds);
    }
    from.amount = from.amount - amount;
    mint.supply = mint.supply - amount;
    Ok(())
}

} // verus!
