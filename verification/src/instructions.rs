//! The three invocable operations, each over the bundle of records and
//! accounts it touches. The host hands each handler its accounts already
//! resolved; the handler validates, computes and applies the transition, and
//! either commits every effect or none.

use vstd::prelude::*;

use crate::state::AccountId;
use crate::state::ErrorCode;
use crate::state::GlobalState;
use crate::state::Pair;
use crate::state::share_amount;
use crate::token;
use crate::token::Mint;
use crate::token::TokenAccount;
use crate::token::same_identity;

verus! {

/// Accounts of the configuration-creation operation: the record being
/// created, the beneficiary's token account, the creator who signs, and the
/// token mint.
#[derive(Clone, Copy, Debug, PartialEq, Eq, Structural)]
pub struct InitializeGlobalState {
    pub global_state: GlobalState,
    pub developer_bonk: TokenAccount,
    pub developer: AccountId,
    pub mint_address: Mint,
}

impl InitializeGlobalState {
    /// The account constraints the host must have established: the
    /// beneficiary token account is owned by the signing creator and belongs
    /// to the mint.
    pub open spec fn wf(self) -> bool {
        self.developer_bonk.owner == self.developer && self.developer_bonk.mint
            == self.mint_address.id
    }

    /// Checks `wf` executably, for a caller that received the accounts
    /// unchecked.
    pub fn validate(&self) -> (b: bool)
        ensures
            b == self.wf(),
    {
        self.developer_bonk.owner == self.developer && self.developer_bonk.mint
            == self.mint_address.id
    }
}

/// Creates the global configuration: succeeds exactly when the two
/// percentages sum to 100, and then records the beneficiary account, the
/// cost of a vote and the split. An imbalanced split is rejected before
/// anything is written.
pub fn initialize_global_state(
    ctx: &mut InitializeGlobalState,
    bonk_per_vote: u32,
    percentage_burn: u8,
    percentage_developer: u8,
) -> (r: Result<(), ErrorCode>)
    requires
        old(ctx).wf(),
    ensures
        r is Ok <==> percentage_burn + percentage_developer == 100,
        r is Err ==> r == Err::<(), ErrorCode>(ErrorCode::ImbalancedDistribution) && *final(ctx)
            == *old(ctx),
        r is Ok ==> final(ctx).global_state == (GlobalState {
            developer_bonk: old(ctx).developer_bonk.id,
            bonk_per_vote,
            percentage_burn,
            percentage_developer,
        }),
        r is Ok ==> final(ctx).global_state.wf(),
        final(ctx).developer_bonk == old(ctx).developer_bonk,
        final(ctx).developer == old(ctx).developer,
        final(ctx).mint_address == old(ctx).mint_address,
{
    if percentage_burn as u16 + percentage_developer as u16 != 100 {
        return Err(ErrorCode::ImbalancedDistribution);
    }
    ctx.global_state = GlobalState {
        developer_bonk: ctx.developer_bonk.id,
        bonk_per_vote,
        percentage_burn,
        percentage_developer,
    };
    Ok(())
}

/// Accounts of the pair-creation operation: the record being created and the
/// creator who signs.
#[derive(Debug)]
pub struct InitializePair {
    pub pair: Pair,
    pub developer: AccountId,
}

/// Creates a pair record: both tallies start at zero and the four display
/// strings are stored verbatim, with no validation of their content.
pub fn initialize_pair(
    ctx: &mut InitializePair,
    a_name: String,
    a_link: String,
    b_name: String,
    b_link: String,
) -> (r: Result<(), ErrorCode>)
    ensures
        r is Ok,
        final(ctx).pair == (Pair { a_name, a_link, a_vote: 0, b_name, b_link, b_vote: 0 }),
        final(ctx).developer == old(ctx).developer,
{
    ctx.pair = Pair { a_name, a_link, a_vote: 0, b_name, b_link, b_vote: 0 };
    Ok(())
}

/// Accounts of the vote operation: the configuration, the pair voted on, the
/// signing voter with their token account, the beneficiary's token account
/// and the mint.
#[derive(Debug)]
pub struct Vote {
    pub global_state: GlobalState,
    pub pair: Pair,
    pub voter: AccountId,
    pub voter_bonk: TokenAccount,
    pub developer_bonk: TokenAccount,
    pub mint_address: Mint,
}

impl Vote {
    /// The account constraints the host must have established: a valid
    /// configuration, the beneficiary account named by it, both token
    /// accounts of the configured mint, distinct from one another, and a
    /// balance sheet consistent with the supply.
    pub open spec fn wf(self) -> bool {
        self.global_state.wf() && self.developer_bonk.id == self.global_state.developer_bonk
            && self.voter_bonk.mint == self.mint_address.id && self.developer_bonk.mint
            == self.mint_address.id && self.voter_bonk.id != self.developer_bonk.id
            && self.voter_bonk.amount <= self.mint_address.supply
    }

    /// Checks `wf` executably, for a caller that received the accounts
    /// unchecked.
    pub fn validate(&self) -> (b: bool)
        ensures
            b == self.wf(),
    {
        self.global_state.percentage_burn as u16 + self.global_state.percentage_developer as u16
            == 100 && self.developer_bonk.id == self.global_state.developer_bonk
            && self.voter_bonk.mint == self.mint_address.id && self.developer_bonk.mint
            == self.mint_address.id && self.voter_bonk.id != self.developer_bonk.id
            && self.voter_bonk.amount <= self.mint_address.supply
    }
}

/// One vote, all-or-nothing: the chosen side's tally grows by one, the
/// beneficiary share of the vote's cost moves from the voter to the
/// configured beneficiary account, and the burn share is destroyed. Succeeds
/// exactly when the voter owns their token account and its balance covers
/// the whole cost; any failure leaves every record and balance as it was.
///
/// The name parameters route the request to this pair and play no further
/// part. The burn is issued directly under the voter's own authority; a
/// delegated self-approval for the same amount would have no observable
/// effect beyond it.
pub fn vote(ctx: &mut Vote, _a_name: String, _b_name: String, vote_a: bool) -> (r: Result<
    (),
    ErrorCode,
>)
    requires
        old(ctx).wf(),
        vote_a ==> old(ctx).pair.a_vote < u16::MAX,
        !vote_a ==> old(ctx).pair.b_vote < u16::MAX,
        old(ctx).developer_bonk.amount + old(ctx).global_state.bonk_per_vote <= u64::MAX,
    ensures
        r is Ok <==> old(ctx).voter_bonk.owner == old(ctx).voter && old(
            ctx,
        ).global_state.total_cost() <= old(ctx).voter_bonk.amount,
        r == Err::<(), ErrorCode>(ErrorCode::Unauthorized) <==> old(ctx).voter_bonk.owner != old(
            ctx,
        ).voter,
        r == Err::<(), ErrorCode>(ErrorCode::InsufficientFunds) <==> old(ctx).voter_bonk.owner
            == old(ctx).voter && old(ctx).global_state.total_cost() > old(ctx).voter_bonk.amount,
        r is Err ==> *final(ctx) == *old(ctx),
        r is Ok ==> final(ctx).pair == old(ctx).pair.after_vote(vote_a),
        r is Ok ==> same_identity(final(ctx).voter_bonk, old(ctx).voter_bonk) && same_identity(
            final(ctx).developer_bonk,
            old(ctx).developer_bonk,
        ),
        r is Ok ==> final(ctx).voter_bonk.amount == old(ctx).voter_bonk.amount - old(
            ctx,
        ).global_state.total_cost(),
        r is Ok ==> final(ctx).developer_bonk.amount == old(ctx).developer_bonk.amount + old(
            ctx,
        ).global_state.developer_amount(),
        r is Ok ==> final(ctx).mint_address.id == old(ctx).mint_address.id
            && final(ctx).mint_address.supply == old(ctx).mint_address.supply
            - old(ctx).global_state.burn_amount(),
        final(ctx).global_state == old(ctx).global_state,
        final(ctx).voter == old(ctx).voter,
        final(ctx).wf(),
{
    if ctx.voter_bonk.owner != ctx.voter {
        return Err(ErrorCode::Unauthorized);
    }
    let amount_to_developer: u32 = share_amount(
        ctx.global_state.bonk_per_vote,
        ctx.global_state.percentage_developer,
    );
    let amount_to_burn: u32 = share_amount(
        ctx.global_state.bonk_per_vote,
        ctx.global_state.percentage_burn,
    );
    let total: u64 = amount_to_developer as u64 + amount_to_burn as u64;
    if ctx.voter_bonk.amount < total {
        return Err(ErrorCode::InsufficientFunds);
    }
    if vote_a {
        ctx.pair.a_vote = ctx.pair.a_vote + 1;
    } else {
        ctx.pair.b_vote = ctx.pair.b_vote + 1;
    }
    match token::transfer(
        &mut ctx.voter_bonk,
        &mut ctx.developer_bonk,
        ctx.voter,
        amount_to_developer as u64,
    ) {
        Ok(()) => {},
        Err(e) => {
            proof {
                assert(false);
            }
            return Err(e);
        },
    }
    match token::burn(
        &mut ctx.mint_address,
        &mut ctx.voter_bonk,
        ctx.voter,
        amount_to_burn as u64,
    ) {
        Ok(()) => {},
        Err(e) => {
            proof {
                assert(false);
            }
            return Err(e);
        },
    }
    Ok(())
}

} // verus!
