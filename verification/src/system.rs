//! The storage layer joined with the handlers: a singleton configuration
//! slot and the collection of pair records, keyed by their two candidate
//! names. Creation is create-if-absent — a record is never overwritten — and
//! a vote routes by names to the one pair with that identity.

use vstd::prelude::*;

use crate::instructions;
use crate::instructions::InitializeGlobalState;
use crate::instructions::InitializePair;
use crate::instructions::Vote;
use crate::state::AccountId;
use crate::state::ErrorCode;
use crate::state::GlobalState;
use crate::state::Pair;
use crate::token::Mint;
use crate::token::TokenAccount;
use crate::token::same_identity;

verus! {

/// Every record the voting system persists: at most one configuration, and
/// one pair record per distinct `(a_name, b_name)` identity.
pub struct VotingSystem {
    pub global_state: Option<GlobalState>,
    pub pairs: Vec<Pair>,
}

impl VotingSystem {
    /// The storage invariant: a created configuration satisfies its own
    /// invariant, and no two pair records share an identity.
    pub open spec fn wf(self) -> bool {
        (self.global_state matches Some(g) ==> g.wf()) && forall|i: int, j: int|
            #![trigger self.pairs@[i].key(), self.pairs@[j].key()]
            0 <= i < j < self.pairs@.len() ==> self.pairs@[i].key() != self.pairs@[j].key()
    }

    /// Whether a pair with this identity has been created.
    pub open spec fn spec_has_pair(self, a_name: Seq<char>, b_name: Seq<char>) -> bool {
        exists|i: int|
            0 <= i < self.pairs@.len() && (#[trigger] self.pairs@[i]).key() == (a_name, b_name)
    }

    /// The position of the pair with this identity, where one exists.
    pub open spec fn pair_index(self, a_name: Seq<char>, b_name: Seq<char>) -> int {
        choose|i: int|
            0 <= i < self.pairs@.len() && (#[trigger] self.pairs@[i]).key() == (a_name, b_name)
    }

    /// The pair record with this identity, where one exists.
    pub open spec fn spec_pair(self, a_name: Seq<char>, b_name: Seq<char>) -> Pair {
        self.pairs@[self.pair_index(a_name, b_name)]
    }

    /// An empty system: nothing has been created yet.
    pub fn new() -> (s: VotingSystem)
        ensures
            s.wf(),
            s.global_state is None,
            s.pairs@.len() == 0,
    {
        VotingSystem { global_state: None, pairs: Vec::new() }
    }

    /// In a well-formed system an identity names at most one pair: any
    /// position holding it is the pair's position, and the pair there is the
    /// pair the identity names.
    pub proof fn lemma_pair_index(self, a_name: Seq<char>, b_name: Seq<char>, i: int)
        requires
            self.wf(),
            0 <= i < self.pairs@.len(),
            self.pairs@[i].key() == (a_name, b_name),
        ensures
            self.spec_has_pair(a_name, b_name),
            self.pair_index(a_name, b_name) == i,
            self.spec_pair(a_name, b_name) == self.pairs@[i],
    {
        assert(self.spec_has_pair(a_name, b_name));
        let j = self.pair_index(a_name, b_name);
        if j != i {
            let lo = if j < i {
                j
            } else {
                i
            };
            let hi = if j < i {
                i
            } else {
                j
            };
            assert(self.pairs@[lo].key() != self.pairs@[hi].key());
        }
    }

    /// Finds the position of the pair with this identity, if any.
    fn find_pair(&self, a_name: &String, b_name: &String) -> (r: Option<usize>)
        requires
            self.wf(),
        ensures
            match r {
                Some(i) => self.spec_has_pair(a_name@, b_name@) && i == self.pair_index(
                    a_name@,
                    b_name@,
                ) && i < self.pairs@.len() && self.pairs@[i as int].key() == (a_name@, b_name@),
                None => !self.spec_has_pair(a_name@, b_name@),
            },
    {
        let n = self.pairs.len();
        let mut k: usize = 0;
        while k < n
            invariant
                self.wf(),
                n == self.pairs@.len(),
                k <= n,
                forall|i: int|
                    0 <= i < k ==> (#[trigger] self.pairs@[i]).key() != (a_name@, b_name@),
            decreases n - k,
        {
            let p = &self.pairs[k];
            if p.a_name == *a_name && p.b_name == *b_name {
                proof {
                    assert(self.pairs@[k as int].key() == (a_name@, b_name@));
                    self.lemma_pair_index(a_name@, b_name@, k as int);
                }
                return Some(k);
            }
            k += 1;
        }
        None
    }

    /// Creates the singleton configuration. Fails with `AlreadyExists` when
    /// one was created before, with `Unauthorized` when the beneficiary
    /// token account is not owned by the signing creator or not of the given
    /// mint, and with `ImbalancedDistribution` when the percentages do not
    /// sum to 100; nothing is written on any failure.
    pub fn create_global_state(
        &mut self,
        bonk_per_vote: u32,
        percentage_burn: u8,
        percentage_developer: u8,
        developer_bonk: &TokenAccount,
        developer: AccountId,
        mint_address: &Mint,
    ) -> (r: Result<(), ErrorCode>)
        requires
            old(self).wf(),
        ensures
            final(self).wf(),
            final(self).pairs@ == old(self).pairs@,
            r == Err::<(), ErrorCode>(ErrorCode::AlreadyExists) <==> old(self).global_state
                is Some,
            r == Err::<(), ErrorCode>(ErrorCode::Unauthorized) <==> old(self).global_state is None
                && !(developer_bonk.owner == developer && developer_bonk.mint == mint_address.id),
            r == Err::<(), ErrorCode>(ErrorCode::ImbalancedDistribution) <==> old(
                self,
            ).global_state is None && developer_bonk.owner == developer && developer_bonk.mint
                == mint_address.id && percentage_burn + percentage_developer != 100,
            r is Ok <==> old(self).global_state is None && developer_bonk.owner == developer
                && developer_bonk.mint == mint_address.id && percentage_burn
                + percentage_developer == 100,
            r is Ok ==> final(self).global_state == Some(
                GlobalState {
                    developer_bonk: developer_bonk.id,
                    bonk_per_vote,
                    percentage_burn,
                    percentage_developer,
                },
            ),
            r is Err ==> final(self).global_state == old(self).global_state,
    {
        if self.global_state.is_some() {
            return Err(ErrorCode::AlreadyExists);
        }
        let mut ctx = (InitializeGlobalState {
            global_state: GlobalState {
                developer_bonk: developer_bonk.id,
                bonk_per_vote: 0,
                percentage_burn: 0,
                percentage_developer: 0,
            },
            developer_bonk: *developer_bonk,
            developer,
            mint_address: *mint_address,
        });
        if !ctx.validate() {
            return Err(ErrorCode::Unauthorized);
        }
        match instructions::initialize_global_state(
            &mut ctx,
            bonk_per_vote,
            percentage_burn,
            percentage_developer,
        ) {
            Ok(()) => {
                self.global_state = Some(ctx.global_state);
                Ok(())
            },
            Err(e) => Err(e),
        }
    }

    /// Creates the pair record with identity `(a_name, b_name)`. Fails with
    /// `AlreadyExists` exactly when a pair with those two names was created
    /// before — the link strings play no part in the collision — and
    /// otherwise appends the new record with both tallies at zero.
    pub fn create_pair(
        &mut self,
        a_name: String,
        a_link: String,
        b_name: String,
        b_link: String,
        developer: AccountId,
    ) -> (r: Result<(), ErrorCode>)
        requires
            old(self).wf(),
        ensures
            final(self).wf(),
            final(self).global_state == old(self).global_state,
            r == Err::<(), ErrorCode>(ErrorCode::AlreadyExists) <==> old(self).spec_has_pair(
                a_name@,
                b_name@,
            ),
            r is Ok <==> !old(self).spec_has_pair(a_name@, b_name@),
            r is Ok ==> final(self).pairs@ == old(self).pairs@.push(
                Pair { a_name, a_link, a_vote: 0, b_name, b_link, b_vote: 0 },
            ),
            r is Err ==> final(self).pairs@ == old(self).pairs@,
    {
        match self.find_pair(&a_name, &b_name) {
            Some(_) => {
                return Err(ErrorCode::AlreadyExists);
            },
            None => {},
        }
        let mut ctx = (InitializePair {
            pair: Pair {
                a_name: String::new(),
                a_link: String::new(),
                a_vote: 0,
                b_name: String::new(),
                b_link: String::new(),
                b_vote: 0,
            },
            developer,
        });
        let ghost pre = self.pairs@;
        match instructions::initialize_pair(&mut ctx, a_name, a_link, b_name, b_link) {
            Ok(()) => {},
            Err(_) => {
                proof {
                    assert(false);
                }
            },
        }
        self.pairs.push(ctx.pair);
        proof {
            assert forall|i: int, j: int|
                0 <= i < j < self.pairs@.len() implies (#[trigger] self.pairs@[i].key())
                != (#[trigger] self.pairs@[j].key()) by {
                if j < pre.len() {
                    assert(self.pairs@[i] == pre[i] && self.pairs@[j] == pre[j]);
                } else {
                    assert(self.pairs@[i] == pre[i]);
                    assert(self.pairs@[j].key() == (ctx.pair.a_name@, ctx.pair.b_name@));
                }
            }
        }
        Ok(())
    }

    /// Casts one vote, all-or-nothing, routed by the two candidate names.
    /// Fails with `NotFound` when no configuration or no such pair exists,
    /// with `Unauthorized` when the voter does not own the offered token
    /// account, and with `InsufficientFunds` when its balance is below the
    /// vote's whole cost; any failure leaves every record and balance
    /// untouched. On success the chosen side's tally grows by one, the
    /// beneficiary share moves to the beneficiary account and the burn share
    /// leaves the supply.
    pub fn cast_vote(
        &mut self,
        a_name: &String,
        b_name: &String,
        vote_a: bool,
        voter: AccountId,
        voter_bonk: &mut TokenAccount,
        developer_bonk: &mut TokenAccount,
        mint_address: &mut Mint,
    ) -> (r: Result<(), ErrorCode>)
        requires
            old(self).wf(),
            old(self).global_state matches Some(g) ==> old(developer_bonk).id == g.developer_bonk
                && old(developer_bonk).amount + g.bonk_per_vote <= u64::MAX,
            old(voter_bonk).mint == old(mint_address).id,
            old(developer_bonk).mint == old(mint_address).id,
            old(voter_bonk).id != old(developer_bonk).id,
            old(voter_bonk).amount <= old(mint_address).supply,
            vote_a && old(self).spec_has_pair(a_name@, b_name@) ==> old(self).spec_pair(
                a_name@,
                b_name@,
            ).a_vote < u16::MAX,
            !vote_a && old(self).spec_has_pair(a_name@, b_name@) ==> old(self).spec_pair(
                a_name@,
                b_name@,
            ).b_vote < u16::MAX,
        ensures
            final(self).wf(),
            final(self).global_state == old(self).global_state,
            r == Err::<(), ErrorCode>(ErrorCode::NotFound) <==> old(self).global_state is None
                || !old(self).spec_has_pair(a_name@, b_name@),
            r == Err::<(), ErrorCode>(ErrorCode::Unauthorized) <==> old(self).global_state
                is Some && old(self).spec_has_pair(a_name@, b_name@) && old(voter_bonk).owner
                != voter,
            r == Err::<(), ErrorCode>(ErrorCode::InsufficientFunds) <==> (old(self).global_state
                matches Some(g) && old(self).spec_has_pair(a_name@, b_name@)
                && old(voter_bonk).owner == voter && g.total_cost() > old(voter_bonk).amount),
            r is Ok <==> (old(self).global_state matches Some(g) && old(self).spec_has_pair(
                a_name@,
                b_name@,
            ) && old(voter_bonk).owner == voter && g.total_cost() <= old(voter_bonk).amount),
            r is Err ==> final(self).pairs@ == old(self).pairs@ && *final(voter_bonk) == *old(
                voter_bonk,
            ) && *final(developer_bonk) == *old(developer_bonk) && *final(mint_address) == *old(
                mint_address,
            ),
            r is Ok ==> final(self).pairs@ == old(self).pairs@.update(
                old(self).pair_index(a_name@, b_name@),
                old(self).spec_pair(a_name@, b_name@).after_vote(vote_a),
            ),
            r is Ok ==> same_identity(*final(voter_bonk), *old(voter_bonk)) && same_identity(
                *final(developer_bonk),
                *old(developer_bonk),
            ) && final(mint_address).id == old(mint_address).id,
            r is Ok ==> (old(self).global_state matches Some(g) && final(voter_bonk).amount
                == old(voter_bonk).amount - g.total_cost() && final(developer_bonk).amount == old(
                developer_bonk,
            ).amount + g.developer_amount() && final(mint_address).supply == old(
                mint_address,
            ).supply - g.burn_amount()),
    {
        let g: GlobalState = match &self.global_state {
            Some(gg) => *gg,
            None => {
                return Err(ErrorCode::NotFound);
            },
        };
        let idx: usize = match self.find_pair(a_name, b_name) {
            Some(i) => i,
            None => {
                return Err(ErrorCode::NotFound);
            },
        };
        let ghost pre = self.pairs@;
        let p = self.pairs.remove(idx);
        let mut ctx = (Vote {
            global_state: g,
            pair: p,
            voter,
            voter_bonk: *voter_bonk,
            developer_bonk: *developer_bonk,
            mint_address: *mint_address,
        });
        let r = instructions::vote(&mut ctx, a_name.clone(), b_name.clone(), vote_a);
        self.pairs.insert(idx, ctx.pair);
        *voter_bonk = ctx.voter_bonk;
        *developer_bonk = ctx.developer_bonk;
        *mint_address = ctx.mint_address;
        proof {
            if r is Err {
                assert(self.pairs@ =~= pre);
            } else {
                assert(self.pairs@ =~= pre.update(idx as int, ctx.pair));
                assert forall|i: int, j: int|
                    0 <= i < j < self.pairs@.len() implies (#[trigger] self.pairs@[i].key())
                    != (#[trigger] self.pairs@[j].key()) by {
                    assert(pre[i].key() != pre[j].key());
                    assert(self.pairs@[i].key() == pre[i].key());
                    assert(self.pairs@[j].key() == pre[j].key());
                }
            }
        }
        r
    }

    /// Whether a pair with this identity has been created.
    pub fn has_pair(&self, a_name: &String, b_name: &String) -> (b: bool)
        requires
            self.wf(),
        ensures
            b == self.spec_has_pair(a_name@, b_name@),
    {
        match self.find_pair(a_name, b_name) {
            Some(_) => true,
            None => false,
        }
    }

    /// The two tallies of the pair with this identity, side A first, or
    /// `None` when no such pair exists.
    pub fn tallies(&self, a_name: &String, b_name: &String) -> (t: Option<(u16, u16)>)
        requires
            self.wf(),
        ensures
            match t {
                Some(v) => self.spec_has_pair(a_name@, b_name@) && v.0 == self.spec_pair(
                    a_name@,
                    b_name@,
                ).a_vote && v.1 == self.spec_pair(a_name@, b_name@).b_vote,
                None => !self.spec_has_pair(a_name@, b_name@),
            },
    {
        match self.find_pair(a_name, b_name) {
            Some(i) => {
                let p = &self.pairs[i];
                Some((p.a_vote, p.b_vote))
            },
            None => None,
        }
    }
}

} // verus!
