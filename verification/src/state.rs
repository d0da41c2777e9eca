//! Persistent records of the voting system: the global configuration and the
//! per-pair tallies, together with the error taxonomy, the split arithmetic,
//! and the byte-exact storage size of each record.

use vstd::prelude::*;

verus! {

/// Opaque identifier of an account on the host ledger.
#[derive(Clone, Copy, Debug, PartialEq, Eq, Structural)]
pub struct AccountId(pub u64);

/// Every failure the library reports, one variant per class: a configuration
/// whose percentages do not sum to 100, a referenced record that does not
/// exist, a signer that does not hold the required authority, a voter balance
/// below the charged amount, and a creation that would overwrite an existing
/// record.
#[derive(Clone, Copy, Debug, PartialEq, Eq, Structural)]
pub enum ErrorCode {
    ImbalancedDistribution,
    NotFound,
    Unauthorized,
    InsufficientFunds,
    AlreadyExists,
}

/// The singleton economic configuration: the beneficiary's token account, the
/// token cost of one vote, and the burn/beneficiary percentage split.
/// Immutable once created.
#[derive(Clone, Copy, Debug, PartialEq, Eq, Structural)]
pub struct GlobalState {
    pub developer_bonk: AccountId,
    pub bonk_per_vote: u32,
    pub percentage_burn: u8,
    pub percentage_developer: u8,
}

/// The share of one vote's cost that goes to a percentage: the cost is floor
/// divided by 100 first, then multiplied. The order matters for costs not
/// divisible by 100: the remainder below one percent-unit is charged to
/// nobody.
pub open spec fn split_amount(bonk_per_vote: u32, percentage: u8) -> int {
    (bonk_per_vote as int / 100) * (percentage as int)
}

/// Computes `split_amount` executably: one percent-unit of the cost (floor),
/// times the percentage.
pub fn share_amount(bonk_per_vote: u32, percentage: u8) -> (r: u32)
    requires
        percentage <= 100,
    ensures
        r == split_amount(bonk_per_vote, percentage),
        r <= bonk_per_vote,
{
    proof {
        let q = bonk_per_vote as int / 100;
        let p = percentage as int;
        vstd::arithmetic::div_mod::lemma_fundamental_div_mod(bonk_per_vote as int, 100);
        vstd::arithmetic::div_mod::lemma_mod_division_less_than_divisor(bonk_per_vote as int, 100);
        vstd::arithmetic::mul::lemma_mul_inequality(p, 100, q);
        vstd::arithmetic::mul::lemma_mul_is_commutative(p, q);
        vstd::arithmetic::mul::lemma_mul_is_commutative(100, q);
        assert(q * p <= bonk_per_vote as int);
    }
    (bonk_per_vote / 100) * (percentage as u32)
}

impl GlobalState {
    /// The creation-time invariant: the two percentages split the whole cost.
    pub open spec fn wf(self) -> bool {
        self.percentage_burn + self.percentage_developer == 100
    }

    /// Tokens forwarded to the beneficiary for one vote.
    pub open spec fn developer_amount(self) -> int {
        split_amount(self.bonk_per_vote, self.percentage_developer)
    }

    /// Tokens destroyed for one vote.
    pub open spec fn burn_amount(self) -> int {
        split_amount(self.bonk_per_vote, self.percentage_burn)
    }

    /// Everything one vote takes from the voter.
    pub open spec fn total_cost(self) -> int {
        self.developer_amount() + self.burn_amount()
    }
}

/// One contest between two named candidates. The `(a_name, b_name)` tuple is
/// the pair's identity; the link fields are descriptive payload. The tallies
/// start at zero and each successful vote increments exactly one of them.
#[derive(Debug)]
pub struct Pair {
    pub a_name: String,
    pub a_link: String,
    pub a_vote: u16,
    pub b_name: String,
    pub b_link: String,
    pub b_vote: u16,
}

impl Pair {
    /// The identity of the pair: its two candidate names. Links are excluded.
    pub open spec fn key(self) -> (Seq<char>, Seq<char>) {
        (self.a_name@, self.b_name@)
    }

    /// The pair after one vote: the chosen side's tally grows by one and
    /// nothing else changes.
    pub open spec fn after_vote(self, vote_a: bool) -> Pair {
        Pair {
            a_name: self.a_name,
            a_link: self.a_link,
            a_vote: if vote_a {
                (self.a_vote + 1) as u16
            } else {
                self.a_vote
            },
            b_name: self.b_name,
            b_link: self.b_link,
            b_vote: if vote_a {
                self.b_vote
            } else {
                (self.b_vote + 1) as u16
            },
        }
    }
}

pub const DISCRIMINATOR: usize = 8;

pub const PREFIX: usize = 4;

pub const PUBKEY: usize = 32;

pub const U8: usize = 1;

pub const U16: usize = 2;

pub const U32: usize = 4;

/// Byte length of a string's UTF-8 encoding, as a function of its characters.
pub open spec fn byte_len(s: Seq<char>) -> nat {
    vstd::utf8::encode_utf8(s).len()
}

impl GlobalState {
    /// Bytes of storage a `GlobalState` record occupies: a fixed header, a
    /// 32-byte account identifier, a 4-byte amount and two 1-byte percentages.
    #[allow(non_snake_case)]
    pub fn LEN() -> (r: usize)
        ensures
            r == DISCRIMINATOR + PUBKEY + U32 + U8 + U8,
    {
        DISCRIMINATOR + PUBKEY + U32 + U8 + U8
    }
}

impl Pair {
    /// Bytes of storage a `Pair` record occupies: a fixed header, then for
    /// each side a length-prefixed name, a length-prefixed link and a 2-byte
    /// tally. Storage must be pre-sized with exactly this formula; a record
    /// accepts strings of any length.
    #[allow(non_snake_case)]
    pub fn LEN(a_name: &str, a_link: &str, b_name: &str, b_link: &str) -> (r: usize)
        requires
            DISCRIMINATOR + 4 * PREFIX + 2 * U16 + byte_len(a_name@) + byte_len(a_link@)
                + byte_len(b_name@) + byte_len(b_link@) <= usize::MAX,
        ensures
            r == DISCRIMINATOR + PREFIX + byte_len(a_name@) + PREFIX + byte_len(a_link@) + U16
                + PREFIX + byte_len(b_name@) + PREFIX + byte_len(b_link@) + U16,
    {
        DISCRIMINATOR + PREFIX + a_name.len() + PREFIX + a_link.len() + U16 + PREFIX
            + b_name.len() + PREFIX + b_link.len() + U16
    }
}

} // verus!
