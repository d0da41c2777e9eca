//! A token-funded voting library.
//!
//! Casting a vote consumes a fixed amount of a fungible token: one share is
//! forwarded to a configured beneficiary account and the rest is burned,
//! removing it from circulating supply. The library models the records
//! (a global configuration and per-pair tallies), the token movements, and
//! the all-or-nothing vote transition over them.

mod instructions;
mod state;
mod system;
mod tally;
mod token;

pub use instructions::InitializeGlobalState;
pub use instructions::InitializePair;
pub use instructions::Vote;
pub use instructions::initialize_global_state;
pub use instructions::initialize_pair;
pub use instructions::vote;

pub use token::Mint;
pub use token::TokenAccount;
pub use token::burn;
pub use token::same_identity;
pub use token::transfer;

pub use tally::after_votes;
pub use tally::count_true;
pub use tally::lemma_count_true_bounds;
pub use tally::lemma_tally_counts;

pub use system::VotingSystem;

pub use state::AccountId;
pub use state::ErrorCode;
pub use state::GlobalState;
pub use state::Pair;
pub use state::byte_len;
pub use state::share_amount;
pub use state::split_amount;
