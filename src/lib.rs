//! Campaign-style token distribution: an authority configures a faucet that
//! pays a fixed or per-recipient amount to claimants under one of three
//! authorization modes, and collects a small fee on every funding deposit.
//!
//! The library models the program's accounts as plain values and states, for
//! every instruction, exactly which accounts it writes and which token
//! transfers it asks the host ledger to perform.
use vstd::prelude::*;

pub mod address;
pub mod state;
pub mod accounts;
pub mod custody;
pub mod claim;
pub mod funding;
pub mod manage;
pub mod laws;

pub use accounts::{AddToWhitelist, Claim, FundFaucet, InitializeFaucet, UpdateFaucet, Withdraw};
pub use address::Address;
pub use claim::{claim, resolve_eligibility};
pub use custody::{CustodyAuthority, TokenTransfer, TransferSigner};
pub use funding::{fund_faucet, split_funding, FeeSplit};
pub use manage::{
    add_to_whitelist, initialize_faucet, remove_from_whitelist, set_paused, transfer_authority,
    update_faucet_config, update_name, withdraw,
};
pub use state::{
    ClaimMode, ClaimStatus, Claimed, FaucetBumps, FaucetCreated, FaucetError, FaucetState, Funded,
    WhitelistEntry,
};
