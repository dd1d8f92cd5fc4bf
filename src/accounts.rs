//! The accounts that each instruction reads, by address. Fields that stand for
//! a signer of the instruction hold an address that the host ledger has
//! already authenticated.
use vstd::prelude::*;
use crate::address::Address;

verus! {

#[derive(Clone, Copy, Debug, PartialEq, Eq)]
pub struct InitializeFaucet {
    /// Signer; becomes the faucet's authority.
    pub authority: Address,
    pub backend_signer: Address,
    pub fee_vault: Address,
    pub token_mint: Address,
    /// The faucet account, derived from the authority and the name.
    pub faucet: Address,
    pub token_vault: Address,
}

#[derive(Clone, Copy, Debug, PartialEq, Eq)]
pub struct FundFaucet {
    /// Signer; owner of `funder_token_account`.
    pub funder: Address,
    pub faucet: Address,
    pub funder_token_account: Address,
    pub token_vault: Address,
    pub backend_wallet: Address,
    pub platform_fee_account: Address,
}

#[derive(Clone, Copy, Debug, PartialEq, Eq)]
pub struct AddToWhitelist {
    /// Signer; must be the faucet's authority.
    pub authority: Address,
    pub faucet: Address,
    pub user: Address,
}

#[derive(Clone, Copy, Debug, PartialEq, Eq)]
pub struct Claim {
    /// Signer; pays for the receipt account.
    pub payer: Address,
    pub backend_signer: Address,
    /// Whether `backend_signer` signed this instruction.
    pub backend_signer_is_signer: bool,
    pub recipient: Address,
    pub faucet: Address,
    pub token_vault: Address,
    pub recipient_token_account: Address,
}

#[derive(Clone, Copy, Debug, PartialEq, Eq)]
pub struct Withdraw {
    /// Signer; must be the faucet's authority.
    pub authority: Address,
    pub faucet: Address,
    pub token_vault: Address,
    pub admin_token_account: Address,
    /// The owner recorded in `admin_token_account`.
    pub admin_token_owner: Address,
}

#[derive(Clone, Copy, Debug, PartialEq, Eq)]
pub struct UpdateFaucet {
    /// Signer; must be the faucet's authority.
    pub authority: Address,
    pub faucet: Address,
}

} // verus!
