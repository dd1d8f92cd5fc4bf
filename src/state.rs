//! The records that the program keeps on the ledger, the errors it reports and
//! the events it emits.
use vstd::prelude::*;
use crate::address::Address;

verus! {

/// How a faucet decides who may claim, and how much.
#[derive(Clone, Copy, Debug, PartialEq, Eq, Structural)]
pub enum ClaimMode {
    /// A whitelisted recipient receives the faucet's `claim_amount`.
    Whitelist,
    /// The faucet's backend key must co-sign the claim; the recipient receives
    /// the faucet's `claim_amount`.
    BackendSigned,
    /// A whitelisted recipient receives the amount stored in its own entry.
    CustomAmount,
}

impl ClaimMode {
    /// The mode's one-byte code on the wire: 0, 1 and 2 in declaration order.
    pub open spec fn spec_code(self) -> u8 {
        match self {
            ClaimMode::Whitelist => 0,
            ClaimMode::BackendSigned => 1,
            ClaimMode::CustomAmount => 2,
        }
    }

    pub fn code(&self) -> (r: u8)
        ensures
            r == self.spec_code(),
    {
        match self {
            ClaimMode::Whitelist => 0,
            ClaimMode::BackendSigned => 1,
            ClaimMode::CustomAmount => 2,
        }
    }

    /// Decodes a one-byte mode code; codes other than 0, 1 and 2 name no mode.
    pub fn from_code(code: u8) -> (r: Option<ClaimMode>)
        ensures
            code <= 2 <==> r.is_some(),
            r matches Some(m) ==> m.spec_code() == code,
    {
        if code == 0 {
            Some(ClaimMode::Whitelist)
        } else if code == 1 {
            Some(ClaimMode::BackendSigned)
        } else if code == 2 {
            Some(ClaimMode::CustomAmount)
        } else {
            None
        }
    }
}

/// Why an instruction was rejected. A rejected instruction changes no account.
#[derive(Clone, Copy, Debug, PartialEq, Eq, Structural)]
pub enum FaucetError {
    /// The faucet name is 32 bytes or longer.
    NameTooLong,
    /// The claim window does not end after it starts.
    InvalidTimeRange,
    /// The faucet is paused.
    Paused,
    /// The claim window has not opened yet.
    NotStarted,
    /// The claim window has closed.
    Ended,
    /// The recipient has no whitelist entry, or its flag is off.
    NotWhitelisted,
    /// The backend key is not the faucet's, or it did not sign.
    UnauthorizedBackend,
    /// A custom-amount claim would pay nothing.
    InvalidAmount,
    /// The signer is not the faucet's authority.
    Unauthorized,
    /// A faucet already exists at this address.
    AlreadyInitialized,
    /// The recipient already holds a receipt for this faucet.
    AlreadyClaimed,
    /// The vault account given is not the faucet's vault.
    WrongVault,
    /// The withdrawal destination is not owned by the faucet's authority.
    InvalidDestination,
}

/// The longest faucet name, in bytes, is one less than this.
pub const NAME_LIMIT: usize = 32;

/// The configuration and status of one distribution campaign.
#[derive(Clone, Debug, PartialEq, Eq)]
pub struct FaucetState {
    pub authority: Address,
    pub token_mint: Address,
    pub token_vault: Address,
    pub backend_signer: Address,
    pub fee_vault: Address,
    /// The name as UTF-8 bytes.
    pub name: Vec<u8>,
    pub claim_amount: u64,
    pub start_time: i64,
    pub end_time: i64,
    pub claim_mode: ClaimMode,
    pub paused: bool,
    /// The bump that completes the faucet's custody address derivation.
    pub bump: u8,
    /// The authority the faucet's address was derived from. It stays fixed
    /// when the authority changes, so the custody seeds keep producing the
    /// address that owns the vault.
    pub seed_authority: Address,
    /// The name the faucet's address was derived from, fixed likewise when
    /// the faucet is renamed.
    pub seed_name: Vec<u8>,
}

/// The mathematical value of a [`FaucetState`].
pub struct FaucetView {
    pub authority: Address,
    pub token_mint: Address,
    pub token_vault: Address,
    pub backend_signer: Address,
    pub fee_vault: Address,
    pub name: Seq<u8>,
    pub claim_amount: u64,
    pub start_time: i64,
    pub end_time: i64,
    pub claim_mode: ClaimMode,
    pub paused: bool,
    pub bump: u8,
    pub seed_authority: Address,
    pub seed_name: Seq<u8>,
}

impl View for FaucetState {
    type V = FaucetView;

    open spec fn view(&self) -> FaucetView {
        FaucetView {
            authority: self.authority,
            token_mint: self.token_mint,
            token_vault: self.token_vault,
            backend_signer: self.backend_signer,
            fee_vault: self.fee_vault,
            name: self.name@,
            claim_amount: self.claim_amount,
            start_time: self.start_time,
            end_time: self.end_time,
            claim_mode: self.claim_mode,
            paused: self.paused,
            bump: self.bump,
            seed_authority: self.seed_authority,
            seed_name: self.seed_name@,
        }
    }
}

impl FaucetView {
    /// Every faucet the program writes has a short name and a window that ends
    /// after it starts.
    pub open spec fn wf(self) -> bool {
        &&& self.name.len() < NAME_LIMIT
        &&& self.start_time < self.end_time
    }
}

/// The receipt of a successful claim; at most one exists per faucet and
/// recipient.
#[derive(Clone, Copy, Debug, PartialEq, Eq)]
pub struct ClaimStatus {
    pub claimer: Address,
    pub amount: u64,
    pub claim_time: i64,
    pub claimed: bool,
}

/// A recipient's standing with one faucet. The flag, not the entry's
/// existence, decides eligibility.
#[derive(Clone, Copy, Debug, PartialEq, Eq, Structural)]
pub struct WhitelistEntry {
    pub is_whitelisted: bool,
    pub custom_amount: u64,
}

/// The bumps found when the faucet's address was derived.
#[derive(Clone, Copy, Debug, PartialEq, Eq, Structural)]
pub struct FaucetBumps {
    pub faucet: u8,
}

/// Emitted when a faucet is created.
#[derive(Clone, Debug, PartialEq, Eq)]
pub struct FaucetCreated {
    pub faucet: Address,
    pub authority: Address,
    pub name: Vec<u8>,
    pub mint: Address,
}

/// Emitted when a claim pays out.
#[derive(Clone, Copy, Debug, PartialEq, Eq)]
pub struct Claimed {
    pub faucet: Address,
    pub user: Address,
    pub amount: u64,
}

/// Emitted when a faucet is funded.
#[derive(Clone, Copy, Debug, PartialEq, Eq)]
pub struct Funded {
    pub faucet: Address,
    pub amount: u64,
    pub funder: Address,
}

} // verus!
