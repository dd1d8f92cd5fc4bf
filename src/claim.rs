//! Claims: the eligibility check of each mode, the time window, and the
//! receipt that makes a second claim by the same recipient impossible.
use vstd::prelude::*;
use crate::accounts::Claim;
use crate::custody::{custody_transfer, is_custody_transfer, TokenTransfer};
use crate::state::{ClaimMode, ClaimStatus, Claimed, FaucetError, FaucetState, FaucetView, WhitelistEntry};

verus! {

/// What the faucet's mode allows this claim to receive, or why it refuses.
pub open spec fn eligibility(
    f: FaucetView,
    accounts: Claim,
    entry: Option<WhitelistEntry>,
) -> Result<u64, FaucetError> {
    match f.claim_mode {
        ClaimMode::Whitelist => {
            if entry matches Some(e) && e.is_whitelisted {
                Ok(f.claim_amount)
            } else {
                Err(FaucetError::NotWhitelisted)
            }
        },
        ClaimMode::BackendSigned => {
            if accounts.backend_signer == f.backend_signer && accounts.backend_signer_is_signer {
                Ok(f.claim_amount)
            } else {
                Err(FaucetError::UnauthorizedBackend)
            }
        },
        ClaimMode::CustomAmount => match entry {
            Some(e) if e.is_whitelisted => {
                if e.custom_amount > 0 {
                    Ok(e.custom_amount)
                } else {
                    Err(FaucetError::InvalidAmount)
                }
            },
            _ => Err(FaucetError::NotWhitelisted),
        },
    }
}

/// The amount a claim pays at time `now`, or the error it fails with. An
/// existing receipt rejects the claim before anything else is looked at; then
/// the pause flag, the window (both ends inclusive), and the mode's check.
pub open spec fn claim_outcome(
    f: FaucetView,
    accounts: Claim,
    entry: Option<WhitelistEntry>,
    receipt: Option<ClaimStatus>,
    now: i64,
) -> Result<u64, FaucetError> {
    if receipt.is_some() {
        Err(FaucetError::AlreadyClaimed)
    } else if f.paused {
        Err(FaucetError::Paused)
    } else if now < f.start_time {
        Err(FaucetError::NotStarted)
    } else if now > f.end_time {
        Err(FaucetError::Ended)
    } else {
        eligibility(f, accounts, entry)
    }
}

/// The receipt a successful claim of `amount` at `now` records.
pub open spec fn receipt_for(accounts: Claim, amount: u64, now: i64) -> ClaimStatus {
    ClaimStatus { claimer: accounts.recipient, amount, claim_time: now, claimed: true }
}

/// The receipt slot after a claim: the new receipt on success, else as it was.
pub open spec fn receipt_after(
    f: FaucetView,
    accounts: Claim,
    entry: Option<WhitelistEntry>,
    receipt: Option<ClaimStatus>,
    now: i64,
) -> Option<ClaimStatus> {
    match claim_outcome(f, accounts, entry, receipt, now) {
        Ok(amount) => Some(receipt_for(accounts, amount, now)),
        Err(_) => receipt,
    }
}

/// Decides, for the faucet's mode, whether this claim is allowed and for how
/// much.
pub fn resolve_eligibility(
    faucet: &FaucetState,
    accounts: &Claim,
    whitelist_entry: Option<WhitelistEntry>,
) -> (r: Result<u64, FaucetError>)
    ensures
        r == eligibility(faucet@, *accounts, whitelist_entry),
{
    match faucet.claim_mode {
        ClaimMode::Whitelist => match whitelist_entry {
            Some(e) if e.is_whitelisted => Ok(faucet.claim_amount),
            _ => Err(FaucetError::NotWhitelisted),
        },
        ClaimMode::BackendSigned => {
            if accounts.backend_signer == faucet.backend_signer && accounts.backend_signer_is_signer {
                Ok(faucet.claim_amount)
            } else {
                Err(FaucetError::UnauthorizedBackend)
            }
        },
        ClaimMode::CustomAmount => match whitelist_entry {
            Some(e) if e.is_whitelisted => {
                if e.custom_amount > 0 {
                    Ok(e.custom_amount)
                } else {
                    Err(FaucetError::InvalidAmount)
                }
            },
            _ => Err(FaucetError::NotWhitelisted),
        },
    }
}

/// Claims from the faucet at time `now`. `claim_status` is the recipient's
/// receipt slot for this faucet: a claim succeeds only into an empty slot and
/// fills it, so the receipt is written before the payout is handed back. On
/// success the result is the payout from the vault, signed by the faucet's
/// custody authority, and the event to emit; on failure nothing changes.
pub fn claim(
    faucet: &FaucetState,
    accounts: &Claim,
    whitelist_entry: Option<WhitelistEntry>,
    claim_status: &mut Option<ClaimStatus>,
    now: i64,
) -> (r: Result<(TokenTransfer, Claimed), FaucetError>)
    ensures
        *final(claim_status) == receipt_after(
            faucet@,
            *accounts,
            whitelist_entry,
            *old(claim_status),
            now,
        ),
        match claim_outcome(faucet@, *accounts, whitelist_entry, *old(claim_status), now) {
            Ok(amount) => r matches Ok((t, ev)) && is_custody_transfer(
                t,
                accounts.faucet,
                faucet@,
                accounts.token_vault,
                accounts.recipient_token_account,
                amount,
            ) && ev == (Claimed { faucet: accounts.faucet, user: accounts.recipient, amount }),
            Err(e) => r matches Err(e2) && e2 == e,
        },
{
    if claim_status.is_some() {
        return Err(FaucetError::AlreadyClaimed);
    }
    if faucet.paused {
        return Err(FaucetError::Paused);
    }
    if now < faucet.start_time {
        return Err(FaucetError::NotStarted);
    }
    if now > faucet.end_time {
        return Err(FaucetError::Ended);
    }
    let amount = match resolve_eligibility(faucet, accounts, whitelist_entry) {
        Ok(a) => a,
        Err(e) => return Err(e),
    };
    *claim_status = Some(
        ClaimStatus { claimer: accounts.recipient, amount, claim_time: now, claimed: true },
    );
    let transfer = custody_transfer(
        accounts.faucet,
        faucet,
        accounts.token_vault,
        accounts.recipient_token_account,
        amount,
    );
    Ok((transfer, Claimed { faucet: accounts.faucet, user: accounts.recipient, amount }))
}

} // verus!
