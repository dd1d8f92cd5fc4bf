//! Creating a faucet, and the authority-gated instructions that change it,
//! its whitelist, or drain its vault.
use vstd::prelude::*;
use crate::accounts::{AddToWhitelist, InitializeFaucet, UpdateFaucet, Withdraw};
use crate::address::Address;
use crate::custody::{custody_transfer, is_custody_transfer, TokenTransfer};
use crate::state::{
    ClaimMode, FaucetBumps, FaucetCreated, FaucetError, FaucetState, FaucetView, WhitelistEntry,
    NAME_LIMIT,
};

verus! {

/// Whether a faucet may be created: the address must be free, the name short
/// and the window must end after it starts, checked in that order.
pub open spec fn initialize_outcome(
    exists: bool,
    name: Seq<u8>,
    start_time: i64,
    end_time: i64,
) -> Result<(), FaucetError> {
    if exists {
        Err(FaucetError::AlreadyInitialized)
    } else if name.len() >= NAME_LIMIT {
        Err(FaucetError::NameTooLong)
    } else if end_time <= start_time {
        Err(FaucetError::InvalidTimeRange)
    } else {
        Ok(())
    }
}

/// The record of a newly created faucet: unpaused, owned by the signer.
pub open spec fn initialized_faucet(
    accounts: InitializeFaucet,
    name: Seq<u8>,
    claim_amount: u64,
    start_time: i64,
    end_time: i64,
    claim_mode: ClaimMode,
    bumps: FaucetBumps,
) -> FaucetView {
    FaucetView {
        authority: accounts.authority,
        token_mint: accounts.token_mint,
        token_vault: accounts.token_vault,
        backend_signer: accounts.backend_signer,
        fee_vault: accounts.fee_vault,
        name,
        claim_amount,
        start_time,
        end_time,
        claim_mode,
        paused: false,
        bump: bumps.faucet,
        seed_authority: accounts.authority,
        seed_name: name,
    }
}

/// Creates a faucet in the slot at `accounts.faucet`, which must be empty.
/// On success the slot holds the new record and the result is the creation
/// event; on failure the slot is unchanged.
pub fn initialize_faucet(
    accounts: &InitializeFaucet,
    faucet: &mut Option<FaucetState>,
    name: Vec<u8>,
    claim_amount: u64,
    start_time: i64,
    end_time: i64,
    claim_mode: ClaimMode,
    bumps: FaucetBumps,
) -> (r: Result<FaucetCreated, FaucetError>)
    ensures
        match initialize_outcome(old(faucet).is_some(), name@, start_time, end_time) {
            Ok(_) => {
                &&& r matches Ok(ev) && ev.faucet == accounts.faucet && ev.authority
                    == accounts.authority && ev.name@ == name@ && ev.mint == accounts.token_mint
                &&& *final(faucet) matches Some(f) && f@ == initialized_faucet(
                    *accounts,
                    name@,
                    claim_amount,
                    start_time,
                    end_time,
                    claim_mode,
                    bumps,
                )
                &&& (*final(faucet)).unwrap()@.wf()
            },
            Err(e) => r matches Err(e2) && e2 == e && *final(faucet) == *old(faucet),
        },
{
    if faucet.is_some() {
        return Err(FaucetError::AlreadyInitialized);
    }
    if name.len() >= NAME_LIMIT {
        return Err(FaucetError::NameTooLong);
    }
    if end_time <= start_time {
        return Err(FaucetError::InvalidTimeRange);
    }
    let event = FaucetCreated {
        faucet: accounts.faucet,
        authority: accounts.authority,
        name: name.clone(),
        mint: accounts.token_mint,
    };
    let seed_name = name.clone();
    *faucet = Some(
        FaucetState {
            authority: accounts.authority,
            token_mint: accounts.token_mint,
            token_vault: accounts.token_vault,
            backend_signer: accounts.backend_signer,
            fee_vault: accounts.fee_vault,
            name,
            claim_amount,
            start_time,
            end_time,
            claim_mode,
            paused: false,
            bump: bumps.faucet,
            seed_authority: accounts.authority,
            seed_name,
        },
    );
    Ok(event)
}

/// Rejects a signer that is not the faucet's authority.
pub fn check_authority(faucet: &FaucetState, signer: Address) -> (r: Result<(), FaucetError>)
    ensures
        r is Ok <==> signer == faucet.authority,
        r matches Err(e) ==> e == FaucetError::Unauthorized,
{
    if signer == faucet.authority {
        Ok(())
    } else {
        Err(FaucetError::Unauthorized)
    }
}

/// Whether a withdrawal may go ahead: the signer must be the faucet's
/// authority, the source must be the faucet's own vault, and the destination
/// must be a balance the authority owns, checked in that order.
pub open spec fn withdraw_outcome(f: FaucetView, accounts: Withdraw) -> Result<(), FaucetError> {
    if accounts.authority != f.authority {
        Err(FaucetError::Unauthorized)
    } else if accounts.token_vault != f.token_vault {
        Err(FaucetError::WrongVault)
    } else if accounts.admin_token_owner != f.authority {
        Err(FaucetError::InvalidDestination)
    } else {
        Ok(())
    }
}

/// Moves `amount` from the vault to the authority's own account, signed by
/// the custody authority. Only the faucet's authority may do this; no bound
/// but the vault's balance applies, and the ledger's transfer enforces that.
pub fn withdraw(faucet: &FaucetState, accounts: &Withdraw, amount: u64) -> (r: Result<
    TokenTransfer,
    FaucetError,
>)
    ensures
        match withdraw_outcome(faucet@, *accounts) {
            Ok(_) => r matches Ok(t) && is_custody_transfer(
                t,
                accounts.faucet,
                faucet@,
                accounts.token_vault,
                accounts.admin_token_account,
                amount,
            ),
            Err(e) => r matches Err(e2) && e2 == e,
        },
{
    match check_authority(faucet, accounts.authority) {
        Ok(()) => {},
        Err(e) => return Err(e),
    }
    if accounts.token_vault != faucet.token_vault {
        return Err(FaucetError::WrongVault);
    }
    if accounts.admin_token_owner != faucet.authority {
        return Err(FaucetError::InvalidDestination);
    }
    Ok(
        custody_transfer(
            accounts.faucet,
            faucet,
            accounts.token_vault,
            accounts.admin_token_account,
            amount,
        ),
    )
}

/// The whitelist slot after an authority-gated write of `written`.
pub open spec fn whitelist_after(
    f: FaucetView,
    accounts: AddToWhitelist,
    old_entry: Option<WhitelistEntry>,
    written: WhitelistEntry,
) -> Option<WhitelistEntry> {
    if accounts.authority == f.authority {
        Some(written)
    } else {
        old_entry
    }
}

/// Enrolls `accounts.user`, creating or overwriting its entry.
pub fn add_to_whitelist(
    faucet: &FaucetState,
    accounts: &AddToWhitelist,
    whitelist_entry: &mut Option<WhitelistEntry>,
    custom_amount: u64,
) -> (r: Result<(), FaucetError>)
    ensures
        r is Ok <==> accounts.authority == faucet.authority,
        r matches Err(e) ==> e == FaucetError::Unauthorized,
        *final(whitelist_entry) == whitelist_after(
            faucet@,
            *accounts,
            *old(whitelist_entry),
            WhitelistEntry { is_whitelisted: true, custom_amount },
        ),
{
    match check_authority(faucet, accounts.authority) {
        Ok(()) => {},
        Err(e) => return Err(e),
    }
    *whitelist_entry = Some(WhitelistEntry { is_whitelisted: true, custom_amount });
    Ok(())
}

/// Withdraws `accounts.user`'s eligibility: the entry stays, with its flag
/// off and its amount zero.
pub fn remove_from_whitelist(
    faucet: &FaucetState,
    accounts: &AddToWhitelist,
    whitelist_entry: &mut Option<WhitelistEntry>,
) -> (r: Result<(), FaucetError>)
    ensures
        r is Ok <==> accounts.authority == faucet.authority,
        r matches Err(e) ==> e == FaucetError::Unauthorized,
        *final(whitelist_entry) == whitelist_after(
            faucet@,
            *accounts,
            *old(whitelist_entry),
            WhitelistEntry { is_whitelisted: false, custom_amount: 0 },
        ),
{
    match check_authority(faucet, accounts.authority) {
        Ok(()) => {},
        Err(e) => return Err(e),
    }
    *whitelist_entry = Some(WhitelistEntry { is_whitelisted: false, custom_amount: 0 });
    Ok(())
}

/// Sets the claim amount and window, and the backend key when one is given.
/// The authority is checked first, then the window.
pub fn update_faucet_config(
    faucet: &mut FaucetState,
    accounts: &UpdateFaucet,
    new_amount: u64,
    new_start_time: i64,
    new_end_time: i64,
    new_backend_signer: Option<Address>,
) -> (r: Result<(), FaucetError>)
    ensures
        old(faucet)@.wf() ==> final(faucet)@.wf(),
        accounts.authority != old(faucet).authority ==> r == Err::<(), FaucetError>(FaucetError::Unauthorized),
        accounts.authority == old(faucet).authority && new_end_time <= new_start_time ==> r == Err::<(), FaucetError>(FaucetError::InvalidTimeRange),
        r is Ok <==> accounts.authority == old(faucet).authority && new_start_time < new_end_time,
        r is Err ==> final(faucet)@ == old(faucet)@,
        r is Ok ==> final(faucet)@ == (FaucetView {
            claim_amount: new_amount,
            start_time: new_start_time,
            end_time: new_end_time,
            backend_signer: match new_backend_signer {
                Some(b) => b,
                None => old(faucet).backend_signer,
            },
            ..old(faucet)@
        }),
{
    match check_authority(faucet, accounts.authority) {
        Ok(()) => {},
        Err(e) => return Err(e),
    }
    if new_end_time <= new_start_time {
        return Err(FaucetError::InvalidTimeRange);
    }
    faucet.claim_amount = new_amount;
    faucet.start_time = new_start_time;
    faucet.end_time = new_end_time;
    if let Some(backend) = new_backend_signer {
        faucet.backend_signer = backend;
    }
    Ok(())
}

/// Pauses or resumes claims.
pub fn set_paused(faucet: &mut FaucetState, accounts: &UpdateFaucet, paused: bool) -> (r: Result<
    (),
    FaucetError,
>)
    ensures
        old(faucet)@.wf() ==> final(faucet)@.wf(),
        r is Ok <==> accounts.authority == old(faucet).authority,
        r is Err ==> r == Err::<(), FaucetError>(FaucetError::Unauthorized) && final(faucet)@ == old(faucet)@,
        r is Ok ==> final(faucet)@ == (FaucetView { paused, ..old(faucet)@ }),
{
    match check_authority(faucet, accounts.authority) {
        Ok(()) => {},
        Err(e) => return Err(e),
    }
    faucet.paused = paused;
    Ok(())
}

/// Renames the faucet; the new name must be shorter than 32 bytes. The
/// faucet's address and its custody seeds stay those of the creation name.
pub fn update_name(faucet: &mut FaucetState, accounts: &UpdateFaucet, new_name: Vec<u8>) -> (r:
    Result<(), FaucetError>)
    ensures
        old(faucet)@.wf() ==> final(faucet)@.wf(),
        accounts.authority != old(faucet).authority ==> r == Err::<(), FaucetError>(FaucetError::Unauthorized),
        accounts.authority == old(faucet).authority && new_name@.len() >= NAME_LIMIT ==> r == Err::<(), FaucetError>(FaucetError::NameTooLong),
        r is Ok <==> accounts.authority == old(faucet).authority && new_name@.len() < NAME_LIMIT,
        r is Err ==> final(faucet)@ == old(faucet)@,
        r is Ok ==> final(faucet)@ == (FaucetView { name: new_name@, ..old(faucet)@ }),
{
    match check_authority(faucet, accounts.authority) {
        Ok(()) => {},
        Err(e) => return Err(e),
    }
    if new_name.len() >= NAME_LIMIT {
        return Err(FaucetError::NameTooLong);
    }
    faucet.name = new_name;
    Ok(())
}

/// Hands the faucet to `new_authority`, effective for every later
/// authority-gated instruction. The custody seeds, and so the vault's owner,
/// stay those of the creation authority.
pub fn transfer_authority(
    faucet: &mut FaucetState,
    accounts: &UpdateFaucet,
    new_authority: Address,
) -> (r: Result<(), FaucetError>)
    ensures
        old(faucet)@.wf() ==> final(faucet)@.wf(),
        r is Ok <==> accounts.authority == old(faucet).authority,
        r is Err ==> r == Err::<(), FaucetError>(FaucetError::Unauthorized) && final(faucet)@ == old(faucet)@,
        r is Ok ==> final(faucet)@ == (FaucetView { authority: new_authority, ..old(faucet)@ }),
{
    match check_authority(faucet, accounts.authority) {
        Ok(()) => {},
        Err(e) => return Err(e),
    }
    faucet.authority = new_authority;
    Ok(())
}

} // verus!
