//! Properties that relate several instructions, or hold for every input.
use vstd::prelude::*;
use crate::accounts::{AddToWhitelist, Claim, FundFaucet};
use crate::claim::{claim_outcome, eligibility, receipt_after};
use crate::custody::{custody_of, TokenTransfer};
use crate::address::Address;
use crate::funding::{backend_fee_of, deposit_of, funding_legs, leg_if_positive, platform_fee_of};
use crate::manage::{initialize_outcome, whitelist_after};
use crate::state::{ClaimMode, ClaimStatus, FaucetError, FaucetView, WhitelistEntry};

verus! {

/// A faucet whose window does not end after it starts is never created,
/// whatever its name; a free address and a short name make the error
/// `InvalidTimeRange`.
pub proof fn empty_window_is_rejected(exists: bool, name: Seq<u8>, start_time: i64, end_time: i64)
    requires
        end_time <= start_time,
    ensures
        initialize_outcome(exists, name, start_time, end_time) is Err,
        !exists && name.len() < 32 ==> initialize_outcome(exists, name, start_time, end_time)
            == Err::<(), FaucetError>(FaucetError::InvalidTimeRange),
{
}

/// Once a claim succeeds, every later claim by the same recipient on the same
/// faucet fails with `AlreadyClaimed`, whatever the faucet's configuration,
/// mode, whitelist entry, signer or time by then.
pub proof fn second_claim_is_replay(
    f: FaucetView,
    accounts: Claim,
    entry: Option<WhitelistEntry>,
    receipt: Option<ClaimStatus>,
    now: i64,
    later_f: FaucetView,
    later_accounts: Claim,
    later_entry: Option<WhitelistEntry>,
    later_now: i64,
)
    requires
        claim_outcome(f, accounts, entry, receipt, now) is Ok,
    ensures
        claim_outcome(
            later_f,
            later_accounts,
            later_entry,
            receipt_after(f, accounts, entry, receipt, now),
            later_now,
        ) == Err::<u64, FaucetError>(FaucetError::AlreadyClaimed),
{
}

/// The sum of the amounts of a list of transfers.
pub open spec fn total_amount(legs: Seq<TokenTransfer>) -> int
    decreases legs.len(),
{
    if legs.len() == 0 {
        0
    } else {
        total_amount(legs.drop_last()) + legs.last().amount
    }
}

proof fn total_amount_append(a: Seq<TokenTransfer>, b: Seq<TokenTransfer>)
    ensures
        total_amount(a + b) == total_amount(a) + total_amount(b),
    decreases b.len(),
{
    if b.len() == 0 {
        assert(a + b =~= a);
    } else {
        assert((a + b).drop_last() =~= a + b.drop_last());
        total_amount_append(a, b.drop_last());
    }
}

/// A deposit splits exactly: the two fees and the principal add up to the
/// deposit, none is negative, and the transfers of a deposit move exactly the
/// deposit in total, skipping every leg that would move nothing.
pub proof fn funding_split_is_exact(accounts: FundFaucet, amount: u64)
    ensures
        backend_fee_of(amount as int) + platform_fee_of(amount as int) + deposit_of(amount as int)
            == amount,
        0 <= backend_fee_of(amount as int) <= platform_fee_of(amount as int),
        0 <= deposit_of(amount as int),
        total_amount(funding_legs(accounts, amount)) == amount,
        forall|i: int|
            0 <= i < funding_legs(accounts, amount).len() ==> #[trigger] funding_legs(
                accounts,
                amount,
            )[i].amount > 0,
{
    let a = amount as int;
    assert(a * 1 / 100 <= a * 2 / 100) by (nonlinear_arith)
        requires
            a >= 0,
    ;
    assert(0 <= a * 1 / 100) by (nonlinear_arith)
        requires
            a >= 0,
    ;
    assert(a * 1 / 100 + a * 2 / 100 <= a) by (nonlinear_arith)
        requires
            a >= 0,
    ;
    let b = backend_fee_of(a);
    let p = platform_fee_of(a);
    let d = deposit_of(a);
    let backend = leg_if_positive(accounts, accounts.backend_wallet, b);
    let platform = leg_if_positive(accounts, accounts.platform_fee_account, p);
    let vault = leg_if_positive(accounts, accounts.token_vault, d);
    total_amount_append(backend + platform, vault);
    total_amount_append(backend, platform);
    leg_total(accounts, accounts.backend_wallet, b);
    leg_total(accounts, accounts.platform_fee_account, p);
    leg_total(accounts, accounts.token_vault, d);
    let legs = funding_legs(accounts, amount);
    assert forall|i: int| 0 <= i < legs.len() implies #[trigger] legs[i].amount > 0 by {
        let bp = backend + platform;
        if i < backend.len() {
            assert(legs[i] == backend[i]);
        } else if i < bp.len() {
            assert(legs[i] == platform[i - backend.len()]);
        } else {
            assert(legs[i] == vault[i - bp.len()]);
        }
    }
}

proof fn leg_total(accounts: FundFaucet, to: Address, amount: int)
    requires
        0 <= amount <= u64::MAX,
    ensures
        total_amount(leg_if_positive(accounts, to, amount)) == amount,
{
    let s = leg_if_positive(accounts, to, amount);
    if amount > 0 {
        assert(s.drop_last() =~= Seq::<TokenTransfer>::empty());
        assert(total_amount(s.drop_last()) == 0);
    }
}

/// The claim window is closed at both ends. On a well-formed, unpaused faucet
/// with no receipt, a claim before `start_time` fails with `NotStarted` and one
/// after `end_time` with `Ended`, whoever makes it; for an eligible claimant it
/// succeeds exactly when `start_time <= now <= end_time`, so in particular at
/// `start_time` and at `end_time`.
pub proof fn claim_window_is_inclusive(
    f: FaucetView,
    accounts: Claim,
    entry: Option<WhitelistEntry>,
    now: i64,
)
    requires
        f.wf(),
        !f.paused,
    ensures
        now < f.start_time ==> claim_outcome(f, accounts, entry, None, now) == Err::<
            u64,
            FaucetError,
        >(FaucetError::NotStarted),
        now > f.end_time ==> claim_outcome(f, accounts, entry, None, now) == Err::<
            u64,
            FaucetError,
        >(FaucetError::Ended),
        eligibility(f, accounts, entry) is Ok ==> {
            &&& claim_outcome(f, accounts, entry, None, now) is Ok <==> f.start_time <= now
                <= f.end_time
            &&& claim_outcome(f, accounts, entry, None, f.start_time) is Ok
            &&& claim_outcome(f, accounts, entry, None, f.end_time) is Ok
        },
{
}

/// In whitelist mode an entry whose flag is off never admits a claim, whatever
/// amount it still records.
pub proof fn unflagged_entry_is_not_whitelisted(
    f: FaucetView,
    accounts: Claim,
    entry: WhitelistEntry,
    now: i64,
)
    requires
        f.claim_mode == ClaimMode::Whitelist,
        !entry.is_whitelisted,
        !f.paused,
        f.start_time <= now <= f.end_time,
    ensures
        claim_outcome(f, accounts, Some(entry), None, now) == Err::<u64, FaucetError>(
            FaucetError::NotWhitelisted,
        ),
{
}

/// In custom-amount mode a claim pays the entry's own amount, not the
/// faucet's default.
pub proof fn custom_amount_is_paid(f: FaucetView, accounts: Claim, entry: WhitelistEntry, now: i64)
    requires
        f.claim_mode == ClaimMode::CustomAmount,
        entry.is_whitelisted,
        entry.custom_amount > 0,
        !f.paused,
        f.start_time <= now <= f.end_time,
    ensures
        claim_outcome(f, accounts, Some(entry), None, now) == Ok::<u64, FaucetError>(
            entry.custom_amount,
        ),
{
}

/// Whitelist writes converge: writing the same entry twice leaves what
/// writing it once leaves.
pub proof fn whitelist_write_is_idempotent(
    f: FaucetView,
    accounts: AddToWhitelist,
    entry: Option<WhitelistEntry>,
    written: WhitelistEntry,
)
    ensures
        whitelist_after(f, accounts, whitelist_after(f, accounts, entry, written), written)
            == whitelist_after(f, accounts, entry, written),
{
}

/// Renaming a faucet or handing it to a new authority leaves its custody
/// authority as it was, so the seeds keep producing the address that owns the
/// vault.
pub proof fn custody_survives_management(
    faucet: Address,
    f: FaucetView,
    new_name: Seq<u8>,
    new_authority: Address,
    paused: bool,
)
    ensures
        custody_of(faucet, FaucetView { name: new_name, ..f }) == custody_of(faucet, f),
        custody_of(faucet, FaucetView { authority: new_authority, ..f }) == custody_of(faucet, f),
        custody_of(faucet, FaucetView { paused, ..f }) == custody_of(faucet, f),
{
}

} // verus!
