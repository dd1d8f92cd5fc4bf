//! Funding: a deposit is split into a 1% backend fee, a 2% platform fee and
//! the principal that reaches the faucet's vault.
use vstd::prelude::*;
use crate::accounts::FundFaucet;
use crate::address::Address;
use crate::custody::{TokenTransfer, TransferSigner};
use crate::state::{FaucetError, FaucetState, Funded};

verus! {

/// The backend's share of a deposit: one percent, rounded down.
pub open spec fn backend_fee_of(amount: int) -> int {
    amount * 1 / 100
}

/// The platform's share of a deposit: two percent, rounded down.
pub open spec fn platform_fee_of(amount: int) -> int {
    amount * 2 / 100
}

/// What reaches the vault: the rest of the deposit.
pub open spec fn deposit_of(amount: int) -> int {
    amount - backend_fee_of(amount) - platform_fee_of(amount)
}

/// The three legs of one deposit.
#[derive(Clone, Copy, Debug, PartialEq, Eq, Structural)]
pub struct FeeSplit {
    pub backend_fee: u64,
    pub platform_fee: u64,
    pub deposit: u64,
}

/// Splits a deposit. The platform fee is computed without forming
/// `amount * 2`, so every `u64` deposit is accepted.
pub fn split_funding(amount: u64) -> (r: FeeSplit)
    ensures
        r.backend_fee == backend_fee_of(amount as int),
        r.platform_fee == platform_fee_of(amount as int),
        r.deposit == deposit_of(amount as int),
{
    let backend_fee: u64 = amount / 100;
    let platform_fee: u64 = (amount / 100) * 2 + ((amount % 100) * 2) / 100;
    proof {
        let a = amount as int;
        assert(a == (a / 100) * 100 + a % 100) by (nonlinear_arith);
        assert(a * 2 == (a / 100) * 2 * 100 + (a % 100) * 2) by (nonlinear_arith);
        assert((a * 2) / 100 == (a / 100) * 2 + ((a % 100) * 2) / 100) by (nonlinear_arith)
            requires
                a * 2 == (a / 100) * 2 * 100 + (a % 100) * 2,
                0 <= a % 100 < 100,
        ;
        assert(platform_fee <= amount);
    }
    let deposit: u64 = amount - backend_fee - platform_fee;
    FeeSplit { backend_fee, platform_fee, deposit }
}

/// A transfer out of the funder's own balance, signed by the funder.
pub open spec fn funder_leg(accounts: FundFaucet, to: Address, amount: u64) -> TokenTransfer {
    TokenTransfer {
        from: accounts.funder_token_account,
        to,
        amount,
        signer: TransferSigner::Owner(accounts.funder),
    }
}

/// One leg of a deposit, or none when it would move nothing.
pub open spec fn leg_if_positive(accounts: FundFaucet, to: Address, amount: int) -> Seq<
    TokenTransfer,
> {
    if amount > 0 {
        seq![funder_leg(accounts, to, amount as u64)]
    } else {
        Seq::empty()
    }
}

/// The transfers of a deposit, in order: the backend fee, the platform fee and
/// the principal to the vault, each only when it is not zero.
pub open spec fn funding_legs(accounts: FundFaucet, amount: u64) -> Seq<TokenTransfer> {
    leg_if_positive(accounts, accounts.backend_wallet, backend_fee_of(amount as int))
        + leg_if_positive(accounts, accounts.platform_fee_account, platform_fee_of(amount as int))
        + leg_if_positive(accounts, accounts.token_vault, deposit_of(amount as int))
}

/// Funds the faucet with `amount` from the funder's balance. The vault given
/// must be the faucet's own; otherwise nothing is transferred and the result
/// is `WrongVault`. On success the result lists the transfers to perform, all
/// in the same instruction, and the event to emit; the ledger applies all of
/// them or none.
pub fn fund_faucet(faucet: &FaucetState, accounts: &FundFaucet, amount: u64) -> (r: Result<
    (Vec<TokenTransfer>, Funded),
    FaucetError,
>)
    ensures
        accounts.token_vault != faucet.token_vault ==> (r matches Err(e) && e
            == FaucetError::WrongVault),
        accounts.token_vault == faucet.token_vault ==> (r matches Ok((legs, ev)) && legs@
            == funding_legs(*accounts, amount) && ev == (Funded {
            faucet: accounts.faucet,
            amount,
            funder: accounts.funder,
        })),
{
    if accounts.token_vault != faucet.token_vault {
        return Err(FaucetError::WrongVault);
    }
    let split = split_funding(amount);
    let mut legs: Vec<TokenTransfer> = Vec::new();
    if split.backend_fee > 0 {
        legs.push(
            TokenTransfer {
                from: accounts.funder_token_account,
                to: accounts.backend_wallet,
                amount: split.backend_fee,
                signer: TransferSigner::Owner(accounts.funder),
            },
        );
    }
    if split.platform_fee > 0 {
        legs.push(
            TokenTransfer {
                from: accounts.funder_token_account,
                to: accounts.platform_fee_account,
                amount: split.platform_fee,
                signer: TransferSigner::Owner(accounts.funder),
            },
        );
    }
    if split.deposit > 0 {
        legs.push(
            TokenTransfer {
                from: accounts.funder_token_account,
                to: accounts.token_vault,
                amount: split.deposit,
                signer: TransferSigner::Owner(accounts.funder),
            },
        );
    }
    assert(legs@ =~= funding_legs(*accounts, amount));
    Ok((legs, Funded { faucet: accounts.faucet, amount, funder: accounts.funder }))
}

} // verus!
