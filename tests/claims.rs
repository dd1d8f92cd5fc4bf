use faucet_drops::{
    add_to_whitelist, claim, initialize_faucet, remove_from_whitelist, resolve_eligibility,
    AddToWhitelist, Address, Claim, ClaimMode, ClaimStatus, Claimed, FaucetBumps, FaucetError,
    FaucetState, InitializeFaucet, TransferSigner, WhitelistEntry,
};

const T0: i64 = 1_700_000_000;

fn addr(b: u8) -> Address {
    Address::new([b; 32])
}

fn init_accounts() -> InitializeFaucet {
    InitializeFaucet {
        authority: addr(1),
        backend_signer: addr(2),
        fee_vault: addr(3),
        token_mint: addr(4),
        faucet: addr(5),
        token_vault: addr(6),
    }
}

fn new_faucet(mode: ClaimMode, claim_amount: u64) -> FaucetState {
    let mut slot: Option<FaucetState> = None;
    initialize_faucet(
        &init_accounts(),
        &mut slot,
        b"drop".to_vec(),
        claim_amount,
        T0,
        T0 + 3600,
        mode,
        FaucetBumps { faucet: 254 },
    )
    .unwrap();
    slot.unwrap()
}

fn claim_accounts(recipient: u8) -> Claim {
    Claim {
        payer: addr(recipient),
        backend_signer: addr(2),
        backend_signer_is_signer: false,
        recipient: addr(recipient),
        faucet: addr(5),
        token_vault: addr(6),
        recipient_token_account: addr(recipient + 100),
    }
}

fn whitelist_accounts(user: u8) -> AddToWhitelist {
    AddToWhitelist { authority: addr(1), faucet: addr(5), user: addr(user) }
}

#[test]
fn whitelist_scenario_pays_once() {
    let faucet = new_faucet(ClaimMode::Whitelist, 100);
    let mut entry: Option<WhitelistEntry> = None;
    add_to_whitelist(&faucet, &whitelist_accounts(9), &mut entry, 0).unwrap();
    let mut receipt: Option<ClaimStatus> = None;
    let (transfer, event) = claim(&faucet, &claim_accounts(9), entry, &mut receipt, T0 + 10).unwrap();
    assert_eq!(transfer.amount, 100);
    assert_eq!(transfer.from, addr(6));
    assert_eq!(transfer.to, addr(109));
    assert_eq!(event, Claimed { faucet: addr(5), user: addr(9), amount: 100 });
    assert_eq!(
        receipt,
        Some(ClaimStatus { claimer: addr(9), amount: 100, claim_time: T0 + 10, claimed: true })
    );
    let second = claim(&faucet, &claim_accounts(9), entry, &mut receipt, T0 + 20);
    assert_eq!(second.unwrap_err(), FaucetError::AlreadyClaimed);
    assert_eq!(receipt.unwrap().claim_time, T0 + 10);
}

#[test]
fn payout_is_signed_by_custody_authority() {
    let faucet = new_faucet(ClaimMode::Whitelist, 100);
    let entry = Some(WhitelistEntry { is_whitelisted: true, custom_amount: 0 });
    let mut receipt: Option<ClaimStatus> = None;
    let (transfer, _) = claim(&faucet, &claim_accounts(9), entry, &mut receipt, T0).unwrap();
    match transfer.signer {
        TransferSigner::Custody(c) => {
            assert_eq!(c.address(), addr(5));
            let seeds = c.seeds();
            assert_eq!(seeds.len(), 4);
            assert_eq!(seeds[0], b"faucet".to_vec());
            assert_eq!(seeds[1], vec![1u8; 32]);
            assert_eq!(seeds[2], b"drop".to_vec());
            assert_eq!(seeds[3], vec![254u8]);
        }
        TransferSigner::Owner(_) => panic!("payout must be signed by the custody authority"),
    }
}

#[test]
fn replay_rejected_in_every_mode() {
    for mode in [ClaimMode::Whitelist, ClaimMode::BackendSigned, ClaimMode::CustomAmount] {
        let faucet = new_faucet(mode, 100);
        let entry = Some(WhitelistEntry { is_whitelisted: true, custom_amount: 5 });
        let mut accounts = claim_accounts(9);
        accounts.backend_signer_is_signer = true;
        let mut receipt: Option<ClaimStatus> = None;
        assert!(claim(&faucet, &accounts, entry, &mut receipt, T0 + 1).is_ok());
        let again = claim(&faucet, &accounts, entry, &mut receipt, T0 + 2);
        assert_eq!(again.unwrap_err(), FaucetError::AlreadyClaimed);
    }
}

#[test]
fn replay_checked_before_pause() {
    let mut faucet = new_faucet(ClaimMode::Whitelist, 100);
    faucet.paused = true;
    let mut receipt = Some(ClaimStatus { claimer: addr(9), amount: 100, claim_time: T0, claimed: true });
    let r = claim(&faucet, &claim_accounts(9), None, &mut receipt, T0 + 1);
    assert_eq!(r.unwrap_err(), FaucetError::AlreadyClaimed);
}

#[test]
fn window_bounds_are_inclusive() {
    let faucet = new_faucet(ClaimMode::Whitelist, 100);
    let entry = Some(WhitelistEntry { is_whitelisted: true, custom_amount: 0 });
    for (now, expected) in [
        (T0 - 1, Err(FaucetError::NotStarted)),
        (T0, Ok(100)),
        (T0 + 3600, Ok(100)),
        (T0 + 3601, Err(FaucetError::Ended)),
    ] {
        let mut receipt: Option<ClaimStatus> = None;
        let r = claim(&faucet, &claim_accounts(9), entry, &mut receipt, now);
        assert_eq!(r.map(|(t, _)| t.amount), expected);
        assert_eq!(receipt.is_some(), expected.is_ok());
    }
}

#[test]
fn paused_faucet_rejects_claims() {
    let mut faucet = new_faucet(ClaimMode::Whitelist, 100);
    faucet.paused = true;
    let entry = Some(WhitelistEntry { is_whitelisted: true, custom_amount: 0 });
    let mut receipt: Option<ClaimStatus> = None;
    let r = claim(&faucet, &claim_accounts(9), entry, &mut receipt, T0 + 5);
    assert_eq!(r.unwrap_err(), FaucetError::Paused);
    assert!(receipt.is_none());
}

#[test]
fn unflagged_entry_is_not_whitelisted() {
    let faucet = new_faucet(ClaimMode::Whitelist, 100);
    let mut entry: Option<WhitelistEntry> = None;
    add_to_whitelist(&faucet, &whitelist_accounts(9), &mut entry, 500).unwrap();
    let stale = Some(WhitelistEntry { is_whitelisted: false, custom_amount: 500 });
    let mut receipt: Option<ClaimStatus> = None;
    let r = claim(&faucet, &claim_accounts(9), stale, &mut receipt, T0 + 5);
    assert_eq!(r.unwrap_err(), FaucetError::NotWhitelisted);
    let r = claim(&faucet, &claim_accounts(9), None, &mut receipt, T0 + 5);
    assert_eq!(r.unwrap_err(), FaucetError::NotWhitelisted);
    assert!(receipt.is_none());
}

#[test]
fn removed_user_cannot_claim() {
    let faucet = new_faucet(ClaimMode::CustomAmount, 100);
    let mut entry: Option<WhitelistEntry> = None;
    add_to_whitelist(&faucet, &whitelist_accounts(9), &mut entry, 40).unwrap();
    remove_from_whitelist(&faucet, &whitelist_accounts(9), &mut entry).unwrap();
    assert_eq!(entry, Some(WhitelistEntry { is_whitelisted: false, custom_amount: 0 }));
    let mut receipt: Option<ClaimStatus> = None;
    let r = claim(&faucet, &claim_accounts(9), entry, &mut receipt, T0 + 5);
    assert_eq!(r.unwrap_err(), FaucetError::NotWhitelisted);
}

#[test]
fn custom_amount_overrides_default() {
    let faucet = new_faucet(ClaimMode::CustomAmount, 100);
    let entry = Some(WhitelistEntry { is_whitelisted: true, custom_amount: 37 });
    let mut receipt: Option<ClaimStatus> = None;
    let (transfer, event) = claim(&faucet, &claim_accounts(9), entry, &mut receipt, T0 + 5).unwrap();
    assert_eq!(transfer.amount, 37);
    assert_eq!(event.amount, 37);
    assert_eq!(receipt.unwrap().amount, 37);
}

#[test]
fn custom_amount_zero_is_invalid() {
    let faucet = new_faucet(ClaimMode::CustomAmount, 100);
    let entry = Some(WhitelistEntry { is_whitelisted: true, custom_amount: 0 });
    let mut receipt: Option<ClaimStatus> = None;
    let r = claim(&faucet, &claim_accounts(9), entry, &mut receipt, T0 + 5);
    assert_eq!(r.unwrap_err(), FaucetError::InvalidAmount);
    assert!(receipt.is_none());
}

#[test]
fn backend_mode_needs_the_configured_signer() {
    let faucet = new_faucet(ClaimMode::BackendSigned, 100);
    let mut accounts = claim_accounts(9);
    assert_eq!(resolve_eligibility(&faucet, &accounts, None), Err(FaucetError::UnauthorizedBackend));
    accounts.backend_signer_is_signer = true;
    assert_eq!(resolve_eligibility(&faucet, &accounts, None), Ok(100));
    accounts.backend_signer = addr(77);
    assert_eq!(resolve_eligibility(&faucet, &accounts, None), Err(FaucetError::UnauthorizedBackend));
    let mut receipt: Option<ClaimStatus> = None;
    let r = claim(&faucet, &accounts, None, &mut receipt, T0 + 5);
    assert_eq!(r.unwrap_err(), FaucetError::UnauthorizedBackend);
}

#[test]
fn whitelist_requires_authority() {
    let faucet = new_faucet(ClaimMode::Whitelist, 100);
    let mut entry: Option<WhitelistEntry> = None;
    let mut accounts = whitelist_accounts(9);
    accounts.authority = addr(50);
    assert_eq!(add_to_whitelist(&faucet, &accounts, &mut entry, 10), Err(FaucetError::Unauthorized));
    assert_eq!(remove_from_whitelist(&faucet, &accounts, &mut entry), Err(FaucetError::Unauthorized));
    assert!(entry.is_none());
}

#[test]
fn whitelist_writes_are_idempotent() {
    let faucet = new_faucet(ClaimMode::Whitelist, 100);
    let mut entry: Option<WhitelistEntry> = None;
    add_to_whitelist(&faucet, &whitelist_accounts(9), &mut entry, 10).unwrap();
    let once = entry;
    add_to_whitelist(&faucet, &whitelist_accounts(9), &mut entry, 10).unwrap();
    assert_eq!(entry, once);
    remove_from_whitelist(&faucet, &whitelist_accounts(9), &mut entry).unwrap();
    let removed = entry;
    remove_from_whitelist(&faucet, &whitelist_accounts(9), &mut entry).unwrap();
    assert_eq!(entry, removed);
}
