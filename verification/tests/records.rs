use token_minter::{LocalToken, Pubkey, TokenMinter, TokenMinterError, TokenPair};

fn key(byte: u8) -> Pubkey {
    Pubkey::new_from_array([byte; 32])
}

fn minter(token_controller: Pubkey, pauser: Pubkey) -> TokenMinter {
    TokenMinter { token_controller, pauser, paused: false, bump: 254 }
}

fn pair(remote_token: Pubkey, local_token: Pubkey) -> TokenPair {
    TokenPair { remote_domain: 3, remote_token, local_token, bump: 255 }
}

fn ledger(custody: Pubkey, mint: Pubkey) -> LocalToken {
    LocalToken {
        custody,
        mint,
        burn_limit_per_message: 0,
        messages_sent: 0,
        messages_received: 0,
        amount_sent: 0,
        amount_received: 0,
        bump: 1,
        custody_bump: 2,
    }
}

#[test]
fn default_pubkey_is_all_zero() {
    assert_eq!(Pubkey::default().to_bytes(), [0u8; 32]);
    assert_eq!(Pubkey::default(), Pubkey::new_from_array([0u8; 32]));
}

#[test]
fn pubkey_with_one_set_byte_is_not_default() {
    let mut first = [0u8; 32];
    first[0] = 1;
    let mut last = [0u8; 32];
    last[31] = 1;
    assert_ne!(Pubkey::new_from_array(first), Pubkey::default());
    assert_ne!(Pubkey::new_from_array(last), Pubkey::default());
    assert!(!minter(Pubkey::new_from_array(first), Pubkey::default()).validate());
    assert!(minter(Pubkey::new_from_array(first), Pubkey::new_from_array(last)).validate());
}

#[test]
fn pubkey_round_trips_its_bytes() {
    let mut bytes = [0u8; 32];
    for (i, b) in bytes.iter_mut().enumerate() {
        *b = i as u8;
    }
    assert_eq!(Pubkey::new_from_array(bytes).to_bytes(), bytes);
}

#[test]
fn pubkeys_compare_by_bytes() {
    let mut last = [7u8; 32];
    last[31] = 8;
    assert_eq!(key(7), key(7));
    assert_ne!(key(7), key(8));
    assert_ne!(key(7), Pubkey::new_from_array(last));
    assert_eq!(Pubkey::default(), Pubkey::new_from_array([0u8; 32]));
}

#[test]
fn minter_validate_needs_controller_and_pauser() {
    assert!(minter(key(1), key(2)).validate());
    assert!(minter(key(1), key(1)).validate());
    assert!(!minter(Pubkey::default(), key(2)).validate());
    assert!(!minter(key(1), Pubkey::default()).validate());
    assert!(!minter(Pubkey::default(), Pubkey::default()).validate());
}

#[test]
fn minter_validate_ignores_pause_and_bump() {
    let mut m = minter(key(1), key(2));
    m.paused = true;
    m.bump = 0;
    assert!(m.validate());
}

#[test]
fn pair_validate_needs_remote_and_local_token() {
    assert!(pair(key(1), key(2)).validate());
    assert!(!pair(Pubkey::default(), key(2)).validate());
    assert!(!pair(key(1), Pubkey::default()).validate());
    assert!(!pair(Pubkey::default(), Pubkey::default()).validate());
}

#[test]
fn pair_validate_accepts_domain_zero() {
    let mut p = pair(key(1), key(2));
    p.remote_domain = 0;
    assert!(p.validate());
}

#[test]
fn ledger_validate_needs_custody_and_mint() {
    assert!(ledger(key(1), key(2)).validate());
    assert!(!ledger(Pubkey::default(), key(2)).validate());
    assert!(!ledger(key(1), Pubkey::default()).validate());
    assert!(!ledger(Pubkey::default(), Pubkey::default()).validate());
}

#[test]
fn ensure_valid_names_the_record_that_failed() {
    assert_eq!(minter(key(1), key(2)).ensure_valid(), Ok(()));
    assert_eq!(
        minter(Pubkey::default(), key(2)).ensure_valid(),
        Err(TokenMinterError::InvalidConfig)
    );
    assert_eq!(pair(key(1), key(2)).ensure_valid(), Ok(()));
    assert_eq!(
        pair(key(1), Pubkey::default()).ensure_valid(),
        Err(TokenMinterError::InvalidPairing)
    );
    assert_eq!(ledger(key(1), key(2)).ensure_valid(), Ok(()));
    assert_eq!(
        ledger(Pubkey::default(), key(2)).ensure_valid(),
        Err(TokenMinterError::InvalidLedger)
    );
}

#[test]
fn ensure_active_follows_the_pause_flag() {
    let mut m = minter(key(1), key(2));
    assert_eq!(m.ensure_active(), Ok(()));
    m.paused = true;
    assert_eq!(m.ensure_active(), Err(TokenMinterError::ProgramPaused));
}
