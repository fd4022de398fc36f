use token_minter::{Pubkey, TokenMinterError, TokenPair, TokenPairs};

fn key(byte: u8) -> Pubkey {
    Pubkey::new_from_array([byte; 32])
}

fn pair(remote_domain: u32, remote_token: Pubkey, local_token: Pubkey) -> TokenPair {
    TokenPair { remote_domain, remote_token, local_token, bump: 255 }
}

#[test]
fn lookup_of_unregistered_pair_is_not_found() {
    let mut pairs = TokenPairs::new();
    assert_eq!(pairs.lookup(7, &key(0x58)), Err(TokenMinterError::PairingNotFound));
    assert_eq!(pairs.insert(pair(0, key(0x58), key(1))), Ok(()));
    assert_eq!(pairs.insert(pair(7, key(0x59), key(2))), Ok(()));
    assert_eq!(pairs.lookup(7, &key(0x58)), Err(TokenMinterError::PairingNotFound));
}

#[test]
fn lookup_finds_the_local_token() {
    let mut pairs = TokenPairs::new();
    assert_eq!(pairs.insert(pair(7, key(10), key(20))), Ok(()));
    assert_eq!(pairs.insert(pair(7, key(11), key(21))), Ok(()));
    assert_eq!(pairs.insert(pair(8, key(10), key(22))), Ok(()));
    assert_eq!(pairs.lookup(7, &key(10)), Ok(key(20)));
    assert_eq!(pairs.lookup(7, &key(11)), Ok(key(21)));
    assert_eq!(pairs.lookup(8, &key(10)), Ok(key(22)));
    assert_eq!(pairs.lookup(8, &key(11)), Err(TokenMinterError::PairingNotFound));
}

#[test]
fn two_remote_tokens_may_share_a_local_token() {
    let mut pairs = TokenPairs::new();
    assert_eq!(pairs.insert(pair(1, key(10), key(20))), Ok(()));
    assert_eq!(pairs.insert(pair(2, key(11), key(20))), Ok(()));
    assert_eq!(pairs.lookup(1, &key(10)), Ok(key(20)));
    assert_eq!(pairs.lookup(2, &key(11)), Ok(key(20)));
}

#[test]
fn insert_refuses_a_second_local_token_for_a_remote_token() {
    let mut pairs = TokenPairs::new();
    assert_eq!(pairs.insert(pair(7, key(10), key(20))), Ok(()));
    assert_eq!(
        pairs.insert(pair(7, key(10), key(21))),
        Err(TokenMinterError::InvalidPairing)
    );
    assert_eq!(pairs.lookup(7, &key(10)), Ok(key(20)));
}

#[test]
fn insert_of_a_registered_pair_changes_nothing() {
    let mut pairs = TokenPairs::new();
    assert_eq!(pairs.insert(pair(7, key(10), key(20))), Ok(()));
    assert_eq!(pairs.insert(pair(7, key(10), key(20))), Ok(()));
    assert_eq!(pairs.lookup(7, &key(10)), Ok(key(20)));
}

#[test]
fn insert_refuses_a_pair_that_is_not_valid() {
    let mut pairs = TokenPairs::new();
    assert_eq!(
        pairs.insert(pair(7, Pubkey::default(), key(20))),
        Err(TokenMinterError::InvalidPairing)
    );
    assert_eq!(
        pairs.insert(pair(7, key(10), Pubkey::default())),
        Err(TokenMinterError::InvalidPairing)
    );
    assert_eq!(pairs.lookup(7, &Pubkey::default()), Err(TokenMinterError::PairingNotFound));
    assert_eq!(pairs.lookup(7, &key(10)), Err(TokenMinterError::PairingNotFound));
}
