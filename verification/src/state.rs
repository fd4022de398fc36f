use vstd::prelude::*;
use crate::error::TokenMinterError;
use crate::pubkey::Pubkey;

verus! {

/// The minter's configuration: who administers it, who may pause it, and
/// whether it is paused.
#[derive(Clone, Copy, Debug, PartialEq, Eq)]
pub struct TokenMinter {
    pub token_controller: Pubkey,
    pub pauser: Pubkey,
    pub paused: bool,
    pub bump: u8,
}

/// Links a token of a remote domain to the local token that stands for it.
#[derive(Clone, Copy, Debug, PartialEq, Eq)]
pub struct TokenPair {
    pub remote_domain: u32,
    pub remote_token: Pubkey,
    pub local_token: Pubkey,
    pub bump: u8,
}

/// The ledger of one local token: its custody account, its mint, the most
/// that one burn may move, and running totals of what was sent and received.
#[derive(Clone, Copy, Debug, PartialEq, Eq)]
pub struct LocalToken {
    pub custody: Pubkey,
    pub mint: Pubkey,
    pub burn_limit_per_message: u64,
    pub messages_sent: u64,
    pub messages_received: u64,
    pub amount_sent: u64,
    pub amount_received: u64,
    pub bump: u8,
    pub custody_bump: u8,
}

/// The value of a 64-bit counter that has reached `total`: counters start
/// again from zero after `u64::MAX`.
pub open spec fn wrap_counter(total: int) -> u64 {
    (total % 0x1_0000_0000_0000_0000) as u64
}

/// A counter that has not reached its largest value goes up by what is
/// added; one that would pass it starts again from zero, so that a counter
/// at `u64::MAX` holds zero after the next message.
pub proof fn lemma_counters_wrap(ledger: LocalToken, amount: u64)
    ensures
        ledger.messages_sent < u64::MAX ==> ledger.sent(amount).messages_sent
            == ledger.messages_sent + 1,
        ledger.messages_sent == u64::MAX ==> ledger.sent(amount).messages_sent == 0,
        ledger.amount_sent + amount <= u64::MAX ==> ledger.sent(amount).amount_sent
            == ledger.amount_sent + amount,
        ledger.amount_sent + amount > u64::MAX ==> ledger.sent(amount).amount_sent
            == ledger.amount_sent + amount - u64::MAX - 1,
        ledger.messages_received < u64::MAX ==> ledger.received(amount).messages_received
            == ledger.messages_received + 1,
        ledger.messages_received == u64::MAX ==> ledger.received(amount).messages_received == 0,
        ledger.amount_received + amount <= u64::MAX ==> ledger.received(amount).amount_received
            == ledger.amount_received + amount,
        ledger.amount_received + amount > u64::MAX ==> ledger.received(amount).amount_received
            == ledger.amount_received + amount - u64::MAX - 1,
{
}

/// Sending touches nothing but the two counters of what was sent, and
/// receiving nothing but the two counters of what was received.
pub proof fn lemma_counters_apart(ledger: LocalToken, amount: u64)
    ensures
        ledger.sent(amount).messages_received == ledger.messages_received,
        ledger.sent(amount).amount_received == ledger.amount_received,
        ledger.sent(amount).burn_limit_per_message == ledger.burn_limit_per_message,
        ledger.sent(amount).custody == ledger.custody,
        ledger.sent(amount).mint == ledger.mint,
        ledger.received(amount).messages_sent == ledger.messages_sent,
        ledger.received(amount).amount_sent == ledger.amount_sent,
        ledger.received(amount).burn_limit_per_message == ledger.burn_limit_per_message,
        ledger.received(amount).custody == ledger.custody,
        ledger.received(amount).mint == ledger.mint,
{
}

impl TokenPair {
    /// A pair is valid when it names both a remote and a local token.
    pub open spec fn validate_spec(&self) -> bool {
        !self.remote_token.is_default_spec() && !self.local_token.is_default_spec()
    }

    /// Tells whether the pair names both a remote and a local token.
    pub fn validate(&self) -> (valid: bool)
        ensures
            valid == self.validate_spec(),
    {
        self.remote_token != Pubkey::default() && self.local_token != Pubkey::default()
    }

    /// Refuses a pair that is not valid.
    pub fn ensure_valid(&self) -> (result: Result<(), TokenMinterError>)
        ensures
            self.validate_spec() ==> result == Ok::<(), TokenMinterError>(()),
            !self.validate_spec() ==> result == Err::<(), TokenMinterError>(
                TokenMinterError::InvalidPairing,
            ),
    {
        if self.validate() {
            Ok(())
        } else {
            Err(TokenMinterError::InvalidPairing)
        }
    }
}

impl LocalToken {
    /// A ledger is valid when it names both a custody account and a mint.
    pub open spec fn validate_spec(&self) -> bool {
        !self.custody.is_default_spec() && !self.mint.is_default_spec()
    }

    /// The ledger after one more outbound message that moved `amount`.
    pub open spec fn sent(self, amount: u64) -> LocalToken {
        LocalToken {
            messages_sent: wrap_counter(self.messages_sent + 1),
            amount_sent: wrap_counter(self.amount_sent + amount),
            ..self
        }
    }

    /// The ledger after one more inbound message that moved `amount`.
    pub open spec fn received(self, amount: u64) -> LocalToken {
        LocalToken {
            messages_received: wrap_counter(self.messages_received + 1),
            amount_received: wrap_counter(self.amount_received + amount),
            ..self
        }
    }

    /// Tells whether the ledger names both a custody account and a mint.
    pub fn validate(&self) -> (valid: bool)
        ensures
            valid == self.validate_spec(),
    {
        self.custody != Pubkey::default() && self.mint != Pubkey::default()
    }

    /// Refuses a ledger that is not valid.
    pub fn ensure_valid(&self) -> (result: Result<(), TokenMinterError>)
        ensures
            self.validate_spec() ==> result == Ok::<(), TokenMinterError>(()),
            !self.validate_spec() ==> result == Err::<(), TokenMinterError>(
                TokenMinterError::InvalidLedger,
            ),
    {
        if self.validate() {
            Ok(())
        } else {
            Err(TokenMinterError::InvalidLedger)
        }
    }
}

} // verus!
