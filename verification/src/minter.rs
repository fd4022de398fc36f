use vstd::prelude::*;
use anchor_lang::prelude::AccountInfo;
use crate::error::TokenMinterError;
use crate::pubkey::Pubkey;
use crate::state::{LocalToken, TokenMinter};
use crate::token_program::{token_burn, token_close_account, token_transfer};

verus! {

/// The first seed of the minter's signing authority: the ASCII bytes of
/// `token_minter`. The second seed is the minter's bump.
pub open spec fn authority_seed_bytes() -> Seq<u8> {
    seq![
        0x74u8, 0x6f, 0x6b, 0x65, 0x6e, 0x5f,  // t o k e n _
        0x6d, 0x69, 0x6e, 0x74, 0x65, 0x72,  // m i n t e r
    ]
}

/// The first seed of the minter's signing authority.
pub fn authority_seed() -> (seed: [u8; 12])
    ensures
        seed@ == authority_seed_bytes(),
{
    let seed: [u8; 12] = [
        0x74, 0x6f, 0x6b, 0x65, 0x6e, 0x5f,
        0x6d, 0x69, 0x6e, 0x74, 0x65, 0x72,
    ];
    assert(seed@ =~= authority_seed_bytes());
    seed
}

/// What the caller gets for an answer of the token program: success as it
/// is, and the token program's error handed on unchanged.
pub open spec fn relayed(outcome: Result<(), anchor_lang::error::Error>) -> Result<
    (),
    TokenMinterError,
> {
    match outcome {
        Ok(_) => Ok(()),
        Err(e) => Err(TokenMinterError::TokenProgram(e)),
    }
}

/// Hands on the answer of the token program.
pub fn relay(outcome: Result<(), anchor_lang::error::Error>) -> (result: Result<
    (),
    TokenMinterError,
>)
    ensures
        result == relayed(outcome),
{
    match outcome {
        Ok(_) => Ok(()),
        Err(e) => Err(TokenMinterError::TokenProgram(e)),
    }
}

/// While the minter is paused nothing may start: neither a burn nor a
/// transfer, whatever the ledger and the amount.
pub proof fn lemma_paused_refuses(minter: TokenMinter, local_token: LocalToken, amount: u64)
    requires
        minter.paused,
    ensures
        minter.burn_staged(local_token, amount) == Err::<LocalToken, TokenMinterError>(
            TokenMinterError::ProgramPaused,
        ),
        minter.transfer_staged(local_token, amount) == Err::<LocalToken, TokenMinterError>(
            TokenMinterError::ProgramPaused,
        ),
{
}

/// A minter that is not paused starts nothing on records that are not
/// valid, whatever the amount: a minter without controller or pauser is
/// refused as such, and under a valid minter a ledger without custody
/// account or mint is refused as such.
pub proof fn lemma_invalid_refuses(minter: TokenMinter, local_token: LocalToken, amount: u64)
    requires
        !minter.paused,
    ensures
        !minter.validate_spec() ==> minter.burn_staged(local_token, amount) == Err::<
            LocalToken,
            TokenMinterError,
        >(TokenMinterError::InvalidConfig),
        !minter.validate_spec() ==> minter.transfer_staged(local_token, amount) == Err::<
            LocalToken,
            TokenMinterError,
        >(TokenMinterError::InvalidConfig),
        minter.validate_spec() && !local_token.validate_spec() ==> minter.burn_staged(
            local_token,
            amount,
        ) == Err::<LocalToken, TokenMinterError>(TokenMinterError::InvalidLedger),
        minter.validate_spec() && !local_token.validate_spec() ==> minter.transfer_staged(
            local_token,
            amount,
        ) == Err::<LocalToken, TokenMinterError>(TokenMinterError::InvalidLedger),
{
}

/// A valid minter that is not paused lets a burn on a valid ledger start
/// exactly when the amount is within the limit of the local token: then
/// one more message and `amount` more units are staged as sent, else the
/// burn is refused for its amount.
pub proof fn lemma_burn_limit(minter: TokenMinter, local_token: LocalToken, amount: u64)
    requires
        !minter.paused,
        minter.validate_spec(),
        local_token.validate_spec(),
    ensures
        amount <= local_token.burn_limit_per_message ==> minter.burn_staged(local_token, amount)
            == Ok::<LocalToken, TokenMinterError>(local_token.sent(amount)),
        amount > local_token.burn_limit_per_message ==> minter.burn_staged(local_token, amount)
            == Err::<LocalToken, TokenMinterError>(TokenMinterError::BurnAmountExceeded),
{
}

/// A valid minter that is not paused lets every transfer on a valid ledger
/// start, whatever the amount and the burn limit: one more message and
/// `amount` more units are staged as received.
pub proof fn lemma_transfer_unlimited(minter: TokenMinter, local_token: LocalToken, amount: u64)
    requires
        !minter.paused,
        minter.validate_spec(),
        local_token.validate_spec(),
    ensures
        minter.transfer_staged(local_token, amount) == Ok::<LocalToken, TokenMinterError>(
            local_token.received(amount),
        ),
{
}

impl TokenMinter {
    /// A minter is valid when it names both a controller and a pauser.
    pub open spec fn validate_spec(&self) -> bool {
        !self.token_controller.is_default_spec() && !self.pauser.is_default_spec()
    }

    /// The ledger that a burn of `amount` leaves behind once the token
    /// program has carried it out, or the reason why the burn may not start:
    /// the pause first, then a minter that is not valid, then a ledger that
    /// is not valid, then the amount.
    pub open spec fn burn_staged(&self, local_token: LocalToken, amount: u64) -> Result<
        LocalToken,
        TokenMinterError,
    > {
        if self.paused {
            Err(TokenMinterError::ProgramPaused)
        } else if !self.validate_spec() {
            Err(TokenMinterError::InvalidConfig)
        } else if !local_token.validate_spec() {
            Err(TokenMinterError::InvalidLedger)
        } else if amount > local_token.burn_limit_per_message {
            Err(TokenMinterError::BurnAmountExceeded)
        } else {
            Ok(local_token.sent(amount))
        }
    }

    /// The ledger that a transfer of `amount` leaves behind once the token
    /// program has carried it out, or the reason why the transfer may not
    /// start: the pause first, then a minter that is not valid, then a
    /// ledger that is not valid. No amount is too large for a transfer.
    pub open spec fn transfer_staged(&self, local_token: LocalToken, amount: u64) -> Result<
        LocalToken,
        TokenMinterError,
    > {
        if self.paused {
            Err(TokenMinterError::ProgramPaused)
        } else if !self.validate_spec() {
            Err(TokenMinterError::InvalidConfig)
        } else if !local_token.validate_spec() {
            Err(TokenMinterError::InvalidLedger)
        } else {
            Ok(local_token.received(amount))
        }
    }

    /// Tells whether the minter names both a controller and a pauser.
    pub fn validate(&self) -> (valid: bool)
        ensures
            valid == self.validate_spec(),
    {
        self.token_controller != Pubkey::default() && self.pauser != Pubkey::default()
    }

    /// Refuses a minter that is not valid.
    pub fn ensure_valid(&self) -> (result: Result<(), TokenMinterError>)
        ensures
            self.validate_spec() ==> result == Ok::<(), TokenMinterError>(()),
            !self.validate_spec() ==> result == Err::<(), TokenMinterError>(
                TokenMinterError::InvalidConfig,
            ),
    {
        if self.validate() {
            Ok(())
        } else {
            Err(TokenMinterError::InvalidConfig)
        }
    }

    /// Refuses every operation while the minter is paused.
    pub fn ensure_active(&self) -> (result: Result<(), TokenMinterError>)
        ensures
            !self.paused ==> result == Ok::<(), TokenMinterError>(()),
            self.paused ==> result == Err::<(), TokenMinterError>(
                TokenMinterError::ProgramPaused,
            ),
    {
        if self.paused {
            Err(TokenMinterError::ProgramPaused)
        } else {
            Ok(())
        }
    }

    /// Refuses an operation on `local_token` while the minter is paused,
    /// while the minter is not valid, and while the ledger is not valid; the
    /// first of these that holds is the one told.
    fn ensure_ready(&self, local_token: &LocalToken) -> (result: Result<(), TokenMinterError>)
        ensures
            self.paused ==> result == Err::<(), TokenMinterError>(TokenMinterError::ProgramPaused),
            !self.paused && !self.validate_spec() ==> result == Err::<(), TokenMinterError>(
                TokenMinterError::InvalidConfig,
            ),
            !self.paused && self.validate_spec() && !local_token.validate_spec() ==> result
                == Err::<(), TokenMinterError>(TokenMinterError::InvalidLedger),
            !self.paused && self.validate_spec() && local_token.validate_spec() ==> result == Ok::<
                (),
                TokenMinterError,
            >(()),
    {
        match self.ensure_active() {
            Ok(_) => {},
            Err(e) => {
                return Err(e);
            },
        }
        match self.ensure_valid() {
            Ok(_) => {},
            Err(e) => {
                return Err(e);
            },
        }
        local_token.ensure_valid()
    }

    /// Decides whether a burn of `amount` may start and, if so, what the
    /// ledger will hold once it is done. The ledger itself is not touched.
    pub fn stage_burn(&self, local_token: &LocalToken, amount: u64) -> (result: Result<
        LocalToken,
        TokenMinterError,
    >)
        ensures
            result == self.burn_staged(*local_token, amount),
    {
        match self.ensure_ready(local_token) {
            Ok(_) => {},
            Err(e) => {
                return Err(e);
            },
        }
        if amount > local_token.burn_limit_per_message {
            return Err(TokenMinterError::BurnAmountExceeded);
        }
        let mut staged = *local_token;
        staged.messages_sent = local_token.messages_sent.wrapping_add(1);
        staged.amount_sent = local_token.amount_sent.wrapping_add(amount);
        Ok(staged)
    }

    /// Decides whether a transfer of `amount` may start and, if so, what the
    /// ledger will hold once it is done. The ledger itself is not touched.
    pub fn stage_transfer(&self, local_token: &LocalToken, amount: u64) -> (result: Result<
        LocalToken,
        TokenMinterError,
    >)
        ensures
            result == self.transfer_staged(*local_token, amount),
    {
        match self.ensure_ready(local_token) {
            Ok(_) => {},
            Err(e) => {
                return Err(e);
            },
        }
        let mut staged = *local_token;
        staged.messages_received = local_token.messages_received.wrapping_add(1);
        staged.amount_received = local_token.amount_received.wrapping_add(amount);
        Ok(staged)
    }

    /// Ends an operation whose instruction the token program has answered
    /// with `outcome`: on success the staged ledger replaces the current one,
    /// on failure the ledger stays as it was and the error is handed on.
    pub fn settle(
        local_token: &mut LocalToken,
        staged: LocalToken,
        outcome: Result<(), anchor_lang::error::Error>,
    ) -> (result: Result<(), TokenMinterError>)
        ensures
            result == relayed(outcome),
            outcome is Ok ==> *final(local_token) == staged,
            outcome is Err ==> *final(local_token) == *old(local_token),
    {
        match outcome {
            Ok(_) => {
                *local_token = staged;
                Ok(())
            },
            Err(e) => Err(TokenMinterError::TokenProgram(e)),
        }
    }

    /// Burns `amount` units of `mint` held by `from`, with `authority`
    /// signing, and counts the message as sent.
    ///
    /// A paused minter burns nothing; nor does a minter that is not valid,
    /// nor any minter on a ledger that is not valid; and no burn may exceed
    /// the limit of the local token. Otherwise the token program is asked to
    /// burn: if it does, one more message and `amount` more units are counted
    /// as sent; if it refuses, its error is returned and the ledger is left
    /// as it was.
    pub fn burn<'info>(
        &self,
        mint: AccountInfo<'info>,
        from: AccountInfo<'info>,
        authority: AccountInfo<'info>,
        token_program: AccountInfo<'info>,
        local_token: &mut LocalToken,
        amount: u64,
    ) -> (result: Result<(), TokenMinterError>)
        ensures
            self.paused ==> result == Err::<(), TokenMinterError>(TokenMinterError::ProgramPaused),
            !self.paused && !self.validate_spec() ==> result == Err::<(), TokenMinterError>(
                TokenMinterError::InvalidConfig,
            ),
            !self.paused && self.validate_spec() && !old(local_token).validate_spec() ==> result
                == Err::<(), TokenMinterError>(TokenMinterError::InvalidLedger),
            !self.paused && self.validate_spec() && old(local_token).validate_spec() && amount
                > old(local_token).burn_limit_per_message ==> result == Err::<
                (),
                TokenMinterError,
            >(TokenMinterError::BurnAmountExceeded),
            !self.paused && self.validate_spec() && old(local_token).validate_spec() && amount
                <= old(local_token).burn_limit_per_message ==> (result is Ok || (result is Err
                && result->Err_0 is TokenProgram)),
            result is Ok ==> *final(local_token) == old(local_token).sent(amount),
            result is Err ==> *final(local_token) == *old(local_token),
    {
        let staged = match self.stage_burn(local_token, amount) {
            Ok(staged) => staged,
            Err(e) => {
                return Err(e);
            },
        };
        let outcome = token_burn(mint, from, authority, token_program, amount);
        Self::settle(local_token, staged, outcome)
    }

    /// Releases `amount` units from the custody account `from` to `to`, with
    /// the minter's own authority signing, and counts the message as
    /// received.
    ///
    /// A paused minter releases nothing; nor does a minter that is not
    /// valid, nor any minter on a ledger that is not valid. Otherwise the
    /// token program is asked to move the units, whatever the amount: if it
    /// does, one more message and `amount` more units are counted as
    /// received; if it refuses, its error is returned and the ledger is left
    /// as it was.
    pub fn transfer<'info>(
        &self,
        from: AccountInfo<'info>,
        to: AccountInfo<'info>,
        authority: AccountInfo<'info>,
        token_program: AccountInfo<'info>,
        local_token: &mut LocalToken,
        amount: u64,
    ) -> (result: Result<(), TokenMinterError>)
        ensures
            self.paused ==> result == Err::<(), TokenMinterError>(TokenMinterError::ProgramPaused),
            !self.paused && !self.validate_spec() ==> result == Err::<(), TokenMinterError>(
                TokenMinterError::InvalidConfig,
            ),
            !self.paused && self.validate_spec() && !old(local_token).validate_spec() ==> result
                == Err::<(), TokenMinterError>(TokenMinterError::InvalidLedger),
            !self.paused && self.validate_spec() && old(local_token).validate_spec() ==> (result
                is Ok || (result is Err && result->Err_0 is TokenProgram)),
            result is Ok ==> *final(local_token) == old(local_token).received(amount),
            result is Err ==> *final(local_token) == *old(local_token),
    {
        let staged = match self.stage_transfer(local_token, amount) {
            Ok(staged) => staged,
            Err(e) => {
                return Err(e);
            },
        };
        let seed = authority_seed();
        let outcome = token_transfer(from, to, authority, token_program, &seed, self.bump, amount);
        Self::settle(local_token, staged, outcome)
    }

    /// Closes `token_account` and pays what it held in reserve to `receiver`,
    /// with the minter's own authority signing.
    ///
    /// A paused minter closes nothing, nor does a minter that is not valid.
    /// Otherwise the answer of the token program is the result.
    pub fn close_token_account<'info>(
        &self,
        receiver: AccountInfo<'info>,
        token_account: AccountInfo<'info>,
        token_program: AccountInfo<'info>,
        authority: AccountInfo<'info>,
    ) -> (result: Result<(), TokenMinterError>)
        ensures
            self.paused ==> result == Err::<(), TokenMinterError>(TokenMinterError::ProgramPaused),
            !self.paused && !self.validate_spec() ==> result == Err::<(), TokenMinterError>(
                TokenMinterError::InvalidConfig,
            ),
            !self.paused && self.validate_spec() ==> (result is Ok || (result is Err
                && result->Err_0 is TokenProgram)),
    {
        match self.ensure_active() {
            Ok(_) => {},
            Err(e) => {
                return Err(e);
            },
        }
        match self.ensure_valid() {
            Ok(_) => {},
            Err(e) => {
                return Err(e);
            },
        }
        let seed = authority_seed();
        let outcome = token_close_account(
            token_account,
            receiver,
            authority,
            token_program,
            &seed,
            self.bump,
        );
        relay(outcome)
    }
}

} // verus!
