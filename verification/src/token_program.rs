use vstd::prelude::*;
use anchor_lang::context::CpiContext;
use anchor_lang::prelude::AccountInfo;
use anchor_spl::token::{Burn, CloseAccount, Transfer};

verus! {

/// `AccountInfo`, an account as the runtime hands it to a program. The
/// minter only passes accounts on to the token program and never looks
/// inside.
#[verifier::external_type_specification]
#[verifier::external_body]
pub struct ExAccountInfo<'a>(AccountInfo<'a>);

/// Calls `anchor_spl::token::burn`, which asks the token program to destroy
/// `amount` units held by `from`, with `authority` signing for itself.
///
/// Nothing is claimed of the result: whether the token program accepts the
/// instruction depends on the state of the accounts outside this library.
#[verifier::external_body]
pub(crate) fn token_burn<'info>(
    mint: AccountInfo<'info>,
    from: AccountInfo<'info>,
    authority: AccountInfo<'info>,
    token_program: AccountInfo<'info>,
    amount: u64,
) -> (outcome: Result<(), anchor_lang::error::Error>) {
    let context = CpiContext::new(*token_program.key, Burn { mint, from, authority });
    anchor_spl::token::burn(context, amount)
}

/// Calls `anchor_spl::token::transfer`, which asks the token program to move
/// `amount` units from `from` to `to`. `authority` is a program-derived
/// address; the single signer handed to the call is derived from the two
/// seeds `seed` and `[bump]`.
///
/// Nothing is claimed of the result: whether the token program accepts the
/// instruction depends on the state of the accounts outside this library.
#[verifier::external_body]
pub(crate) fn token_transfer<'info>(
    from: AccountInfo<'info>,
    to: AccountInfo<'info>,
    authority: AccountInfo<'info>,
    token_program: AccountInfo<'info>,
    seed: &[u8; 12],
    bump: u8,
    amount: u64,
) -> (outcome: Result<(), anchor_lang::error::Error>) {
    let bump_seed = [bump];
    let signer: &[&[&[u8]]] = &[&[seed, &bump_seed]];
    let context = CpiContext::new(*token_program.key, Transfer { from, to, authority })
        .with_signer(signer);
    anchor_spl::token::transfer(context, amount)
}

/// Calls `anchor_spl::token::close_account`, which asks the token program to
/// close `account` and to pay what it held in reserve to `destination`.
/// `authority` is a program-derived address; the single signer handed to the
/// call is derived from the two seeds `seed` and `[bump]`.
///
/// Nothing is claimed of the result: whether the token program accepts the
/// instruction depends on the state of the accounts outside this library.
#[verifier::external_body]
pub(crate) fn token_close_account<'info>(
    account: AccountInfo<'info>,
    destination: AccountInfo<'info>,
    authority: AccountInfo<'info>,
    token_program: AccountInfo<'info>,
    seed: &[u8; 12],
    bump: u8,
) -> (outcome: Result<(), anchor_lang::error::Error>) {
    let bump_seed = [bump];
    let signer: &[&[&[u8]]] = &[&[seed, &bump_seed]];
    let context = CpiContext::new(*token_program.key, CloseAccount { account, destination, authority })
        .with_signer(signer);
    anchor_spl::token::close_account(context)
}

} // verus!
