use vstd::prelude::*;

verus! {

/// `anchor_lang::error::Error`, the error that the calls into the token
/// program return. It is carried through and never looked into.
#[verifier::external_type_specification]
#[verifier::external_body]
pub struct ExProgramError(anchor_lang::error::Error);

/// Why an operation of the minter was refused or failed.
#[derive(Debug, PartialEq, Eq)]
pub enum TokenMinterError {
    /// The minter is paused.
    ProgramPaused,
    /// A burn asked for more than the per-message limit of its local token.
    BurnAmountExceeded,
    /// The minter names no controller or no pauser.
    InvalidConfig,
    /// The token pair names no remote or no local token, or claims a remote
    /// token that is already linked to another local token.
    InvalidPairing,
    /// The local token names no custody account or no mint.
    InvalidLedger,
    /// No token pair is registered for the remote token.
    PairingNotFound,
    /// The token program refused the instruction; its error is handed on as
    /// it came.
    TokenProgram(anchor_lang::error::Error),
}

} // verus!
