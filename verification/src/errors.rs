use vstd::prelude::*;

verus! {

/// The error kinds of the engine. Every failing operation aborts with one
/// of these before any effect is applied, so no partial state is ever
/// observable: the enclosing ledger transaction simply never commits.
///
/// `AlreadySettled` is a deliberate hardening addition: the ranked payout
/// is made one-shot by an explicit settled flag, so a repeated settlement
/// cannot double-pay from the residual balance.
#[derive(Clone, Copy, Debug, PartialEq, Eq, Structural)]
pub enum PlayrushError {
    /// Deposits were attempted after the pool was closed.
    TournamentClosed,
    /// The deposit's asset mode does not match the pool's asset mode.
    InvalidJoinMethod,
    /// A payout recipient is inconsistent with the expected mode or
    /// identity. Reserved for future validation of the payout path.
    InvalidDestination,
    /// A checked arithmetic step would wrap or go negative.
    Overflow,
    /// A token account involved in a deposit carries the wrong token
    /// identity.
    InvalidTokenMint,
    /// A pool with the same identity already exists.
    DuplicatePool,
    /// The player already holds an entry in this pool.
    DuplicateEntry,
    /// Close was invoked by an identity other than the pool's authority.
    Unauthorized,
    /// The pool was already settled once; ranked payout is one-shot.
    AlreadySettled,
}

} // verus!
