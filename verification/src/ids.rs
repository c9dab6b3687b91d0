use vstd::prelude::*;

verus! {

/// An opaque ledger address or identity: a player, a treasury, a custodial
/// pool address, or a token identity. The engine only ever compares these
/// for equality; derivation and signing live with the ledger platform.
#[derive(Clone, Copy, Debug, PartialEq, Eq, Structural)]
pub struct AccountId {
    pub id: u64,
}

/// What the engine reads of a fungible-token account: where it lives,
/// which token identity it carries, and its current balance. The platform
/// owns the account itself; the engine only inspects these plain values.
#[derive(Clone, Copy, Debug, PartialEq, Eq, Structural)]
pub struct TokenAccount {
    pub address: AccountId,
    pub mint: AccountId,
    pub amount: u64,
}

/// One outbound transfer order: move `amount` from `from` to `to`. The
/// engine computes these; the ledger platform executes them, all-or-nothing
/// with the state updates of the same operation.
#[derive(Clone, Copy, Debug, PartialEq, Eq, Structural)]
pub struct Transfer {
    pub from: AccountId,
    pub to: AccountId,
    pub amount: u64,
}

} // verus!
