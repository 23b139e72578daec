use vstd::prelude::*;

use crate::state::AccountId;
use crate::state::GlobalState;

verus! {

/// A token movement the engine asks the host ledger to perform. The engine
/// only decides amounts and destinations; the transfer itself, with its
/// balance and authority checks, belongs to the host.
#[derive(Clone, Copy, Debug, PartialEq, Eq, Structural)]
pub struct TransferAction {
    pub source: AccountId,
    pub destination: AccountId,
    pub amount: u64,
}

/// Establishes the protocol's global state: the mint identity, the bump for
/// the protocol's signing authority, and an empty volume counter. The host
/// guards this against re-initialization.
pub fn initialize(mint: AccountId, bump: u8) -> (g: GlobalState)
    ensures
        g == (GlobalState { mint, bump, protocol_wide_volume: 0u64 }),
{
    GlobalState { mint, bump, protocol_wide_volume: 0 }
}

/// A voluntary contribution into the insurance pool. There is no gate to
/// pass and nothing to compute: the whole amount moves from the contributor
/// to the pool, and the host performs the transfer.
pub fn insurance_pool_contribution(contributor: AccountId, insurance_pool: AccountId, amount: u64) -> (t:
    TransferAction)
    ensures
        t == (TransferAction { source: contributor, destination: insurance_pool, amount }),
{
    TransferAction { source: contributor, destination: insurance_pool, amount }
}

} // verus!
