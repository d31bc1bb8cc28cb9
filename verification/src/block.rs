//! Value objects carried through the pipeline: fetched blocks and the
//! consensus genesis descriptor used for fork detection.

use vstd::prelude::*;

verus! {

/// An immutable value holding everything needed to commit one block: its
/// number and its payload. Created once per successful fetch; owned by the
/// pipeline until handed to the payload queue.
#[derive(Debug)]
pub struct FetchedBlock {
    /// Dense, zero-based chain position of this block.
    pub number: u64,
    /// Opaque block contents, as delivered by the upstream client.
    pub payload: Vec<u8>,
}

/// The chain's consensus root configuration: fork identity plus the first
/// block number that is in scope for consensus. Fetched once at startup and
/// cached; compared only by equality afterwards. A later fetch that differs
/// signals an unrecoverable hard fork.
#[derive(Clone, Copy, Debug, PartialEq, Eq, Structural)]
pub struct GenesisDescriptor {
    /// Identifier of the chain this genesis belongs to.
    pub chain_id: u64,
    /// Number of the fork described by this genesis.
    pub fork_number: u64,
    /// First block number in scope for the consensus protocol; blocks below
    /// it are backfilled before the gossip handoff.
    pub first_block: u64,
}

} // verus!
