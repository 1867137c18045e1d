//! Plain values that run through the pipeline.

use vstd::prelude::*;

verus! {

/// A 32-byte digest: a data commitment (comm_d), a replica commitment
/// (comm_r) or a piece commitment. This library never looks inside one.
pub type Commitment = [u8; 32];

/// Identifies the prover that seals a sector.
pub type ProverId = [u8; 32];

/// 32 bytes of randomness from the caller: the ticket fixes the pre-commit
/// computation, the seed fixes the challenges of the commit phases.
pub type Ticket = [u8; 32];

/// Identifies a sector of one prover.
pub type SectorId = u64;

/// A number of bytes of piece data, before the backend pads them.
#[derive(Clone, Copy, Debug, PartialEq, Eq, Hash, Structural)]
pub struct UnpaddedBytesAmount(pub u64);

/// The position of a byte in the unsealed data of a sector.
#[derive(Clone, Copy, Debug, PartialEq, Eq, Hash, Structural)]
pub struct UnpaddedByteIndex(pub u64);

/// One piece of data in a sector: its commitment and its unpadded size. The
/// order of the pieces of a sector matters: it decides the sector's comm_d.
#[derive(Clone, Copy, Debug, PartialEq, Eq)]
pub struct PieceInfo {
    pub commitment: Commitment,
    pub size: UnpaddedBytesAmount,
}

/// Where the backend keeps one of its stores on disk, as the backend
/// describes it.
#[derive(Clone, Debug, PartialEq, Eq)]
pub struct StoreConfig {
    /// The directory that holds the store.
    pub path: String,
    /// The name of the store within that directory.
    pub id: String,
    /// The number of elements in the store, where it is known.
    pub size: Option<usize>,
    /// How many rows of the tree are left out of the store.
    pub rows_to_discard: usize,
}

} // verus!
