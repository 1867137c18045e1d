//! What is handed to the sealing backend and what it hands back.
//!
//! A request is the description of one backend call, made once the inputs
//! of an operation have been judged: it names the shape to call the backend
//! at and carries the arguments. The caller performs the call and reports
//! its outcome: the value that the backend returned, or the text of its
//! error.

use crate::error::SealError;
use crate::labels::RawLabels;
use crate::registry::{RegisteredSealProof, SectorShape};
use crate::types::{
    Commitment, PieceInfo, ProverId, SectorId, StoreConfig, Ticket, UnpaddedByteIndex,
    UnpaddedBytesAmount,
};
use vstd::prelude::*;

verus! {

/// What the backend returns from the first pre-commit phase.
#[derive(Clone, Debug, PartialEq, Eq)]
pub struct RawPreCommitPhase1Output {
    pub labels: RawLabels,
    pub config: StoreConfig,
    pub comm_d: Commitment,
}

/// What the backend returns from the second pre-commit phase.
#[derive(Clone, Copy, Debug, PartialEq, Eq)]
pub struct RawPreCommitOutput {
    pub comm_r: Commitment,
    pub comm_d: Commitment,
}

/// What the backend returns from the first commit phase. Each vanilla proof
/// is held in the backend's own encoding for the shape it was made at.
#[derive(Clone, Debug, PartialEq, Eq)]
pub struct RawCommitPhase1Output {
    pub vanilla_proofs: Vec<Vec<Vec<u8>>>,
    pub comm_r: Commitment,
    pub comm_d: Commitment,
    pub replica_id: [u8; 32],
    pub seed: Ticket,
    pub ticket: Ticket,
}

/// Remove the cache artifacts of one sector.
#[derive(Clone, Debug, PartialEq, Eq)]
pub struct ClearCacheRequest {
    pub shape: SectorShape,
    pub cache_path: String,
}

/// How the removal of cache artifacts ended.
#[derive(Clone, Debug, PartialEq, Eq)]
pub enum CacheRemoval {
    /// The artifacts were there and are gone.
    Removed,
    /// There was nothing to remove.
    AlreadyAbsent,
    /// The backend could not remove what was there.
    Failed(String),
}

/// Derive the labels of a sector and build the tree of its data.
#[derive(Clone, Debug, PartialEq, Eq)]
pub struct PreCommitPhase1Request {
    pub registered_proof: RegisteredSealProof,
    pub shape: SectorShape,
    pub cache_path: String,
    pub in_path: String,
    pub out_path: String,
    pub prover_id: ProverId,
    pub sector_id: SectorId,
    pub ticket: Ticket,
    pub piece_infos: Vec<PieceInfo>,
}

/// Check the cache against the output of the first pre-commit phase, then
/// build the replica.
#[derive(Clone, Debug, PartialEq, Eq)]
pub struct PreCommitPhase2Request {
    pub registered_proof: RegisteredSealProof,
    pub shape: SectorShape,
    pub phase1_output: RawPreCommitPhase1Output,
    pub cache_path: String,
    pub out_path: String,
}

/// Check the cache against the replica, then compute the vanilla proofs.
#[derive(Clone, Debug, PartialEq, Eq)]
pub struct CommitPhase1Request {
    pub registered_proof: RegisteredSealProof,
    pub shape: SectorShape,
    pub cache_path: String,
    pub replica_path: String,
    pub prover_id: ProverId,
    pub sector_id: SectorId,
    pub ticket: Ticket,
    pub seed: Ticket,
    pub pre_commit: RawPreCommitOutput,
    pub piece_infos: Vec<PieceInfo>,
}

/// Fold the vanilla proofs into one succinct proof.
#[derive(Clone, Debug, PartialEq, Eq)]
pub struct CommitPhase2Request {
    pub registered_proof: RegisteredSealProof,
    pub shape: SectorShape,
    pub phase1_output: RawCommitPhase1Output,
    pub prover_id: ProverId,
    pub sector_id: SectorId,
}

/// Verify one seal proof.
#[derive(Clone, Debug, PartialEq, Eq)]
pub struct VerifySealRequest {
    pub registered_proof: RegisteredSealProof,
    pub shape: SectorShape,
    pub comm_r: Commitment,
    pub comm_d: Commitment,
    pub prover_id: ProverId,
    pub sector_id: SectorId,
    pub ticket: Ticket,
    pub seed: Ticket,
    pub proof: Vec<u8>,
}

/// Verify the seal proofs of several sectors of one proof type, each on its
/// own.
#[derive(Clone, Debug, PartialEq, Eq)]
pub struct VerifyBatchSealRequest {
    pub registered_proof: RegisteredSealProof,
    pub shape: SectorShape,
    pub entries: Vec<VerifySealRequest>,
}

/// Reconstruct a range of the unsealed data of a sealed sector.
#[derive(Clone, Debug, PartialEq, Eq)]
pub struct UnsealRangeRequest {
    pub registered_proof: RegisteredSealProof,
    pub shape: SectorShape,
    pub cache_path: String,
    pub sealed_path: String,
    pub output_path: String,
    pub prover_id: ProverId,
    pub sector_id: SectorId,
    pub comm_d: Commitment,
    pub ticket: Ticket,
    pub offset: UnpaddedByteIndex,
    pub num_bytes: UnpaddedBytesAmount,
}

/// Compute the commitment of a piece read from a stream.
#[derive(Clone, Copy, Debug, PartialEq, Eq)]
pub struct PieceCommitmentRequest {
    pub registered_proof: RegisteredSealProof,
    pub shape: SectorShape,
    pub piece_size: UnpaddedBytesAmount,
}

/// Write a piece from a stream into the staging area of a sector, after the
/// pieces whose sizes are given.
#[derive(Clone, Debug, PartialEq, Eq)]
pub struct AddPieceRequest {
    pub registered_proof: RegisteredSealProof,
    pub shape: SectorShape,
    pub piece_size: UnpaddedBytesAmount,
    pub piece_lengths: Vec<UnpaddedBytesAmount>,
}

/// A request whose cache directory the backend has checked and found
/// consistent. Only the cache checks of this library make one, so a function
/// that takes one cannot be reached before the check.
#[derive(Clone, Debug, PartialEq, Eq)]
pub struct CacheChecked<R> {
    request: R,
}

impl<R> CacheChecked<R> {
    /// The request that was checked.
    pub closed spec fn spec_request(self) -> R {
        self.request
    }

    pub fn request(&self) -> (request: &R)
        ensures
            *request == self.spec_request(),
    {
        &self.request
    }

    pub fn into_request(self) -> (request: R)
        ensures
            request == self.spec_request(),
    {
        self.request
    }

    /// What a cache check decides, given what the backend found.
    pub open spec fn spec_decide(request: R, validation: Result<(), String>, checked: Result<
        CacheChecked<R>,
        SealError,
    >) -> bool {
        match validation {
            Ok(_) => checked is Ok && checked->Ok_0.spec_request() == request,
            Err(message) => checked == Err::<CacheChecked<R>, SealError>(
                SealError::CacheValidationFailed { message },
            ),
        }
    }

    pub(crate) fn decide(request: R, validation: Result<(), String>) -> (checked: Result<
        CacheChecked<R>,
        SealError,
    >)
        ensures
            Self::spec_decide(request, validation, checked),
    {
        match validation {
            Ok(_) => Ok(CacheChecked { request }),
            Err(message) => Err(SealError::CacheValidationFailed { message }),
        }
    }
}

} // verus!
