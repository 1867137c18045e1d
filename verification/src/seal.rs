//! The operations of the sealing pipeline.
//!
//! Sealing runs through `seal_pre_commit_phase1`, `seal_pre_commit_phase2`,
//! `seal_commit_phase1` and `seal_commit_phase2`, in this order, and ends
//! with `verify_seal`. Each phase takes the output record of the phase
//! before it, so none can be skipped. A phase is two functions. The first
//! judges the inputs and returns the request to put to the backend; the
//! second, named `.._inner`, takes the request and the outcome that the
//! caller got from the backend, and returns the output record of the phase.
//! Where a phase depends on what an earlier one left in the cache directory,
//! a cache check stands between the two.
//!
//! Nothing here keeps state between calls or locks anything: whoever drives
//! the pipeline runs at most one phase at a time per sector and cache
//! directory, and clears the cache before a phase that was cut short is run
//! again.

use crate::backend::{
    backend_comm_d, backend_compute_comm_d, backend_error_message, comm_d_inputs_in_range,
};
use crate::error::SealError;
use crate::labels::{convert_labels, spec_convert_labels, Labels};
use crate::registry::{
    dispatch, shape_for_sector_size, spec_dispatch, spec_shape_for_sector_size,
    RegisteredSealProof, SectorShape,
};
use crate::request::{
    AddPieceRequest, CacheChecked, CacheRemoval, ClearCacheRequest, CommitPhase1Request,
    CommitPhase2Request, PieceCommitmentRequest, PreCommitPhase1Request, PreCommitPhase2Request,
    RawCommitPhase1Output, RawPreCommitOutput, RawPreCommitPhase1Output, UnsealRangeRequest,
    VerifyBatchSealRequest, VerifySealRequest,
};
use crate::types::{
    Commitment, PieceInfo, ProverId, SectorId, StoreConfig, Ticket, UnpaddedByteIndex,
    UnpaddedBytesAmount,
};
use crate::vanilla::{
    convert_vanilla_proofs, lemma_vanilla_proofs_round_trip, spec_convert_vanilla_proofs,
    spec_vanilla_proofs_into_raw, vanilla_proofs_into_raw, VanillaSealProof,
};
use vstd::prelude::*;

verus! {

/// The output of `seal_pre_commit_phase1`.
#[derive(Clone, Debug, PartialEq, Eq)]
pub struct SealPreCommitPhase1Output {
    pub registered_proof: RegisteredSealProof,
    pub labels: Labels,
    pub config: StoreConfig,
    pub comm_d: Commitment,
}

/// The output of `seal_pre_commit_phase2`.
#[derive(Clone, Debug, PartialEq, Eq)]
pub struct SealPreCommitPhase2Output {
    pub registered_proof: RegisteredSealProof,
    pub comm_r: Commitment,
    pub comm_d: Commitment,
}

/// The output of `seal_commit_phase1`. This is the record that may leave the
/// machine, to have the proof made elsewhere. Its reader looks at
/// `registered_proof` first: it tells at which shape the vanilla proofs are
/// to be read.
#[derive(Clone, Debug, PartialEq, Eq)]
pub struct SealCommitPhase1Output {
    pub registered_proof: RegisteredSealProof,
    pub vanilla_proofs: Vec<Vec<VanillaSealProof>>,
    pub comm_r: Commitment,
    pub comm_d: Commitment,
    pub replica_id: [u8; 32],
    pub seed: Ticket,
    pub ticket: Ticket,
}

/// The output of `seal_commit_phase2`.
#[derive(Clone, Debug, PartialEq, Eq)]
pub struct SealCommitPhase2Output {
    pub proof: Vec<u8>,
}

/// The text of the failure of `compute_comm_d` where the backend cannot be
/// asked.
pub const PIECES_DO_NOT_FIT: &'static str = "the pieces do not fit the sector";

/// The text of the failure of `verify_batch_seal_inner` where it is not
/// given one outcome per entry.
pub const OUTCOMES_DO_NOT_MATCH: &'static str =
    "the outcomes do not match the entries of the batch";

/// An owned copy of a slice.
fn copy_slice<T: Copy>(items: &[T]) -> (copy: Vec<T>)
    ensures
        copy@ == items@,
{
    let mut copy: Vec<T> = Vec::new();
    let mut i: usize = 0;
    while i < items.len()
        invariant
            i <= items@.len(),
            copy@ == items@.take(i as int),
        decreases items@.len() - i,
    {
        copy.push(items[i]);
        i += 1;
    }
    copy
}

/// What comes of a backend call made at `shape`: its value, or its error
/// with the shape it occurred at.
pub open spec fn spec_backend_result<T>(shape: SectorShape, outcome: Result<T, String>) -> Result<
    T,
    SealError,
> {
    match outcome {
        Ok(value) => Ok(value),
        Err(message) => Err(SealError::BackendFailure { shape, message }),
    }
}

/// Turns the outcome of a backend call into the result of the operation.
pub fn backend_result<T>(shape: SectorShape, outcome: Result<T, String>) -> (r: Result<
    T,
    SealError,
>)
    ensures
        r == spec_backend_result(shape, outcome),
{
    match outcome {
        Ok(value) => Ok(value),
        Err(message) => Err(SealError::BackendFailure { shape, message }),
    }
}

/// Prepares the removal of the cache artifacts of a sector of `sector_size`
/// bytes from the directory `cache_path`.
pub fn clear_cache(sector_size: u64, cache_path: &str) -> (r: Result<ClearCacheRequest, SealError>)
    ensures
        match spec_shape_for_sector_size(sector_size) {
            Some(shape) => r is Ok && r->Ok_0.shape == shape && r->Ok_0.cache_path@
                == cache_path@,
            None => r == Err::<ClearCacheRequest, SealError>(
                SealError::UnsupportedSectorSize { sector_size },
            ),
        },
{
    let shape = shape_for_sector_size(sector_size)?;
    Ok(ClearCacheRequest { shape, cache_path: cache_path.to_owned() })
}

/// What `clear_cache_inner` returns.
pub open spec fn spec_clear_cache_inner(
    request: ClearCacheRequest,
    outcome: CacheRemoval,
) -> Result<(), SealError> {
    match outcome {
        CacheRemoval::Removed => Ok(()),
        CacheRemoval::AlreadyAbsent => Ok(()),
        CacheRemoval::Failed(message) => Err(
            SealError::BackendFailure { shape: request.shape, message },
        ),
    }
}

/// Judges how the removal ended. That there was nothing left to remove is
/// success: clearing a cache that is already clear is no error.
pub fn clear_cache_inner(request: ClearCacheRequest, outcome: CacheRemoval) -> (r: Result<
    (),
    SealError,
>)
    ensures
        r == spec_clear_cache_inner(request, outcome),
        outcome is AlreadyAbsent ==> r == Ok::<(), SealError>(()),
{
    match outcome {
        CacheRemoval::Removed => Ok(()),
        CacheRemoval::AlreadyAbsent => Ok(()),
        CacheRemoval::Failed(message) => Err(
            SealError::BackendFailure { shape: request.shape, message },
        ),
    }
}

/// Whether `request` is the request of the first pre-commit phase for these
/// inputs at `shape`.
pub open spec fn spec_pre_commit_phase1_request(
    request: PreCommitPhase1Request,
    registered_proof: RegisteredSealProof,
    shape: SectorShape,
    cache_path: Seq<char>,
    in_path: Seq<char>,
    out_path: Seq<char>,
    prover_id: ProverId,
    sector_id: SectorId,
    ticket: Ticket,
    piece_infos: Seq<PieceInfo>,
) -> bool {
    &&& request.registered_proof == registered_proof
    &&& request.shape == shape
    &&& request.cache_path@ == cache_path
    &&& request.in_path@ == in_path
    &&& request.out_path@ == out_path
    &&& request.prover_id == prover_id
    &&& request.sector_id == sector_id
    &&& request.ticket == ticket
    &&& request.piece_infos@ == piece_infos
}

/// First pre-commit phase: the backend is to derive the labels of the
/// sector whose data is at `in_path`, and to write what it builds under
/// `cache_path` and to `out_path`. The proof type must be of the supported
/// version and of a registered sector size.
pub fn seal_pre_commit_phase1(
    registered_proof: RegisteredSealProof,
    cache_path: &str,
    in_path: &str,
    out_path: &str,
    prover_id: ProverId,
    sector_id: SectorId,
    ticket: Ticket,
    piece_infos: &[PieceInfo],
) -> (r: Result<PreCommitPhase1Request, SealError>)
    ensures
        match spec_dispatch(registered_proof) {
            Ok(shape) => r is Ok && spec_pre_commit_phase1_request(
                r->Ok_0,
                registered_proof,
                shape,
                cache_path@,
                in_path@,
                out_path@,
                prover_id,
                sector_id,
                ticket,
                piece_infos@,
            ),
            Err(e) => r == Err::<PreCommitPhase1Request, SealError>(e),
        },
        registered_proof.spec_size_unregistered() ==> r == Err::<
            PreCommitPhase1Request,
            SealError,
        >(SealError::UnsupportedSectorSize { sector_size: registered_proof.sector_size }),
{
    let shape = dispatch(registered_proof)?;
    Ok(
        PreCommitPhase1Request {
            registered_proof,
            shape,
            cache_path: cache_path.to_owned(),
            in_path: in_path.to_owned(),
            out_path: out_path.to_owned(),
            prover_id,
            sector_id,
            ticket,
            piece_infos: copy_slice(piece_infos),
        },
    )
}

/// What `seal_pre_commit_phase1_inner` returns.
pub open spec fn spec_seal_pre_commit_phase1_inner(
    request: PreCommitPhase1Request,
    outcome: Result<RawPreCommitPhase1Output, String>,
) -> Result<SealPreCommitPhase1Output, SealError> {
    match outcome {
        Ok(output) => Ok(
            SealPreCommitPhase1Output {
                registered_proof: request.registered_proof,
                labels: spec_convert_labels(request.shape, output.labels),
                config: output.config,
                comm_d: output.comm_d,
            },
        ),
        Err(message) => Err(SealError::BackendFailure { shape: request.shape, message }),
    }
}

/// Ends the first pre-commit phase: the labels that the backend derived are
/// wrapped for the shape they were derived at and put in the output record
/// with the proof type, the store of the data tree and comm_d.
pub fn seal_pre_commit_phase1_inner(
    request: PreCommitPhase1Request,
    outcome: Result<RawPreCommitPhase1Output, String>,
) -> (r: Result<SealPreCommitPhase1Output, SealError>)
    ensures
        r == spec_seal_pre_commit_phase1_inner(request, outcome),
{
    let output = backend_result(request.shape, outcome)?;
    let RawPreCommitPhase1Output { labels, config, comm_d } = output;
    Ok(
        SealPreCommitPhase1Output {
            registered_proof: request.registered_proof,
            labels: convert_labels(request.shape, labels),
            config,
            comm_d,
        },
    )
}

/// Whether `request` is the request of the second pre-commit phase for
/// these inputs, with the labels opened for `shape`.
pub open spec fn spec_pre_commit_phase2_request(
    request: PreCommitPhase2Request,
    phase1_output: SealPreCommitPhase1Output,
    shape: SectorShape,
    cache_path: Seq<char>,
    out_path: Seq<char>,
) -> bool {
    &&& request.registered_proof == phase1_output.registered_proof
    &&& request.shape == shape
    &&& request.phase1_output.labels == phase1_output.labels.spec_raw()
    &&& request.phase1_output.config == phase1_output.config
    &&& request.phase1_output.comm_d == phase1_output.comm_d
    &&& request.cache_path@ == cache_path
    &&& request.out_path@ == out_path
}

/// What `seal_pre_commit_phase2` returns: the refusal of the proof type, or
/// the refusal of labels that were made for another shape than that of the
/// proof type, or the request.
pub open spec fn spec_seal_pre_commit_phase2(
    phase1_output: SealPreCommitPhase1Output,
    cache_path: Seq<char>,
    out_path: Seq<char>,
    r: Result<PreCommitPhase2Request, SealError>,
) -> bool {
    match spec_dispatch(phase1_output.registered_proof) {
        Ok(shape) => match phase1_output.labels.spec_into_raw(shape) {
            Ok(_) => r is Ok && spec_pre_commit_phase2_request(
                r->Ok_0,
                phase1_output,
                shape,
                cache_path,
                out_path,
            ),
            Err(e) => r == Err::<PreCommitPhase2Request, SealError>(e),
        },
        Err(e) => r == Err::<PreCommitPhase2Request, SealError>(e),
    }
}

/// Second pre-commit phase: the backend is to build the replica at
/// `out_path` from the labels of the first phase. The output of the first
/// phase is used up. Its proof type is judged as in the first phase; then
/// its labels are opened for the shape of that proof type, and labels that
/// were made for another shape are refused.
pub fn seal_pre_commit_phase2(
    phase1_output: SealPreCommitPhase1Output,
    cache_path: &str,
    out_path: &str,
) -> (r: Result<PreCommitPhase2Request, SealError>)
    ensures
        spec_seal_pre_commit_phase2(phase1_output, cache_path@, out_path@, r),
        phase1_output.registered_proof.spec_size_unregistered() ==> r == Err::<
            PreCommitPhase2Request,
            SealError,
        >(
            SealError::UnsupportedSectorSize {
                sector_size: phase1_output.registered_proof.sector_size,
            },
        ),
{
    let SealPreCommitPhase1Output { registered_proof, labels, config, comm_d } = phase1_output;
    let shape = dispatch(registered_proof)?;
    let labels = labels.into_raw(shape)?;
    Ok(
        PreCommitPhase2Request {
            registered_proof,
            shape,
            phase1_output: RawPreCommitPhase1Output { labels, config, comm_d },
            cache_path: cache_path.to_owned(),
            out_path: out_path.to_owned(),
        },
    )
}

/// Judges the backend's check of the cache before the second pre-commit
/// phase: of the stores of the labels and of the data tree that the first
/// phase left there. Where the check failed, the phase ends here and the
/// backend is not asked to seal.
pub fn validate_cache_for_precommit_phase2(
    request: PreCommitPhase2Request,
    validation: Result<(), String>,
) -> (r: Result<CacheChecked<PreCommitPhase2Request>, SealError>)
    ensures
        CacheChecked::spec_decide(request, validation, r),
{
    CacheChecked::decide(request, validation)
}

/// What `seal_pre_commit_phase2_inner` returns.
pub open spec fn spec_seal_pre_commit_phase2_inner(
    request: PreCommitPhase2Request,
    outcome: Result<RawPreCommitOutput, String>,
) -> Result<SealPreCommitPhase2Output, SealError> {
    match outcome {
        Ok(output) => Ok(
            SealPreCommitPhase2Output {
                registered_proof: request.registered_proof,
                comm_r: output.comm_r,
                comm_d: output.comm_d,
            },
        ),
        Err(message) => Err(SealError::BackendFailure { shape: request.shape, message }),
    }
}

/// Ends the second pre-commit phase: the commitments that the backend
/// computed are put in the output record with the proof type.
pub fn seal_pre_commit_phase2_inner(
    request: CacheChecked<PreCommitPhase2Request>,
    outcome: Result<RawPreCommitOutput, String>,
) -> (r: Result<SealPreCommitPhase2Output, SealError>)
    ensures
        r == spec_seal_pre_commit_phase2_inner(request.spec_request(), outcome),
{
    let request = request.into_request();
    let output = backend_result(request.shape, outcome)?;
    Ok(
        SealPreCommitPhase2Output {
            registered_proof: request.registered_proof,
            comm_r: output.comm_r,
            comm_d: output.comm_d,
        },
    )
}

/// The second pre-commit phase accepts what the first one made: where the
/// request of the first phase was made for a registered proof type, the
/// output record built from the backend's outcome passes the second phase,
/// and the backend is handed back the very labels, store and comm_d that it
/// returned.
pub proof fn lemma_pre_commit_phase2_accepts_phase1(
    request: PreCommitPhase1Request,
    outcome: RawPreCommitPhase1Output,
    cache_path: Seq<char>,
    out_path: Seq<char>,
    r: Result<PreCommitPhase2Request, SealError>,
)
    requires
        spec_dispatch(request.registered_proof) == Ok::<SectorShape, SealError>(request.shape),
        spec_seal_pre_commit_phase2(
            spec_seal_pre_commit_phase1_inner(request, Ok(outcome))->Ok_0,
            cache_path,
            out_path,
            r,
        ),
    ensures
        r is Ok,
        r->Ok_0.registered_proof == request.registered_proof,
        r->Ok_0.shape == request.shape,
        r->Ok_0.phase1_output == outcome,
{
}

/// Whether no piece is larger than `sector_size` bytes.
fn pieces_fit(sector_size: u64, piece_infos: &[PieceInfo]) -> (fit: bool)
    ensures
        fit <==> forall|i: int|
            0 <= i < piece_infos@.len() ==> (#[trigger] piece_infos@[i]).size.0 <= sector_size,
{
    let mut i: usize = 0;
    while i < piece_infos.len()
        invariant
            i <= piece_infos@.len(),
            forall|j: int| 0 <= j < i ==> (#[trigger] piece_infos@[j]).size.0 <= sector_size,
        decreases piece_infos@.len() - i,
    {
        if piece_infos[i].size.0 > sector_size {
            return false;
        }
        i += 1;
    }
    true
}

/// The data commitment of a sector of `sector_size` bytes that holds the
/// given pieces in the given order: what the backend computes where it can
/// be asked, and `None` where it cannot be asked or refuses the pieces.
pub open spec fn spec_comm_d(sector_size: u64, piece_infos: Seq<PieceInfo>) -> Option<Commitment> {
    if comm_d_inputs_in_range(sector_size, piece_infos) {
        backend_comm_d(sector_size, piece_infos)
    } else {
        None
    }
}

/// Computes the data commitment of a sector from its pieces, without
/// sealing anything: a claimed comm_d can be held against it. The backend
/// does the hashing. It is not asked where a piece is larger than the
/// sector, which it would refuse as well, nor on a machine whose `usize` is
/// too narrow for the sector: the failure then has the text
/// `PIECES_DO_NOT_FIT`. A failure of the backend has the backend's text.
pub fn compute_comm_d(
    registered_proof: RegisteredSealProof,
    piece_infos: &[PieceInfo],
) -> (r: Result<Commitment, SealError>)
    ensures
        match spec_dispatch(registered_proof) {
            Ok(shape) => match spec_comm_d(registered_proof.sector_size, piece_infos@) {
                Some(comm_d) => r == Ok::<Commitment, SealError>(comm_d),
                None => {
                    &&& r is Err
                    &&& r->Err_0 is BackendFailure
                    &&& r->Err_0->BackendFailure_shape == shape
                    &&& !comm_d_inputs_in_range(registered_proof.sector_size, piece_infos@)
                        ==> r->Err_0->BackendFailure_message@ == PIECES_DO_NOT_FIT@
                },
            },
            Err(e) => r == Err::<Commitment, SealError>(e),
        },
        registered_proof.spec_size_unregistered() ==> r == Err::<
            Commitment,
            SealError,
        >(SealError::UnsupportedSectorSize { sector_size: registered_proof.sector_size }),
{
    let shape = dispatch(registered_proof)?;
    let sector_size = registered_proof.sector_size;
    if sector_size > (usize::MAX / 16) as u64 || !pieces_fit(sector_size, piece_infos) {
        return Err(
            SealError::BackendFailure {
                shape,
                message: PIECES_DO_NOT_FIT.to_owned(),
            },
        );
    }
    match backend_compute_comm_d(sector_size, piece_infos) {
        Ok(comm_d) => Ok(comm_d),
        Err(error) => Err(
            SealError::BackendFailure { shape, message: backend_error_message(error) },
        ),
    }
}

/// The data commitment depends on nothing but the sector size and the
/// pieces in their order: equal inputs give equal commitments.
pub proof fn lemma_comm_d_is_deterministic(
    sector_size: u64,
    first: Seq<PieceInfo>,
    second: Seq<PieceInfo>,
)
    requires
        first.len() == second.len(),
        forall|i: int| 0 <= i < first.len() ==> first[i] == second[i],
    ensures
        spec_comm_d(sector_size, first) == spec_comm_d(sector_size, second),
{
    assert(first =~= second);
}

/// Whether `request` is the request of the first commit phase for these
/// inputs at `shape`.
pub open spec fn spec_commit_phase1_request(
    request: CommitPhase1Request,
    shape: SectorShape,
    cache_path: Seq<char>,
    replica_path: Seq<char>,
    prover_id: ProverId,
    sector_id: SectorId,
    ticket: Ticket,
    seed: Ticket,
    pre_commit: SealPreCommitPhase2Output,
    piece_infos: Seq<PieceInfo>,
) -> bool {
    &&& request.registered_proof == pre_commit.registered_proof
    &&& request.shape == shape
    &&& request.cache_path@ == cache_path
    &&& request.replica_path@ == replica_path
    &&& request.prover_id == prover_id
    &&& request.sector_id == sector_id
    &&& request.ticket == ticket
    &&& request.seed == seed
    &&& request.pre_commit == (RawPreCommitOutput {
        comm_r: pre_commit.comm_r,
        comm_d: pre_commit.comm_d,
    })
    &&& request.piece_infos@ == piece_infos
}

/// First commit phase: the backend is to derive the replica identifier from
/// the prover, the sector and the commitments, and to compute one vanilla
/// proof per partition for the challenges that `seed` fixes.
pub fn seal_commit_phase1(
    cache_path: &str,
    replica_path: &str,
    prover_id: ProverId,
    sector_id: SectorId,
    ticket: Ticket,
    seed: Ticket,
    pre_commit: SealPreCommitPhase2Output,
    piece_infos: &[PieceInfo],
) -> (r: Result<CommitPhase1Request, SealError>)
    ensures
        match spec_dispatch(pre_commit.registered_proof) {
            Ok(shape) => r is Ok && spec_commit_phase1_request(
                r->Ok_0,
                shape,
                cache_path@,
                replica_path@,
                prover_id,
                sector_id,
                ticket,
                seed,
                pre_commit,
                piece_infos@,
            ),
            Err(e) => r == Err::<CommitPhase1Request, SealError>(e),
        },
        pre_commit.registered_proof.spec_size_unregistered() ==> r == Err::<
            CommitPhase1Request,
            SealError,
        >(
            SealError::UnsupportedSectorSize {
                sector_size: pre_commit.registered_proof.sector_size,
            },
        ),
{
    let shape = dispatch(pre_commit.registered_proof)?;
    Ok(
        CommitPhase1Request {
            registered_proof: pre_commit.registered_proof,
            shape,
            cache_path: cache_path.to_owned(),
            replica_path: replica_path.to_owned(),
            prover_id,
            sector_id,
            ticket,
            seed,
            pre_commit: RawPreCommitOutput { comm_r: pre_commit.comm_r, comm_d: pre_commit.comm_d },
            piece_infos: copy_slice(piece_infos),
        },
    )
}

/// Judges the backend's check of the cache before the first commit phase:
/// of the replica and of what the pre-commit phases left beside it. Where
/// the check failed, the phase ends here and the backend is not asked to
/// prove.
pub fn validate_cache_for_commit(
    request: CommitPhase1Request,
    validation: Result<(), String>,
) -> (r: Result<CacheChecked<CommitPhase1Request>, SealError>)
    ensures
        CacheChecked::spec_decide(request, validation, r),
{
    CacheChecked::decide(request, validation)
}

/// What `seal_commit_phase1_inner` returns: the record of the backend's
/// output, its vanilla proofs wrapped for the request's shape, or the
/// backend's error.
pub open spec fn spec_seal_commit_phase1_inner(
    request: CommitPhase1Request,
    outcome: Result<RawCommitPhase1Output, String>,
    r: Result<SealCommitPhase1Output, SealError>,
) -> bool {
    match outcome {
        Ok(output) => {
            &&& r is Ok
            &&& r->Ok_0.registered_proof == request.registered_proof
            &&& spec_convert_vanilla_proofs(
                request.shape,
                output.vanilla_proofs@,
                r->Ok_0.vanilla_proofs@,
            )
            &&& r->Ok_0.comm_r == output.comm_r
            &&& r->Ok_0.comm_d == output.comm_d
            &&& r->Ok_0.replica_id == output.replica_id
            &&& r->Ok_0.seed == output.seed
            &&& r->Ok_0.ticket == output.ticket
        },
        Err(message) => r == Err::<SealCommitPhase1Output, SealError>(
            SealError::BackendFailure { shape: request.shape, message },
        ),
    }
}

/// Ends the first commit phase: the vanilla proofs that the backend computed
/// are wrapped for the shape they were made at and put in the output record
/// with the proof type and with what else the backend returned.
pub fn seal_commit_phase1_inner(
    request: CacheChecked<CommitPhase1Request>,
    outcome: Result<RawCommitPhase1Output, String>,
) -> (r: Result<SealCommitPhase1Output, SealError>)
    ensures
        spec_seal_commit_phase1_inner(request.spec_request(), outcome, r),
{
    let request = request.into_request();
    let output = backend_result(request.shape, outcome)?;
    let RawCommitPhase1Output { vanilla_proofs, comm_r, comm_d, replica_id, seed, ticket } = output;
    Ok(
        SealCommitPhase1Output {
            registered_proof: request.registered_proof,
            vanilla_proofs: convert_vanilla_proofs(request.shape, vanilla_proofs),
            comm_r,
            comm_d,
            replica_id,
            seed,
            ticket,
        },
    )
}

/// What `seal_commit_phase2` returns once the proof type has been
/// dispatched to `shape`: the request with the vanilla proofs opened for
/// that shape, or the mismatch of the first vanilla proof that was made at
/// another.
pub open spec fn spec_commit_phase2_request(
    phase1_output: SealCommitPhase1Output,
    shape: SectorShape,
    prover_id: ProverId,
    sector_id: SectorId,
    r: Result<CommitPhase2Request, SealError>,
) -> bool {
    match r {
        Ok(request) => {
            &&& request.registered_proof == phase1_output.registered_proof
            &&& request.shape == shape
            &&& spec_vanilla_proofs_into_raw(
                phase1_output.vanilla_proofs@,
                shape,
                Ok(request.phase1_output.vanilla_proofs),
            )
            &&& request.phase1_output.comm_r == phase1_output.comm_r
            &&& request.phase1_output.comm_d == phase1_output.comm_d
            &&& request.phase1_output.replica_id == phase1_output.replica_id
            &&& request.phase1_output.seed == phase1_output.seed
            &&& request.phase1_output.ticket == phase1_output.ticket
            &&& request.prover_id == prover_id
            &&& request.sector_id == sector_id
        },
        Err(e) => spec_vanilla_proofs_into_raw(phase1_output.vanilla_proofs@, shape, Err(e)),
    }
}

/// What `seal_commit_phase2` returns: the refusal of the proof type, or the
/// refusal of a vanilla proof, or the request.
pub open spec fn spec_seal_commit_phase2(
    phase1_output: SealCommitPhase1Output,
    prover_id: ProverId,
    sector_id: SectorId,
    r: Result<CommitPhase2Request, SealError>,
) -> bool {
    match spec_dispatch(phase1_output.registered_proof) {
        Ok(shape) => spec_commit_phase2_request(phase1_output, shape, prover_id, sector_id, r),
        Err(e) => r == Err::<CommitPhase2Request, SealError>(e),
    }
}

/// Second commit phase: the backend is to fold the vanilla proofs into one
/// succinct proof. The record may come from another machine: its proof type
/// is judged first, and every vanilla proof in it must have been made at
/// the shape of that proof type.
pub fn seal_commit_phase2(
    phase1_output: SealCommitPhase1Output,
    prover_id: ProverId,
    sector_id: SectorId,
) -> (r: Result<CommitPhase2Request, SealError>)
    ensures
        spec_seal_commit_phase2(phase1_output, prover_id, sector_id, r),
        phase1_output.registered_proof.spec_size_unregistered() ==> r == Err::<
            CommitPhase2Request,
            SealError,
        >(
            SealError::UnsupportedSectorSize {
                sector_size: phase1_output.registered_proof.sector_size,
            },
        ),
{
    let SealCommitPhase1Output {
        registered_proof,
        vanilla_proofs,
        comm_r,
        comm_d,
        replica_id,
        seed,
        ticket,
    } = phase1_output;
    let shape = dispatch(registered_proof)?;
    let vanilla_proofs = vanilla_proofs_into_raw(vanilla_proofs, shape)?;
    Ok(
        CommitPhase2Request {
            registered_proof,
            shape,
            phase1_output: RawCommitPhase1Output {
                vanilla_proofs,
                comm_r,
                comm_d,
                replica_id,
                seed,
                ticket,
            },
            prover_id,
            sector_id,
        },
    )
}

/// What `seal_commit_phase2_inner` returns.
pub open spec fn spec_seal_commit_phase2_inner(
    request: CommitPhase2Request,
    outcome: Result<Vec<u8>, String>,
) -> Result<SealCommitPhase2Output, SealError> {
    match outcome {
        Ok(proof) => Ok(SealCommitPhase2Output { proof }),
        Err(message) => Err(SealError::BackendFailure { shape: request.shape, message }),
    }
}

/// Ends the second commit phase: the proof that the backend made is the
/// output.
pub fn seal_commit_phase2_inner(
    request: CommitPhase2Request,
    outcome: Result<Vec<u8>, String>,
) -> (r: Result<SealCommitPhase2Output, SealError>)
    ensures
        r == spec_seal_commit_phase2_inner(request, outcome),
{
    let proof = backend_result(request.shape, outcome)?;
    Ok(SealCommitPhase2Output { proof })
}

/// The second commit phase accepts what the first one made: where the
/// request of the first phase was made for a registered proof type, the
/// output record built from the backend's outcome passes the second phase,
/// and the backend is handed back the vanilla proofs that it returned, in
/// their order, with the commitments, the replica identifier, the seed and
/// the ticket.
pub proof fn lemma_commit_phase2_accepts_phase1(
    request: CommitPhase1Request,
    outcome: RawCommitPhase1Output,
    output: Result<SealCommitPhase1Output, SealError>,
    prover_id: ProverId,
    sector_id: SectorId,
    r: Result<CommitPhase2Request, SealError>,
)
    requires
        spec_dispatch(request.registered_proof) == Ok::<SectorShape, SealError>(request.shape),
        spec_seal_commit_phase1_inner(request, Ok(outcome), output),
        spec_seal_commit_phase2(output->Ok_0, prover_id, sector_id, r),
    ensures
        r is Ok,
        r->Ok_0.registered_proof == request.registered_proof,
        r->Ok_0.shape == request.shape,
        r->Ok_0.phase1_output.vanilla_proofs@.len() == outcome.vanilla_proofs@.len(),
        forall|i: int|
            0 <= i < outcome.vanilla_proofs@.len() ==> (
            #[trigger] r->Ok_0.phase1_output.vanilla_proofs@[i])@ == outcome.vanilla_proofs@[i]@,
        r->Ok_0.phase1_output.comm_r == outcome.comm_r,
        r->Ok_0.phase1_output.comm_d == outcome.comm_d,
        r->Ok_0.phase1_output.replica_id == outcome.replica_id,
        r->Ok_0.phase1_output.seed == outcome.seed,
        r->Ok_0.phase1_output.ticket == outcome.ticket,
        r->Ok_0.prover_id == prover_id,
        r->Ok_0.sector_id == sector_id,
{
    let wrapped = output->Ok_0.vanilla_proofs@;
    let opened: Result<Vec<Vec<Vec<u8>>>, SealError> = match r {
        Ok(made) => Ok(made.phase1_output.vanilla_proofs),
        Err(e) => Err(e),
    };
    lemma_vanilla_proofs_round_trip(request.shape, outcome.vanilla_proofs@, wrapped, opened);
}

/// Whether `request` asks for the verification of this seal proof at
/// `shape`.
pub open spec fn spec_verify_seal_request(
    request: VerifySealRequest,
    registered_proof: RegisteredSealProof,
    shape: SectorShape,
    comm_r: Commitment,
    comm_d: Commitment,
    prover_id: ProverId,
    sector_id: SectorId,
    ticket: Ticket,
    seed: Ticket,
    proof: Seq<u8>,
) -> bool {
    &&& request.registered_proof == registered_proof
    &&& request.shape == shape
    &&& request.comm_r == comm_r
    &&& request.comm_d == comm_d
    &&& request.prover_id == prover_id
    &&& request.sector_id == sector_id
    &&& request.ticket == ticket
    &&& request.seed == seed
    &&& request.proof@ == proof
}

/// Verification of a seal proof: the backend is to compute the replica
/// identifier anew and to check the proof against it and the commitments.
/// It reads the cache of no sector and changes nothing.
pub fn verify_seal(
    registered_proof: RegisteredSealProof,
    comm_r_in: Commitment,
    comm_d_in: Commitment,
    prover_id: ProverId,
    sector_id: SectorId,
    ticket: Ticket,
    seed: Ticket,
    proof_vec: &[u8],
) -> (r: Result<VerifySealRequest, SealError>)
    ensures
        match spec_dispatch(registered_proof) {
            Ok(shape) => r is Ok && spec_verify_seal_request(
                r->Ok_0,
                registered_proof,
                shape,
                comm_r_in,
                comm_d_in,
                prover_id,
                sector_id,
                ticket,
                seed,
                proof_vec@,
            ),
            Err(e) => r == Err::<VerifySealRequest, SealError>(e),
        },
        registered_proof.spec_size_unregistered() ==> r == Err::<
            VerifySealRequest,
            SealError,
        >(SealError::UnsupportedSectorSize { sector_size: registered_proof.sector_size }),
{
    let shape = dispatch(registered_proof)?;
    Ok(
        VerifySealRequest {
            registered_proof,
            shape,
            comm_r: comm_r_in,
            comm_d: comm_d_in,
            prover_id,
            sector_id,
            ticket,
            seed,
            proof: copy_slice(proof_vec),
        },
    )
}

/// What `verify_seal_inner` returns.
pub open spec fn spec_verify_seal_inner(
    request: VerifySealRequest,
    outcome: Result<bool, String>,
) -> Result<bool, SealError> {
    spec_backend_result(request.shape, outcome)
}

/// Ends a verification: `true` where the backend found the proof to hold,
/// `false` where it found that it does not, an error where it could not
/// tell.
pub fn verify_seal_inner(
    request: VerifySealRequest,
    outcome: Result<bool, String>,
) -> (r: Result<bool, SealError>)
    ensures
        r == spec_verify_seal_inner(request, outcome),
{
    backend_result(request.shape, outcome)
}

/// Whether `entries` ask for the verification of the first `entries.len()`
/// seal proofs of the batch, one each, in their order.
pub open spec fn spec_verify_batch_entries(
    entries: Seq<VerifySealRequest>,
    registered_proof: RegisteredSealProof,
    shape: SectorShape,
    comm_r_ins: Seq<Commitment>,
    comm_d_ins: Seq<Commitment>,
    prover_ids: Seq<ProverId>,
    sector_ids: Seq<SectorId>,
    tickets: Seq<Ticket>,
    seeds: Seq<Ticket>,
    proof_vecs: Seq<&[u8]>,
) -> bool {
    forall|i: int|
        0 <= i < entries.len() ==> spec_verify_seal_request(
            #[trigger] entries[i],
            registered_proof,
            shape,
            comm_r_ins[i],
            comm_d_ins[i],
            prover_ids[i],
            sector_ids[i],
            tickets[i],
            seeds[i],
            proof_vecs[i]@,
        )
}

/// Verification of the seal proofs of several sectors of one proof type.
/// The slices run in parallel and have one length: entry `i` of each
/// belongs to sector `i`. The sectors are independent, so the request holds
/// one verification per sector, which may be run in any order or at once.
pub fn verify_batch_seal(
    registered_proof: RegisteredSealProof,
    comm_r_ins: &[Commitment],
    comm_d_ins: &[Commitment],
    prover_ids: &[ProverId],
    sector_ids: &[SectorId],
    tickets: &[Ticket],
    seeds: &[Ticket],
    proof_vecs: &[&[u8]],
) -> (r: Result<VerifyBatchSealRequest, SealError>)
    requires
        comm_d_ins@.len() == comm_r_ins@.len(),
        prover_ids@.len() == comm_r_ins@.len(),
        sector_ids@.len() == comm_r_ins@.len(),
        tickets@.len() == comm_r_ins@.len(),
        seeds@.len() == comm_r_ins@.len(),
        proof_vecs@.len() == comm_r_ins@.len(),
    ensures
        match spec_dispatch(registered_proof) {
            Ok(shape) => {
                &&& r is Ok
                &&& r->Ok_0.registered_proof == registered_proof
                &&& r->Ok_0.shape == shape
                &&& r->Ok_0.entries@.len() == comm_r_ins@.len()
                &&& spec_verify_batch_entries(
                    r->Ok_0.entries@,
                    registered_proof,
                    shape,
                    comm_r_ins@,
                    comm_d_ins@,
                    prover_ids@,
                    sector_ids@,
                    tickets@,
                    seeds@,
                    proof_vecs@,
                )
            },
            Err(e) => r == Err::<VerifyBatchSealRequest, SealError>(e),
        },
        registered_proof.spec_size_unregistered() ==> r == Err::<
            VerifyBatchSealRequest,
            SealError,
        >(SealError::UnsupportedSectorSize { sector_size: registered_proof.sector_size }),
{
    let shape = dispatch(registered_proof)?;
    let mut entries: Vec<VerifySealRequest> = Vec::new();
    let mut i: usize = 0;
    while i < comm_r_ins.len()
        invariant
            i <= comm_r_ins@.len(),
            comm_d_ins@.len() == comm_r_ins@.len(),
            prover_ids@.len() == comm_r_ins@.len(),
            sector_ids@.len() == comm_r_ins@.len(),
            tickets@.len() == comm_r_ins@.len(),
            seeds@.len() == comm_r_ins@.len(),
            proof_vecs@.len() == comm_r_ins@.len(),
            entries@.len() == i,
            spec_verify_batch_entries(
                entries@,
                registered_proof,
                shape,
                comm_r_ins@,
                comm_d_ins@,
                prover_ids@,
                sector_ids@,
                tickets@,
                seeds@,
                proof_vecs@,
            ),
        decreases comm_r_ins@.len() - i,
    {
        entries.push(
            VerifySealRequest {
                registered_proof,
                shape,
                comm_r: comm_r_ins[i],
                comm_d: comm_d_ins[i],
                prover_id: prover_ids[i],
                sector_id: sector_ids[i],
                ticket: tickets[i],
                seed: seeds[i],
                proof: copy_slice(proof_vecs[i]),
            },
        );
        i += 1;
    }
    Ok(VerifyBatchSealRequest { registered_proof, shape, entries })
}

/// Whether the outcome at `i` is the first that is an error.
pub open spec fn is_first_failure(outcomes: Seq<Result<bool, String>>, i: int) -> bool {
    &&& 0 <= i < outcomes.len()
    &&& outcomes[i] is Err
    &&& forall|k: int| 0 <= k < i ==> (#[trigger] outcomes[k]) is Ok
}

/// Whether every outcome is a verdict and every verdict is that the proof
/// holds.
pub open spec fn all_verified(outcomes: Seq<Result<bool, String>>) -> bool {
    forall|i: int| 0 <= i < outcomes.len() ==> #[trigger] outcomes[i] == Ok::<bool, String>(true)
}

/// What `verify_batch_seal_inner` returns. With one outcome per entry: the
/// first backend error if there is one, else whether every proof holds.
/// With another number of outcomes the batch counts as failed.
pub open spec fn spec_verify_batch_seal_inner(
    request: VerifyBatchSealRequest,
    outcomes: Seq<Result<bool, String>>,
    r: Result<bool, SealError>,
) -> bool {
    if outcomes.len() == request.entries@.len() {
        match r {
            Ok(verified) => {
                &&& forall|i: int| 0 <= i < outcomes.len() ==> (#[trigger] outcomes[i]) is Ok
                &&& verified == all_verified(outcomes)
            },
            Err(e) => exists|i: int|
                #![trigger outcomes[i]]
                is_first_failure(outcomes, i) && e == (SealError::BackendFailure {
                    shape: request.shape,
                    message: outcomes[i]->Err_0,
                }),
        }
    } else {
        &&& r is Err
        &&& r->Err_0 is BackendFailure
        &&& r->Err_0->BackendFailure_shape == request.shape
        &&& r->Err_0->BackendFailure_message@ == OUTCOMES_DO_NOT_MATCH@
    }
}

/// Ends the verification of a batch. `outcomes` holds what the backend
/// found for each entry of the request, in the order of the entries. The
/// batch holds if every proof in it holds: one that does not makes the
/// result `false`.
pub fn verify_batch_seal_inner(
    request: VerifyBatchSealRequest,
    outcomes: Vec<Result<bool, String>>,
) -> (r: Result<bool, SealError>)
    ensures
        spec_verify_batch_seal_inner(request, outcomes@, r),
{
    if outcomes.len() != request.entries.len() {
        return Err(
            SealError::BackendFailure {
                shape: request.shape,
                message: OUTCOMES_DO_NOT_MATCH.to_owned(),
            },
        );
    }
    let ghost all = outcomes@;
    let mut verified = true;
    for outcome in it: outcomes.into_iter()
        invariant
            it.seq() == all,
            all.len() == request.entries@.len(),
            forall|k: int| 0 <= k < it.index() ==> (#[trigger] all[k]) is Ok,
            verified == all_verified(all.take(it.index() as int)),
    {
        let ghost i: int = it.index() as int;
        match outcome {
            Ok(holds) => {
                if !holds {
                    assert(all.take(i + 1)[i] == Ok::<bool, String>(false));
                    verified = false;
                }
            },
            Err(message) => {
                return Err(SealError::BackendFailure { shape: request.shape, message });
            },
        }
    }
    assert(all.take(all.len() as int) == all);
    Ok(verified)
}

/// A batch verifies if and only if each of its entries verifies on its own.
pub proof fn lemma_batch_verifies_iff_every_entry_verifies(
    request: VerifyBatchSealRequest,
    outcomes: Seq<Result<bool, String>>,
    r: Result<bool, SealError>,
)
    requires
        outcomes.len() == request.entries@.len(),
        spec_verify_batch_seal_inner(request, outcomes, r),
    ensures
        r == Ok::<bool, SealError>(true) <==> forall|i: int|
            0 <= i < outcomes.len() ==> spec_verify_seal_inner(
                request.entries@[i],
                #[trigger] outcomes[i],
            ) == Ok::<bool, SealError>(true),
{
    if forall|i: int|
        0 <= i < outcomes.len() ==> spec_verify_seal_inner(
            request.entries@[i],
            #[trigger] outcomes[i],
        ) == Ok::<bool, SealError>(true) {
        assert forall|i: int| 0 <= i < outcomes.len() implies #[trigger] outcomes[i] == Ok::<
            bool,
            String,
        >(true) by {
            assert(spec_verify_seal_inner(request.entries@[i], outcomes[i]) == Ok::<
                bool,
                SealError,
            >(true));
        }
    }
}

/// Where the backend gave a verdict on every entry and found one proof not
/// to hold, the batch does not verify.
pub proof fn lemma_one_rejected_entry_rejects_the_batch(
    request: VerifyBatchSealRequest,
    outcomes: Seq<Result<bool, String>>,
    r: Result<bool, SealError>,
    rejected: int,
)
    requires
        outcomes.len() == request.entries@.len(),
        spec_verify_batch_seal_inner(request, outcomes, r),
        forall|i: int| 0 <= i < outcomes.len() ==> (#[trigger] outcomes[i]) is Ok,
        0 <= rejected < outcomes.len(),
        outcomes[rejected] == Ok::<bool, String>(false),
    ensures
        r == Ok::<bool, SealError>(false),
{
}

/// Whether `request` asks for this range of the unsealed data at `shape`.
pub open spec fn spec_unseal_range_request(
    request: UnsealRangeRequest,
    registered_proof: RegisteredSealProof,
    shape: SectorShape,
    cache_path: Seq<char>,
    sealed_path: Seq<char>,
    output_path: Seq<char>,
    prover_id: ProverId,
    sector_id: SectorId,
    comm_d: Commitment,
    ticket: Ticket,
    offset: UnpaddedByteIndex,
    num_bytes: UnpaddedBytesAmount,
) -> bool {
    &&& request.registered_proof == registered_proof
    &&& request.shape == shape
    &&& request.cache_path@ == cache_path
    &&& request.sealed_path@ == sealed_path
    &&& request.output_path@ == output_path
    &&& request.prover_id == prover_id
    &&& request.sector_id == sector_id
    &&& request.comm_d == comm_d
    &&& request.ticket == ticket
    &&& request.offset == offset
    &&& request.num_bytes == num_bytes
}

/// Unsealing of a range: the backend is to write `num_bytes` bytes of the
/// unsealed data of the sector at `sealed_path`, from `offset` on, to
/// `output_path`.
pub fn get_unsealed_range(
    registered_proof: RegisteredSealProof,
    cache_path: &str,
    sealed_path: &str,
    output_path: &str,
    prover_id: ProverId,
    sector_id: SectorId,
    comm_d: Commitment,
    ticket: Ticket,
    offset: UnpaddedByteIndex,
    num_bytes: UnpaddedBytesAmount,
) -> (r: Result<UnsealRangeRequest, SealError>)
    ensures
        match spec_dispatch(registered_proof) {
            Ok(shape) => r is Ok && spec_unseal_range_request(
                r->Ok_0,
                registered_proof,
                shape,
                cache_path@,
                sealed_path@,
                output_path@,
                prover_id,
                sector_id,
                comm_d,
                ticket,
                offset,
                num_bytes,
            ),
            Err(e) => r == Err::<UnsealRangeRequest, SealError>(e),
        },
        registered_proof.spec_size_unregistered() ==> r == Err::<
            UnsealRangeRequest,
            SealError,
        >(SealError::UnsupportedSectorSize { sector_size: registered_proof.sector_size }),
{
    let shape = dispatch(registered_proof)?;
    Ok(
        UnsealRangeRequest {
            registered_proof,
            shape,
            cache_path: cache_path.to_owned(),
            sealed_path: sealed_path.to_owned(),
            output_path: output_path.to_owned(),
            prover_id,
            sector_id,
            comm_d,
            ticket,
            offset,
            num_bytes,
        },
    )
}

/// Ends an unsealing: the number of bytes that the backend wrote.
pub fn get_unsealed_range_inner(
    request: UnsealRangeRequest,
    outcome: Result<UnpaddedBytesAmount, String>,
) -> (r: Result<UnpaddedBytesAmount, SealError>)
    ensures
        r == spec_backend_result(request.shape, outcome),
{
    backend_result(request.shape, outcome)
}

/// Commitment of a piece: the backend is to read `piece_size` bytes from a
/// stream that the caller holds and to compute their commitment.
pub fn generate_piece_commitment(
    registered_proof: RegisteredSealProof,
    piece_size: UnpaddedBytesAmount,
) -> (r: Result<PieceCommitmentRequest, SealError>)
    ensures
        match spec_dispatch(registered_proof) {
            Ok(shape) => r == Ok::<PieceCommitmentRequest, SealError>(
                PieceCommitmentRequest { registered_proof, shape, piece_size },
            ),
            Err(e) => r == Err::<PieceCommitmentRequest, SealError>(e),
        },
        registered_proof.spec_size_unregistered() ==> r == Err::<
            PieceCommitmentRequest,
            SealError,
        >(SealError::UnsupportedSectorSize { sector_size: registered_proof.sector_size }),
{
    let shape = dispatch(registered_proof)?;
    Ok(PieceCommitmentRequest { registered_proof, shape, piece_size })
}

/// Ends the computation of a piece commitment.
pub fn generate_piece_commitment_inner(
    request: PieceCommitmentRequest,
    outcome: Result<PieceInfo, String>,
) -> (r: Result<PieceInfo, SealError>)
    ensures
        r == spec_backend_result(request.shape, outcome),
{
    backend_result(request.shape, outcome)
}

/// Whether `request` asks to add a piece of `piece_size` bytes after pieces
/// of the sizes `piece_lengths`, at `shape`.
pub open spec fn spec_add_piece_request(
    request: AddPieceRequest,
    registered_proof: RegisteredSealProof,
    shape: SectorShape,
    piece_size: UnpaddedBytesAmount,
    piece_lengths: Seq<UnpaddedBytesAmount>,
) -> bool {
    &&& request.registered_proof == registered_proof
    &&& request.shape == shape
    &&& request.piece_size == piece_size
    &&& request.piece_lengths@ == piece_lengths
}

/// Adding a piece to a sector that is being filled: the backend is to read
/// `piece_size` bytes from a stream that the caller holds and to write them
/// to the staging area, aligned as the pieces before it demand.
/// `piece_lengths` holds the sizes of those pieces in their order.
pub fn add_piece(
    registered_proof: RegisteredSealProof,
    piece_size: UnpaddedBytesAmount,
    piece_lengths: &[UnpaddedBytesAmount],
) -> (r: Result<AddPieceRequest, SealError>)
    ensures
        match spec_dispatch(registered_proof) {
            Ok(shape) => r is Ok && spec_add_piece_request(
                r->Ok_0,
                registered_proof,
                shape,
                piece_size,
                piece_lengths@,
            ),
            Err(e) => r == Err::<AddPieceRequest, SealError>(e),
        },
        registered_proof.spec_size_unregistered() ==> r == Err::<
            AddPieceRequest,
            SealError,
        >(SealError::UnsupportedSectorSize { sector_size: registered_proof.sector_size }),
{
    let shape = dispatch(registered_proof)?;
    Ok(
        AddPieceRequest {
            registered_proof,
            shape,
            piece_size,
            piece_lengths: copy_slice(piece_lengths),
        },
    )
}

/// Adding the first piece of a sector: `add_piece` with no piece before it.
pub fn write_and_preprocess(
    registered_proof: RegisteredSealProof,
    piece_size: UnpaddedBytesAmount,
) -> (r: Result<AddPieceRequest, SealError>)
    ensures
        match spec_dispatch(registered_proof) {
            Ok(shape) => r is Ok && spec_add_piece_request(
                r->Ok_0,
                registered_proof,
                shape,
                piece_size,
                Seq::empty(),
            ),
            Err(e) => r == Err::<AddPieceRequest, SealError>(e),
        },
        registered_proof.spec_size_unregistered() ==> r == Err::<
            AddPieceRequest,
            SealError,
        >(SealError::UnsupportedSectorSize { sector_size: registered_proof.sector_size }),
{
    let shape = dispatch(registered_proof)?;
    Ok(AddPieceRequest { registered_proof, shape, piece_size, piece_lengths: Vec::new() })
}

/// Ends the adding of a piece: the piece as the backend committed to it,
/// and the number of bytes that it wrote, alignment included.
pub fn add_piece_inner(
    request: AddPieceRequest,
    outcome: Result<(PieceInfo, UnpaddedBytesAmount), String>,
) -> (r: Result<(PieceInfo, UnpaddedBytesAmount), SealError>)
    ensures
        r == spec_backend_result(request.shape, outcome),
{
    backend_result(request.shape, outcome)
}

} // verus!
