//! The calls that this library makes into the sealing backend itself: those
//! that only compute. Their contracts are taken on trust.

use crate::registry::spec_shape_for_sector_size;
use crate::types::{Commitment, PieceInfo};
use vstd::prelude::*;

verus! {

/// The error type of the backend, `anyhow::Error`. Nothing is known of a
/// value but what `backend_error_message` prints.
#[verifier::external_type_specification]
#[verifier::external_body]
pub struct ExAnyhowError(anyhow::Error);

/// What `filecoin_proofs::compute_comm_d` computes for a sector size and the
/// pieces of a sector in their order: the data commitment, or `None` where it
/// refuses the pieces.
pub uninterp spec fn backend_comm_d(sector_size: u64, piece_infos: Seq<PieceInfo>) -> Option<
    Commitment,
>;

/// Whether the backend can be asked for the data commitment of these pieces:
/// the sector size is registered, no piece is larger than the sector, and
/// sixteen times the sector size fits the machine's `usize`, in which the
/// backend counts the bits of a padded piece. Within these bounds none of
/// the backend's sums and products overflows.
pub open spec fn comm_d_inputs_in_range(sector_size: u64, piece_infos: Seq<PieceInfo>) -> bool {
    &&& spec_shape_for_sector_size(sector_size) is Some
    &&& sector_size <= usize::MAX / 16
    &&& forall|i: int|
        0 <= i < piece_infos.len() ==> (#[trigger] piece_infos[i]).size.0 <= sector_size
}

/// Calls `filecoin_proofs::compute_comm_d`. It hashes piece commitments
/// pairwise, with zero pieces filled in between, and reads nothing but its
/// arguments, so its result is the same whenever the arguments are: the
/// contract gives that result the name `backend_comm_d`. For a sector without
/// pieces it hashes a sector of zero bytes, once per sector size and process,
/// and holds the leaves of that tree in memory while it does.
#[verifier::external_body]
pub(crate) fn backend_compute_comm_d(sector_size: u64, piece_infos: &[PieceInfo]) -> (r: Result<
    Commitment,
    anyhow::Error,
>)
    requires
        comm_d_inputs_in_range(sector_size, piece_infos@),
    ensures
        match r {
            Ok(comm_d) => backend_comm_d(sector_size, piece_infos@) == Some(comm_d),
            Err(_) => backend_comm_d(sector_size, piece_infos@) is None,
        },
{
    let pieces: Vec<filecoin_proofs::PieceInfo> = piece_infos.iter().map(
        |piece| filecoin_proofs::PieceInfo {
            commitment: piece.commitment,
            size: filecoin_proofs::UnpaddedBytesAmount(piece.size.0),
        },
    ).collect();
    filecoin_proofs::compute_comm_d(filecoin_proofs::SectorSize(sector_size), &pieces)
}

/// Prints a backend error with its causes, as `anyhow::Error` formats itself
/// under `{:#}`. Nothing is claimed of the text.
#[verifier::external_body]
pub(crate) fn backend_error_message(error: anyhow::Error) -> (message: String) {
    format!("{:#}", error)
}

} // verus!
