//! The errors of the sealing pipeline.

use crate::registry::{SectorShape, Version};
use vstd::prelude::*;

verus! {

/// Why a pipeline operation was refused or failed.
#[derive(Clone, Debug, PartialEq, Eq)]
pub enum SealError {
    /// The proof type names a protocol version other than the supported one.
    UnsupportedVersion { version: Version },
    /// No sector shape is registered for the sector size.
    UnsupportedSectorSize { sector_size: u64 },
    /// The cache directory does not hold what the phase needs; the backend
    /// was not asked to seal.
    CacheValidationFailed { message: String },
    /// A shape-tagged value was opened for another shape than it was made for.
    LabelConversionMismatch { expected: SectorShape, found: SectorShape },
    /// The backend reported an error while working for the given shape.
    BackendFailure { shape: SectorShape, message: String },
}

} // verus!
