//! The registry of proof types: which sector sizes are supported, and which
//! sector shape the backend is specialised for at each of them.

use crate::error::SealError;
use vstd::prelude::*;

verus! {

pub const SECTOR_SIZE_2_KIB: u64 = 2048;

pub const SECTOR_SIZE_8_MIB: u64 = 8388608;

pub const SECTOR_SIZE_512_MIB: u64 = 536870912;

pub const SECTOR_SIZE_32_GIB: u64 = 34359738368;

/// Version of the proof protocol. Only `V1` is defined; a proof type read
/// from elsewhere may carry any other number, and is then refused.
#[derive(Clone, Copy, Debug, PartialEq, Eq, Hash, Structural)]
pub enum Version {
    V1,
    Unknown(u64),
}

/// The size-specific configuration that a backend implementation is
/// specialised for. One shape per supported sector size.
#[derive(Clone, Copy, Debug, PartialEq, Eq, Hash, Structural)]
pub enum SectorShape {
    Shape2KiB,
    Shape8MiB,
    Shape512MiB,
    Shape32GiB,
}

impl SectorShape {
    /// The sector size that this shape is registered for.
    pub open spec fn spec_sector_size(self) -> u64 {
        match self {
            SectorShape::Shape2KiB => SECTOR_SIZE_2_KIB,
            SectorShape::Shape8MiB => SECTOR_SIZE_8_MIB,
            SectorShape::Shape512MiB => SECTOR_SIZE_512_MIB,
            SectorShape::Shape32GiB => SECTOR_SIZE_32_GIB,
        }
    }

    #[verifier::when_used_as_spec(spec_sector_size)]
    pub fn sector_size(self) -> (size: u64)
        ensures
            size == self.spec_sector_size(),
    {
        match self {
            SectorShape::Shape2KiB => SECTOR_SIZE_2_KIB,
            SectorShape::Shape8MiB => SECTOR_SIZE_8_MIB,
            SectorShape::Shape512MiB => SECTOR_SIZE_512_MIB,
            SectorShape::Shape32GiB => SECTOR_SIZE_32_GIB,
        }
    }
}

/// The registry as a function: the shape registered for a sector size, if any.
pub open spec fn spec_shape_for_sector_size(sector_size: u64) -> Option<SectorShape> {
    if sector_size == SECTOR_SIZE_2_KIB {
        Some(SectorShape::Shape2KiB)
    } else if sector_size == SECTOR_SIZE_8_MIB {
        Some(SectorShape::Shape8MiB)
    } else if sector_size == SECTOR_SIZE_512_MIB {
        Some(SectorShape::Shape512MiB)
    } else if sector_size == SECTOR_SIZE_32_GIB {
        Some(SectorShape::Shape32GiB)
    } else {
        None
    }
}

/// Resolves a sector size to its shape.
pub fn shape_for_sector_size(sector_size: u64) -> (r: Result<SectorShape, SealError>)
    ensures
        match spec_shape_for_sector_size(sector_size) {
            Some(shape) => r == Ok::<SectorShape, SealError>(shape),
            None => r == Err::<SectorShape, SealError>(
                SealError::UnsupportedSectorSize { sector_size },
            ),
        },
{
    if sector_size == SECTOR_SIZE_2_KIB {
        Ok(SectorShape::Shape2KiB)
    } else if sector_size == SECTOR_SIZE_8_MIB {
        Ok(SectorShape::Shape8MiB)
    } else if sector_size == SECTOR_SIZE_512_MIB {
        Ok(SectorShape::Shape512MiB)
    } else if sector_size == SECTOR_SIZE_32_GIB {
        Ok(SectorShape::Shape32GiB)
    } else {
        Err(SealError::UnsupportedSectorSize { sector_size })
    }
}

/// A proof type: a protocol version and a sector size. Any pair can be
/// written down; the registry holds those that can be sealed.
#[derive(Clone, Copy, Debug, PartialEq, Eq, Hash, Structural)]
pub struct RegisteredSealProof {
    pub version: Version,
    pub sector_size: u64,
}

impl RegisteredSealProof {
    pub fn stacked_drg_2kib_v1() -> (proof: RegisteredSealProof)
        ensures
            proof == (RegisteredSealProof { version: Version::V1, sector_size: SECTOR_SIZE_2_KIB }),
    {
        RegisteredSealProof { version: Version::V1, sector_size: SECTOR_SIZE_2_KIB }
    }

    pub fn stacked_drg_8mib_v1() -> (proof: RegisteredSealProof)
        ensures
            proof == (RegisteredSealProof { version: Version::V1, sector_size: SECTOR_SIZE_8_MIB }),
    {
        RegisteredSealProof { version: Version::V1, sector_size: SECTOR_SIZE_8_MIB }
    }

    pub fn stacked_drg_512mib_v1() -> (proof: RegisteredSealProof)
        ensures
            proof == (RegisteredSealProof {
                version: Version::V1,
                sector_size: SECTOR_SIZE_512_MIB,
            }),
    {
        RegisteredSealProof { version: Version::V1, sector_size: SECTOR_SIZE_512_MIB }
    }

    pub fn stacked_drg_32gib_v1() -> (proof: RegisteredSealProof)
        ensures
            proof == (RegisteredSealProof {
                version: Version::V1,
                sector_size: SECTOR_SIZE_32_GIB,
            }),
    {
        RegisteredSealProof { version: Version::V1, sector_size: SECTOR_SIZE_32_GIB }
    }

    /// The proof type of the supported version that seals sectors of the
    /// given shape.
    pub open spec fn spec_for_shape(shape: SectorShape) -> RegisteredSealProof {
        RegisteredSealProof { version: Version::V1, sector_size: shape.spec_sector_size() }
    }

    pub fn for_shape(shape: SectorShape) -> (proof: RegisteredSealProof)
        ensures
            proof == Self::spec_for_shape(shape),
    {
        RegisteredSealProof { version: Version::V1, sector_size: shape.sector_size() }
    }

    pub open spec fn spec_version(self) -> Version {
        self.version
    }

    #[verifier::when_used_as_spec(spec_version)]
    pub fn version(self) -> (version: Version)
        ensures
            version == self.version,
    {
        self.version
    }

    pub open spec fn spec_sector_size(self) -> u64 {
        self.sector_size
    }

    #[verifier::when_used_as_spec(spec_sector_size)]
    pub fn sector_size(self) -> (sector_size: u64)
        ensures
            sector_size == self.sector_size,
    {
        self.sector_size
    }

    /// Whether the registry holds this proof type: the version is the
    /// supported one and a shape is registered for the sector size.
    pub open spec fn spec_is_registered(self) -> bool {
        self.version == Version::V1 && spec_shape_for_sector_size(self.sector_size) is Some
    }

    #[verifier::when_used_as_spec(spec_is_registered)]
    pub fn is_registered(self) -> (registered: bool)
        ensures
            registered == self.spec_is_registered(),
    {
        match self.version {
            Version::V1 => shape_for_sector_size(self.sector_size).is_ok(),
            Version::Unknown(_) => false,
        }
    }

    /// Whether the version is the supported one and no shape is registered
    /// for the sector size: the sector size is what keeps this proof type
    /// out of the registry.
    pub open spec fn spec_size_unregistered(self) -> bool {
        self.version == Version::V1 && spec_shape_for_sector_size(self.sector_size) is None
    }

    /// What `check_version` returns.
    pub open spec fn spec_check_version(self) -> Result<(), SealError> {
        if self.version == Version::V1 {
            Ok(())
        } else {
            Err(SealError::UnsupportedVersion { version: self.version })
        }
    }

    /// Refuses every protocol version but the supported one.
    pub fn check_version(self) -> (r: Result<(), SealError>)
        ensures
            r == self.spec_check_version(),
    {
        match self.version {
            Version::V1 => Ok(()),
            Version::Unknown(_) => Err(SealError::UnsupportedVersion { version: self.version }),
        }
    }

    /// What `shape` returns.
    pub open spec fn spec_shape(self) -> Result<SectorShape, SealError> {
        match spec_shape_for_sector_size(self.sector_size) {
            Some(shape) => Ok(shape),
            None => Err(SealError::UnsupportedSectorSize { sector_size: self.sector_size }),
        }
    }

    /// The shape registered for this proof type's sector size, whatever its
    /// version.
    pub fn shape(self) -> (r: Result<SectorShape, SealError>)
        ensures
            r == self.spec_shape(),
    {
        shape_for_sector_size(self.sector_size)
    }
}

/// What `dispatch` returns: the version is judged first, then the sector size.
pub open spec fn spec_dispatch(proof: RegisteredSealProof) -> Result<SectorShape, SealError> {
    match proof.spec_check_version() {
        Err(e) => Err(e),
        Ok(_) => proof.spec_shape(),
    }
}

/// Selects the sector shape that the backend must be called at for a proof
/// type. Every operation that takes a proof type goes through here before
/// anything is handed to the backend.
pub fn dispatch(proof: RegisteredSealProof) -> (r: Result<SectorShape, SealError>)
    ensures
        r == spec_dispatch(proof),
        r is Ok <==> proof.spec_is_registered(),
        proof.spec_size_unregistered() ==> r == Err::<SectorShape, SealError>(
            SealError::UnsupportedSectorSize { sector_size: proof.sector_size },
        ),
{
    match proof.check_version() {
        Err(e) => Err(e),
        Ok(_) => proof.shape(),
    }
}

/// The proof types that the registry holds, smallest sector first.
pub fn registered_seal_proofs() -> (proofs: Vec<RegisteredSealProof>)
    ensures
        proofs@ == seq![
            RegisteredSealProof::spec_for_shape(SectorShape::Shape2KiB),
            RegisteredSealProof::spec_for_shape(SectorShape::Shape8MiB),
            RegisteredSealProof::spec_for_shape(SectorShape::Shape512MiB),
            RegisteredSealProof::spec_for_shape(SectorShape::Shape32GiB),
        ],
        forall|proof: RegisteredSealProof|
            proof.spec_is_registered() <==> #[trigger] proofs@.contains(proof),
{
    let mut proofs: Vec<RegisteredSealProof> = Vec::new();
    proofs.push(RegisteredSealProof::for_shape(SectorShape::Shape2KiB));
    proofs.push(RegisteredSealProof::for_shape(SectorShape::Shape8MiB));
    proofs.push(RegisteredSealProof::for_shape(SectorShape::Shape512MiB));
    proofs.push(RegisteredSealProof::for_shape(SectorShape::Shape32GiB));
    proof {
        assert(proofs@ =~= seq![
            RegisteredSealProof::spec_for_shape(SectorShape::Shape2KiB),
            RegisteredSealProof::spec_for_shape(SectorShape::Shape8MiB),
            RegisteredSealProof::spec_for_shape(SectorShape::Shape512MiB),
            RegisteredSealProof::spec_for_shape(SectorShape::Shape32GiB),
        ]);
    }
    proofs
}

/// Every proof type in the registry is dispatched to one shape, the one
/// registered for its sector size: 2 KiB, 8 MiB, 512 MiB and 32 GiB sectors
/// go to the shape of that name.
pub proof fn lemma_dispatch_selects_registered_shape(proof: RegisteredSealProof)
    requires
        proof.spec_is_registered(),
    ensures
        spec_dispatch(proof) is Ok,
        spec_dispatch(proof)->Ok_0.spec_sector_size() == proof.sector_size,
        forall|shape: SectorShape|
            shape.spec_sector_size() == proof.sector_size ==> spec_dispatch(proof) == Ok::<
                SectorShape,
                SealError,
            >(shape),
        proof.sector_size == 2048 ==> spec_dispatch(proof)->Ok_0 == SectorShape::Shape2KiB,
        proof.sector_size == 8388608 ==> spec_dispatch(proof)->Ok_0 == SectorShape::Shape8MiB,
        proof.sector_size == 536870912 ==> spec_dispatch(proof)->Ok_0 == SectorShape::Shape512MiB,
        proof.sector_size == 34359738368 ==> spec_dispatch(proof)->Ok_0 == SectorShape::Shape32GiB,
{
}

/// Each shape is registered for one sector size, and the proof type made
/// for a shape is dispatched back to that shape.
pub proof fn lemma_shape_round_trip(shape: SectorShape)
    ensures
        spec_shape_for_sector_size(shape.spec_sector_size()) == Some(shape),
        RegisteredSealProof::spec_for_shape(shape).spec_is_registered(),
        spec_dispatch(RegisteredSealProof::spec_for_shape(shape)) == Ok::<SectorShape, SealError>(
            shape,
        ),
{
}

/// A proof type of the supported version whose sector size is outside the
/// registry is refused for its sector size. Every operation that takes a
/// proof type answers with what `dispatch` refuses it with.
pub proof fn lemma_unregistered_sector_size_is_refused(proof: RegisteredSealProof)
    requires
        proof.spec_size_unregistered(),
    ensures
        proof.spec_shape() == Err::<SectorShape, SealError>(
            SealError::UnsupportedSectorSize { sector_size: proof.sector_size },
        ),
        spec_dispatch(proof) == Err::<SectorShape, SealError>(
            SealError::UnsupportedSectorSize { sector_size: proof.sector_size },
        ),
{
}

} // verus!
