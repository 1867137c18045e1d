//! Vanilla proofs: the per-partition proofs of the first commit phase,
//! tagged with the shape they were made at.

use crate::error::SealError;
use crate::registry::SectorShape;
use vstd::prelude::*;

verus! {

/// One vanilla proof in the backend's encoding, together with the shape of
/// the backend that made it and that alone can read it.
#[derive(Clone, Debug, PartialEq, Eq)]
pub enum VanillaSealProof {
    StackedDrg2KiBV1(Vec<u8>),
    StackedDrg8MiBV1(Vec<u8>),
    StackedDrg512MiBV1(Vec<u8>),
    StackedDrg32GiBV1(Vec<u8>),
}

impl VanillaSealProof {
    /// The shape recorded when the proof was wrapped.
    pub open spec fn spec_shape(self) -> SectorShape {
        match self {
            VanillaSealProof::StackedDrg2KiBV1(_) => SectorShape::Shape2KiB,
            VanillaSealProof::StackedDrg8MiBV1(_) => SectorShape::Shape8MiB,
            VanillaSealProof::StackedDrg512MiBV1(_) => SectorShape::Shape512MiB,
            VanillaSealProof::StackedDrg32GiBV1(_) => SectorShape::Shape32GiB,
        }
    }

    /// The encoded proof inside, whatever the shape.
    pub open spec fn spec_raw(self) -> Vec<u8> {
        match self {
            VanillaSealProof::StackedDrg2KiBV1(raw) => raw,
            VanillaSealProof::StackedDrg8MiBV1(raw) => raw,
            VanillaSealProof::StackedDrg512MiBV1(raw) => raw,
            VanillaSealProof::StackedDrg32GiBV1(raw) => raw,
        }
    }

    pub fn shape(&self) -> (shape: SectorShape)
        ensures
            shape == self.spec_shape(),
    {
        match self {
            VanillaSealProof::StackedDrg2KiBV1(_) => SectorShape::Shape2KiB,
            VanillaSealProof::StackedDrg8MiBV1(_) => SectorShape::Shape8MiB,
            VanillaSealProof::StackedDrg512MiBV1(_) => SectorShape::Shape512MiB,
            VanillaSealProof::StackedDrg32GiBV1(_) => SectorShape::Shape32GiB,
        }
    }

    /// What `into_raw` returns.
    pub open spec fn spec_into_raw(self, expected: SectorShape) -> Result<Vec<u8>, SealError> {
        if self.spec_shape() == expected {
            Ok(self.spec_raw())
        } else {
            Err(SealError::LabelConversionMismatch { expected, found: self.spec_shape() })
        }
    }

    /// Hands out the encoded proof for the backend of shape `expected`, or
    /// an error that names both shapes where the proof was made at another.
    pub fn into_raw(self, expected: SectorShape) -> (r: Result<Vec<u8>, SealError>)
        ensures
            r == self.spec_into_raw(expected),
    {
        match (self, expected) {
            (VanillaSealProof::StackedDrg2KiBV1(raw), SectorShape::Shape2KiB) => Ok(raw),
            (VanillaSealProof::StackedDrg8MiBV1(raw), SectorShape::Shape8MiB) => Ok(raw),
            (VanillaSealProof::StackedDrg512MiBV1(raw), SectorShape::Shape512MiB) => Ok(raw),
            (VanillaSealProof::StackedDrg32GiBV1(raw), SectorShape::Shape32GiB) => Ok(raw),
            (other, _) => Err(
                SealError::LabelConversionMismatch { expected, found: other.shape() },
            ),
        }
    }
}

/// What `convert_vanilla_proof` returns.
pub open spec fn spec_convert_vanilla_proof(
    shape: SectorShape,
    proof: Vec<u8>,
) -> VanillaSealProof {
    match shape {
        SectorShape::Shape2KiB => VanillaSealProof::StackedDrg2KiBV1(proof),
        SectorShape::Shape8MiB => VanillaSealProof::StackedDrg8MiBV1(proof),
        SectorShape::Shape512MiB => VanillaSealProof::StackedDrg512MiBV1(proof),
        SectorShape::Shape32GiB => VanillaSealProof::StackedDrg32GiBV1(proof),
    }
}

/// Wraps a vanilla proof that the backend of shape `shape` made.
pub fn convert_vanilla_proof(shape: SectorShape, proof: Vec<u8>) -> (wrapped: VanillaSealProof)
    ensures
        wrapped == spec_convert_vanilla_proof(shape, proof),
        wrapped.spec_shape() == shape,
        wrapped.spec_raw() == proof,
{
    match shape {
        SectorShape::Shape2KiB => VanillaSealProof::StackedDrg2KiBV1(proof),
        SectorShape::Shape8MiB => VanillaSealProof::StackedDrg8MiBV1(proof),
        SectorShape::Shape512MiB => VanillaSealProof::StackedDrg512MiBV1(proof),
        SectorShape::Shape32GiB => VanillaSealProof::StackedDrg32GiBV1(proof),
    }
}

/// The proofs of one partition, each wrapped for `shape`.
pub open spec fn spec_convert_partition(shape: SectorShape, proofs: Seq<Vec<u8>>) -> Seq<
    VanillaSealProof,
> {
    Seq::new(proofs.len(), |j: int| spec_convert_vanilla_proof(shape, proofs[j]))
}

/// Wraps the vanilla proofs of one partition.
pub fn convert_partition(shape: SectorShape, proofs: Vec<Vec<u8>>) -> (wrapped: Vec<
    VanillaSealProof,
>)
    ensures
        wrapped@ == spec_convert_partition(shape, proofs@),
{
    let ghost all = proofs@;
    let mut wrapped: Vec<VanillaSealProof> = Vec::new();
    for proof in it: proofs.into_iter()
        invariant
            it.seq() == all,
            wrapped@ == spec_convert_partition(shape, all.take(it.index() as int)),
    {
        wrapped.push(convert_vanilla_proof(shape, proof));
    }
    wrapped
}

/// What `convert_vanilla_proofs` returns, partition by partition.
pub open spec fn spec_convert_vanilla_proofs(
    shape: SectorShape,
    proofs: Seq<Vec<Vec<u8>>>,
    wrapped: Seq<Vec<VanillaSealProof>>,
) -> bool {
    &&& wrapped.len() == proofs.len()
    &&& forall|i: int|
        0 <= i < proofs.len() ==> (#[trigger] wrapped[i])@ == spec_convert_partition(
            shape,
            proofs[i]@,
        )
}

/// Wraps the vanilla proofs of all partitions.
pub fn convert_vanilla_proofs(shape: SectorShape, proofs: Vec<Vec<Vec<u8>>>) -> (wrapped: Vec<
    Vec<VanillaSealProof>,
>)
    ensures
        spec_convert_vanilla_proofs(shape, proofs@, wrapped@),
{
    let ghost all = proofs@;
    let mut wrapped: Vec<Vec<VanillaSealProof>> = Vec::new();
    for partition in it: proofs.into_iter()
        invariant
            it.seq() == all,
            spec_convert_vanilla_proofs(shape, all.take(it.index() as int), wrapped@),
    {
        wrapped.push(convert_partition(shape, partition));
    }
    wrapped
}

/// Whether every proof of a partition was made at `expected`.
pub open spec fn partition_matches(proofs: Seq<VanillaSealProof>, expected: SectorShape) -> bool {
    forall|j: int| 0 <= j < proofs.len() ==> (#[trigger] proofs[j]).spec_shape() == expected
}

/// Whether the proof at `j` is the first of a partition that was made at
/// another shape than `expected`.
pub open spec fn is_first_mismatch(
    proofs: Seq<VanillaSealProof>,
    expected: SectorShape,
    j: int,
) -> bool {
    &&& 0 <= j < proofs.len()
    &&& proofs[j].spec_shape() != expected
    &&& partition_matches(proofs.take(j), expected)
}

/// The encoded proofs of a partition, without their tags.
pub open spec fn spec_partition_raw(proofs: Seq<VanillaSealProof>) -> Seq<Vec<u8>> {
    Seq::new(proofs.len(), |j: int| proofs[j].spec_raw())
}

/// What `partition_into_raw` returns: the encoded proofs where all were made
/// at `expected`, else the mismatch of the first that was not.
pub open spec fn spec_partition_into_raw(
    proofs: Seq<VanillaSealProof>,
    expected: SectorShape,
    r: Result<Vec<Vec<u8>>, SealError>,
) -> bool {
    match r {
        Ok(raw) => partition_matches(proofs, expected) && raw@ == spec_partition_raw(proofs),
        Err(e) => exists|j: int|
            #![trigger proofs[j]]
            is_first_mismatch(proofs, expected, j) && e == (SealError::LabelConversionMismatch {
                expected,
                found: proofs[j].spec_shape(),
            }),
    }
}

/// Opens the vanilla proofs of one partition for the backend of shape
/// `expected`.
pub fn partition_into_raw(proofs: Vec<VanillaSealProof>, expected: SectorShape) -> (r: Result<
    Vec<Vec<u8>>,
    SealError,
>)
    ensures
        spec_partition_into_raw(proofs@, expected, r),
{
    let ghost all = proofs@;
    let mut raw: Vec<Vec<u8>> = Vec::new();
    for proof in it: proofs.into_iter()
        invariant
            it.seq() == all,
            partition_matches(all.take(it.index() as int), expected),
            raw@ == spec_partition_raw(all.take(it.index() as int)),
    {
        match proof.into_raw(expected) {
            Ok(bytes) => {
                raw.push(bytes);
            },
            Err(e) => {
                return Err(e);
            },
        }
    }
    assert(all.take(all.len() as int) == all);
    Ok(raw)
}

/// What `vanilla_proofs_into_raw` returns: the encoded proofs of every
/// partition where all were made at `expected`, else the mismatch of the
/// first that was not, partitions taken in their order.
pub open spec fn spec_vanilla_proofs_into_raw(
    wrapped: Seq<Vec<VanillaSealProof>>,
    expected: SectorShape,
    r: Result<Vec<Vec<Vec<u8>>>, SealError>,
) -> bool {
    match r {
        Ok(raw) => {
            &&& raw@.len() == wrapped.len()
            &&& forall|i: int|
                0 <= i < wrapped.len() ==> spec_partition_into_raw(
                    (#[trigger] wrapped[i])@,
                    expected,
                    Ok(raw@[i]),
                )
        },
        Err(e) => exists|i: int|
            #![trigger wrapped[i]]
            {
                &&& 0 <= i < wrapped.len()
                &&& forall|k: int|
                    0 <= k < i ==> partition_matches((#[trigger] wrapped[k])@, expected)
                &&& spec_partition_into_raw(wrapped[i]@, expected, Err(e))
            },
    }
}

/// Opens the vanilla proofs of all partitions for the backend of shape
/// `expected`.
pub fn vanilla_proofs_into_raw(wrapped: Vec<Vec<VanillaSealProof>>, expected: SectorShape) -> (r:
    Result<Vec<Vec<Vec<u8>>>, SealError>)
    ensures
        spec_vanilla_proofs_into_raw(wrapped@, expected, r),
{
    let ghost all = wrapped@;
    let mut raw: Vec<Vec<Vec<u8>>> = Vec::new();
    for partition in it: wrapped.into_iter()
        invariant
            it.seq() == all,
            spec_vanilla_proofs_into_raw(all.take(it.index() as int), expected, Ok(raw)),
    {
        let ghost i: int = it.index() as int;
        match partition_into_raw(partition, expected) {
            Ok(proofs) => {
                raw.push(proofs);
            },
            Err(e) => {
                assert forall|k: int| 0 <= k < i implies partition_matches(
                    (#[trigger] all[k])@,
                    expected,
                ) by {
                    assert(all.take(i)[k] == all[k]);
                }
                return Err(e);
            },
        }
    }
    assert(all.take(all.len() as int) == all);
    Ok(raw)
}

/// Vanilla proofs wrapped for a shape and opened for the same shape come
/// back unchanged and in their order.
pub proof fn lemma_vanilla_proofs_round_trip(
    shape: SectorShape,
    proofs: Seq<Vec<Vec<u8>>>,
    wrapped: Seq<Vec<VanillaSealProof>>,
    r: Result<Vec<Vec<Vec<u8>>>, SealError>,
)
    requires
        spec_convert_vanilla_proofs(shape, proofs, wrapped),
        spec_vanilla_proofs_into_raw(wrapped, shape, r),
    ensures
        r is Ok,
        r->Ok_0@.len() == proofs.len(),
        forall|i: int| 0 <= i < proofs.len() ==> (#[trigger] r->Ok_0@[i])@ == proofs[i]@,
{
    match r {
        Ok(raw) => {
            assert forall|i: int| 0 <= i < proofs.len() implies (#[trigger] raw@[i])@
                == proofs[i]@ by {
                assert(spec_partition_into_raw(wrapped[i]@, shape, Ok(raw@[i])));
            }
        },
        Err(e) => {},
    }
}

/// Vanilla proofs wrapped for one shape and opened for another are refused,
/// unless there is none among them: the mismatch names the shape asked for
/// and the shape found.
pub proof fn lemma_vanilla_proofs_mismatch(
    wrapped_for: SectorShape,
    opened_for: SectorShape,
    proofs: Seq<Vec<Vec<u8>>>,
    wrapped: Seq<Vec<VanillaSealProof>>,
    r: Result<Vec<Vec<Vec<u8>>>, SealError>,
    partition: int,
)
    requires
        wrapped_for != opened_for,
        spec_convert_vanilla_proofs(wrapped_for, proofs, wrapped),
        spec_vanilla_proofs_into_raw(wrapped, opened_for, r),
        0 <= partition < proofs.len(),
        proofs[partition]@.len() > 0,
    ensures
        r == Err::<Vec<Vec<Vec<u8>>>, SealError>(
            SealError::LabelConversionMismatch { expected: opened_for, found: wrapped_for },
        ),
{
    assert(wrapped[partition]@[0].spec_shape() == wrapped_for);
}

} // verus!
