//! The label envelope: what the backend derives in the first pre-commit
//! phase, tagged with the shape it was derived for, so that it can be stored
//! and sent around without its holder knowing the shape.

use crate::error::SealError;
use crate::registry::SectorShape;
use crate::types::StoreConfig;
use vstd::prelude::*;

verus! {

/// The labels of one sector as the backend hands them out: one store per
/// layer. They mean something only to the backend specialised for the shape
/// that produced them.
#[derive(Clone, Debug, PartialEq, Eq)]
pub struct RawLabels {
    pub labels: Vec<StoreConfig>,
}

/// Labels together with the shape that they were derived for.
#[derive(Clone, Debug, PartialEq, Eq)]
pub enum Labels {
    StackedDrg2KiBV1(RawLabels),
    StackedDrg8MiBV1(RawLabels),
    StackedDrg512MiBV1(RawLabels),
    StackedDrg32GiBV1(RawLabels),
}

impl Labels {
    /// The shape recorded when the labels were wrapped.
    pub open spec fn spec_shape(self) -> SectorShape {
        match self {
            Labels::StackedDrg2KiBV1(_) => SectorShape::Shape2KiB,
            Labels::StackedDrg8MiBV1(_) => SectorShape::Shape8MiB,
            Labels::StackedDrg512MiBV1(_) => SectorShape::Shape512MiB,
            Labels::StackedDrg32GiBV1(_) => SectorShape::Shape32GiB,
        }
    }

    /// The labels inside, whatever the shape.
    pub open spec fn spec_raw(self) -> RawLabels {
        match self {
            Labels::StackedDrg2KiBV1(raw) => raw,
            Labels::StackedDrg8MiBV1(raw) => raw,
            Labels::StackedDrg512MiBV1(raw) => raw,
            Labels::StackedDrg32GiBV1(raw) => raw,
        }
    }

    pub fn shape(&self) -> (shape: SectorShape)
        ensures
            shape == self.spec_shape(),
    {
        match self {
            Labels::StackedDrg2KiBV1(_) => SectorShape::Shape2KiB,
            Labels::StackedDrg8MiBV1(_) => SectorShape::Shape8MiB,
            Labels::StackedDrg512MiBV1(_) => SectorShape::Shape512MiB,
            Labels::StackedDrg32GiBV1(_) => SectorShape::Shape32GiB,
        }
    }

    /// What `into_raw` returns.
    pub open spec fn spec_into_raw(self, expected: SectorShape) -> Result<RawLabels, SealError> {
        if self.spec_shape() == expected {
            Ok(self.spec_raw())
        } else {
            Err(SealError::LabelConversionMismatch { expected, found: self.spec_shape() })
        }
    }

    /// Opens the envelope for the backend of shape `expected`. Labels made
    /// for another shape are not handed out: the caller gets an error that
    /// names both shapes.
    pub fn into_raw(self, expected: SectorShape) -> (r: Result<RawLabels, SealError>)
        ensures
            r == self.spec_into_raw(expected),
    {
        match (self, expected) {
            (Labels::StackedDrg2KiBV1(raw), SectorShape::Shape2KiB) => Ok(raw),
            (Labels::StackedDrg8MiBV1(raw), SectorShape::Shape8MiB) => Ok(raw),
            (Labels::StackedDrg512MiBV1(raw), SectorShape::Shape512MiB) => Ok(raw),
            (Labels::StackedDrg32GiBV1(raw), SectorShape::Shape32GiB) => Ok(raw),
            (other, _) => Err(
                SealError::LabelConversionMismatch { expected, found: other.shape() },
            ),
        }
    }
}

/// What `convert_labels` returns.
pub open spec fn spec_convert_labels(shape: SectorShape, labels: RawLabels) -> Labels {
    match shape {
        SectorShape::Shape2KiB => Labels::StackedDrg2KiBV1(labels),
        SectorShape::Shape8MiB => Labels::StackedDrg8MiBV1(labels),
        SectorShape::Shape512MiB => Labels::StackedDrg512MiBV1(labels),
        SectorShape::Shape32GiB => Labels::StackedDrg32GiBV1(labels),
    }
}

/// Wraps the labels that the backend of shape `shape` produced.
pub fn convert_labels(shape: SectorShape, labels: RawLabels) -> (wrapped: Labels)
    ensures
        wrapped == spec_convert_labels(shape, labels),
        wrapped.spec_shape() == shape,
        wrapped.spec_raw() == labels,
{
    match shape {
        SectorShape::Shape2KiB => Labels::StackedDrg2KiBV1(labels),
        SectorShape::Shape8MiB => Labels::StackedDrg8MiBV1(labels),
        SectorShape::Shape512MiB => Labels::StackedDrg512MiBV1(labels),
        SectorShape::Shape32GiB => Labels::StackedDrg32GiBV1(labels),
    }
}

/// Labels wrapped for a shape and opened for the same shape come back
/// unchanged.
pub proof fn lemma_labels_round_trip(shape: SectorShape, labels: RawLabels)
    ensures
        spec_convert_labels(shape, labels).spec_into_raw(shape) == Ok::<RawLabels, SealError>(
            labels,
        ),
{
}

/// Labels wrapped for one shape and opened for another give a conversion
/// mismatch that names the shape asked for and the shape found.
pub proof fn lemma_labels_mismatch(
    wrapped_for: SectorShape,
    opened_for: SectorShape,
    labels: RawLabels,
)
    requires
        wrapped_for != opened_for,
    ensures
        spec_convert_labels(wrapped_for, labels).spec_into_raw(opened_for) == Err::<
            RawLabels,
            SealError,
        >(SealError::LabelConversionMismatch { expected: opened_for, found: wrapped_for }),
{
}

} // verus!
