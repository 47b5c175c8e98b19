//! Partition size requests and their validation into size policies.

use vstd::prelude::*;

verus! {

/// The kind of a size request, before its fields are checked.
#[derive(Debug, Clone, Copy, PartialEq, Eq, Structural)]
pub enum PartitionSizeType {
    /// The whole free region of a disk that holds no partition yet.
    EntireDisk,
    /// Start at the next free region; extend by a number of bytes, rounded up to sectors.
    NextAvailablePlusOffsetBytes,
    /// Start at the next free region; extend by a number of sectors.
    NextAvailablePlusOffsetSectors,
    /// Start at the next free region; extend by a percentage of the disk's sectors.
    NextAvailablePlusOffsetPercentage,
    /// Explicit start and end sectors.
    ExactSize,
}

/// A fully specified size policy: each variant holds exactly the fields it needs.
#[derive(Debug, Clone, Copy, PartialEq, Eq, Structural)]
pub enum SizePolicy {
    EntireDisk,
    NextAvailablePlusOffsetBytes { offset: u64 },
    NextAvailablePlusOffsetSectors { offset: u64 },
    NextAvailablePlusOffsetPercentage { offset: u64 },
    ExactSize { start: u64, end: u64 },
}

/// Why a size request could not be turned into a policy.
#[derive(Debug, Clone, Copy, PartialEq, Eq, Structural)]
pub enum SizeError {
    MissingOffset,
    MissingStart,
    MissingEnd,
}

/// A validated size request.
#[derive(Debug, Clone, Copy, PartialEq, Eq, Structural)]
pub struct PartitionSize {
    policy: SizePolicy,
}

/// Whether a kind of request extends from the next free region by an offset.
pub open spec fn is_offset_kind(kind: PartitionSizeType) -> bool {
    ||| kind == PartitionSizeType::NextAvailablePlusOffsetBytes
    ||| kind == PartitionSizeType::NextAvailablePlusOffsetSectors
    ||| kind == PartitionSizeType::NextAvailablePlusOffsetPercentage
}

/// The policy that a request resolves to, or the field that it lacks.
pub open spec fn resolved(
    kind: PartitionSizeType,
    start: Option<u64>,
    end: Option<u64>,
    offset: Option<u64>,
) -> Result<SizePolicy, SizeError> {
    match kind {
        PartitionSizeType::EntireDisk => Ok(SizePolicy::EntireDisk),
        PartitionSizeType::ExactSize => match (start, end) {
            (None, _) => Err(SizeError::MissingStart),
            (Some(_), None) => Err(SizeError::MissingEnd),
            (Some(s), Some(e)) => Ok(SizePolicy::ExactSize { start: s, end: e }),
        },
        _ => match offset {
            None => Err(SizeError::MissingOffset),
            Some(o) => Ok(
                if kind == PartitionSizeType::NextAvailablePlusOffsetBytes {
                    SizePolicy::NextAvailablePlusOffsetBytes { offset: o }
                } else if kind == PartitionSizeType::NextAvailablePlusOffsetSectors {
                    SizePolicy::NextAvailablePlusOffsetSectors { offset: o }
                } else {
                    SizePolicy::NextAvailablePlusOffsetPercentage { offset: o }
                },
            ),
        },
    }
}

impl PartitionSize {
    pub closed spec fn spec_policy(self) -> SizePolicy {
        self.policy
    }

    /// Checks that the request carries the fields its kind needs; fields the
    /// kind does not use are ignored.
    pub fn new(
        size_type: PartitionSizeType,
        start: Option<u64>,
        end: Option<u64>,
        offset: Option<u64>,
    ) -> (r: Result<PartitionSize, SizeError>)
        ensures
            match r {
                Ok(size) => resolved(size_type, start, end, offset) == Ok::<SizePolicy, SizeError>(
                    size.spec_policy(),
                ),
                Err(e) => resolved(size_type, start, end, offset) == Err::<SizePolicy, SizeError>(e),
            },
    {
        let policy = match size_type {
            PartitionSizeType::EntireDisk => SizePolicy::EntireDisk,
            PartitionSizeType::ExactSize => {
                let s = match start {
                    Some(s) => s,
                    None => return Err(SizeError::MissingStart),
                };
                let e = match end {
                    Some(e) => e,
                    None => return Err(SizeError::MissingEnd),
                };
                SizePolicy::ExactSize { start: s, end: e }
            },
            PartitionSizeType::NextAvailablePlusOffsetBytes => match offset {
                Some(o) => SizePolicy::NextAvailablePlusOffsetBytes { offset: o },
                None => return Err(SizeError::MissingOffset),
            },
            PartitionSizeType::NextAvailablePlusOffsetSectors => match offset {
                Some(o) => SizePolicy::NextAvailablePlusOffsetSectors { offset: o },
                None => return Err(SizeError::MissingOffset),
            },
            PartitionSizeType::NextAvailablePlusOffsetPercentage => match offset {
                Some(o) => SizePolicy::NextAvailablePlusOffsetPercentage { offset: o },
                None => return Err(SizeError::MissingOffset),
            },
        };
        Ok(PartitionSize { policy })
    }

    /// The policy this size stands for.
    pub fn policy(&self) -> (r: SizePolicy)
        ensures
            r == self.spec_policy(),
    {
        self.policy
    }
}

/// A request of an offset-bearing kind without an offset is refused with
/// `MissingOffset`, so no size (and no geometry) ever comes of it.
pub proof fn lemma_missing_offset_refused(
    kind: PartitionSizeType,
    start: Option<u64>,
    end: Option<u64>,
)
    requires
        is_offset_kind(kind),
    ensures
        resolved(kind, start, end, None) == Err::<SizePolicy, SizeError>(SizeError::MissingOffset),
{
}

} // verus!
