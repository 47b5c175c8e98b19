//! Turning a size policy into concrete partition bounds against a disk view.

use vstd::prelude::*;
use crate::size::SizePolicy;
use crate::plan::PartitionPlan;
use crate::view::{
    DiskView, Geometry, PartEntry, first_free_from, has_allocated, is_allocated, is_free,
    next_free_region, region_of,
};

verus! {

/// Why no geometry could be compiled for a partition.
#[derive(Debug, Clone, Copy, PartialEq, Eq, Structural)]
pub enum CompileError {
    /// The whole disk was asked for, but the disk already holds a partition.
    DiskNotFresh,
    /// The table has no free region.
    NoFreeSpace,
    /// The computed end lies past the end of the free region.
    InsufficientFreeSpace,
    /// The start is not below the end.
    InvalidRange,
    /// The end lies past the last sector of the disk.
    OutOfRange,
}

/// `n / d` rounded up.
pub open spec fn ceil_div(n: nat, d: nat) -> nat
    recommends
        d > 0,
{
    if n % d == 0 {
        n / d
    } else {
        n / d + 1
    }
}

/// How many sectors an offset-bearing policy extends past its start.
pub open spec fn extent(policy: SizePolicy, total_sectors: u64, sector_size: u64) -> nat {
    match policy {
        SizePolicy::NextAvailablePlusOffsetBytes { offset } => ceil_div(
            offset as nat,
            sector_size as nat,
        ),
        SizePolicy::NextAvailablePlusOffsetSectors { offset } => offset as nat,
        SizePolicy::NextAvailablePlusOffsetPercentage { offset } => (total_sectors as nat
            * offset as nat + 50) / 100,
        _ => 0,
    }
}

/// The bounds a policy gives against a table's entries, or why it gives none.
pub open spec fn compiled(
    policy: SizePolicy,
    entries: Seq<PartEntry>,
    total_sectors: u64,
    sector_size: u64,
) -> Result<Geometry, CompileError> {
    match policy {
        SizePolicy::EntireDisk => if has_allocated(entries) {
            Err(CompileError::DiskNotFresh)
        } else {
            match next_free_region(entries) {
                None => Err(CompileError::NoFreeSpace),
                Some(g) => if g.start < g.end {
                    Ok(g)
                } else {
                    Err(CompileError::InvalidRange)
                },
            }
        },
        SizePolicy::ExactSize { start, end } => if start >= end {
            Err(CompileError::InvalidRange)
        } else if end >= total_sectors {
            Err(CompileError::OutOfRange)
        } else {
            Ok(Geometry { start, end })
        },
        _ => match next_free_region(entries) {
            None => Err(CompileError::NoFreeSpace),
            Some(g) => {
                let len = extent(policy, total_sectors, sector_size);
                if g.start + len > g.end {
                    Err(CompileError::InsufficientFreeSpace)
                } else if len == 0 {
                    Err(CompileError::InvalidRange)
                } else {
                    Ok(Geometry { start: g.start, end: (g.start + len) as u64 })
                }
            },
        },
    }
}

/// Number of sectors that the offset of an offset-bearing policy spans.
fn offset_extent(policy: SizePolicy, total_sectors: u64, sector_size: u64) -> (r: u128)
    requires
        sector_size > 0,
    ensures
        r as nat == extent(policy, total_sectors, sector_size),
{
    match policy {
        SizePolicy::NextAvailablePlusOffsetBytes { offset } => {
            let whole = offset / sector_size;
            if offset % sector_size == 0 {
                whole as u128
            } else {
                whole as u128 + 1
            }
        },
        SizePolicy::NextAvailablePlusOffsetSectors { offset } => offset as u128,
        SizePolicy::NextAvailablePlusOffsetPercentage { offset } => {
            let t = total_sectors as u128;
            let o = offset as u128;
            assert(t * o <= 0xffff_ffff_ffff_ffffu128 * 0xffff_ffff_ffff_ffffu128) by (nonlinear_arith)
                requires
                    t <= 0xffff_ffff_ffff_ffffu128,
                    o <= 0xffff_ffff_ffff_ffffu128,
            ;
            (t * o + 50) / 100
        },
        _ => 0,
    }
}

/// Compiles the bounds of one planned partition against the current view.
pub fn compile(plan: &PartitionPlan, view: &DiskView) -> (r: Result<Geometry, CompileError>)
    requires
        view.wf(),
    ensures
        r == compiled(
            plan.size.spec_policy(),
            view.entries@,
            view.total_sectors,
            view.sector_size,
        ),
{
    let policy = plan.size.policy();
    match policy {
        SizePolicy::EntireDisk => {
            if view.has_allocated_partitions() {
                return Err(CompileError::DiskNotFresh);
            }
            match view.find_next_free() {
                None => Err(CompileError::NoFreeSpace),
                Some(g) => if g.start < g.end {
                    Ok(g)
                } else {
                    Err(CompileError::InvalidRange)
                },
            }
        },
        SizePolicy::ExactSize { start, end } => {
            if start >= end {
                Err(CompileError::InvalidRange)
            } else if end >= view.total_sectors {
                Err(CompileError::OutOfRange)
            } else {
                Ok(Geometry { start, end })
            }
        },
        _ => match view.find_next_free() {
            None => Err(CompileError::NoFreeSpace),
            Some(g) => {
                let len = offset_extent(policy, view.total_sectors, view.sector_size);
                if g.start > g.end || len > (g.end - g.start) as u128 {
                    Err(CompileError::InsufficientFreeSpace)
                } else if len == 0 {
                    Err(CompileError::InvalidRange)
                } else {
                    Ok(Geometry { start: g.start, end: g.start + len as u64 })
                }
            },
        },
    }
}

/// An `ExactSize` policy whose start lies below its end, and whose end lies
/// on the disk, compiles to exactly its own bounds, whatever the table holds.
pub proof fn lemma_exact_size_verbatim(
    start: u64,
    end: u64,
    entries: Seq<PartEntry>,
    total_sectors: u64,
    sector_size: u64,
)
    requires
        start < end,
        end < total_sectors,
    ensures
        compiled(SizePolicy::ExactSize { start, end }, entries, total_sectors, sector_size) == Ok::<
            Geometry,
            CompileError,
        >(Geometry { start, end }),
{
}

proof fn lemma_first_free_at(s: Seq<PartEntry>, k: int, i: int)
    requires
        0 <= k <= i < s.len(),
        is_free(s[i]),
        forall|j: int| k <= j < i ==> !#[trigger] is_free(s[j]),
    ensures
        first_free_from(s, k) == Some(i),
    decreases i - k,
{
    if k < i {
        lemma_first_free_at(s, k + 1, i);
    }
}

/// On a table that holds only free and metadata entries, with a single free
/// entry whose start lies below its end, the whole-disk policy gives the
/// bounds of that free entry.
pub proof fn lemma_entire_disk_fresh(
    entries: Seq<PartEntry>,
    i: int,
    total_sectors: u64,
    sector_size: u64,
)
    requires
        forall|j: int| 0 <= j < entries.len() ==> !#[trigger] is_allocated(entries[j]),
        0 <= i < entries.len(),
        is_free(entries[i]),
        forall|j: int| 0 <= j < entries.len() && j != i ==> !#[trigger] is_free(entries[j]),
        entries[i].start < entries[i].end,
    ensures
        compiled(SizePolicy::EntireDisk, entries, total_sectors, sector_size) == Ok::<
            Geometry,
            CompileError,
        >(region_of(entries[i])),
{
    lemma_first_free_at(entries, 0, i);
}

/// On a table that holds any entry that is neither free nor metadata, the
/// whole-disk policy fails with `DiskNotFresh`.
pub proof fn lemma_entire_disk_not_fresh(
    entries: Seq<PartEntry>,
    total_sectors: u64,
    sector_size: u64,
)
    requires
        has_allocated(entries),
    ensures
        compiled(SizePolicy::EntireDisk, entries, total_sectors, sector_size) == Err::<
            Geometry,
            CompileError,
        >(CompileError::DiskNotFresh),
{
}

/// A partition compiled from an offset-bearing policy starts where the next
/// free region starts and ends inside it, after its start.
pub proof fn lemma_offset_within_free_region(
    policy: SizePolicy,
    entries: Seq<PartEntry>,
    total_sectors: u64,
    sector_size: u64,
)
    requires
        !(policy is EntireDisk),
        !(policy is ExactSize),
    ensures
        compiled(policy, entries, total_sectors, sector_size) matches Ok(g) ==> {
            &&& next_free_region(entries) matches Some(f)
            &&& g.start == f.start
            &&& g.start < g.end
            &&& g.end <= f.end
        },
{
}

/// Two offset-bearing partitions compiled in turn do not overlap: when the
/// view read for the second has its next free region at or after the end of
/// the first (as a table does once the first was added), the second starts
/// at or after the first's end and ends after its own start.
pub proof fn lemma_sequential_offsets_ordered(
    first: SizePolicy,
    second: SizePolicy,
    before: Seq<PartEntry>,
    after: Seq<PartEntry>,
    total_sectors: u64,
    sector_size: u64,
    g1: Geometry,
)
    requires
        !(first is EntireDisk) && !(first is ExactSize),
        !(second is EntireDisk) && !(second is ExactSize),
        compiled(first, before, total_sectors, sector_size) == Ok::<Geometry, CompileError>(g1),
        next_free_region(after) matches Some(f) && f.start >= g1.end,
    ensures
        g1.start < g1.end,
        compiled(second, after, total_sectors, sector_size) matches Ok(g2) ==> g1.end <= g2.start
            < g2.end,
{
    lemma_offset_within_free_region(first, before, total_sectors, sector_size);
    lemma_offset_within_free_region(second, after, total_sectors, sector_size);
}

} // verus!
