//! A read-only view of a disk's partition table, as enumerated at one moment.

use vstd::prelude::*;
use vstd::string::StringExecFns;

verus! {

/// Start and end sector of a region or partition.
#[derive(Debug, Clone, Copy, PartialEq, Eq, Structural)]
pub struct Geometry {
    pub start: u64,
    pub end: u64,
}

/// One entry of a partition table: its type name ("free", "metadata" or a
/// partition type) and its bounds.
#[derive(Debug, Clone)]
pub struct PartEntry {
    pub kind_name: String,
    pub start: u64,
    pub end: u64,
}

/// The entries of a partition table in on-disk order, with the size of the disk.
#[derive(Debug, Clone)]
pub struct DiskView {
    pub entries: Vec<PartEntry>,
    pub total_sectors: u64,
    pub sector_size: u64,
}

/// An entry that marks unallocated space.
pub open spec fn is_free(e: PartEntry) -> bool {
    e.kind_name@ == "free"@
}

/// An entry reserved for the table's own bookkeeping.
pub open spec fn is_metadata(e: PartEntry) -> bool {
    e.kind_name@ == "metadata"@
}

/// An entry that is a partition a user created.
pub open spec fn is_allocated(e: PartEntry) -> bool {
    !is_free(e) && !is_metadata(e)
}

pub open spec fn region_of(e: PartEntry) -> Geometry {
    Geometry { start: e.start, end: e.end }
}

/// Index of the first free entry at or after `i`.
pub open spec fn first_free_from(s: Seq<PartEntry>, i: int) -> Option<int>
    decreases s.len() - i,
{
    if i < 0 || i >= s.len() {
        None
    } else if is_free(s[i]) {
        Some(i)
    } else {
        first_free_from(s, i + 1)
    }
}

/// Index of the first free entry.
pub open spec fn first_free(s: Seq<PartEntry>) -> Option<int> {
    first_free_from(s, 0)
}

/// The region of the first free entry, if there is one.
pub open spec fn next_free_region(s: Seq<PartEntry>) -> Option<Geometry> {
    match first_free(s) {
        Some(i) => Some(region_of(s[i])),
        None => None,
    }
}

/// Whether some entry is neither free nor metadata.
pub open spec fn has_allocated(s: Seq<PartEntry>) -> bool {
    exists|i: int| 0 <= i < s.len() && #[trigger] is_allocated(s[i])
}

impl DiskView {
    /// A view is well formed when its sector size is positive.
    pub open spec fn wf(self) -> bool {
        self.sector_size > 0
    }

    /// Region of the first entry, in on-disk order, that is free.
    pub fn find_next_free(&self) -> (r: Option<Geometry>)
        ensures
            r == next_free_region(self.entries@),
    {
        let free = String::from_str("free");
        proof {
            reveal_strlit("free");
        }
        let mut i: usize = 0;
        while i < self.entries.len()
            invariant
                i <= self.entries@.len(),
                free@ == "free"@,
                first_free_from(self.entries@, 0) == first_free_from(self.entries@, i as int),
            decreases self.entries@.len() - i,
        {
            let e = &self.entries[i];
            if e.kind_name == free {
                return Some(Geometry { start: e.start, end: e.end });
            }
            i = i + 1;
        }
        None
    }

    /// Whether the table already holds a partition that is neither free space
    /// nor metadata.
    pub fn has_allocated_partitions(&self) -> (r: bool)
        ensures
            r == has_allocated(self.entries@),
    {
        let free = String::from_str("free");
        let metadata = String::from_str("metadata");
        proof {
            reveal_strlit("free");
            reveal_strlit("metadata");
        }
        let mut i: usize = 0;
        while i < self.entries.len()
            invariant
                i <= self.entries@.len(),
                free@ == "free"@,
                metadata@ == "metadata"@,
                forall|j: int| 0 <= j < i ==> !#[trigger] is_allocated(self.entries@[j]),
            decreases self.entries@.len() - i,
        {
            let e = &self.entries[i];
            if e.kind_name != free && e.kind_name != metadata {
                assert(is_allocated(self.entries@[i as int]));
                return true;
            }
            i = i + 1;
        }
        false
    }
}

} // verus!
