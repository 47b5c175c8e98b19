//! Plans: the partitions to create on one device, in order.

use vstd::prelude::*;
use vstd::string::StringExecFns;
use crate::size::PartitionSize;

verus! {

/// One partition to create: its name, how its extent is found, and an optional
/// role flag (boot, esp, raid, ...).
#[derive(Debug, Clone)]
pub struct PartitionPlan {
    pub name: String,
    pub size: PartitionSize,
    pub part_flag: Option<String>,
}

/// The partition table type to create on a device and the partitions to place
/// on it, in the order they are created.
#[derive(Debug, Clone)]
pub struct LibpartedDevicePlan {
    pub partitions: Vec<PartitionPlan>,
    pub disk_type: String,
}

/// The partition table types a plan may ask for.
pub open spec fn is_supported_disk_type(name: Seq<char>) -> bool {
    name == "gpt"@
}

/// Whether `name` is a supported partition table type.
pub fn disk_type_supported(name: &String) -> (r: bool)
    ensures
        r == is_supported_disk_type(name@),
{
    let gpt = String::from_str("gpt");
    proof {
        reveal_strlit("gpt");
    }
    *name == gpt
}

} // verus!
