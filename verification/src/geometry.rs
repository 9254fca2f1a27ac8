use vstd::prelude::*;

use crate::errors::PartError;

verus! {

/// One entry of a partition table: the table's own partition number and
/// the geometry in sectors. Partition numbers are table-defined
/// identifiers, not positional indices.
#[derive(Clone, Copy, PartialEq, Eq, Structural, Debug)]
pub struct PartitionEntry {
    pub number: i32,
    pub start_sectors: u64,
    pub length_sectors: u64,
}

/// A partition table as read from an image: the device's sector size and
/// the entries in table order. The sector size is queried from the
/// device, never assumed.
#[derive(Debug)]
pub struct PartitionTable {
    pub sector_size: u64,
    pub parts: Vec<PartitionEntry>,
}

/// A byte region of the image: where a partition's bytes start and how
/// many there are.
#[derive(Clone, Copy, PartialEq, Eq, Structural, Debug)]
pub struct PartitionRegion {
    pub offset: u64,
    pub length: u64,
}

impl PartitionTable {
    /// Every entry's geometry, converted to bytes, fits in 64 bits.
    pub open spec fn wf(self) -> bool {
        forall|i: int| 0 <= i < self.parts@.len() ==> {
            &&& #[trigger] self.parts@[i].start_sectors * self.sector_size <= u64::MAX
            &&& self.parts@[i].length_sectors * self.sector_size <= u64::MAX
        }
    }
}

/// Some entry of `table` carries the number `number`.
pub open spec fn has_partition(table: PartitionTable, number: i32) -> bool {
    exists|i: int| 0 <= i < table.parts@.len() && (#[trigger] table.parts@[i]).number == number
}

/// `reg` is the byte region of the first entry of `table` numbered
/// `number`: its start and length in sectors, scaled by the sector size.
pub open spec fn resolved_region(table: PartitionTable, number: i32, reg: PartitionRegion) -> bool {
    exists|i: int|
        {
            &&& 0 <= i < table.parts@.len()
            &&& (#[trigger] table.parts@[i]).number == number
            &&& forall|j: int| 0 <= j < i ==> (#[trigger] table.parts@[j]).number != number
            &&& reg.offset == table.parts@[i].start_sectors * table.sector_size
            &&& reg.length == table.parts@[i].length_sectors * table.sector_size
        }
}

/// Translate a partition number into the byte offset and byte length of
/// that partition within the image, scanning the table in order and
/// matching by the table's own numbering. A number absent from the table
/// is reported, never guessed at.
pub fn resolve(table: &PartitionTable, partition_number: i32) -> (r: Result<
    PartitionRegion,
    PartError,
>)
    requires
        table.wf(),
    ensures
        r is Ok <==> has_partition(*table, partition_number),
        r matches Ok(reg) ==> resolved_region(*table, partition_number, reg),
        r is Err ==> r == Err::<PartitionRegion, PartError>(
            PartError::PartitionNotFound(partition_number),
        ),
{
    let n = table.parts.len();
    let mut idx: usize = 0;
    while idx < n
        invariant
            table.wf(),
            n == table.parts@.len(),
            idx <= n,
            forall|j: int| 0 <= j < idx ==> (#[trigger] table.parts@[j]).number != partition_number,
        decreases n - idx,
    {
        let entry = table.parts[idx];
        if entry.number == partition_number {
            let reg = PartitionRegion {
                offset: entry.start_sectors * table.sector_size,
                length: entry.length_sectors * table.sector_size,
            };
            assert(resolved_region(*table, partition_number, reg)) by {
                assert(table.parts@[idx as int].number == partition_number);
            }
            return Ok(reg);
        }
        idx += 1;
    }
    Err(PartError::PartitionNotFound(partition_number))
}

} // verus!
