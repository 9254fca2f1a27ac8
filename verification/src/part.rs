use vstd::prelude::*;

use crate::errors::PartError;
use crate::fskind::{spells_ext4, spells_vfat, FilesystemKind};
use crate::geometry::{has_partition, resolve, resolved_region, PartitionRegion, PartitionTable};
use crate::image::{zero, zero_region};

verus! {

/// One selected partition of a disk image. The image is identified by a
/// path and never owned here; each operation opens and closes its own
/// handle around this library.
pub struct PartMount {
    /// Path of the image file or block device.
    pub device: String,
    /// The table-defined number of the selected partition, 1-based.
    pub partition_number: i32,
    /// A fixed byte region to use in place of a table lookup.
    pub test_partition_info: Option<(u64, u64)>,
}

impl PartMount {
    /// The byte region of the selected partition: the fixed override
    /// when one is set, else the first table entry with this partition's
    /// number, scaled from sectors to bytes.
    pub fn resolve_region(&self, table: &PartitionTable) -> (r: Result<PartitionRegion, PartError>)
        requires
            table.wf(),
        ensures
            self.test_partition_info matches Some(info) ==> r == Ok::<
                PartitionRegion,
                PartError,
            >(PartitionRegion { offset: info.0, length: info.1 }),
            self.test_partition_info is None ==> {
                &&& r is Ok <==> has_partition(*table, self.partition_number)
                &&& (r matches Ok(reg) ==> resolved_region(*table, self.partition_number, reg))
                &&& (r is Err ==> r == Err::<PartitionRegion, PartError>(
                    PartError::PartitionNotFound(self.partition_number),
                ))
            },
    {
        match self.test_partition_info {
            Some(info) => Ok(PartitionRegion { offset: info.0, length: info.1 }),
            None => resolve(table, self.partition_number),
        }
    }

    /// Inserting external data into a partition is out of scope here;
    /// the operation deliberately does nothing.
    pub fn insert_partition(&self, file_name: String) {
        let _ = file_name;
    }
}

/// The byte-level half of formatting a partition: validate the requested
/// filesystem kind, then — only for a supported kind — zero the
/// partition's region chunk by chunk. Validation comes first, so an
/// unsupported kind aborts before a single byte is touched. Creating the
/// filesystem itself is the driver's loopback-session work, commanded by
/// the kind this returns.
pub fn format_region(image: &mut Vec<u8>, region: PartitionRegion, fs_type: &str) -> (r: Result<
    FilesystemKind,
    PartError,
>)
    requires
        region.offset + region.length <= old(image)@.len(),
    ensures
        r is Ok <==> spells_vfat(fs_type@) || spells_ext4(fs_type@),
        spells_vfat(fs_type@) ==> r == Ok::<FilesystemKind, PartError>(FilesystemKind::Vfat),
        spells_ext4(fs_type@) ==> r == Ok::<FilesystemKind, PartError>(FilesystemKind::Ext4),
        r is Ok ==> final(image)@ == zero_region(
            old(image)@,
            region.offset as int,
            region.length as int,
        ),
        r is Err ==> r == Err::<FilesystemKind, PartError>(PartError::InvalidFilesystemKind)
            && final(image)@ == old(image)@,
{
    let kind = match FilesystemKind::parse(fs_type) {
        Ok(kind) => kind,
        Err(e) => {
            return Err(e);
        },
    };
    zero(image, region.offset, region.length);
    Ok(kind)
}

} // verus!
