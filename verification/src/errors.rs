use vstd::prelude::*;

verus! {

/// The errors that the partition operations surface. Every component
/// failure is reported to the operation's caller; nothing is retried.
#[derive(Clone, Copy, PartialEq, Eq, Structural, Debug)]
pub enum PartError {
    /// The image or device could not be opened, or its table not parsed.
    DeviceOpen,
    /// The requested partition number is absent from the table.
    PartitionNotFound(i32),
    /// A seek, read or write failed while zeroing or copying.
    Io,
    /// No loop device could be acquired for the partition.
    LoopAcquire,
    /// A loop device could not be detached.
    LoopDetach,
    /// The filesystem-creation utility failed.
    Creation,
    /// The OS mount call failed.
    Mount,
    /// The requested filesystem type is not a supported kind.
    InvalidFilesystemKind,
}

} // verus!
