use vstd::prelude::*;

use crate::errors::PartError;

verus! {

/// The closed set of filesystem kinds the formatter can create.
/// Anything else in the user's input is an input-validation error,
/// rejected before any destructive step runs.
#[derive(Clone, Copy, PartialEq, Eq, Structural, Debug)]
pub enum FilesystemKind {
    Vfat,
    Ext4,
}

/// `s` spells "vfat", each letter in either case.
pub open spec fn spells_vfat(s: Seq<char>) -> bool {
    &&& s.len() == 4
    &&& (s[0] == 'v' || s[0] == 'V')
    &&& (s[1] == 'f' || s[1] == 'F')
    &&& (s[2] == 'a' || s[2] == 'A')
    &&& (s[3] == 't' || s[3] == 'T')
}

/// `s` spells "ext4", each letter in either case.
pub open spec fn spells_ext4(s: Seq<char>) -> bool {
    &&& s.len() == 4
    &&& (s[0] == 'e' || s[0] == 'E')
    &&& (s[1] == 'x' || s[1] == 'X')
    &&& (s[2] == 't' || s[2] == 'T')
    &&& s[3] == '4'
}

impl FilesystemKind {
    /// Normalize a user-supplied filesystem type, case-insensitively,
    /// into the closed variant set; any other string is rejected.
    pub fn parse(s: &str) -> (r: Result<FilesystemKind, PartError>)
        ensures
            r == Ok::<FilesystemKind, PartError>(FilesystemKind::Vfat) <==> spells_vfat(s@),
            r == Ok::<FilesystemKind, PartError>(FilesystemKind::Ext4) <==> spells_ext4(s@),
            r is Err <==> !spells_vfat(s@) && !spells_ext4(s@),
            r is Err ==> r == Err::<FilesystemKind, PartError>(PartError::InvalidFilesystemKind),
    {
        let n = s.unicode_len();
        if n != 4 {
            return Err(PartError::InvalidFilesystemKind);
        }
        let c0 = s.get_char(0);
        let c1 = s.get_char(1);
        let c2 = s.get_char(2);
        let c3 = s.get_char(3);
        if (c0 == 'v' || c0 == 'V') && (c1 == 'f' || c1 == 'F') && (c2 == 'a' || c2 == 'A') && (c3
            == 't' || c3 == 'T') {
            Ok(FilesystemKind::Vfat)
        } else if (c0 == 'e' || c0 == 'E') && (c1 == 'x' || c1 == 'X') && (c2 == 't' || c2 == 'T')
            && c3 == '4' {
            Ok(FilesystemKind::Ext4)
        } else {
            Err(PartError::InvalidFilesystemKind)
        }
    }
}

/// The utility that creates a filesystem of this kind on a device.
pub fn mkfs_program(kind: FilesystemKind) -> (r: &'static str)
    ensures
        kind == FilesystemKind::Vfat ==> r@ == "mkfs.vfat"@,
        kind == FilesystemKind::Ext4 ==> r@ == "mkfs.ext4"@,
{
    match kind {
        FilesystemKind::Vfat => "mkfs.vfat",
        FilesystemKind::Ext4 => "mkfs.ext4",
    }
}

/// The arguments handed to the creation utility for this kind on
/// `device`: vfat is forced to a 32-bit FAT, ext4 gets default options
/// (its flag only suppresses the in-use prompt).
pub fn mkfs_args(kind: FilesystemKind, device: &str) -> (r: Vec<String>)
    ensures
        kind == FilesystemKind::Vfat ==> {
            &&& r@.len() == 3
            &&& r@[0]@ == "-F"@
            &&& r@[1]@ == "32"@
            &&& r@[2]@ == device@
        },
        kind == FilesystemKind::Ext4 ==> {
            &&& r@.len() == 2
            &&& r@[0]@ == "-F"@
            &&& r@[1]@ == device@
        },
{
    let mut args: Vec<String> = Vec::new();
    args.push("-F".to_owned());
    match kind {
        FilesystemKind::Vfat => {
            args.push("32".to_owned());
        },
        FilesystemKind::Ext4 => {
        },
    }
    args.push(device.to_owned());
    args
}

} // verus!
