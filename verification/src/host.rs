//! The local host's directory state: the working directory and the entries
//! found in it. The file system itself is read by the caller, which hands
//! each scan's outcome in as a plain value; this module holds the state and
//! the rules for updating it.

use vstd::prelude::*;

verus! {

use vstd::string::StringExecFns;
use crate::fs::{FsEntry, entries_same, duplicate_entries};

/// Errors of the local host's file system.
#[derive(PartialEq, Eq, Structural, Debug, Clone, Copy)]
pub enum HostError {
    NoSuchFileOrDirectory,
    ReadonlyFile,
    DirNotAccessible,
    FileNotAccessible,
}

/// The message shown for a host error.
pub open spec fn host_error_msg(e: HostError) -> Seq<char> {
    match e {
        HostError::NoSuchFileOrDirectory => "No such file or directory"@,
        HostError::ReadonlyFile => "File is readonly"@,
        HostError::DirNotAccessible => "Could not access directory"@,
        HostError::FileNotAccessible => "Could not access file"@,
    }
}

impl HostError {
    /// The human-readable text of the error.
    pub fn msg_string(&self) -> (r: String)
        ensures
            r@ == host_error_msg(*self),
    {
        match self {
            HostError::NoSuchFileOrDirectory => String::from_str("No such file or directory"),
            HostError::ReadonlyFile => String::from_str("File is readonly"),
            HostError::DirNotAccessible => String::from_str("Could not access directory"),
            HostError::FileNotAccessible => String::from_str("Could not access file"),
        }
    }
}

/// The local host's state: the current working directory and the entries
/// of its latest scan.
pub struct Localhost {
    pub wrkdir: String,
    pub files: Vec<FsEntry>,
}

impl Localhost {
    /// Instantiates a new Localhost at `wrkdir` from the directory's first
    /// scan: a failed scan refuses the host with the scan's error.
    pub fn new(wrkdir: String, scan: Result<Vec<FsEntry>, HostError>) -> (r: Result<
        Localhost,
        HostError,
    >)
        ensures
            match scan {
                Ok(files) => r matches Ok(h) && h.wrkdir == wrkdir && h.files == files,
                Err(e) => r == Err::<Localhost, HostError>(e),
            },
    {
        match scan {
            Ok(files) => Ok(Localhost { wrkdir, files }),
            Err(e) => Err(e),
        }
    }

    /// Print working directory.
    pub fn pwd(&self) -> (r: String)
        ensures
            r@ == self.wrkdir@,
    {
        self.wrkdir.clone()
    }

    /// The entries of the current directory, as last scanned.
    pub fn list_dir(&self) -> (r: Vec<FsEntry>)
        ensures
            entries_same(r@, self.files@),
    {
        duplicate_entries(&self.files)
    }

    /// Change the working directory to `new_dir`, given that directory's
    /// scan: on a failed scan the host keeps its directory and entries and
    /// returns the scan's error; on a successful one it moves there and
    /// holds the scanned entries.
    pub fn change_wrkdir(&mut self, new_dir: String, scan: Result<Vec<FsEntry>, HostError>) -> (r:
        Result<String, HostError>)
        ensures
            match scan {
                Ok(files) => {
                    &&& r matches Ok(p) && p@ == new_dir@
                    &&& final(self).wrkdir == new_dir
                    &&& final(self).files == files
                },
                Err(e) => {
                    &&& r == Err::<String, HostError>(e)
                    &&& final(self).wrkdir == old(self).wrkdir
                    &&& final(self).files == old(self).files
                },
            },
    {
        match scan {
            Ok(files) => {
                self.wrkdir = new_dir;
                self.files = files;
                Ok(self.wrkdir.clone())
            },
            Err(e) => Err(e),
        }
    }

    /// The three permission octets of a numeric mode: user, group and
    /// others, three bits each.
    pub fn u32_to_mode(&self, mode: u32) -> (r: (u8, u8, u8))
        ensures
            r.0 == (mode >> 6) & 7,
            r.1 == (mode >> 3) & 7,
            r.2 == mode & 7,
    {
        proof {
            assert((mode >> 6) & 0x7 <= 7 && (mode >> 3) & 0x7 <= 7 && mode & 0x7 <= 7)
                by (bit_vector);
        }
        let user: u8 = ((mode >> 6) & 0x7) as u8;
        let group: u8 = ((mode >> 3) & 0x7) as u8;
        let others: u8 = (mode & 0x7) as u8;
        (user, group, others)
    }
}

} // verus!
