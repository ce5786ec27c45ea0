//! The file-backed backend's verified core.
//!
//! The store keeps one regular file per key directly inside one directory:
//! the file name is the key name and the file content is the raw value
//! bytes. The reads, writes and removals themselves are filesystem work and
//! live outside this library; what stands here is everything the backend
//! decides: whether a directory is acceptable at construction, how the path
//! of a key is formed, and how a filesystem failure is classified into the
//! error taxonomy.

use vstd::prelude::*;

use vstd::string::StringExecFns;

use crate::errors::Error;

verus! {

/// What a probe of the configured path reports to the constructor.
///
/// * `Unreadable` — the path's metadata could not be read (the path is
///   missing, or not accessible); carries the cause.
/// * `NotDirectory` — the path exists but is not a directory.
/// * `Directory` — the path exists and is a directory.
pub enum DirStatus {
    /// The path's metadata could not be read; carries the cause.
    Unreadable(String),
    /// The path exists but is not a directory.
    NotDirectory,
    /// The path exists and is a directory.
    Directory,
}

/// What the backend reads of a failed filesystem operation on a key.
///
/// * `Absent` — the failure says the file does not exist.
/// * `Other` — any other failure; carries the cause.
pub enum IoFailure {
    /// The file does not exist.
    Absent,
    /// Any other filesystem failure; carries the cause.
    Other(String),
}

/// A key-value store that stores keys in files, one file per key inside one
/// directory (no sub-directory sharding). A key name must not contain a
/// path separator; names that do are not sanitized here.
#[derive(Debug)]
pub struct FileCave {
    dir: String,
}

impl View for FileCave {
    type V = Seq<char>;

    closed spec fn view(&self) -> Seq<char> {
        self.dir@
    }
}

impl FileCave {
    /// Create a new instance for the given directory, from what a probe of
    /// that path reported.
    ///
    /// The path must exist and be a directory; anything else is an
    /// `Internal` error: an unreadable path propagates its cause, and a
    /// path that is not a directory is named in the message.
    pub fn new(dir: String, status: DirStatus) -> (r: Result<FileCave, Error>)
        ensures
            status matches DirStatus::Unreadable(c) ==> (r matches Err(Error::Internal(m))
                && m@ == c@),
            status is NotDirectory ==> (r matches Err(Error::Internal(m))
                && m@ == "Provided path is not a directory: "@ + dir@),
            status is Directory ==> (r matches Ok(f) && f@ == dir@),
    {
        match status {
            DirStatus::Unreadable(cause) => Err(Error::internal_from_msg(cause)),
            DirStatus::NotDirectory => {
                let mut msg = String::from_str("Provided path is not a directory: ");
                msg.append(dir.as_str());
                Err(Error::internal_from_msg(msg))
            },
            DirStatus::Directory => Ok(FileCave { dir }),
        }
    }

    /// The path of the file that holds the named key: the configured
    /// directory, a separator, and the name.
    pub fn create_path(&self, name: &str) -> (r: String)
        ensures
            r@ == self@ + "/"@ + name@,
    {
        let mut path = self.dir.clone();
        path.append("/");
        path.append(name);
        path
    }

    /// Classify a failed filesystem operation on the named key: a failure
    /// that says the file does not exist is `NotFound` carrying the name;
    /// every other failure is `Internal`. `get` and `delete` both go
    /// through here, so the mapping is identical in the two.
    pub fn convert_io_error(e: IoFailure, name: &str) -> (r: Error)
        ensures
            e is Absent ==> (r matches Error::NotFound(s) && s@ == name@),
            e matches IoFailure::Other(c) ==> (r matches Error::Internal(m) && m@ == c@),
    {
        match e {
            IoFailure::Absent => Error::NotFound(name.to_owned()),
            IoFailure::Other(cause) => Error::Internal(cause),
        }
    }
}

} // verus!
