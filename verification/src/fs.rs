//! Virtual (remote) filesystem objects: errors, directory entries,
//! listings, metadata and permissions.

use vstd::prelude::*;

use crate::middleware::IoErrorKind;

verus! {

/// Errors for virtual IO
#[derive(Clone, Debug)]
pub enum VirtIOErr {
    NotFound,
    PermissionDenied,
    ConnectionRefused,
    ConnectionReset,
    ConnectionAborted,
    NotConnected,
    AddrInUse,
    AddrNotAvailable,
    BrokenPipe,
    AlreadyExists,
    WouldBlock,
    InvalidInput,
    InvalidData,
    TimedOut,
    WriteZero,
    Interrupted,
    Unsupported,
    UnexpectedEof,
    OutOfMemory,
    Other(String),
}

/// The I/O failure kind that a virtual I/O error stands for.
pub open spec fn virt_err_kind(e: VirtIOErr) -> IoErrorKind {
    match e {
        VirtIOErr::NotFound => IoErrorKind::NotFound,
        VirtIOErr::PermissionDenied => IoErrorKind::PermissionDenied,
        VirtIOErr::ConnectionRefused => IoErrorKind::ConnectionRefused,
        VirtIOErr::ConnectionReset => IoErrorKind::ConnectionReset,
        VirtIOErr::ConnectionAborted => IoErrorKind::ConnectionAborted,
        VirtIOErr::NotConnected => IoErrorKind::NotConnected,
        VirtIOErr::AddrInUse => IoErrorKind::AddrInUse,
        VirtIOErr::AddrNotAvailable => IoErrorKind::AddrNotAvailable,
        VirtIOErr::BrokenPipe => IoErrorKind::BrokenPipe,
        VirtIOErr::AlreadyExists => IoErrorKind::AlreadyExists,
        VirtIOErr::WouldBlock => IoErrorKind::WouldBlock,
        VirtIOErr::InvalidInput => IoErrorKind::InvalidInput,
        VirtIOErr::InvalidData => IoErrorKind::InvalidData,
        VirtIOErr::TimedOut => IoErrorKind::TimedOut,
        VirtIOErr::WriteZero => IoErrorKind::WriteZero,
        VirtIOErr::Interrupted => IoErrorKind::Interrupted,
        VirtIOErr::Unsupported => IoErrorKind::Unsupported,
        VirtIOErr::UnexpectedEof => IoErrorKind::UnexpectedEof,
        VirtIOErr::OutOfMemory => IoErrorKind::OutOfMemory,
        VirtIOErr::Other(_) => IoErrorKind::Other,
    }
}

/// The message that a virtual I/O error carries (empty but for `Other`).
pub open spec fn virt_err_message(e: VirtIOErr) -> Seq<char> {
    match e {
        VirtIOErr::Other(m) => m@,
        _ => Seq::empty(),
    }
}

impl VirtIOErr {
    /// The virtual I/O error for an I/O failure of kind `kind`; `message`
    /// is what an `Other` failure carries.
    pub fn from_io_kind(kind: IoErrorKind, message: String) -> (res: VirtIOErr)
        requires
            !(kind is Uncategorized),
        ensures
            virt_err_kind(res) == kind,
            virt_err_message(res) == if kind is Other {
                message@
            } else {
                Seq::<char>::empty()
            },
    {
        match kind {
            IoErrorKind::NotFound => VirtIOErr::NotFound,
            IoErrorKind::PermissionDenied => VirtIOErr::PermissionDenied,
            IoErrorKind::ConnectionRefused => VirtIOErr::ConnectionRefused,
            IoErrorKind::ConnectionReset => VirtIOErr::ConnectionReset,
            IoErrorKind::ConnectionAborted => VirtIOErr::ConnectionAborted,
            IoErrorKind::NotConnected => VirtIOErr::NotConnected,
            IoErrorKind::AddrInUse => VirtIOErr::AddrInUse,
            IoErrorKind::AddrNotAvailable => VirtIOErr::AddrNotAvailable,
            IoErrorKind::BrokenPipe => VirtIOErr::BrokenPipe,
            IoErrorKind::AlreadyExists => VirtIOErr::AlreadyExists,
            IoErrorKind::WouldBlock => VirtIOErr::WouldBlock,
            IoErrorKind::InvalidInput => VirtIOErr::InvalidInput,
            IoErrorKind::InvalidData => VirtIOErr::InvalidData,
            IoErrorKind::TimedOut => VirtIOErr::TimedOut,
            IoErrorKind::WriteZero => VirtIOErr::WriteZero,
            IoErrorKind::Interrupted => VirtIOErr::Interrupted,
            IoErrorKind::Unsupported => VirtIOErr::Unsupported,
            IoErrorKind::UnexpectedEof => VirtIOErr::UnexpectedEof,
            IoErrorKind::OutOfMemory => VirtIOErr::OutOfMemory,
            IoErrorKind::Other => VirtIOErr::Other(message),
            IoErrorKind::Uncategorized => VirtIOErr::Other(message),
        }
    }

    /// The I/O failure kind this error becomes.
    pub fn io_kind(&self) -> (res: IoErrorKind)
        ensures
            res == virt_err_kind(*self),
    {
        match self {
            VirtIOErr::NotFound => IoErrorKind::NotFound,
            VirtIOErr::PermissionDenied => IoErrorKind::PermissionDenied,
            VirtIOErr::ConnectionRefused => IoErrorKind::ConnectionRefused,
            VirtIOErr::ConnectionReset => IoErrorKind::ConnectionReset,
            VirtIOErr::ConnectionAborted => IoErrorKind::ConnectionAborted,
            VirtIOErr::NotConnected => IoErrorKind::NotConnected,
            VirtIOErr::AddrInUse => IoErrorKind::AddrInUse,
            VirtIOErr::AddrNotAvailable => IoErrorKind::AddrNotAvailable,
            VirtIOErr::BrokenPipe => IoErrorKind::BrokenPipe,
            VirtIOErr::AlreadyExists => IoErrorKind::AlreadyExists,
            VirtIOErr::WouldBlock => IoErrorKind::WouldBlock,
            VirtIOErr::InvalidInput => IoErrorKind::InvalidInput,
            VirtIOErr::InvalidData => IoErrorKind::InvalidData,
            VirtIOErr::TimedOut => IoErrorKind::TimedOut,
            VirtIOErr::WriteZero => IoErrorKind::WriteZero,
            VirtIOErr::Interrupted => IoErrorKind::Interrupted,
            VirtIOErr::Unsupported => IoErrorKind::Unsupported,
            VirtIOErr::UnexpectedEof => IoErrorKind::UnexpectedEof,
            VirtIOErr::OutOfMemory => IoErrorKind::OutOfMemory,
            VirtIOErr::Other(_) => IoErrorKind::Other,
        }
    }

    /// The message carried by the error: that of `Other`, else empty.
    pub fn message(&self) -> (res: String)
        ensures
            res@ == virt_err_message(*self),
    {
        match self {
            VirtIOErr::Other(m) => m.clone(),
            _ => String::new(),
        }
    }

    /// A human-readable description of the error.
    pub fn describe(&self) -> (res: String)
        ensures
            *self is NotFound ==> res@ == "the requested item was not found"@,
            *self is PermissionDenied ==> res@ == "insufficient permissions"@,
            *self is TimedOut ==> res@ == "request timed out"@,
            *self is AlreadyExists ==> res@ == "item already exists"@,
            *self is Other ==> res@ == "other error: "@ + virt_err_message(*self),
    {
        let msg: &str = match self {
            VirtIOErr::NotFound => "the requested item was not found",
            VirtIOErr::PermissionDenied => "insufficient permissions",
            VirtIOErr::ConnectionRefused => "connection refused",
            VirtIOErr::ConnectionReset => "connection reset",
            VirtIOErr::ConnectionAborted => "connection aborted",
            VirtIOErr::NotConnected => "not connected",
            VirtIOErr::AddrInUse => "address in use",
            VirtIOErr::AddrNotAvailable => "address not available",
            VirtIOErr::BrokenPipe => "broken pipe",
            VirtIOErr::AlreadyExists => "item already exists",
            VirtIOErr::WouldBlock => "operation would block",
            VirtIOErr::InvalidInput => "invalid input",
            VirtIOErr::InvalidData => "invalid data",
            VirtIOErr::TimedOut => "request timed out",
            VirtIOErr::WriteZero => "write zero bytes",
            VirtIOErr::Interrupted => "operation interrupted",
            VirtIOErr::Unsupported => "operation unsupported",
            VirtIOErr::UnexpectedEof => "unexpected end of file",
            VirtIOErr::OutOfMemory => "out of memory",
            VirtIOErr::Other(_) => "other error: ",
        };
        let mut out = msg.to_owned();
        if let VirtIOErr::Other(m) = self {
            out.push_str(m.as_str());
        }
        out
    }
}

/// An error is determined by its I/O failure kind and its message: turning
/// an error into both and back (as `io_kind`, `message` and `from_io_kind`
/// do) gives the same error, up to the `String` that holds the message.
pub proof fn lemma_io_kind_roundtrip(e: VirtIOErr, back: VirtIOErr)
    requires
        virt_err_kind(back) == virt_err_kind(e),
        virt_err_message(back) == virt_err_message(e),
    ensures
        !(e is Other) ==> back == e,
        e is Other ==> back is Other,
{
}

/// An item inside a directory.
///
/// This item can be a file, or a directory.
#[derive(Clone, Debug)]
pub struct VirtDirEntry {
    /// The path relative to the remote's base path.
    path: String,
    /// Marker for if the entry is for a file or directory
    file: bool,
}

impl VirtDirEntry {
    /// The entry's path.
    pub closed spec fn path_spec(&self) -> Seq<char> {
        self.path@
    }

    /// Whether the entry is a file.
    pub closed spec fn file_spec(&self) -> bool {
        self.file
    }

    /// An entry for `path`, relative to the remote's base path.
    pub fn new(path: String, file: bool) -> (res: Self)
        ensures
            res.path_spec() == path@,
            res.file_spec() == file,
    {
        Self { path, file }
    }

    /// The entry's path, relative to the remote's base path.
    pub fn path(&self) -> (res: String)
        ensures
            res@ == self.path_spec(),
    {
        self.path.clone()
    }

    /// Whether the entry is a file (and not a directory).
    pub fn is_file(&self) -> (res: bool)
        ensures
            res == self.file_spec(),
    {
        self.file
    }

    /// A copy of the entry.
    pub fn duplicate(&self) -> (res: Self)
        ensures
            res == *self,
    {
        Self { path: self.path.clone(), file: self.file }
    }

    /// Metadata of the entry: an entry holds none, so all of it is unknown.
    pub fn metadata(&self) -> (res: VirtMetadata)
        ensures
            res.accessed_spec() is None,
            res.modified_spec() is None,
            res.permissions_spec() == VirtPermissions::from_readonly_spec(false),
    {
        VirtMetadata::new(None, None, VirtPermissions::from_readonly(false))
    }
}

/// The entries of a directory.
#[derive(Clone, Debug)]
pub struct VirtReadDir {
    entries: Vec<VirtDirEntry>,
}

impl VirtReadDir {
    /// The entries, in order.
    pub closed spec fn entries_spec(&self) -> Seq<VirtDirEntry> {
        self.entries@
    }

    /// A listing of the given entries.
    pub fn from_entries(entries: Vec<VirtDirEntry>) -> (res: Self)
        ensures
            res.entries_spec() == entries@,
    {
        Self { entries }
    }

    /// A copy of the listing.
    pub fn duplicate(&self) -> (res: Self)
        ensures
            res.entries_spec() == self.entries_spec(),
    {
        let mut out: Vec<VirtDirEntry> = Vec::new();
        let mut i: usize = 0;
        while i < self.entries.len()
            invariant
                i <= self.entries@.len(),
                out@ == self.entries@.take(i as int),
            decreases self.entries@.len() - i,
        {
            out.push(self.entries[i].duplicate());
            i = i + 1;
            proof {
                assert(out@ =~= self.entries@.take(i as int));
            }
        }
        proof {
            assert(self.entries@.take(i as int) =~= self.entries@);
        }
        Self { entries: out }
    }

    /// Number of entries.
    pub fn len(&self) -> (res: usize)
        ensures
            res == self.entries_spec().len(),
    {
        self.entries.len()
    }

    /// The entry at `idx`, if there is one.
    pub fn get(&self, idx: usize) -> (res: Option<&VirtDirEntry>)
        ensures
            idx < self.entries_spec().len() ==> res == Some(&self.entries_spec()[idx as int]),
            idx >= self.entries_spec().len() ==> res is None,
    {
        if idx < self.entries.len() {
            Some(&self.entries[idx])
        } else {
            None
        }
    }

    /// The entries as a slice.
    pub fn entries(&self) -> (res: &[VirtDirEntry])
        ensures
            res@ == self.entries_spec(),
    {
        self.entries.as_slice()
    }
}

/// File permissions (rwx)
#[derive(Clone, Copy, Debug)]
pub struct VirtPermissions {
    read: (bool, bool, bool),
    write: (bool, bool, bool),
    execute: (bool, bool, bool),
}

impl VirtPermissions {
    /// The permissions derived from a read-only flag: read for all when
    /// read-only, nothing otherwise.
    pub open spec fn from_readonly_spec(readonly: bool) -> (bool, bool, bool) {
        if readonly {
            (true, true, true)
        } else {
            (false, false, false)
        }
    }

    /// The (user, group, other) read flags.
    pub closed spec fn read_spec(&self) -> (bool, bool, bool) {
        self.read
    }

    /// The (user, group, other) write flags.
    pub closed spec fn write_spec(&self) -> (bool, bool, bool) {
        self.write
    }

    /// The (user, group, other) execute flags.
    pub closed spec fn execute_spec(&self) -> (bool, bool, bool) {
        self.execute
    }

    /// Permissions from a file's read-only flag.
    pub fn from_readonly(readonly: bool) -> (res: Self)
        ensures
            res.read_spec() == Self::from_readonly_spec(readonly),
            res.write_spec() == (false, false, false),
            res.execute_spec() == (false, false, false),
    {
        if readonly {
            Self { read: (true, true, true), write: (false, false, false), execute: (false, false, false) }
        } else {
            Self { read: (false, false, false), write: (false, false, false), execute: (false, false, false) }
        }
    }

    /// The (user, group, other) read flags.
    pub fn read(&self) -> (res: (bool, bool, bool))
        ensures
            res == self.read_spec(),
    {
        self.read
    }

    /// The (user, group, other) write flags.
    pub fn write(&self) -> (res: (bool, bool, bool))
        ensures
            res == self.write_spec(),
    {
        self.write
    }

    /// The (user, group, other) execute flags.
    pub fn execute(&self) -> (res: (bool, bool, bool))
        ensures
            res == self.execute_spec(),
    {
        self.execute
    }
}

/// Virtual file metadata; times are milliseconds since the Unix epoch.
#[derive(Clone, Debug)]
pub struct VirtMetadata {
    /// Last file access time
    accessed: Option<u64>,
    /// Last file mutation time
    modified: Option<u64>,
    permissions: VirtPermissions,
}

impl VirtMetadata {
    /// Last access time.
    pub closed spec fn accessed_spec(&self) -> Option<u64> {
        self.accessed
    }

    /// Last mutation time.
    pub closed spec fn modified_spec(&self) -> Option<u64> {
        self.modified
    }

    /// The read permissions.
    pub closed spec fn permissions_spec(&self) -> (bool, bool, bool) {
        self.permissions.read
    }

    /// Metadata from its parts.
    pub fn new(accessed: Option<u64>, modified: Option<u64>, permissions: VirtPermissions) -> (res: Self)
        ensures
            res.accessed_spec() == accessed,
            res.modified_spec() == modified,
            res.permissions_spec() == permissions.read_spec(),
    {
        Self { accessed, modified, permissions }
    }

    /// Last access time, when known.
    pub fn accessed(&self) -> (res: Option<u64>)
        ensures
            res == self.accessed_spec(),
    {
        self.accessed
    }

    /// Last mutation time, when known.
    pub fn modified(&self) -> (res: Option<u64>)
        ensures
            res == self.modified_spec(),
    {
        self.modified
    }

    /// The permissions.
    pub fn permissions(&self) -> (res: VirtPermissions)
        ensures
            res.read_spec() == self.permissions_spec(),
    {
        self.permissions
    }
}

/// Why a set of open options is refused.
#[derive(Debug, Clone, Copy, PartialEq, Eq, Structural)]
pub enum OpenOptionsError {
    /// Cannot append and truncate at the same time.
    AppendAndTruncate,
    /// Cannot truncate a file without writing.
    TruncateWithoutWrite,
}

impl OpenOptionsError {
    /// The message of the refusal.
    pub fn message(&self) -> (res: &'static str)
        ensures
            *self is AppendAndTruncate ==> res@ == "cannot append and truncate at the same time"@,
            *self is TruncateWithoutWrite ==> res@ == "cannot truncate file without writing"@,
    {
        match self {
            OpenOptionsError::AppendAndTruncate => "cannot append and truncate at the same time",
            OpenOptionsError::TruncateWithoutWrite => "cannot truncate file without writing",
        }
    }
}

/// Options for opening a virtual file, after `std::fs::OpenOptions`.
#[derive(Debug, Clone, Copy, PartialEq, Eq, Structural)]
pub struct VirtOpenOptions {
    pub create: bool,
    pub read: bool,
    pub write: bool,
    pub truncate: bool,
    pub append: bool,
}

impl VirtOpenOptions {
    /// All options off.
    pub fn new() -> (res: Self)
        ensures
            res == (VirtOpenOptions { create: false, read: false, write: false, truncate: false, append: false }),
    {
        VirtOpenOptions { create: false, read: false, write: false, truncate: false, append: false }
    }

    /// Sets the read option.
    pub fn read(self, read: bool) -> (res: Self)
        ensures
            res == (VirtOpenOptions { read, ..self }),
    {
        VirtOpenOptions { read, ..self }
    }

    /// Sets the write option.
    pub fn write(self, write: bool) -> (res: Self)
        ensures
            res == (VirtOpenOptions { write, ..self }),
    {
        VirtOpenOptions { write, ..self }
    }

    /// Sets the append option.
    pub fn append(self, append: bool) -> (res: Self)
        ensures
            res == (VirtOpenOptions { append, ..self }),
    {
        VirtOpenOptions { append, ..self }
    }

    /// Sets the truncate option.
    pub fn truncate(self, truncate: bool) -> (res: Self)
        ensures
            res == (VirtOpenOptions { truncate, ..self }),
    {
        VirtOpenOptions { truncate, ..self }
    }

    /// Sets the create option.
    pub fn create(self, create: bool) -> (res: Self)
        ensures
            res == (VirtOpenOptions { create, ..self }),
    {
        VirtOpenOptions { create, ..self }
    }

    /// Checks the options before a file is opened with them: appending and
    /// truncating together, or truncating without writing, are refused.
    pub fn check(&self) -> (res: Result<(), OpenOptionsError>)
        ensures
            self.append && self.truncate ==> res == Err::<(), OpenOptionsError>(
                OpenOptionsError::AppendAndTruncate,
            ),
            !(self.append && self.truncate) && !self.write && self.truncate ==> res == Err::<
                (),
                OpenOptionsError,
            >(OpenOptionsError::TruncateWithoutWrite),
            !self.truncate ==> res is Ok,
            self.write && !self.append ==> res is Ok,
    {
        if self.append && self.truncate {
            Err(OpenOptionsError::AppendAndTruncate)
        } else if !self.write && self.truncate {
            Err(OpenOptionsError::TruncateWithoutWrite)
        } else {
            Ok(())
        }
    }
}

/// Callback type related to filesystem stuffs
#[derive(Debug)]
pub struct FileSystemCallback {}

} // verus!
