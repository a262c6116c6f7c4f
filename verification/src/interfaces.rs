//! Remote interfaces: the file update model, the interface traits that the
//! remote implements, and the payload of each remote method with its
//! signature.

use vstd::prelude::*;
use vstd::string::StringSliceAdditionalSpecFns;
use vstd::utf8::{encode_utf8, is_ascii_chars, is_ascii_chars_encode_utf8, is_ascii_chars_nat_bound};
use crate::ser_de::has_prefix;

use crate::fs::{VirtDirEntry, VirtIOErr};
use crate::middleware::SockAddrV4;
use crate::remote::{first_matching, lemma_prefix_free_routing, RemoteMethodSignature, RemoteRequest};
use crate::ser_de::extend_bytes;

verus! {

/// File write modes
#[derive(Clone, Copy, Debug)]
pub enum FileWriteMode {
    /// Append to the end of the file
    Append,
    /// Overwrite the file
    Truncate,
    /// Insert data at a specified offset.
    Insert(usize),
}

/// File update types
#[derive(Debug)]
pub enum FileUpdate {
    /// New data that is appended to the file.
    Append(Vec<u8>),
    /// Data that is inserted at a specified offset.
    Insert((usize, Vec<u8>)),
    /// Data that completely replaces the file
    Overwrite(Vec<u8>),
}

/// Identifier for a file registered with the remote.
#[derive(Clone, Copy, Debug)]
pub struct FileId(pub u64);

/// Where an insertion at `offset` lands in contents of length `len`: at the
/// offset, or at the end when the offset lies beyond it.
pub open spec fn insert_point(offset: usize, len: nat) -> int {
    if len <= offset {
        len as int
    } else {
        offset as int
    }
}

impl Clone for FileUpdate {
    /// A copy of the update: the same kind, offset and data.
    fn clone(&self) -> (res: Self)
        ensures
            res.same_update(self),
    {
        match self {
            FileUpdate::Append(d) => FileUpdate::Append(d.clone()),
            FileUpdate::Insert((offset, d)) => FileUpdate::Insert((*offset, d.clone())),
            FileUpdate::Overwrite(d) => FileUpdate::Overwrite(d.clone()),
        }
    }
}

impl FileUpdate {
    /// Whether two updates are of the same kind, at the same offset, with
    /// the same data.
    pub open spec fn same_update(&self, other: &FileUpdate) -> bool {
        match (self, other) {
            (FileUpdate::Append(a), FileUpdate::Append(b)) => a@ == b@,
            (FileUpdate::Insert((o1, a)), FileUpdate::Insert((o2, b))) => o1 == o2 && a@ == b@,
            (FileUpdate::Overwrite(a), FileUpdate::Overwrite(b)) => a@ == b@,
            _ => false,
        }
    }

    /// The data carried by the update.
    pub open spec fn data_spec(&self) -> Seq<u8> {
        match self {
            FileUpdate::Append(d) => d@,
            FileUpdate::Insert((_, d)) => d@,
            FileUpdate::Overwrite(d) => d@,
        }
    }

    /// The file contents after applying the update to `prev`.
    pub open spec fn update_spec(&self, prev: Seq<u8>) -> Seq<u8> {
        match self {
            FileUpdate::Append(d) => prev + d@,
            FileUpdate::Insert((offset, d)) => {
                let k = insert_point(*offset, prev.len());
                prev.subrange(0, k) + d@ + prev.subrange(k, prev.len() as int)
            },
            FileUpdate::Overwrite(d) => d@,
        }
    }

    /// Perform the file update based on the previous file contents
    pub fn update_file(self, prev: &[u8]) -> (res: Vec<u8>)
        ensures
            res@ == self.update_spec(prev@),
    {
        match self {
            FileUpdate::Append(data) => {
                let mut out: Vec<u8> = Vec::new();
                extend_bytes(&mut out, prev);
                extend_bytes(&mut out, data.as_slice());
                out
            },
            FileUpdate::Insert((offset, data)) => {
                let k = if prev.len() <= offset {
                    prev.len()
                } else {
                    offset
                };
                let mut out: Vec<u8> = Vec::new();
                extend_bytes(&mut out, &prev[0..k]);
                extend_bytes(&mut out, data.as_slice());
                extend_bytes(&mut out, &prev[k..prev.len()]);
                out
            },
            FileUpdate::Overwrite(data) => data,
        }
    }

    /// Number of bytes carried by the update.
    pub fn len(&self) -> (res: usize)
        ensures
            res == self.data_spec().len(),
    {
        match self {
            FileUpdate::Append(data) => data.len(),
            FileUpdate::Insert((_, data)) => data.len(),
            FileUpdate::Overwrite(data) => data.len(),
        }
    }

    /// The update that a write of `bytes` in the given mode makes.
    pub fn from_write_mode(mode: FileWriteMode, bytes: &[u8]) -> (res: FileUpdate)
        ensures
            res.data_spec() == bytes@,
            mode is Append ==> res is Append,
            mode is Truncate ==> res is Overwrite,
            mode matches FileWriteMode::Insert(o) ==> (res matches FileUpdate::Insert((o2, _))
                && o2 == o),
    {
        let mut data: Vec<u8> = Vec::new();
        extend_bytes(&mut data, bytes);
        assert(data@ =~= bytes@);
        match mode {
            FileWriteMode::Append => FileUpdate::Append(data),
            FileWriteMode::Truncate => FileUpdate::Overwrite(data),
            FileWriteMode::Insert(offset) => FileUpdate::Insert((offset, data)),
        }
    }
}

/// The size of a file after an update: the data's size for an overwrite,
/// else the previous size plus the data's size.
pub proof fn lemma_update_size(u: FileUpdate, prev: Seq<u8>)
    ensures
        u.update_spec(prev).len() == if u is Overwrite {
            u.data_spec().len()
        } else {
            prev.len() + u.data_spec().len()
        },
{
}

/// An insertion keeps what came before its point, then holds the data, then
/// what came after.
pub proof fn lemma_insert_places_data(offset: usize, data: Vec<u8>, prev: Seq<u8>)
    ensures
        ({
            let k = insert_point(offset, prev.len());
            let res = FileUpdate::Insert((offset, data)).update_spec(prev);
            &&& res.subrange(0, k) == prev.subrange(0, k)
            &&& res.subrange(k, k + data@.len()) == data@
            &&& res.subrange(k + data@.len(), res.len() as int) == prev.subrange(k, prev.len() as int)
        }),
{
    let k = insert_point(offset, prev.len());
    let res = FileUpdate::Insert((offset, data)).update_spec(prev);
    assert(res.subrange(0, k) =~= prev.subrange(0, k));
    assert(res.subrange(k, k + data@.len()) =~= data@);
    assert(res.subrange(k + data@.len(), res.len() as int) =~= prev.subrange(k, prev.len() as int));
}

/// Appending is inserting at (or beyond) the end.
pub proof fn lemma_append_is_insert_at_end(data: Vec<u8>, offset: usize, prev: Seq<u8>)
    requires
        prev.len() <= offset,
    ensures
        FileUpdate::Append(data).update_spec(prev) == FileUpdate::Insert((offset, data)).update_spec(prev),
{
    assert(prev.subrange(0, prev.len() as int) =~= prev);
    assert(prev.subrange(prev.len() as int, prev.len() as int) =~= Seq::<u8>::empty());
    assert(FileUpdate::Append(data).update_spec(prev) =~= FileUpdate::Insert((offset, data)).update_spec(prev));
}

/// Immutable file operations are defined in this interface.
pub trait ImmutableFileOps {
    /// Read the contents of a file.
    fn read_file(&mut self, path: String, offset: Option<usize>) -> Vec<u8>;

    /// List all files in the current directory
    fn ls(&mut self, path: String) -> Vec<String>;
}

/// Mutable file operations are defined in this interface.
pub trait MutableFileOps {
    /// Create a new file at the new path
    fn create_file(&mut self, path: String, truncate: bool) -> Result<(bool, i32), ()>;
}

/// Remotely invoked primitives, platform agnostic.
///
/// These are not meant to be invoked directly.
pub trait PrimitiveFsOps {
    /// Read the entire file
    fn read_all(&mut self, path: String) -> Vec<u8>;

    /// Read a portion of the file
    fn read_bytes(&mut self, path: String, offset: usize, len: usize) -> Vec<u8>;

    /// Write a vector of bytes to a file, which is created if it does not exist
    /// and whose contents are otherwise replaced.
    fn write_all(&mut self, path: String, contents: Vec<u8>) -> bool;

    /// Applies an update to a file, returning the number of bytes written.
    fn write_bytes(&mut self, path: String, bytes: FileUpdate) -> Result<usize, VirtIOErr>;

    /// Create a file at a specified path, truncating any data already there.
    fn create(&mut self, path: String) -> Result<(), VirtIOErr>;

    /// Remove a file at a specified path.
    fn remove(&mut self, path: String) -> Result<(), VirtIOErr>;

    /// Rename a file or directory at a specified path.
    fn rename(&mut self, path: String, from: String, to: String) -> Result<(), VirtIOErr>;

    /// Create a directory.
    fn mkdir(&mut self, path: String) -> Result<(), VirtIOErr>;

    /// Remove a directory and all of its contents.
    fn rmdir(&mut self, path: String) -> Result<(), VirtIOErr>;

    /// Read the contents of a directory
    fn read_dir(&mut self, path: String) -> Vec<VirtDirEntry>;

    /// Returns the size of the file in bytes.
    fn file_size(&mut self, path: String) -> Result<usize, VirtIOErr>;
}

/// Sanity check interface
pub trait SimpleOps {
    /// Pass something to the remote to log.
    fn say_hello(&mut self, content: String) -> bool;

    /// Compute the Nth fibonacci number and return the result.
    fn compute_fib(&mut self, fib_num: u8) -> u64;
}

/// Methods that register a callback are defined here.
///
/// These methods should not be invoked directly!
pub trait CallbackOps {
    /// Registers a path to be watched for updates.
    fn register_file_update(&mut self, path: String, return_addr: SockAddrV4) -> Result<(), VirtIOErr>;
}

/// These methods are used for testing invocation semantics (various transmission protocols).
pub trait TestOps {
    /// Get the stringified name of the protocol used by the remote.
    fn get_remote_protocol(&mut self) -> String;

    /// Simulate an idempotent operation: the same result is returned
    /// regardless of the number of invocations.
    fn test_idempotent(&mut self, uuid: u64) -> u64;

    /// Simulate a non-idempotent operation: returns the number of
    /// invocations made for the same `uuid`.
    fn test_non_idempotent(&mut self, uuid: u64) -> usize;

    /// Reset the state of the non-idempotent operation.
    fn reset_non_idempotent(&mut self) -> ();
}

/// Data streaming operations.
///
/// These methods should not be invoked directly!
pub trait StreamingOps {
    /// Signal to the remote to open a blob transmitter and return the network address.
    fn open_blob_file_tx(&mut self, path: String) -> SockAddrV4;

    /// Signal to the remote to open a blob receiver and return the network address.
    fn open_blob_file_rx(&mut self, path: String, overwrite: bool) -> SockAddrV4;
}

/// Method call payload of [`ImmutableFileOps::read_file`].
#[derive(Debug)]
pub enum ImmutableFileOpsReadFile {
    Request { path: String, offset: Option<usize> },
    Response(Vec<u8>),
}

impl RemoteMethodSignature for ImmutableFileOpsReadFile {
    open spec fn signature_spec() -> Seq<u8> {
        "ImmutableFileOps::read_file".spec_bytes()
    }

    fn remote_method_signature() -> (res: &'static [u8]) {
        "ImmutableFileOps::read_file".as_bytes()
    }
}

impl RemoteRequest for ImmutableFileOpsReadFile {
    fn is_request(&self) -> (res: bool)
        ensures
            res == self is Request,
    {
        matches!(self, Self::Request { .. })
    }

    fn is_response(&self) -> (res: bool)
        ensures
            res == self is Response,
    {
        matches!(self, Self::Response(_))
    }
}

/// Method call payload of [`ImmutableFileOps::ls`].
#[derive(Debug)]
pub enum ImmutableFileOpsLs {
    Request { path: String },
    Response(Vec<String>),
}

impl RemoteMethodSignature for ImmutableFileOpsLs {
    open spec fn signature_spec() -> Seq<u8> {
        "ImmutableFileOps::ls".spec_bytes()
    }

    fn remote_method_signature() -> (res: &'static [u8]) {
        "ImmutableFileOps::ls".as_bytes()
    }
}

impl RemoteRequest for ImmutableFileOpsLs {
    fn is_request(&self) -> (res: bool)
        ensures
            res == self is Request,
    {
        matches!(self, Self::Request { .. })
    }

    fn is_response(&self) -> (res: bool)
        ensures
            res == self is Response,
    {
        matches!(self, Self::Response(_))
    }
}

/// Method call payload of [`MutableFileOps::create_file`].
#[derive(Debug)]
pub enum MutableFileOpsCreateFile {
    Request { path: String, truncate: bool },
    Response(Result<(bool, i32), ()>),
}

impl RemoteMethodSignature for MutableFileOpsCreateFile {
    open spec fn signature_spec() -> Seq<u8> {
        "MutableFileOps::create_file".spec_bytes()
    }

    fn remote_method_signature() -> (res: &'static [u8]) {
        "MutableFileOps::create_file".as_bytes()
    }
}

impl RemoteRequest for MutableFileOpsCreateFile {
    fn is_request(&self) -> (res: bool)
        ensures
            res == self is Request,
    {
        matches!(self, Self::Request { .. })
    }

    fn is_response(&self) -> (res: bool)
        ensures
            res == self is Response,
    {
        matches!(self, Self::Response(_))
    }
}

/// Method call payload of [`PrimitiveFsOps::read_all`].
#[derive(Debug)]
pub enum PrimitiveFsOpsReadAll {
    Request { path: String },
    Response(Vec<u8>),
}

impl RemoteMethodSignature for PrimitiveFsOpsReadAll {
    open spec fn signature_spec() -> Seq<u8> {
        "PrimitiveFsOps::read_all".spec_bytes()
    }

    fn remote_method_signature() -> (res: &'static [u8]) {
        "PrimitiveFsOps::read_all".as_bytes()
    }
}

impl RemoteRequest for PrimitiveFsOpsReadAll {
    fn is_request(&self) -> (res: bool)
        ensures
            res == self is Request,
    {
        matches!(self, Self::Request { .. })
    }

    fn is_response(&self) -> (res: bool)
        ensures
            res == self is Response,
    {
        matches!(self, Self::Response(_))
    }
}

/// Method call payload of [`PrimitiveFsOps::read_bytes`].
#[derive(Debug)]
pub enum PrimitiveFsOpsReadBytes {
    Request { path: String, offset: usize, len: usize },
    Response(Vec<u8>),
}

impl RemoteMethodSignature for PrimitiveFsOpsReadBytes {
    open spec fn signature_spec() -> Seq<u8> {
        "PrimitiveFsOps::read_bytes".spec_bytes()
    }

    fn remote_method_signature() -> (res: &'static [u8]) {
        "PrimitiveFsOps::read_bytes".as_bytes()
    }
}

impl RemoteRequest for PrimitiveFsOpsReadBytes {
    fn is_request(&self) -> (res: bool)
        ensures
            res == self is Request,
    {
        matches!(self, Self::Request { .. })
    }

    fn is_response(&self) -> (res: bool)
        ensures
            res == self is Response,
    {
        matches!(self, Self::Response(_))
    }
}

/// Method call payload of [`PrimitiveFsOps::write_all`].
#[derive(Debug)]
pub enum PrimitiveFsOpsWriteAll {
    Request { path: String, contents: Vec<u8> },
    Response(bool),
}

impl RemoteMethodSignature for PrimitiveFsOpsWriteAll {
    open spec fn signature_spec() -> Seq<u8> {
        "PrimitiveFsOps::write_all".spec_bytes()
    }

    fn remote_method_signature() -> (res: &'static [u8]) {
        "PrimitiveFsOps::write_all".as_bytes()
    }
}

impl RemoteRequest for PrimitiveFsOpsWriteAll {
    fn is_request(&self) -> (res: bool)
        ensures
            res == self is Request,
    {
        matches!(self, Self::Request { .. })
    }

    fn is_response(&self) -> (res: bool)
        ensures
            res == self is Response,
    {
        matches!(self, Self::Response(_))
    }
}

/// Method call payload of [`PrimitiveFsOps::write_bytes`].
#[derive(Debug)]
pub enum PrimitiveFsOpsWriteBytes {
    Request { path: String, bytes: FileUpdate },
    Response(Result<usize, VirtIOErr>),
}

impl RemoteMethodSignature for PrimitiveFsOpsWriteBytes {
    open spec fn signature_spec() -> Seq<u8> {
        "PrimitiveFsOps::write_bytes".spec_bytes()
    }

    fn remote_method_signature() -> (res: &'static [u8]) {
        "PrimitiveFsOps::write_bytes".as_bytes()
    }
}

impl RemoteRequest for PrimitiveFsOpsWriteBytes {
    fn is_request(&self) -> (res: bool)
        ensures
            res == self is Request,
    {
        matches!(self, Self::Request { .. })
    }

    fn is_response(&self) -> (res: bool)
        ensures
            res == self is Response,
    {
        matches!(self, Self::Response(_))
    }
}

/// Method call payload of [`PrimitiveFsOps::create`].
#[derive(Debug)]
pub enum PrimitiveFsOpsCreate {
    Request { path: String },
    Response(Result<(), VirtIOErr>),
}

impl RemoteMethodSignature for PrimitiveFsOpsCreate {
    open spec fn signature_spec() -> Seq<u8> {
        "PrimitiveFsOps::create".spec_bytes()
    }

    fn remote_method_signature() -> (res: &'static [u8]) {
        "PrimitiveFsOps::create".as_bytes()
    }
}

impl RemoteRequest for PrimitiveFsOpsCreate {
    fn is_request(&self) -> (res: bool)
        ensures
            res == self is Request,
    {
        matches!(self, Self::Request { .. })
    }

    fn is_response(&self) -> (res: bool)
        ensures
            res == self is Response,
    {
        matches!(self, Self::Response(_))
    }
}

/// Method call payload of [`PrimitiveFsOps::remove`].
#[derive(Debug)]
pub enum PrimitiveFsOpsRemove {
    Request { path: String },
    Response(Result<(), VirtIOErr>),
}

impl RemoteMethodSignature for PrimitiveFsOpsRemove {
    open spec fn signature_spec() -> Seq<u8> {
        "PrimitiveFsOps::remove".spec_bytes()
    }

    fn remote_method_signature() -> (res: &'static [u8]) {
        "PrimitiveFsOps::remove".as_bytes()
    }
}

impl RemoteRequest for PrimitiveFsOpsRemove {
    fn is_request(&self) -> (res: bool)
        ensures
            res == self is Request,
    {
        matches!(self, Self::Request { .. })
    }

    fn is_response(&self) -> (res: bool)
        ensures
            res == self is Response,
    {
        matches!(self, Self::Response(_))
    }
}

/// Method call payload of [`PrimitiveFsOps::rename`].
#[derive(Debug)]
pub enum PrimitiveFsOpsRename {
    Request { path: String, from: String, to: String },
    Response(Result<(), VirtIOErr>),
}

impl RemoteMethodSignature for PrimitiveFsOpsRename {
    open spec fn signature_spec() -> Seq<u8> {
        "PrimitiveFsOps::rename".spec_bytes()
    }

    fn remote_method_signature() -> (res: &'static [u8]) {
        "PrimitiveFsOps::rename".as_bytes()
    }
}

impl RemoteRequest for PrimitiveFsOpsRename {
    fn is_request(&self) -> (res: bool)
        ensures
            res == self is Request,
    {
        matches!(self, Self::Request { .. })
    }

    fn is_response(&self) -> (res: bool)
        ensures
            res == self is Response,
    {
        matches!(self, Self::Response(_))
    }
}

/// Method call payload of [`PrimitiveFsOps::mkdir`].
#[derive(Debug)]
pub enum PrimitiveFsOpsMkdir {
    Request { path: String },
    Response(Result<(), VirtIOErr>),
}

impl RemoteMethodSignature for PrimitiveFsOpsMkdir {
    open spec fn signature_spec() -> Seq<u8> {
        "PrimitiveFsOps::mkdir".spec_bytes()
    }

    fn remote_method_signature() -> (res: &'static [u8]) {
        "PrimitiveFsOps::mkdir".as_bytes()
    }
}

impl RemoteRequest for PrimitiveFsOpsMkdir {
    fn is_request(&self) -> (res: bool)
        ensures
            res == self is Request,
    {
        matches!(self, Self::Request { .. })
    }

    fn is_response(&self) -> (res: bool)
        ensures
            res == self is Response,
    {
        matches!(self, Self::Response(_))
    }
}

/// Method call payload of [`PrimitiveFsOps::rmdir`].
#[derive(Debug)]
pub enum PrimitiveFsOpsRmdir {
    Request { path: String },
    Response(Result<(), VirtIOErr>),
}

impl RemoteMethodSignature for PrimitiveFsOpsRmdir {
    open spec fn signature_spec() -> Seq<u8> {
        "PrimitiveFsOps::rmdir".spec_bytes()
    }

    fn remote_method_signature() -> (res: &'static [u8]) {
        "PrimitiveFsOps::rmdir".as_bytes()
    }
}

impl RemoteRequest for PrimitiveFsOpsRmdir {
    fn is_request(&self) -> (res: bool)
        ensures
            res == self is Request,
    {
        matches!(self, Self::Request { .. })
    }

    fn is_response(&self) -> (res: bool)
        ensures
            res == self is Response,
    {
        matches!(self, Self::Response(_))
    }
}

/// Method call payload of [`PrimitiveFsOps::read_dir`].
#[derive(Debug)]
pub enum PrimitiveFsOpsReadDir {
    Request { path: String },
    Response(Vec<VirtDirEntry>),
}

impl RemoteMethodSignature for PrimitiveFsOpsReadDir {
    open spec fn signature_spec() -> Seq<u8> {
        "PrimitiveFsOps::read_dir".spec_bytes()
    }

    fn remote_method_signature() -> (res: &'static [u8]) {
        "PrimitiveFsOps::read_dir".as_bytes()
    }
}

impl RemoteRequest for PrimitiveFsOpsReadDir {
    fn is_request(&self) -> (res: bool)
        ensures
            res == self is Request,
    {
        matches!(self, Self::Request { .. })
    }

    fn is_response(&self) -> (res: bool)
        ensures
            res == self is Response,
    {
        matches!(self, Self::Response(_))
    }
}

/// Method call payload of [`PrimitiveFsOps::file_size`].
#[derive(Debug)]
pub enum PrimitiveFsOpsFileSize {
    Request { path: String },
    Response(Result<usize, VirtIOErr>),
}

impl RemoteMethodSignature for PrimitiveFsOpsFileSize {
    open spec fn signature_spec() -> Seq<u8> {
        "PrimitiveFsOps::file_size".spec_bytes()
    }

    fn remote_method_signature() -> (res: &'static [u8]) {
        "PrimitiveFsOps::file_size".as_bytes()
    }
}

impl RemoteRequest for PrimitiveFsOpsFileSize {
    fn is_request(&self) -> (res: bool)
        ensures
            res == self is Request,
    {
        matches!(self, Self::Request { .. })
    }

    fn is_response(&self) -> (res: bool)
        ensures
            res == self is Response,
    {
        matches!(self, Self::Response(_))
    }
}

/// Method call payload of [`SimpleOps::say_hello`].
#[derive(Debug)]
pub enum SimpleOpsSayHello {
    Request { content: String },
    Response(bool),
}

impl RemoteMethodSignature for SimpleOpsSayHello {
    open spec fn signature_spec() -> Seq<u8> {
        "SimpleOps::say_hello".spec_bytes()
    }

    fn remote_method_signature() -> (res: &'static [u8]) {
        "SimpleOps::say_hello".as_bytes()
    }
}

impl RemoteRequest for SimpleOpsSayHello {
    fn is_request(&self) -> (res: bool)
        ensures
            res == self is Request,
    {
        matches!(self, Self::Request { .. })
    }

    fn is_response(&self) -> (res: bool)
        ensures
            res == self is Response,
    {
        matches!(self, Self::Response(_))
    }
}

/// Method call payload of [`SimpleOps::compute_fib`].
#[derive(Debug)]
pub enum SimpleOpsComputeFib {
    Request { fib_num: u8 },
    Response(u64),
}

impl RemoteMethodSignature for SimpleOpsComputeFib {
    open spec fn signature_spec() -> Seq<u8> {
        "SimpleOps::compute_fib".spec_bytes()
    }

    fn remote_method_signature() -> (res: &'static [u8]) {
        "SimpleOps::compute_fib".as_bytes()
    }
}

impl RemoteRequest for SimpleOpsComputeFib {
    fn is_request(&self) -> (res: bool)
        ensures
            res == self is Request,
    {
        matches!(self, Self::Request { .. })
    }

    fn is_response(&self) -> (res: bool)
        ensures
            res == self is Response,
    {
        matches!(self, Self::Response(_))
    }
}

/// Method call payload of [`CallbackOps::register_file_update`].
#[derive(Debug)]
pub enum CallbackOpsRegisterFileUpdate {
    Request { path: String, return_addr: SockAddrV4 },
    Response(Result<(), VirtIOErr>),
}

impl RemoteMethodSignature for CallbackOpsRegisterFileUpdate {
    open spec fn signature_spec() -> Seq<u8> {
        "CallbackOps::register_file_update".spec_bytes()
    }

    fn remote_method_signature() -> (res: &'static [u8]) {
        "CallbackOps::register_file_update".as_bytes()
    }
}

impl RemoteRequest for CallbackOpsRegisterFileUpdate {
    fn is_request(&self) -> (res: bool)
        ensures
            res == self is Request,
    {
        matches!(self, Self::Request { .. })
    }

    fn is_response(&self) -> (res: bool)
        ensures
            res == self is Response,
    {
        matches!(self, Self::Response(_))
    }
}

/// Method call payload of [`TestOps::get_remote_protocol`].
#[derive(Debug)]
pub enum TestOpsGetRemoteProtocol {
    Request {},
    Response(String),
}

impl RemoteMethodSignature for TestOpsGetRemoteProtocol {
    open spec fn signature_spec() -> Seq<u8> {
        "TestOps::get_remote_protocol".spec_bytes()
    }

    fn remote_method_signature() -> (res: &'static [u8]) {
        "TestOps::get_remote_protocol".as_bytes()
    }
}

impl RemoteRequest for TestOpsGetRemoteProtocol {
    fn is_request(&self) -> (res: bool)
        ensures
            res == self is Request,
    {
        matches!(self, Self::Request { .. })
    }

    fn is_response(&self) -> (res: bool)
        ensures
            res == self is Response,
    {
        matches!(self, Self::Response(_))
    }
}

/// Method call payload of [`TestOps::test_idempotent`].
#[derive(Debug)]
pub enum TestOpsTestIdempotent {
    Request { uuid: u64 },
    Response(u64),
}

impl RemoteMethodSignature for TestOpsTestIdempotent {
    open spec fn signature_spec() -> Seq<u8> {
        "TestOps::test_idempotent".spec_bytes()
    }

    fn remote_method_signature() -> (res: &'static [u8]) {
        "TestOps::test_idempotent".as_bytes()
    }
}

impl RemoteRequest for TestOpsTestIdempotent {
    fn is_request(&self) -> (res: bool)
        ensures
            res == self is Request,
    {
        matches!(self, Self::Request { .. })
    }

    fn is_response(&self) -> (res: bool)
        ensures
            res == self is Response,
    {
        matches!(self, Self::Response(_))
    }
}

/// Method call payload of [`TestOps::test_non_idempotent`].
#[derive(Debug)]
pub enum TestOpsTestNonIdempotent {
    Request { uuid: u64 },
    Response(usize),
}

impl RemoteMethodSignature for TestOpsTestNonIdempotent {
    open spec fn signature_spec() -> Seq<u8> {
        "TestOps::test_non_idempotent".spec_bytes()
    }

    fn remote_method_signature() -> (res: &'static [u8]) {
        "TestOps::test_non_idempotent".as_bytes()
    }
}

impl RemoteRequest for TestOpsTestNonIdempotent {
    fn is_request(&self) -> (res: bool)
        ensures
            res == self is Request,
    {
        matches!(self, Self::Request { .. })
    }

    fn is_response(&self) -> (res: bool)
        ensures
            res == self is Response,
    {
        matches!(self, Self::Response(_))
    }
}

/// Method call payload of [`TestOps::reset_non_idempotent`].
#[derive(Debug)]
pub enum TestOpsResetNonIdempotent {
    Request {},
    Response(()),
}

impl RemoteMethodSignature for TestOpsResetNonIdempotent {
    open spec fn signature_spec() -> Seq<u8> {
        "TestOps::reset_non_idempotent".spec_bytes()
    }

    fn remote_method_signature() -> (res: &'static [u8]) {
        "TestOps::reset_non_idempotent".as_bytes()
    }
}

impl RemoteRequest for TestOpsResetNonIdempotent {
    fn is_request(&self) -> (res: bool)
        ensures
            res == self is Request,
    {
        matches!(self, Self::Request { .. })
    }

    fn is_response(&self) -> (res: bool)
        ensures
            res == self is Response,
    {
        matches!(self, Self::Response(_))
    }
}

/// Method call payload of [`StreamingOps::open_blob_file_tx`].
#[derive(Debug)]
pub enum StreamingOpsOpenBlobFileTx {
    Request { path: String },
    Response(SockAddrV4),
}

impl RemoteMethodSignature for StreamingOpsOpenBlobFileTx {
    open spec fn signature_spec() -> Seq<u8> {
        "StreamingOps::open_blob_file_tx".spec_bytes()
    }

    fn remote_method_signature() -> (res: &'static [u8]) {
        "StreamingOps::open_blob_file_tx".as_bytes()
    }
}

impl RemoteRequest for StreamingOpsOpenBlobFileTx {
    fn is_request(&self) -> (res: bool)
        ensures
            res == self is Request,
    {
        matches!(self, Self::Request { .. })
    }

    fn is_response(&self) -> (res: bool)
        ensures
            res == self is Response,
    {
        matches!(self, Self::Response(_))
    }
}

/// Method call payload of [`StreamingOps::open_blob_file_rx`].
#[derive(Debug)]
pub enum StreamingOpsOpenBlobFileRx {
    Request { path: String, overwrite: bool },
    Response(SockAddrV4),
}

impl RemoteMethodSignature for StreamingOpsOpenBlobFileRx {
    open spec fn signature_spec() -> Seq<u8> {
        "StreamingOps::open_blob_file_rx".spec_bytes()
    }

    fn remote_method_signature() -> (res: &'static [u8]) {
        "StreamingOps::open_blob_file_rx".as_bytes()
    }
}

impl RemoteRequest for StreamingOpsOpenBlobFileRx {
    fn is_request(&self) -> (res: bool)
        ensures
            res == self is Request,
    {
        matches!(self, Self::Request { .. })
    }

    fn is_response(&self) -> (res: bool)
        ensures
            res == self is Response,
    {
        matches!(self, Self::Response(_))
    }
}


/// The signature of method `method` of the remote interface `interface`:
/// the interface's name, `::`, then the method's name, in UTF-8.
pub open spec fn qualified_signature(interface: Seq<char>, method: Seq<char>) -> Seq<u8> {
    encode_utf8(interface + seq![':', ':'] + method)
}

/// The signature of `ImmutableFileOps::read_file` names its interface and method.
proof fn lemma_signature_immutable_file_ops_read_file()
    ensures
        ImmutableFileOpsReadFile::signature_spec() == qualified_signature("ImmutableFileOps"@, "read_file"@),
{
    reveal_strlit("ImmutableFileOps::read_file");
    reveal_strlit("ImmutableFileOps");
    reveal_strlit("read_file");
    assert("ImmutableFileOps::read_file"@ =~= "ImmutableFileOps"@ + seq![':', ':'] + "read_file"@);
}

/// The signature of `ImmutableFileOps::ls` names its interface and method.
proof fn lemma_signature_immutable_file_ops_ls()
    ensures
        ImmutableFileOpsLs::signature_spec() == qualified_signature("ImmutableFileOps"@, "ls"@),
{
    reveal_strlit("ImmutableFileOps::ls");
    reveal_strlit("ImmutableFileOps");
    reveal_strlit("ls");
    assert("ImmutableFileOps::ls"@ =~= "ImmutableFileOps"@ + seq![':', ':'] + "ls"@);
}

/// The signature of `MutableFileOps::create_file` names its interface and method.
proof fn lemma_signature_mutable_file_ops_create_file()
    ensures
        MutableFileOpsCreateFile::signature_spec() == qualified_signature("MutableFileOps"@, "create_file"@),
{
    reveal_strlit("MutableFileOps::create_file");
    reveal_strlit("MutableFileOps");
    reveal_strlit("create_file");
    assert("MutableFileOps::create_file"@ =~= "MutableFileOps"@ + seq![':', ':'] + "create_file"@);
}

/// The signature of `PrimitiveFsOps::read_all` names its interface and method.
proof fn lemma_signature_primitive_fs_ops_read_all()
    ensures
        PrimitiveFsOpsReadAll::signature_spec() == qualified_signature("PrimitiveFsOps"@, "read_all"@),
{
    reveal_strlit("PrimitiveFsOps::read_all");
    reveal_strlit("PrimitiveFsOps");
    reveal_strlit("read_all");
    assert("PrimitiveFsOps::read_all"@ =~= "PrimitiveFsOps"@ + seq![':', ':'] + "read_all"@);
}

/// The signature of `PrimitiveFsOps::read_bytes` names its interface and method.
proof fn lemma_signature_primitive_fs_ops_read_bytes()
    ensures
        PrimitiveFsOpsReadBytes::signature_spec() == qualified_signature("PrimitiveFsOps"@, "read_bytes"@),
{
    reveal_strlit("PrimitiveFsOps::read_bytes");
    reveal_strlit("PrimitiveFsOps");
    reveal_strlit("read_bytes");
    assert("PrimitiveFsOps::read_bytes"@ =~= "PrimitiveFsOps"@ + seq![':', ':'] + "read_bytes"@);
}

/// The signature of `PrimitiveFsOps::write_all` names its interface and method.
proof fn lemma_signature_primitive_fs_ops_write_all()
    ensures
        PrimitiveFsOpsWriteAll::signature_spec() == qualified_signature("PrimitiveFsOps"@, "write_all"@),
{
    reveal_strlit("PrimitiveFsOps::write_all");
    reveal_strlit("PrimitiveFsOps");
    reveal_strlit("write_all");
    assert("PrimitiveFsOps::write_all"@ =~= "PrimitiveFsOps"@ + seq![':', ':'] + "write_all"@);
}

/// The signature of `PrimitiveFsOps::write_bytes` names its interface and method.
proof fn lemma_signature_primitive_fs_ops_write_bytes()
    ensures
        PrimitiveFsOpsWriteBytes::signature_spec() == qualified_signature("PrimitiveFsOps"@, "write_bytes"@),
{
    reveal_strlit("PrimitiveFsOps::write_bytes");
    reveal_strlit("PrimitiveFsOps");
    reveal_strlit("write_bytes");
    assert("PrimitiveFsOps::write_bytes"@ =~= "PrimitiveFsOps"@ + seq![':', ':'] + "write_bytes"@);
}

/// The signature of `PrimitiveFsOps::create` names its interface and method.
proof fn lemma_signature_primitive_fs_ops_create()
    ensures
        PrimitiveFsOpsCreate::signature_spec() == qualified_signature("PrimitiveFsOps"@, "create"@),
{
    reveal_strlit("PrimitiveFsOps::create");
    reveal_strlit("PrimitiveFsOps");
    reveal_strlit("create");
    assert("PrimitiveFsOps::create"@ =~= "PrimitiveFsOps"@ + seq![':', ':'] + "create"@);
}

/// The signature of `PrimitiveFsOps::remove` names its interface and method.
proof fn lemma_signature_primitive_fs_ops_remove()
    ensures
        PrimitiveFsOpsRemove::signature_spec() == qualified_signature("PrimitiveFsOps"@, "remove"@),
{
    reveal_strlit("PrimitiveFsOps::remove");
    reveal_strlit("PrimitiveFsOps");
    reveal_strlit("remove");
    assert("PrimitiveFsOps::remove"@ =~= "PrimitiveFsOps"@ + seq![':', ':'] + "remove"@);
}

/// The signature of `PrimitiveFsOps::rename` names its interface and method.
proof fn lemma_signature_primitive_fs_ops_rename()
    ensures
        PrimitiveFsOpsRename::signature_spec() == qualified_signature("PrimitiveFsOps"@, "rename"@),
{
    reveal_strlit("PrimitiveFsOps::rename");
    reveal_strlit("PrimitiveFsOps");
    reveal_strlit("rename");
    assert("PrimitiveFsOps::rename"@ =~= "PrimitiveFsOps"@ + seq![':', ':'] + "rename"@);
}

/// The signature of `PrimitiveFsOps::mkdir` names its interface and method.
proof fn lemma_signature_primitive_fs_ops_mkdir()
    ensures
        PrimitiveFsOpsMkdir::signature_spec() == qualified_signature("PrimitiveFsOps"@, "mkdir"@),
{
    reveal_strlit("PrimitiveFsOps::mkdir");
    reveal_strlit("PrimitiveFsOps");
    reveal_strlit("mkdir");
    assert("PrimitiveFsOps::mkdir"@ =~= "PrimitiveFsOps"@ + seq![':', ':'] + "mkdir"@);
}

/// The signature of `PrimitiveFsOps::rmdir` names its interface and method.
proof fn lemma_signature_primitive_fs_ops_rmdir()
    ensures
        PrimitiveFsOpsRmdir::signature_spec() == qualified_signature("PrimitiveFsOps"@, "rmdir"@),
{
    reveal_strlit("PrimitiveFsOps::rmdir");
    reveal_strlit("PrimitiveFsOps");
    reveal_strlit("rmdir");
    assert("PrimitiveFsOps::rmdir"@ =~= "PrimitiveFsOps"@ + seq![':', ':'] + "rmdir"@);
}

/// The signature of `PrimitiveFsOps::read_dir` names its interface and method.
proof fn lemma_signature_primitive_fs_ops_read_dir()
    ensures
        PrimitiveFsOpsReadDir::signature_spec() == qualified_signature("PrimitiveFsOps"@, "read_dir"@),
{
    reveal_strlit("PrimitiveFsOps::read_dir");
    reveal_strlit("PrimitiveFsOps");
    reveal_strlit("read_dir");
    assert("PrimitiveFsOps::read_dir"@ =~= "PrimitiveFsOps"@ + seq![':', ':'] + "read_dir"@);
}

/// The signature of `PrimitiveFsOps::file_size` names its interface and method.
proof fn lemma_signature_primitive_fs_ops_file_size()
    ensures
        PrimitiveFsOpsFileSize::signature_spec() == qualified_signature("PrimitiveFsOps"@, "file_size"@),
{
    reveal_strlit("PrimitiveFsOps::file_size");
    reveal_strlit("PrimitiveFsOps");
    reveal_strlit("file_size");
    assert("PrimitiveFsOps::file_size"@ =~= "PrimitiveFsOps"@ + seq![':', ':'] + "file_size"@);
}

/// The signature of `SimpleOps::say_hello` names its interface and method.
proof fn lemma_signature_simple_ops_say_hello()
    ensures
        SimpleOpsSayHello::signature_spec() == qualified_signature("SimpleOps"@, "say_hello"@),
{
    reveal_strlit("SimpleOps::say_hello");
    reveal_strlit("SimpleOps");
    reveal_strlit("say_hello");
    assert("SimpleOps::say_hello"@ =~= "SimpleOps"@ + seq![':', ':'] + "say_hello"@);
}

/// The signature of `SimpleOps::compute_fib` names its interface and method.
proof fn lemma_signature_simple_ops_compute_fib()
    ensures
        SimpleOpsComputeFib::signature_spec() == qualified_signature("SimpleOps"@, "compute_fib"@),
{
    reveal_strlit("SimpleOps::compute_fib");
    reveal_strlit("SimpleOps");
    reveal_strlit("compute_fib");
    assert("SimpleOps::compute_fib"@ =~= "SimpleOps"@ + seq![':', ':'] + "compute_fib"@);
}

/// The signature of `CallbackOps::register_file_update` names its interface and method.
proof fn lemma_signature_callback_ops_register_file_update()
    ensures
        CallbackOpsRegisterFileUpdate::signature_spec() == qualified_signature("CallbackOps"@, "register_file_update"@),
{
    reveal_strlit("CallbackOps::register_file_update");
    reveal_strlit("CallbackOps");
    reveal_strlit("register_file_update");
    assert("CallbackOps::register_file_update"@ =~= "CallbackOps"@ + seq![':', ':'] + "register_file_update"@);
}

/// The signature of `TestOps::get_remote_protocol` names its interface and method.
proof fn lemma_signature_test_ops_get_remote_protocol()
    ensures
        TestOpsGetRemoteProtocol::signature_spec() == qualified_signature("TestOps"@, "get_remote_protocol"@),
{
    reveal_strlit("TestOps::get_remote_protocol");
    reveal_strlit("TestOps");
    reveal_strlit("get_remote_protocol");
    assert("TestOps::get_remote_protocol"@ =~= "TestOps"@ + seq![':', ':'] + "get_remote_protocol"@);
}

/// The signature of `TestOps::test_idempotent` names its interface and method.
proof fn lemma_signature_test_ops_test_idempotent()
    ensures
        TestOpsTestIdempotent::signature_spec() == qualified_signature("TestOps"@, "test_idempotent"@),
{
    reveal_strlit("TestOps::test_idempotent");
    reveal_strlit("TestOps");
    reveal_strlit("test_idempotent");
    assert("TestOps::test_idempotent"@ =~= "TestOps"@ + seq![':', ':'] + "test_idempotent"@);
}

/// The signature of `TestOps::test_non_idempotent` names its interface and method.
proof fn lemma_signature_test_ops_test_non_idempotent()
    ensures
        TestOpsTestNonIdempotent::signature_spec() == qualified_signature("TestOps"@, "test_non_idempotent"@),
{
    reveal_strlit("TestOps::test_non_idempotent");
    reveal_strlit("TestOps");
    reveal_strlit("test_non_idempotent");
    assert("TestOps::test_non_idempotent"@ =~= "TestOps"@ + seq![':', ':'] + "test_non_idempotent"@);
}

/// The signature of `TestOps::reset_non_idempotent` names its interface and method.
proof fn lemma_signature_test_ops_reset_non_idempotent()
    ensures
        TestOpsResetNonIdempotent::signature_spec() == qualified_signature("TestOps"@, "reset_non_idempotent"@),
{
    reveal_strlit("TestOps::reset_non_idempotent");
    reveal_strlit("TestOps");
    reveal_strlit("reset_non_idempotent");
    assert("TestOps::reset_non_idempotent"@ =~= "TestOps"@ + seq![':', ':'] + "reset_non_idempotent"@);
}

/// The signature of `StreamingOps::open_blob_file_tx` names its interface and method.
proof fn lemma_signature_streaming_ops_open_blob_file_tx()
    ensures
        StreamingOpsOpenBlobFileTx::signature_spec() == qualified_signature("StreamingOps"@, "open_blob_file_tx"@),
{
    reveal_strlit("StreamingOps::open_blob_file_tx");
    reveal_strlit("StreamingOps");
    reveal_strlit("open_blob_file_tx");
    assert("StreamingOps::open_blob_file_tx"@ =~= "StreamingOps"@ + seq![':', ':'] + "open_blob_file_tx"@);
}

/// The signature of `StreamingOps::open_blob_file_rx` names its interface and method.
proof fn lemma_signature_streaming_ops_open_blob_file_rx()
    ensures
        StreamingOpsOpenBlobFileRx::signature_spec() == qualified_signature("StreamingOps"@, "open_blob_file_rx"@),
{
    reveal_strlit("StreamingOps::open_blob_file_rx");
    reveal_strlit("StreamingOps");
    reveal_strlit("open_blob_file_rx");
    assert("StreamingOps::open_blob_file_rx"@ =~= "StreamingOps"@ + seq![':', ':'] + "open_blob_file_rx"@);
}

/// Whether `prefix` starts the characters `s`.
pub open spec fn chars_start_with(s: Seq<char>, prefix: Seq<char>) -> bool {
    prefix.len() <= s.len() && s.subrange(0, prefix.len() as int) == prefix
}

/// For ASCII text, one encoding starts another exactly when the text does.
proof fn lemma_ascii_prefix(a: Seq<char>, b: Seq<char>)
    requires
        is_ascii_chars(a),
        is_ascii_chars(b),
        has_prefix(encode_utf8(a), encode_utf8(b)),
    ensures
        chars_start_with(a, b),
{
    is_ascii_chars_encode_utf8(a);
    is_ascii_chars_encode_utf8(b);
    is_ascii_chars_nat_bound(a);
    is_ascii_chars_nat_bound(b);
    assert forall|k: int| 0 <= k < b.len() implies a.subrange(0, b.len() as int)[k] == b[k] by {
        assert(encode_utf8(a)[k] == encode_utf8(b)[k]) by {
            assert(encode_utf8(a).subrange(0, encode_utf8(b).len() as int)[k] == encode_utf8(b)[k]);
        }
        assert((a[k] as nat) < 128 && (b[k] as nat) < 128);
        assert(a[k] as u8 == b[k] as u8);
        assert(a[k] as u32 == b[k] as u32);
    }
    assert(a.subrange(0, b.len() as int) =~= b);
}

/// Within one interface with an ASCII name, methods whose ASCII names do
/// not start one another get signatures that do not start one another:
/// routing by signature cannot mistake one for the other.
pub proof fn lemma_qualified_signatures_prefix_free(interface: Seq<char>, m1: Seq<char>, m2: Seq<char>)
    requires
        is_ascii_chars(interface),
        is_ascii_chars(m1),
        is_ascii_chars(m2),
        !chars_start_with(m1, m2),
    ensures
        !has_prefix(qualified_signature(interface, m1), qualified_signature(interface, m2)),
{
    let head = interface + seq![':', ':'];
    let n1 = head + m1;
    let n2 = head + m2;
    assert(is_ascii_chars(head)) by {
        assert forall|i: int| 0 <= i < head.len() implies '\0' <= #[trigger] head[i] <= '\u{7f}' by {
            if i < interface.len() {
                assert(head[i] == interface[i]);
            }
        }
    }
    assert(is_ascii_chars(n1)) by {
        assert forall|i: int| 0 <= i < n1.len() implies '\0' <= #[trigger] n1[i] <= '\u{7f}' by {
            if i < head.len() {
                assert(n1[i] == head[i]);
            } else {
                assert(n1[i] == m1[i - head.len()]);
            }
        }
    }
    assert(is_ascii_chars(n2)) by {
        assert forall|i: int| 0 <= i < n2.len() implies '\0' <= #[trigger] n2[i] <= '\u{7f}' by {
            if i < head.len() {
                assert(n2[i] == head[i]);
            } else {
                assert(n2[i] == m2[i - head.len()]);
            }
        }
    }
    if has_prefix(qualified_signature(interface, m1), qualified_signature(interface, m2)) {
        lemma_ascii_prefix(n1, n2);
        assert(m1.subrange(0, m2.len() as int) =~= m2) by {
            assert forall|k: int| 0 <= k < m2.len() implies m1.subrange(0, m2.len() as int)[k] == m2[k] by {
                assert(n1.subrange(0, n2.len() as int)[head.len() + k] == n2[head.len() + k]);
            }
        }
        assert(false);
    }
}

/// Every remote method's signature is its interface's name, `::`, then the
/// method's name: so each invocation is framed and routed under the method
/// it calls.
pub proof fn lemma_signatures_name_their_methods()
    ensures
        ImmutableFileOpsReadFile::signature_spec() == qualified_signature("ImmutableFileOps"@, "read_file"@),
        ImmutableFileOpsLs::signature_spec() == qualified_signature("ImmutableFileOps"@, "ls"@),
        MutableFileOpsCreateFile::signature_spec() == qualified_signature("MutableFileOps"@, "create_file"@),
        PrimitiveFsOpsReadAll::signature_spec() == qualified_signature("PrimitiveFsOps"@, "read_all"@),
        PrimitiveFsOpsReadBytes::signature_spec() == qualified_signature("PrimitiveFsOps"@, "read_bytes"@),
        PrimitiveFsOpsWriteAll::signature_spec() == qualified_signature("PrimitiveFsOps"@, "write_all"@),
        PrimitiveFsOpsWriteBytes::signature_spec() == qualified_signature("PrimitiveFsOps"@, "write_bytes"@),
        PrimitiveFsOpsCreate::signature_spec() == qualified_signature("PrimitiveFsOps"@, "create"@),
        PrimitiveFsOpsRemove::signature_spec() == qualified_signature("PrimitiveFsOps"@, "remove"@),
        PrimitiveFsOpsRename::signature_spec() == qualified_signature("PrimitiveFsOps"@, "rename"@),
        PrimitiveFsOpsMkdir::signature_spec() == qualified_signature("PrimitiveFsOps"@, "mkdir"@),
        PrimitiveFsOpsRmdir::signature_spec() == qualified_signature("PrimitiveFsOps"@, "rmdir"@),
        PrimitiveFsOpsReadDir::signature_spec() == qualified_signature("PrimitiveFsOps"@, "read_dir"@),
        PrimitiveFsOpsFileSize::signature_spec() == qualified_signature("PrimitiveFsOps"@, "file_size"@),
        SimpleOpsSayHello::signature_spec() == qualified_signature("SimpleOps"@, "say_hello"@),
        SimpleOpsComputeFib::signature_spec() == qualified_signature("SimpleOps"@, "compute_fib"@),
        CallbackOpsRegisterFileUpdate::signature_spec() == qualified_signature("CallbackOps"@, "register_file_update"@),
        TestOpsGetRemoteProtocol::signature_spec() == qualified_signature("TestOps"@, "get_remote_protocol"@),
        TestOpsTestIdempotent::signature_spec() == qualified_signature("TestOps"@, "test_idempotent"@),
        TestOpsTestNonIdempotent::signature_spec() == qualified_signature("TestOps"@, "test_non_idempotent"@),
        TestOpsResetNonIdempotent::signature_spec() == qualified_signature("TestOps"@, "reset_non_idempotent"@),
        StreamingOpsOpenBlobFileTx::signature_spec() == qualified_signature("StreamingOps"@, "open_blob_file_tx"@),
        StreamingOpsOpenBlobFileRx::signature_spec() == qualified_signature("StreamingOps"@, "open_blob_file_rx"@),
{
    lemma_signature_immutable_file_ops_read_file();
    lemma_signature_immutable_file_ops_ls();
    lemma_signature_mutable_file_ops_create_file();
    lemma_signature_primitive_fs_ops_read_all();
    lemma_signature_primitive_fs_ops_read_bytes();
    lemma_signature_primitive_fs_ops_write_all();
    lemma_signature_primitive_fs_ops_write_bytes();
    lemma_signature_primitive_fs_ops_create();
    lemma_signature_primitive_fs_ops_remove();
    lemma_signature_primitive_fs_ops_rename();
    lemma_signature_primitive_fs_ops_mkdir();
    lemma_signature_primitive_fs_ops_rmdir();
    lemma_signature_primitive_fs_ops_read_dir();
    lemma_signature_primitive_fs_ops_file_size();
    lemma_signature_simple_ops_say_hello();
    lemma_signature_simple_ops_compute_fib();
    lemma_signature_callback_ops_register_file_update();
    lemma_signature_test_ops_get_remote_protocol();
    lemma_signature_test_ops_test_idempotent();
    lemma_signature_test_ops_test_non_idempotent();
    lemma_signature_test_ops_reset_non_idempotent();
    lemma_signature_streaming_ops_open_blob_file_tx();
    lemma_signature_streaming_ops_open_blob_file_rx();
}


/// The name of `ImmutableFileOps` and its methods' names are ASCII.
#[verifier::rlimit(50)]
proof fn lemma_immutable_file_ops_names_ascii()
    ensures
        is_ascii_chars("ImmutableFileOps"@),
        is_ascii_chars("read_file"@),
        is_ascii_chars("ls"@),
{
    reveal_strlit("ImmutableFileOps");
    reveal_strlit("read_file");
    reveal_strlit("ls");
}

/// No name of a `ImmutableFileOps` method starts another's.
#[verifier::rlimit(50)]
proof fn lemma_immutable_file_ops_method_names_distinct()
    ensures
        !chars_start_with("read_file"@, "ls"@),
        !chars_start_with("ls"@, "read_file"@),
{
    reveal_strlit("read_file");
    reveal_strlit("ls");
    assert("read_file"@.subrange(0, 2)[0] != "ls"@[0]);
}

/// The signatures of `ImmutableFileOps`'s methods.
pub open spec fn immutable_file_ops_signatures() -> Seq<Seq<u8>> {
    seq![
        ImmutableFileOpsReadFile::signature_spec(),
        ImmutableFileOpsLs::signature_spec(),
    ]
}

/// No signature of a `ImmutableFileOps` method starts another's, so a payload
/// framed under one of them is routed to that method whatever its body.
pub proof fn lemma_immutable_file_ops_signatures_prefix_free()
    ensures
        forall|a: int, b: int|
            0 <= a < immutable_file_ops_signatures().len() && 0 <= b < immutable_file_ops_signatures().len() && a != b ==> !has_prefix(
                #[trigger] immutable_file_ops_signatures()[a],
                #[trigger] immutable_file_ops_signatures()[b],
            ),
{
    lemma_immutable_file_ops_names_ascii();
    lemma_immutable_file_ops_method_names_distinct();
    lemma_signatures_name_their_methods();
    lemma_qualified_signatures_prefix_free("ImmutableFileOps"@, "read_file"@, "ls"@);
    lemma_qualified_signatures_prefix_free("ImmutableFileOps"@, "ls"@, "read_file"@);
    assert(immutable_file_ops_signatures().len() == 2);
}

/// The name of `PrimitiveFsOps` and its methods' names are ASCII.
#[verifier::rlimit(50)]
proof fn lemma_primitive_fs_ops_names_ascii()
    ensures
        is_ascii_chars("PrimitiveFsOps"@),
        is_ascii_chars("read_all"@),
        is_ascii_chars("read_bytes"@),
        is_ascii_chars("write_all"@),
        is_ascii_chars("write_bytes"@),
        is_ascii_chars("create"@),
        is_ascii_chars("remove"@),
        is_ascii_chars("rename"@),
        is_ascii_chars("mkdir"@),
        is_ascii_chars("rmdir"@),
        is_ascii_chars("read_dir"@),
        is_ascii_chars("file_size"@),
{
    reveal_strlit("PrimitiveFsOps");
    reveal_strlit("read_all");
    reveal_strlit("read_bytes");
    reveal_strlit("write_all");
    reveal_strlit("write_bytes");
    reveal_strlit("create");
    reveal_strlit("remove");
    reveal_strlit("rename");
    reveal_strlit("mkdir");
    reveal_strlit("rmdir");
    reveal_strlit("read_dir");
    reveal_strlit("file_size");
}

/// No name of a `PrimitiveFsOps` method starts another's.
#[verifier::rlimit(50)]
proof fn lemma_primitive_fs_ops_method_names_distinct()
    ensures
        !chars_start_with("read_all"@, "read_bytes"@),
        !chars_start_with("read_all"@, "write_all"@),
        !chars_start_with("read_all"@, "write_bytes"@),
        !chars_start_with("read_all"@, "create"@),
        !chars_start_with("read_all"@, "remove"@),
        !chars_start_with("read_all"@, "rename"@),
        !chars_start_with("read_all"@, "mkdir"@),
        !chars_start_with("read_all"@, "rmdir"@),
        !chars_start_with("read_all"@, "read_dir"@),
        !chars_start_with("read_all"@, "file_size"@),
        !chars_start_with("read_bytes"@, "read_all"@),
        !chars_start_with("read_bytes"@, "write_all"@),
        !chars_start_with("read_bytes"@, "write_bytes"@),
        !chars_start_with("read_bytes"@, "create"@),
        !chars_start_with("read_bytes"@, "remove"@),
        !chars_start_with("read_bytes"@, "rename"@),
        !chars_start_with("read_bytes"@, "mkdir"@),
        !chars_start_with("read_bytes"@, "rmdir"@),
        !chars_start_with("read_bytes"@, "read_dir"@),
        !chars_start_with("read_bytes"@, "file_size"@),
        !chars_start_with("write_all"@, "read_all"@),
        !chars_start_with("write_all"@, "read_bytes"@),
        !chars_start_with("write_all"@, "write_bytes"@),
        !chars_start_with("write_all"@, "create"@),
        !chars_start_with("write_all"@, "remove"@),
        !chars_start_with("write_all"@, "rename"@),
        !chars_start_with("write_all"@, "mkdir"@),
        !chars_start_with("write_all"@, "rmdir"@),
        !chars_start_with("write_all"@, "read_dir"@),
        !chars_start_with("write_all"@, "file_size"@),
        !chars_start_with("write_bytes"@, "read_all"@),
        !chars_start_with("write_bytes"@, "read_bytes"@),
        !chars_start_with("write_bytes"@, "write_all"@),
        !chars_start_with("write_bytes"@, "create"@),
        !chars_start_with("write_bytes"@, "remove"@),
        !chars_start_with("write_bytes"@, "rename"@),
        !chars_start_with("write_bytes"@, "mkdir"@),
        !chars_start_with("write_bytes"@, "rmdir"@),
        !chars_start_with("write_bytes"@, "read_dir"@),
        !chars_start_with("write_bytes"@, "file_size"@),
        !chars_start_with("create"@, "read_all"@),
        !chars_start_with("create"@, "read_bytes"@),
        !chars_start_with("create"@, "write_all"@),
        !chars_start_with("create"@, "write_bytes"@),
        !chars_start_with("create"@, "remove"@),
        !chars_start_with("create"@, "rename"@),
        !chars_start_with("create"@, "mkdir"@),
        !chars_start_with("create"@, "rmdir"@),
        !chars_start_with("create"@, "read_dir"@),
        !chars_start_with("create"@, "file_size"@),
        !chars_start_with("remove"@, "read_all"@),
        !chars_start_with("remove"@, "read_bytes"@),
        !chars_start_with("remove"@, "write_all"@),
        !chars_start_with("remove"@, "write_bytes"@),
        !chars_start_with("remove"@, "create"@),
        !chars_start_with("remove"@, "rename"@),
        !chars_start_with("remove"@, "mkdir"@),
        !chars_start_with("remove"@, "rmdir"@),
        !chars_start_with("remove"@, "read_dir"@),
        !chars_start_with("remove"@, "file_size"@),
        !chars_start_with("rename"@, "read_all"@),
        !chars_start_with("rename"@, "read_bytes"@),
        !chars_start_with("rename"@, "write_all"@),
        !chars_start_with("rename"@, "write_bytes"@),
        !chars_start_with("rename"@, "create"@),
        !chars_start_with("rename"@, "remove"@),
        !chars_start_with("rename"@, "mkdir"@),
        !chars_start_with("rename"@, "rmdir"@),
        !chars_start_with("rename"@, "read_dir"@),
        !chars_start_with("rename"@, "file_size"@),
        !chars_start_with("mkdir"@, "read_all"@),
        !chars_start_with("mkdir"@, "read_bytes"@),
        !chars_start_with("mkdir"@, "write_all"@),
        !chars_start_with("mkdir"@, "write_bytes"@),
        !chars_start_with("mkdir"@, "create"@),
        !chars_start_with("mkdir"@, "remove"@),
        !chars_start_with("mkdir"@, "rename"@),
        !chars_start_with("mkdir"@, "rmdir"@),
        !chars_start_with("mkdir"@, "read_dir"@),
        !chars_start_with("mkdir"@, "file_size"@),
        !chars_start_with("rmdir"@, "read_all"@),
        !chars_start_with("rmdir"@, "read_bytes"@),
        !chars_start_with("rmdir"@, "write_all"@),
        !chars_start_with("rmdir"@, "write_bytes"@),
        !chars_start_with("rmdir"@, "create"@),
        !chars_start_with("rmdir"@, "remove"@),
        !chars_start_with("rmdir"@, "rename"@),
        !chars_start_with("rmdir"@, "mkdir"@),
        !chars_start_with("rmdir"@, "read_dir"@),
        !chars_start_with("rmdir"@, "file_size"@),
        !chars_start_with("read_dir"@, "read_all"@),
        !chars_start_with("read_dir"@, "read_bytes"@),
        !chars_start_with("read_dir"@, "write_all"@),
        !chars_start_with("read_dir"@, "write_bytes"@),
        !chars_start_with("read_dir"@, "create"@),
        !chars_start_with("read_dir"@, "remove"@),
        !chars_start_with("read_dir"@, "rename"@),
        !chars_start_with("read_dir"@, "mkdir"@),
        !chars_start_with("read_dir"@, "rmdir"@),
        !chars_start_with("read_dir"@, "file_size"@),
        !chars_start_with("file_size"@, "read_all"@),
        !chars_start_with("file_size"@, "read_bytes"@),
        !chars_start_with("file_size"@, "write_all"@),
        !chars_start_with("file_size"@, "write_bytes"@),
        !chars_start_with("file_size"@, "create"@),
        !chars_start_with("file_size"@, "remove"@),
        !chars_start_with("file_size"@, "rename"@),
        !chars_start_with("file_size"@, "mkdir"@),
        !chars_start_with("file_size"@, "rmdir"@),
        !chars_start_with("file_size"@, "read_dir"@),
{
    reveal_strlit("read_all");
    reveal_strlit("read_bytes");
    reveal_strlit("write_all");
    reveal_strlit("write_bytes");
    reveal_strlit("create");
    reveal_strlit("remove");
    reveal_strlit("rename");
    reveal_strlit("mkdir");
    reveal_strlit("rmdir");
    reveal_strlit("read_dir");
    reveal_strlit("file_size");
    assert("read_all"@.subrange(0, 6)[0] != "create"@[0]);
    assert("read_all"@.subrange(0, 6)[2] != "remove"@[2]);
    assert("read_all"@.subrange(0, 6)[2] != "rename"@[2]);
    assert("read_all"@.subrange(0, 5)[0] != "mkdir"@[0]);
    assert("read_all"@.subrange(0, 5)[1] != "rmdir"@[1]);
    assert("read_all"@.subrange(0, 8)[5] != "read_dir"@[5]);
    assert("read_bytes"@.subrange(0, 8)[5] != "read_all"@[5]);
    assert("read_bytes"@.subrange(0, 9)[0] != "write_all"@[0]);
    assert("read_bytes"@.subrange(0, 6)[0] != "create"@[0]);
    assert("read_bytes"@.subrange(0, 6)[2] != "remove"@[2]);
    assert("read_bytes"@.subrange(0, 6)[2] != "rename"@[2]);
    assert("read_bytes"@.subrange(0, 5)[0] != "mkdir"@[0]);
    assert("read_bytes"@.subrange(0, 5)[1] != "rmdir"@[1]);
    assert("read_bytes"@.subrange(0, 8)[5] != "read_dir"@[5]);
    assert("read_bytes"@.subrange(0, 9)[0] != "file_size"@[0]);
    assert("write_all"@.subrange(0, 8)[0] != "read_all"@[0]);
    assert("write_all"@.subrange(0, 6)[0] != "create"@[0]);
    assert("write_all"@.subrange(0, 6)[0] != "remove"@[0]);
    assert("write_all"@.subrange(0, 6)[0] != "rename"@[0]);
    assert("write_all"@.subrange(0, 5)[0] != "mkdir"@[0]);
    assert("write_all"@.subrange(0, 5)[0] != "rmdir"@[0]);
    assert("write_all"@.subrange(0, 8)[0] != "read_dir"@[0]);
    assert("write_all"@.subrange(0, 9)[0] != "file_size"@[0]);
    assert("write_bytes"@.subrange(0, 8)[0] != "read_all"@[0]);
    assert("write_bytes"@.subrange(0, 10)[0] != "read_bytes"@[0]);
    assert("write_bytes"@.subrange(0, 9)[6] != "write_all"@[6]);
    assert("write_bytes"@.subrange(0, 6)[0] != "create"@[0]);
    assert("write_bytes"@.subrange(0, 6)[0] != "remove"@[0]);
    assert("write_bytes"@.subrange(0, 6)[0] != "rename"@[0]);
    assert("write_bytes"@.subrange(0, 5)[0] != "mkdir"@[0]);
    assert("write_bytes"@.subrange(0, 5)[0] != "rmdir"@[0]);
    assert("write_bytes"@.subrange(0, 8)[0] != "read_dir"@[0]);
    assert("write_bytes"@.subrange(0, 9)[0] != "file_size"@[0]);
    assert("create"@.subrange(0, 6)[0] != "remove"@[0]);
    assert("create"@.subrange(0, 6)[0] != "rename"@[0]);
    assert("create"@.subrange(0, 5)[0] != "mkdir"@[0]);
    assert("create"@.subrange(0, 5)[0] != "rmdir"@[0]);
    assert("remove"@.subrange(0, 6)[0] != "create"@[0]);
    assert("remove"@.subrange(0, 6)[2] != "rename"@[2]);
    assert("remove"@.subrange(0, 5)[0] != "mkdir"@[0]);
    assert("remove"@.subrange(0, 5)[1] != "rmdir"@[1]);
    assert("rename"@.subrange(0, 6)[0] != "create"@[0]);
    assert("rename"@.subrange(0, 6)[2] != "remove"@[2]);
    assert("rename"@.subrange(0, 5)[0] != "mkdir"@[0]);
    assert("rename"@.subrange(0, 5)[1] != "rmdir"@[1]);
    assert("mkdir"@.subrange(0, 5)[0] != "rmdir"@[0]);
    assert("rmdir"@.subrange(0, 5)[0] != "mkdir"@[0]);
    assert("read_dir"@.subrange(0, 8)[5] != "read_all"@[5]);
    assert("read_dir"@.subrange(0, 6)[0] != "create"@[0]);
    assert("read_dir"@.subrange(0, 6)[2] != "remove"@[2]);
    assert("read_dir"@.subrange(0, 6)[2] != "rename"@[2]);
    assert("read_dir"@.subrange(0, 5)[0] != "mkdir"@[0]);
    assert("read_dir"@.subrange(0, 5)[1] != "rmdir"@[1]);
    assert("file_size"@.subrange(0, 8)[0] != "read_all"@[0]);
    assert("file_size"@.subrange(0, 9)[0] != "write_all"@[0]);
    assert("file_size"@.subrange(0, 6)[0] != "create"@[0]);
    assert("file_size"@.subrange(0, 6)[0] != "remove"@[0]);
    assert("file_size"@.subrange(0, 6)[0] != "rename"@[0]);
    assert("file_size"@.subrange(0, 5)[0] != "mkdir"@[0]);
    assert("file_size"@.subrange(0, 5)[0] != "rmdir"@[0]);
    assert("file_size"@.subrange(0, 8)[0] != "read_dir"@[0]);
}

/// The signatures of `PrimitiveFsOps`'s methods.
pub open spec fn primitive_fs_ops_signatures() -> Seq<Seq<u8>> {
    seq![
        PrimitiveFsOpsReadAll::signature_spec(),
        PrimitiveFsOpsReadBytes::signature_spec(),
        PrimitiveFsOpsWriteAll::signature_spec(),
        PrimitiveFsOpsWriteBytes::signature_spec(),
        PrimitiveFsOpsCreate::signature_spec(),
        PrimitiveFsOpsRemove::signature_spec(),
        PrimitiveFsOpsRename::signature_spec(),
        PrimitiveFsOpsMkdir::signature_spec(),
        PrimitiveFsOpsRmdir::signature_spec(),
        PrimitiveFsOpsReadDir::signature_spec(),
        PrimitiveFsOpsFileSize::signature_spec(),
    ]
}

/// No signature of a `PrimitiveFsOps` method starts another's, so a payload
/// framed under one of them is routed to that method whatever its body.
pub proof fn lemma_primitive_fs_ops_signatures_prefix_free()
    ensures
        forall|a: int, b: int|
            0 <= a < primitive_fs_ops_signatures().len() && 0 <= b < primitive_fs_ops_signatures().len() && a != b ==> !has_prefix(
                #[trigger] primitive_fs_ops_signatures()[a],
                #[trigger] primitive_fs_ops_signatures()[b],
            ),
{
    lemma_primitive_fs_ops_names_ascii();
    lemma_primitive_fs_ops_method_names_distinct();
    lemma_signatures_name_their_methods();
    lemma_qualified_signatures_prefix_free("PrimitiveFsOps"@, "read_all"@, "read_bytes"@);
    lemma_qualified_signatures_prefix_free("PrimitiveFsOps"@, "read_all"@, "write_all"@);
    lemma_qualified_signatures_prefix_free("PrimitiveFsOps"@, "read_all"@, "write_bytes"@);
    lemma_qualified_signatures_prefix_free("PrimitiveFsOps"@, "read_all"@, "create"@);
    lemma_qualified_signatures_prefix_free("PrimitiveFsOps"@, "read_all"@, "remove"@);
    lemma_qualified_signatures_prefix_free("PrimitiveFsOps"@, "read_all"@, "rename"@);
    lemma_qualified_signatures_prefix_free("PrimitiveFsOps"@, "read_all"@, "mkdir"@);
    lemma_qualified_signatures_prefix_free("PrimitiveFsOps"@, "read_all"@, "rmdir"@);
    lemma_qualified_signatures_prefix_free("PrimitiveFsOps"@, "read_all"@, "read_dir"@);
    lemma_qualified_signatures_prefix_free("PrimitiveFsOps"@, "read_all"@, "file_size"@);
    lemma_qualified_signatures_prefix_free("PrimitiveFsOps"@, "read_bytes"@, "read_all"@);
    lemma_qualified_signatures_prefix_free("PrimitiveFsOps"@, "read_bytes"@, "write_all"@);
    lemma_qualified_signatures_prefix_free("PrimitiveFsOps"@, "read_bytes"@, "write_bytes"@);
    lemma_qualified_signatures_prefix_free("PrimitiveFsOps"@, "read_bytes"@, "create"@);
    lemma_qualified_signatures_prefix_free("PrimitiveFsOps"@, "read_bytes"@, "remove"@);
    lemma_qualified_signatures_prefix_free("PrimitiveFsOps"@, "read_bytes"@, "rename"@);
    lemma_qualified_signatures_prefix_free("PrimitiveFsOps"@, "read_bytes"@, "mkdir"@);
    lemma_qualified_signatures_prefix_free("PrimitiveFsOps"@, "read_bytes"@, "rmdir"@);
    lemma_qualified_signatures_prefix_free("PrimitiveFsOps"@, "read_bytes"@, "read_dir"@);
    lemma_qualified_signatures_prefix_free("PrimitiveFsOps"@, "read_bytes"@, "file_size"@);
    lemma_qualified_signatures_prefix_free("PrimitiveFsOps"@, "write_all"@, "read_all"@);
    lemma_qualified_signatures_prefix_free("PrimitiveFsOps"@, "write_all"@, "read_bytes"@);
    lemma_qualified_signatures_prefix_free("PrimitiveFsOps"@, "write_all"@, "write_bytes"@);
    lemma_qualified_signatures_prefix_free("PrimitiveFsOps"@, "write_all"@, "create"@);
    lemma_qualified_signatures_prefix_free("PrimitiveFsOps"@, "write_all"@, "remove"@);
    lemma_qualified_signatures_prefix_free("PrimitiveFsOps"@, "write_all"@, "rename"@);
    lemma_qualified_signatures_prefix_free("PrimitiveFsOps"@, "write_all"@, "mkdir"@);
    lemma_qualified_signatures_prefix_free("PrimitiveFsOps"@, "write_all"@, "rmdir"@);
    lemma_qualified_signatures_prefix_free("PrimitiveFsOps"@, "write_all"@, "read_dir"@);
    lemma_qualified_signatures_prefix_free("PrimitiveFsOps"@, "write_all"@, "file_size"@);
    lemma_qualified_signatures_prefix_free("PrimitiveFsOps"@, "write_bytes"@, "read_all"@);
    lemma_qualified_signatures_prefix_free("PrimitiveFsOps"@, "write_bytes"@, "read_bytes"@);
    lemma_qualified_signatures_prefix_free("PrimitiveFsOps"@, "write_bytes"@, "write_all"@);
    lemma_qualified_signatures_prefix_free("PrimitiveFsOps"@, "write_bytes"@, "create"@);
    lemma_qualified_signatures_prefix_free("PrimitiveFsOps"@, "write_bytes"@, "remove"@);
    lemma_qualified_signatures_prefix_free("PrimitiveFsOps"@, "write_bytes"@, "rename"@);
    lemma_qualified_signatures_prefix_free("PrimitiveFsOps"@, "write_bytes"@, "mkdir"@);
    lemma_qualified_signatures_prefix_free("PrimitiveFsOps"@, "write_bytes"@, "rmdir"@);
    lemma_qualified_signatures_prefix_free("PrimitiveFsOps"@, "write_bytes"@, "read_dir"@);
    lemma_qualified_signatures_prefix_free("PrimitiveFsOps"@, "write_bytes"@, "file_size"@);
    lemma_qualified_signatures_prefix_free("PrimitiveFsOps"@, "create"@, "read_all"@);
    lemma_qualified_signatures_prefix_free("PrimitiveFsOps"@, "create"@, "read_bytes"@);
    lemma_qualified_signatures_prefix_free("PrimitiveFsOps"@, "create"@, "write_all"@);
    lemma_qualified_signatures_prefix_free("PrimitiveFsOps"@, "create"@, "write_bytes"@);
    lemma_qualified_signatures_prefix_free("PrimitiveFsOps"@, "create"@, "remove"@);
    lemma_qualified_signatures_prefix_free("PrimitiveFsOps"@, "create"@, "rename"@);
    lemma_qualified_signatures_prefix_free("PrimitiveFsOps"@, "create"@, "mkdir"@);
    lemma_qualified_signatures_prefix_free("PrimitiveFsOps"@, "create"@, "rmdir"@);
    lemma_qualified_signatures_prefix_free("PrimitiveFsOps"@, "create"@, "read_dir"@);
    lemma_qualified_signatures_prefix_free("PrimitiveFsOps"@, "create"@, "file_size"@);
    lemma_qualified_signatures_prefix_free("PrimitiveFsOps"@, "remove"@, "read_all"@);
    lemma_qualified_signatures_prefix_free("PrimitiveFsOps"@, "remove"@, "read_bytes"@);
    lemma_qualified_signatures_prefix_free("PrimitiveFsOps"@, "remove"@, "write_all"@);
    lemma_qualified_signatures_prefix_free("PrimitiveFsOps"@, "remove"@, "write_bytes"@);
    lemma_qualified_signatures_prefix_free("PrimitiveFsOps"@, "remove"@, "create"@);
    lemma_qualified_signatures_prefix_free("PrimitiveFsOps"@, "remove"@, "rename"@);
    lemma_qualified_signatures_prefix_free("PrimitiveFsOps"@, "remove"@, "mkdir"@);
    lemma_qualified_signatures_prefix_free("PrimitiveFsOps"@, "remove"@, "rmdir"@);
    lemma_qualified_signatures_prefix_free("PrimitiveFsOps"@, "remove"@, "read_dir"@);
    lemma_qualified_signatures_prefix_free("PrimitiveFsOps"@, "remove"@, "file_size"@);
    lemma_qualified_signatures_prefix_free("PrimitiveFsOps"@, "rename"@, "read_all"@);
    lemma_qualified_signatures_prefix_free("PrimitiveFsOps"@, "rename"@, "read_bytes"@);
    lemma_qualified_signatures_prefix_free("PrimitiveFsOps"@, "rename"@, "write_all"@);
    lemma_qualified_signatures_prefix_free("PrimitiveFsOps"@, "rename"@, "write_bytes"@);
    lemma_qualified_signatures_prefix_free("PrimitiveFsOps"@, "rename"@, "create"@);
    lemma_qualified_signatures_prefix_free("PrimitiveFsOps"@, "rename"@, "remove"@);
    lemma_qualified_signatures_prefix_free("PrimitiveFsOps"@, "rename"@, "mkdir"@);
    lemma_qualified_signatures_prefix_free("PrimitiveFsOps"@, "rename"@, "rmdir"@);
    lemma_qualified_signatures_prefix_free("PrimitiveFsOps"@, "rename"@, "read_dir"@);
    lemma_qualified_signatures_prefix_free("PrimitiveFsOps"@, "rename"@, "file_size"@);
    lemma_qualified_signatures_prefix_free("PrimitiveFsOps"@, "mkdir"@, "read_all"@);
    lemma_qualified_signatures_prefix_free("PrimitiveFsOps"@, "mkdir"@, "read_bytes"@);
    lemma_qualified_signatures_prefix_free("PrimitiveFsOps"@, "mkdir"@, "write_all"@);
    lemma_qualified_signatures_prefix_free("PrimitiveFsOps"@, "mkdir"@, "write_bytes"@);
    lemma_qualified_signatures_prefix_free("PrimitiveFsOps"@, "mkdir"@, "create"@);
    lemma_qualified_signatures_prefix_free("PrimitiveFsOps"@, "mkdir"@, "remove"@);
    lemma_qualified_signatures_prefix_free("PrimitiveFsOps"@, "mkdir"@, "rename"@);
    lemma_qualified_signatures_prefix_free("PrimitiveFsOps"@, "mkdir"@, "rmdir"@);
    lemma_qualified_signatures_prefix_free("PrimitiveFsOps"@, "mkdir"@, "read_dir"@);
    lemma_qualified_signatures_prefix_free("PrimitiveFsOps"@, "mkdir"@, "file_size"@);
    lemma_qualified_signatures_prefix_free("PrimitiveFsOps"@, "rmdir"@, "read_all"@);
    lemma_qualified_signatures_prefix_free("PrimitiveFsOps"@, "rmdir"@, "read_bytes"@);
    lemma_qualified_signatures_prefix_free("PrimitiveFsOps"@, "rmdir"@, "write_all"@);
    lemma_qualified_signatures_prefix_free("PrimitiveFsOps"@, "rmdir"@, "write_bytes"@);
    lemma_qualified_signatures_prefix_free("PrimitiveFsOps"@, "rmdir"@, "create"@);
    lemma_qualified_signatures_prefix_free("PrimitiveFsOps"@, "rmdir"@, "remove"@);
    lemma_qualified_signatures_prefix_free("PrimitiveFsOps"@, "rmdir"@, "rename"@);
    lemma_qualified_signatures_prefix_free("PrimitiveFsOps"@, "rmdir"@, "mkdir"@);
    lemma_qualified_signatures_prefix_free("PrimitiveFsOps"@, "rmdir"@, "read_dir"@);
    lemma_qualified_signatures_prefix_free("PrimitiveFsOps"@, "rmdir"@, "file_size"@);
    lemma_qualified_signatures_prefix_free("PrimitiveFsOps"@, "read_dir"@, "read_all"@);
    lemma_qualified_signatures_prefix_free("PrimitiveFsOps"@, "read_dir"@, "read_bytes"@);
    lemma_qualified_signatures_prefix_free("PrimitiveFsOps"@, "read_dir"@, "write_all"@);
    lemma_qualified_signatures_prefix_free("PrimitiveFsOps"@, "read_dir"@, "write_bytes"@);
    lemma_qualified_signatures_prefix_free("PrimitiveFsOps"@, "read_dir"@, "create"@);
    lemma_qualified_signatures_prefix_free("PrimitiveFsOps"@, "read_dir"@, "remove"@);
    lemma_qualified_signatures_prefix_free("PrimitiveFsOps"@, "read_dir"@, "rename"@);
    lemma_qualified_signatures_prefix_free("PrimitiveFsOps"@, "read_dir"@, "mkdir"@);
    lemma_qualified_signatures_prefix_free("PrimitiveFsOps"@, "read_dir"@, "rmdir"@);
    lemma_qualified_signatures_prefix_free("PrimitiveFsOps"@, "read_dir"@, "file_size"@);
    lemma_qualified_signatures_prefix_free("PrimitiveFsOps"@, "file_size"@, "read_all"@);
    lemma_qualified_signatures_prefix_free("PrimitiveFsOps"@, "file_size"@, "read_bytes"@);
    lemma_qualified_signatures_prefix_free("PrimitiveFsOps"@, "file_size"@, "write_all"@);
    lemma_qualified_signatures_prefix_free("PrimitiveFsOps"@, "file_size"@, "write_bytes"@);
    lemma_qualified_signatures_prefix_free("PrimitiveFsOps"@, "file_size"@, "create"@);
    lemma_qualified_signatures_prefix_free("PrimitiveFsOps"@, "file_size"@, "remove"@);
    lemma_qualified_signatures_prefix_free("PrimitiveFsOps"@, "file_size"@, "rename"@);
    lemma_qualified_signatures_prefix_free("PrimitiveFsOps"@, "file_size"@, "mkdir"@);
    lemma_qualified_signatures_prefix_free("PrimitiveFsOps"@, "file_size"@, "rmdir"@);
    lemma_qualified_signatures_prefix_free("PrimitiveFsOps"@, "file_size"@, "read_dir"@);
    assert(primitive_fs_ops_signatures().len() == 11);
}

/// The name of `SimpleOps` and its methods' names are ASCII.
#[verifier::rlimit(50)]
proof fn lemma_simple_ops_names_ascii()
    ensures
        is_ascii_chars("SimpleOps"@),
        is_ascii_chars("say_hello"@),
        is_ascii_chars("compute_fib"@),
{
    reveal_strlit("SimpleOps");
    reveal_strlit("say_hello");
    reveal_strlit("compute_fib");
}

/// No name of a `SimpleOps` method starts another's.
#[verifier::rlimit(50)]
proof fn lemma_simple_ops_method_names_distinct()
    ensures
        !chars_start_with("say_hello"@, "compute_fib"@),
        !chars_start_with("compute_fib"@, "say_hello"@),
{
    reveal_strlit("say_hello");
    reveal_strlit("compute_fib");
    assert("compute_fib"@.subrange(0, 9)[0] != "say_hello"@[0]);
}

/// The signatures of `SimpleOps`'s methods.
pub open spec fn simple_ops_signatures() -> Seq<Seq<u8>> {
    seq![
        SimpleOpsSayHello::signature_spec(),
        SimpleOpsComputeFib::signature_spec(),
    ]
}

/// No signature of a `SimpleOps` method starts another's, so a payload
/// framed under one of them is routed to that method whatever its body.
pub proof fn lemma_simple_ops_signatures_prefix_free()
    ensures
        forall|a: int, b: int|
            0 <= a < simple_ops_signatures().len() && 0 <= b < simple_ops_signatures().len() && a != b ==> !has_prefix(
                #[trigger] simple_ops_signatures()[a],
                #[trigger] simple_ops_signatures()[b],
            ),
{
    lemma_simple_ops_names_ascii();
    lemma_simple_ops_method_names_distinct();
    lemma_signatures_name_their_methods();
    lemma_qualified_signatures_prefix_free("SimpleOps"@, "say_hello"@, "compute_fib"@);
    lemma_qualified_signatures_prefix_free("SimpleOps"@, "compute_fib"@, "say_hello"@);
    assert(simple_ops_signatures().len() == 2);
}

/// The name of `TestOps` and its methods' names are ASCII.
#[verifier::rlimit(50)]
proof fn lemma_test_ops_names_ascii()
    ensures
        is_ascii_chars("TestOps"@),
        is_ascii_chars("get_remote_protocol"@),
        is_ascii_chars("test_idempotent"@),
        is_ascii_chars("test_non_idempotent"@),
        is_ascii_chars("reset_non_idempotent"@),
{
    reveal_strlit("TestOps");
    reveal_strlit("get_remote_protocol");
    reveal_strlit("test_idempotent");
    reveal_strlit("test_non_idempotent");
    reveal_strlit("reset_non_idempotent");
}

/// No name of a `TestOps` method starts another's.
#[verifier::rlimit(50)]
proof fn lemma_test_ops_method_names_distinct()
    ensures
        !chars_start_with("get_remote_protocol"@, "test_idempotent"@),
        !chars_start_with("get_remote_protocol"@, "test_non_idempotent"@),
        !chars_start_with("get_remote_protocol"@, "reset_non_idempotent"@),
        !chars_start_with("test_idempotent"@, "get_remote_protocol"@),
        !chars_start_with("test_idempotent"@, "test_non_idempotent"@),
        !chars_start_with("test_idempotent"@, "reset_non_idempotent"@),
        !chars_start_with("test_non_idempotent"@, "get_remote_protocol"@),
        !chars_start_with("test_non_idempotent"@, "test_idempotent"@),
        !chars_start_with("test_non_idempotent"@, "reset_non_idempotent"@),
        !chars_start_with("reset_non_idempotent"@, "get_remote_protocol"@),
        !chars_start_with("reset_non_idempotent"@, "test_idempotent"@),
        !chars_start_with("reset_non_idempotent"@, "test_non_idempotent"@),
{
    reveal_strlit("get_remote_protocol");
    reveal_strlit("test_idempotent");
    reveal_strlit("test_non_idempotent");
    reveal_strlit("reset_non_idempotent");
    assert("get_remote_protocol"@.subrange(0, 15)[0] != "test_idempotent"@[0]);
    assert("get_remote_protocol"@.subrange(0, 19)[0] != "test_non_idempotent"@[0]);
    assert("test_non_idempotent"@.subrange(0, 19)[0] != "get_remote_protocol"@[0]);
    assert("test_non_idempotent"@.subrange(0, 15)[5] != "test_idempotent"@[5]);
    assert("reset_non_idempotent"@.subrange(0, 19)[0] != "get_remote_protocol"@[0]);
    assert("reset_non_idempotent"@.subrange(0, 15)[0] != "test_idempotent"@[0]);
    assert("reset_non_idempotent"@.subrange(0, 19)[0] != "test_non_idempotent"@[0]);
}

/// The signatures of `TestOps`'s methods.
pub open spec fn test_ops_signatures() -> Seq<Seq<u8>> {
    seq![
        TestOpsGetRemoteProtocol::signature_spec(),
        TestOpsTestIdempotent::signature_spec(),
        TestOpsTestNonIdempotent::signature_spec(),
        TestOpsResetNonIdempotent::signature_spec(),
    ]
}

/// No signature of a `TestOps` method starts another's, so a payload
/// framed under one of them is routed to that method whatever its body.
pub proof fn lemma_test_ops_signatures_prefix_free()
    ensures
        forall|a: int, b: int|
            0 <= a < test_ops_signatures().len() && 0 <= b < test_ops_signatures().len() && a != b ==> !has_prefix(
                #[trigger] test_ops_signatures()[a],
                #[trigger] test_ops_signatures()[b],
            ),
{
    lemma_test_ops_names_ascii();
    lemma_test_ops_method_names_distinct();
    lemma_signatures_name_their_methods();
    lemma_qualified_signatures_prefix_free("TestOps"@, "get_remote_protocol"@, "test_idempotent"@);
    lemma_qualified_signatures_prefix_free("TestOps"@, "get_remote_protocol"@, "test_non_idempotent"@);
    lemma_qualified_signatures_prefix_free("TestOps"@, "get_remote_protocol"@, "reset_non_idempotent"@);
    lemma_qualified_signatures_prefix_free("TestOps"@, "test_idempotent"@, "get_remote_protocol"@);
    lemma_qualified_signatures_prefix_free("TestOps"@, "test_idempotent"@, "test_non_idempotent"@);
    lemma_qualified_signatures_prefix_free("TestOps"@, "test_idempotent"@, "reset_non_idempotent"@);
    lemma_qualified_signatures_prefix_free("TestOps"@, "test_non_idempotent"@, "get_remote_protocol"@);
    lemma_qualified_signatures_prefix_free("TestOps"@, "test_non_idempotent"@, "test_idempotent"@);
    lemma_qualified_signatures_prefix_free("TestOps"@, "test_non_idempotent"@, "reset_non_idempotent"@);
    lemma_qualified_signatures_prefix_free("TestOps"@, "reset_non_idempotent"@, "get_remote_protocol"@);
    lemma_qualified_signatures_prefix_free("TestOps"@, "reset_non_idempotent"@, "test_idempotent"@);
    lemma_qualified_signatures_prefix_free("TestOps"@, "reset_non_idempotent"@, "test_non_idempotent"@);
    assert(test_ops_signatures().len() == 4);
}

/// The name of `StreamingOps` and its methods' names are ASCII.
#[verifier::rlimit(50)]
proof fn lemma_streaming_ops_names_ascii()
    ensures
        is_ascii_chars("StreamingOps"@),
        is_ascii_chars("open_blob_file_tx"@),
        is_ascii_chars("open_blob_file_rx"@),
{
    reveal_strlit("StreamingOps");
    reveal_strlit("open_blob_file_tx");
    reveal_strlit("open_blob_file_rx");
}

/// No name of a `StreamingOps` method starts another's.
#[verifier::rlimit(50)]
proof fn lemma_streaming_ops_method_names_distinct()
    ensures
        !chars_start_with("open_blob_file_tx"@, "open_blob_file_rx"@),
        !chars_start_with("open_blob_file_rx"@, "open_blob_file_tx"@),
{
    reveal_strlit("open_blob_file_tx");
    reveal_strlit("open_blob_file_rx");
    assert("open_blob_file_tx"@.subrange(0, 17)[15] != "open_blob_file_rx"@[15]);
    assert("open_blob_file_rx"@.subrange(0, 17)[15] != "open_blob_file_tx"@[15]);
}

/// The signatures of `StreamingOps`'s methods.
pub open spec fn streaming_ops_signatures() -> Seq<Seq<u8>> {
    seq![
        StreamingOpsOpenBlobFileTx::signature_spec(),
        StreamingOpsOpenBlobFileRx::signature_spec(),
    ]
}

/// No signature of a `StreamingOps` method starts another's, so a payload
/// framed under one of them is routed to that method whatever its body.
pub proof fn lemma_streaming_ops_signatures_prefix_free()
    ensures
        forall|a: int, b: int|
            0 <= a < streaming_ops_signatures().len() && 0 <= b < streaming_ops_signatures().len() && a != b ==> !has_prefix(
                #[trigger] streaming_ops_signatures()[a],
                #[trigger] streaming_ops_signatures()[b],
            ),
{
    lemma_streaming_ops_names_ascii();
    lemma_streaming_ops_method_names_distinct();
    lemma_signatures_name_their_methods();
    lemma_qualified_signatures_prefix_free("StreamingOps"@, "open_blob_file_tx"@, "open_blob_file_rx"@);
    lemma_qualified_signatures_prefix_free("StreamingOps"@, "open_blob_file_rx"@, "open_blob_file_tx"@);
    assert(streaming_ops_signatures().len() == 2);
}


/// An invocation of a `PrimitiveFsOps` method, framed under its signature,
/// is routed among that interface's signatures to the same method,
/// whatever its body: a `write_bytes` call reaches `write_bytes`.
pub proof fn lemma_primitive_fs_ops_routing(i: int, body: Seq<u8>)
    requires
        0 <= i < primitive_fs_ops_signatures().len(),
    ensures
        first_matching(primitive_fs_ops_signatures(), primitive_fs_ops_signatures()[i] + body) == Some(i),
{
    lemma_primitive_fs_ops_signatures_prefix_free();
    lemma_prefix_free_routing(primitive_fs_ops_signatures(), i, body);
}

} // verus!
