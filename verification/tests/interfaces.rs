use rfs::fs::{VirtDirEntry, VirtIOErr, VirtPermissions, VirtReadDir};
use rfs::interfaces::{
    CallbackOpsRegisterFileUpdate, FileUpdate, FileWriteMode, PrimitiveFsOpsCreate, PrimitiveFsOpsMkdir,
    PrimitiveFsOpsReadAll, PrimitiveFsOpsReadBytes, PrimitiveFsOpsReadDir, PrimitiveFsOpsRemove,
    PrimitiveFsOpsRename, PrimitiveFsOpsRmdir, PrimitiveFsOpsWriteAll, SimpleOpsComputeFib, SimpleOpsSayHello,
    StreamingOpsOpenBlobFileRx, StreamingOpsOpenBlobFileTx, TestOpsResetNonIdempotent,
};
use rfs::interfaces::ImmutableFileOpsReadFile;
use rfs::middleware::IoErrorKind;
use rfs::ser_de::ser::RfsSerializer;
use rfs::remote::{RemoteMethodSignature, RemoteRequest, RemotelyInvocable};

/// Check for signature collisions between every method of an interface:
/// after sorting, no signature may be a prefix of the one that follows it.
fn check_signature_collision(mut vec: Vec<&'static [u8]>) {
    vec.sort();

    for i in 0..vec.len() - 1 {
        if vec[i].starts_with(&vec[i + 1]) {
            panic!(
                "signature prefix collision: {} and {}",
                std::str::from_utf8(vec[i]).unwrap(),
                std::str::from_utf8(vec[i + 1]).unwrap()
            );
        }
    }
}

/// Signature test for [PrimitiveFsOps]
#[test]
fn test_method_signature_collision_primitive_fs_ops() {
    check_signature_collision(vec![
        PrimitiveFsOpsReadAll::remote_method_signature(),
        PrimitiveFsOpsWriteAll::remote_method_signature(),
        PrimitiveFsOpsCreate::remote_method_signature(),
        PrimitiveFsOpsReadBytes::remote_method_signature(),
        PrimitiveFsOpsRemove::remote_method_signature(),
        PrimitiveFsOpsRename::remote_method_signature(),
        PrimitiveFsOpsMkdir::remote_method_signature(),
        PrimitiveFsOpsRmdir::remote_method_signature(),
        PrimitiveFsOpsReadDir::remote_method_signature(),
    ]);
}

/// Signature test for [SimpleOps]
#[test]
fn test_method_signature_collision_simple_ops() {
    check_signature_collision(vec![
        SimpleOpsSayHello::remote_method_signature(),
        SimpleOpsComputeFib::remote_method_signature(),
    ]);
}

#[test]
fn test_method_signature_collision_callback_ops() {
    check_signature_collision(vec![CallbackOpsRegisterFileUpdate::remote_method_signature()]);
}

#[test]
fn test_method_signature_collision_streaming_ops() {
    check_signature_collision(vec![
        StreamingOpsOpenBlobFileRx::remote_method_signature(),
        StreamingOpsOpenBlobFileTx::remote_method_signature(),
    ]);
}

#[test]
fn signatures_name_trait_and_method() {
    assert_eq!(SimpleOpsComputeFib::remote_method_signature(), b"SimpleOps::compute_fib");
    assert_eq!(PrimitiveFsOpsReadDir::remote_method_signature(), b"PrimitiveFsOps::read_dir");
    assert_eq!(TestOpsResetNonIdempotent::remote_method_signature(), b"TestOps::reset_non_idempotent");
}

#[test]
fn invocation_bytes_carry_signature() {
    let framed = SimpleOpsSayHello::invoke_bytes(&[5, 6]);
    assert_eq!(framed, b"SimpleOps::say_hello\x05\x06".to_vec());
    assert_eq!(SimpleOpsSayHello::process_invocation(&framed).unwrap(), &[5u8, 6][..]);
    assert!(SimpleOpsComputeFib::process_invocation(&framed).is_err());
}

#[test]
fn request_and_response_variants() {
    let req = SimpleOpsComputeFib::Request { fib_num: 10 };
    assert!(req.is_request());
    assert!(!req.is_response());
    let resp = SimpleOpsComputeFib::Response(55);
    assert!(resp.is_response());
}

#[test]
fn file_updates() {
    let prev = b"hello world".to_vec();
    assert_eq!(FileUpdate::Append(b"!".to_vec()).update_file(&prev), b"hello world!".to_vec());
    assert_eq!(FileUpdate::Insert((5, b",".to_vec())).update_file(&prev), b"hello, world".to_vec());
    // an offset beyond the end appends
    assert_eq!(FileUpdate::Insert((100, b"?".to_vec())).update_file(&prev), b"hello world?".to_vec());
    assert_eq!(FileUpdate::Insert((0, b">".to_vec())).update_file(&[]), b">".to_vec());
    assert_eq!(FileUpdate::Overwrite(b"bye".to_vec()).update_file(&prev), b"bye".to_vec());
    assert_eq!(FileUpdate::Insert((3, vec![1, 2])).len(), 2);
}

#[test]
fn updates_from_write_modes() {
    let prev = b"abc".to_vec();
    let u = FileUpdate::from_write_mode(FileWriteMode::Insert(1), b"X");
    assert_eq!(u.update_file(&prev), b"aXbc".to_vec());
    let u = FileUpdate::from_write_mode(FileWriteMode::Truncate, b"X");
    assert_eq!(u.update_file(&prev), b"X".to_vec());
    let u = FileUpdate::from_write_mode(FileWriteMode::Append, b"X");
    assert_eq!(u.update_file(&prev), b"abcX".to_vec());
}

#[test]
fn virt_io_errors() {
    let e = VirtIOErr::from_io_kind(IoErrorKind::Other, "disk on fire".to_string());
    assert!(matches!(&e, VirtIOErr::Other(m) if m == "disk on fire"));
    assert_eq!(e.io_kind(), IoErrorKind::Other);
    assert_eq!(e.message(), "disk on fire");
    assert_eq!(e.describe(), "other error: disk on fire");

    let e = VirtIOErr::from_io_kind(IoErrorKind::NotFound, String::new());
    assert!(matches!(e, VirtIOErr::NotFound));
    assert_eq!(e.describe(), "the requested item was not found");
    assert_eq!(e.message(), "");
    assert_eq!(VirtIOErr::TimedOut.io_kind(), IoErrorKind::TimedOut);
}

#[test]
fn dir_entries_and_permissions() {
    let entries = vec![VirtDirEntry::new("a.txt".to_string(), true), VirtDirEntry::new("sub".to_string(), false)];
    let listing = VirtReadDir::from_entries(entries);
    assert_eq!(listing.len(), 2);
    assert_eq!(listing.get(0).unwrap().path(), "a.txt");
    assert!(listing.get(0).unwrap().is_file());
    assert!(!listing.get(1).unwrap().is_file());
    assert!(listing.get(2).is_none());
    let copy = listing.duplicate();
    assert_eq!(copy.len(), 2);

    let p = VirtPermissions::from_readonly(true);
    assert_eq!(p.read(), (true, true, true));
    assert_eq!(p.write(), (false, false, false));
    let meta = listing.get(1).unwrap().metadata();
    assert_eq!(meta.accessed(), None);
    assert_eq!(meta.permissions().read(), (false, false, false));
}

#[test]
fn cloned_updates_act_alike() {
    let prev = b"abcdef".to_vec();
    for u in [
        FileUpdate::Append(b"xy".to_vec()),
        FileUpdate::Insert((2, b"--".to_vec())),
        FileUpdate::Overwrite(b"new".to_vec()),
    ] {
        let c = u.clone();
        assert_eq!(c.len(), u.len());
        assert_eq!(c.update_file(&prev), u.update_file(&prev));
    }
}

#[test]
fn framed_invocations_route_to_their_method() {
    let sigs: Vec<&[u8]> = vec![
        SimpleOpsSayHello::remote_method_signature(),
        SimpleOpsComputeFib::remote_method_signature(),
        PrimitiveFsOpsReadAll::remote_method_signature(),
        PrimitiveFsOpsReadBytes::remote_method_signature(),
        PrimitiveFsOpsWriteAll::remote_method_signature(),
        PrimitiveFsOpsCreate::remote_method_signature(),
        PrimitiveFsOpsRemove::remote_method_signature(),
        PrimitiveFsOpsRename::remote_method_signature(),
        PrimitiveFsOpsMkdir::remote_method_signature(),
        PrimitiveFsOpsRmdir::remote_method_signature(),
        PrimitiveFsOpsReadDir::remote_method_signature(),
        CallbackOpsRegisterFileUpdate::remote_method_signature(),
    ];
    for (i, sig) in sigs.iter().enumerate() {
        let framed = rfs::remote::frame_invocation(sig, b"::body");
        assert_eq!(rfs::remote::route_payload(&sigs, &framed), Ok(i));
    }
    // a signature that is a prefix of another catches its invocations
    let colliding: Vec<&[u8]> = vec![b"Iface::method", b"Iface::method_b"];
    let framed = rfs::remote::frame_invocation(b"Iface::method_b", b"");
    assert_eq!(rfs::remote::route_payload(&colliding, &framed), Ok(0));
}

/// The ser/de of the payload of a remote invocation: the request is encoded
/// as its variant and fields, framed under the method's signature and taken
/// back out.
#[test]
fn remote_methods_test_remote_serde() {
    let message = ImmutableFileOpsReadFile::Request { path: Default::default(), offset: None };
    let mut ser = RfsSerializer::new();
    match &message {
        ImmutableFileOpsReadFile::Request { path, offset } => {
            ser.serialize_struct_variant("Request");
            ser.begin_field("path");
            ser.serialize_str(path);
            ser.end_entry();
            ser.begin_field("offset");
            assert!(offset.is_none());
            ser.serialize_none();
            ser.end_entry();
            ser.end_map();
        }
        ImmutableFileOpsReadFile::Response(_) => unreachable!(),
    }
    let body = ser.into_output();

    let framed = ImmutableFileOpsReadFile::invoke_bytes(&body);
    println!("{:?}", framed);
    assert!(framed.starts_with(b"ImmutableFileOps::read_file"));

    let des = ImmutableFileOpsReadFile::process_invocation(&framed).unwrap();
    println!("{:?}", des);
    assert_eq!(des, &body[..]);
}
