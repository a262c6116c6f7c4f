use rfs::remote::{frame_invocation, invocation_body, route_payload};
use rfs::middleware::InvokeError;
use rfs::ser_de::byte_packer::{pack_bytes, unpack_bytes};
use rfs::ser_de::consts::{MAP_CLOSE, SEQ_CLOSE, SEQ_CONST_CLOSE};
use rfs::ser_de::de::{CollectionsAccessor, RfsDeserializer};
use std::collections::HashMap;
use rfs::ser_de::err::Error;
use rfs::ser_de::ser::RfsSerializer;
use rfs::ser_de::ByteViewer;

#[test]
fn test_byte_viewer() {
    // sequence with 5 `6`s
    let sequence = vec![0, 1, 2, 3, 4, 5, 6, 6, 6, 6, 6, 5, 5];
    let mut viewer = ByteViewer::from_slice(&sequence);

    assert_eq!(viewer.distance_to_end(), sequence.len());

    let offset = viewer.find_byte(0).unwrap();
    viewer.advance(offset).unwrap();
    let num_dups = viewer.num_duplicates();
    println!("{}", num_dups);
    assert_eq!(1, num_dups); // 0 occurs once

    // find and advance to byte
    let offset = viewer.find_byte(6).unwrap();
    viewer.advance(offset).unwrap();

    let num_dups = viewer.num_duplicates();
    println!("{}", num_dups);
    assert_eq!(5, num_dups); // 6 occurs 5 times

    let offset = viewer.find_byte(100);
    assert!(matches!(offset, None));

    let dist_to_end = viewer.distance_to_end();
    let slice_to_end = viewer.next_bytes(dist_to_end, false); // this should not panic
    assert_eq!(dist_to_end, slice_to_end.len());
    viewer
        .advance(dist_to_end)
        .expect("we should have advanced straight to the end");

    assert!(viewer.is_end())
}

#[test]
fn test_pack_bytes() {
    let bytes = vec![1, 0, 0, 0, 2, 0, 0, 0, 0, 0, 3, 10, 0, 0, 0, 0];

    let mut view = ByteViewer::from_slice(&bytes);
    view.advance(view.distance_to_end()).unwrap();

    let packed = pack_bytes(&bytes);

    println!("{:?}", bytes);
    println!("{:?}", packed);

    let unpacked = unpack_bytes(&packed);

    println!("{:?}", unpacked);

    assert_eq!(bytes, unpacked);
}

/// Test the packer on 0-sequences greater than `u8::MAX`
#[test]
fn test_pack_arbitrary_len_bytes() {
    let bytes = (0..1000).into_iter().map(|_| 0_u8).collect::<Vec<_>>();

    let packed = pack_bytes(&bytes);

    println!("packed contents: {:?}", packed);

    let unpacked = unpack_bytes(&packed);

    assert_eq!(bytes, unpacked);
}

#[test]
fn byte_viewer_advance_past_end_fails() {
    let bytes = vec![1u8, 2, 3];
    let mut viewer = ByteViewer::from_slice(&bytes);
    assert!(viewer.advance(4).is_err());
    assert_eq!(viewer.distance_to_end(), 3);
    assert!(viewer.advance(3).is_ok());
    assert!(viewer.is_end());
    assert_eq!(viewer.peek(), None);
}

#[test]
fn pack_shrinks_zero_runs() {
    let bytes = vec![7u8, 0, 0, 0, 0, 9];
    let packed = pack_bytes(&bytes);
    assert!(packed.len() < bytes.len());
    assert_eq!(unpack_bytes(&packed), bytes);
    assert_eq!(unpack_bytes(&pack_bytes(&[])), Vec::<u8>::new());
}

#[test]
fn framed_invocation_roundtrip() {
    let sig = "SimpleOps::say_hello".as_bytes();
    let framed = frame_invocation(sig, &[1, 2, 3]);
    assert_eq!(&framed[..sig.len()], sig);
    assert_eq!(invocation_body(sig, &framed).unwrap(), &[1u8, 2, 3][..]);
    assert!(matches!(
        invocation_body("SimpleOps::compute_fib".as_bytes(), &framed),
        Err(InvokeError::SignatureNotMatched)
    ));
    // a payload shorter than the signature is refused, not a panic
    assert!(matches!(invocation_body(sig, &[1u8]), Err(InvokeError::SignatureNotMatched)));
}

#[test]
fn route_payload_first_match() {
    let a: &[u8] = b"A::x";
    let b: &[u8] = b"B::y";
    let sigs = vec![a, b];
    assert_eq!(route_payload(&sigs, b"B::y-body"), Ok(1));
    assert_eq!(route_payload(&sigs, b"A::x"), Ok(0));
    assert!(matches!(route_payload(&sigs, b"C::z"), Err(InvokeError::HandlerNotFound)));
}

#[test]
fn serializer_roundtrips_primitives() {

    let mut ser = RfsSerializer::new();
    ser.serialize_bool(true);
    ser.serialize_u64(1_000_000_000_000);
    ser.serialize_i32(-1500);
    ser.serialize_char('👏');
    ser.serialize_str("how about that");
    ser.serialize_u8(69);
    let bytes = ser.into_output();

    let mut des = RfsDeserializer::from_slice(&bytes);
    assert_eq!(des.deserialize_bool().unwrap(), true);
    assert_eq!(des.deserialize_u64().unwrap(), 1_000_000_000_000);
    assert_eq!(des.deserialize_i32().unwrap(), -1500);
    assert_eq!(des.deserialize_char().unwrap(), '👏');
    assert_eq!(des.deserialize_str().unwrap(), "how about that".as_bytes());
    assert_eq!(des.deserialize_u8().unwrap(), 69);
    assert!(des.is_end());
}

#[test]
fn deserializer_reports_errors() {

    // out of bytes
    let empty: Vec<u8> = Vec::new();
    let mut des = RfsDeserializer::from_slice(&empty);
    assert!(matches!(des.deserialize_u32(), Err(Error::OutOfBytes)));

    // a boolean where a number is expected
    let mut ser = RfsSerializer::new();
    ser.serialize_bool(false);
    let bytes = ser.into_output();
    let mut des = RfsDeserializer::from_slice(&bytes);
    assert!(matches!(des.deserialize_u64(), Err(Error::PrefixNotMatched(_))));

    // a malformed boolean byte
    let mut bad = bytes.clone();
    let last = bad.len() - 1;
    bad[last] = 7;
    let mut des = RfsDeserializer::from_slice(&bad);
    assert!(matches!(des.deserialize_bool(), Err(Error::UnexpectedData { .. })));
}

#[test]
fn test_error_messages() {
    assert_eq!(Error::DelimiterNotFound(b'}').message(), "Expected delimiter '}' not found");
    assert_eq!(Error::PrefixNotMatched(b'#').message(), "Expected prefix '#' not found");
    assert_eq!(
        Error::UnexpectedData { exp: "a boolean".to_string(), have: 5 }.message(),
        "Unexpected data. Expected a boolean, have 101"
    );
    assert_eq!(
        Error::UnexpectedData { exp: "x".to_string(), have: 0 }.message(),
        "Unexpected data. Expected x, have 0"
    );
    assert_eq!(Error::OutOfBytes.message(), "Out of bytes to deserialize");
    assert_eq!(Error::MalformedData.message(), "Malformed data");
    assert_eq!(Error::Custom("boom".to_string()).message(), "Error: boom");
}

// The values below are written and read with the serializer's and the
// deserializer's calls in the order a data structure's serialization walks
// them: fields as map entries, enums as a variant name and its content.

#[derive(Debug, PartialEq)]
struct Traditional {
    item: bool,
    number: i32,
    s: String,
}

#[derive(Debug, PartialEq)]
struct Tuple((bool, String, u32));

#[derive(Debug, PartialEq)]
struct NewType(bool);

#[derive(Debug, PartialEq)]
struct Unit;

#[derive(Debug, PartialEq)]
enum E {
    VUnit,
    VNewType(bool),
    VTuple((i32, bool)),
    VStruct { a: bool, b: i8, c: String },
}

/// Writes the value, reads it back (plain and packed) and compares.
fn ser_de_loops<T: PartialEq + std::fmt::Debug>(
    input: &T,
    ser: fn(&mut RfsSerializer, &T),
    de: for<'a> fn(&mut RfsDeserializer<'a>) -> Result<T, Error>,
) {
    let mut s = RfsSerializer::new();
    ser(&mut s, input);
    let bytes = s.into_output();

    let mut d = RfsDeserializer::from_slice(&bytes);
    assert_eq!(de(&mut d).unwrap(), *input);
    assert!(d.is_end());

    let packed = pack_bytes(&bytes);
    let unpacked = unpack_bytes(&packed);
    let mut d = RfsDeserializer::from_slice(&unpacked);
    assert_eq!(de(&mut d).unwrap(), *input);
    assert!(d.is_end());
}

fn string_of(bytes: &[u8]) -> String {
    String::from_utf8(bytes.to_vec()).unwrap()
}

/// Reads a struct field's name and opens its value.
fn field(acc: &CollectionsAccessor, d: &mut RfsDeserializer, name: &str) -> Result<(), Error> {
    assert!(acc.has_next(d));
    acc.next_key(d)?;
    assert_eq!(d.deserialize_identifier()?, name.as_bytes());
    acc.next_value(d)
}

fn ser_i32_seq(s: &mut RfsSerializer, v: &Vec<i32>) {
    s.serialize_seq();
    for x in v {
        s.serialize_i32(*x);
    }
    s.end_seq();
}

fn de_i32_seq(d: &mut RfsDeserializer) -> Result<Vec<i32>, Error> {
    d.deserialize_seq()?;
    let acc = CollectionsAccessor::from_deserializer(d, SEQ_CLOSE);
    let mut out = Vec::new();
    while acc.has_next(d) {
        out.push(d.deserialize_i32()?);
    }
    d.end_seq()?;
    Ok(out)
}

fn ser_i32_triple(s: &mut RfsSerializer, v: &(i32, i32, i32)) {
    s.serialize_tuple();
    s.serialize_i32(v.0);
    s.serialize_i32(v.1);
    s.serialize_i32(v.2);
    s.end_tuple();
}

fn de_i32_triple(d: &mut RfsDeserializer) -> Result<(i32, i32, i32), Error> {
    d.deserialize_tuple()?;
    let acc = CollectionsAccessor::from_deserializer(d, SEQ_CONST_CLOSE);
    assert!(acc.has_next(d));
    let t = (d.deserialize_i32()?, d.deserialize_i32()?, d.deserialize_i32()?);
    assert!(!acc.has_next(d));
    d.end_tuple()?;
    Ok(t)
}

fn ser_e(s: &mut RfsSerializer, v: &E) {
    match v {
        E::VUnit => s.serialize_unit_variant("VUnit"),
        E::VNewType(b) => {
            s.serialize_newtype_variant("VNewType");
            s.serialize_bool(*b);
        }
        E::VTuple((n, b)) => {
            s.serialize_newtype_variant("VTuple");
            s.serialize_tuple();
            s.serialize_i32(*n);
            s.serialize_bool(*b);
            s.end_tuple();
        }
        E::VStruct { a, b, c } => {
            s.serialize_struct_variant("VStruct");
            s.begin_field("a");
            s.serialize_bool(*a);
            s.end_entry();
            s.begin_field("b");
            s.serialize_i8(*b);
            s.end_entry();
            s.begin_field("c");
            s.serialize_str(c);
            s.end_entry();
            s.end_map();
        }
    }
}

fn de_e(d: &mut RfsDeserializer) -> Result<E, Error> {
    d.deserialize_enum()?;
    let name = string_of(d.deserialize_identifier()?);
    match name.as_str() {
        "VUnit" => Ok(E::VUnit),
        "VNewType" => Ok(E::VNewType(d.deserialize_bool()?)),
        "VTuple" => {
            d.deserialize_tuple()?;
            let t = (d.deserialize_i32()?, d.deserialize_bool()?);
            d.end_tuple()?;
            Ok(E::VTuple(t))
        }
        "VStruct" => {
            d.deserialize_map()?;
            let acc = CollectionsAccessor::from_deserializer(d, MAP_CLOSE);
            field(&acc, d, "a")?;
            let a = d.deserialize_bool()?;
            acc.end_entry(d)?;
            field(&acc, d, "b")?;
            let b = d.deserialize_i8()?;
            acc.end_entry(d)?;
            field(&acc, d, "c")?;
            let c = string_of(d.deserialize_str()?);
            acc.end_entry(d)?;
            assert!(!acc.has_next(d));
            d.end_map()?;
            Ok(E::VStruct { a, b, c })
        }
        _ => Err(Error::MalformedData),
    }
}

fn ser_e_pair(s: &mut RfsSerializer, v: &(E, E)) {
    s.serialize_tuple();
    ser_e(s, &v.0);
    ser_e(s, &v.1);
    s.end_tuple();
}

fn de_e_pair(d: &mut RfsDeserializer) -> Result<(E, E), Error> {
    d.deserialize_tuple()?;
    let pair = (de_e(d)?, de_e(d)?);
    d.end_tuple()?;
    Ok(pair)
}

fn ser_map(s: &mut RfsSerializer, m: &HashMap<String, i32>) {
    s.serialize_map();
    for (k, v) in m {
        s.begin_entry();
        s.serialize_str(k);
        s.entry_mid();
        s.serialize_i32(*v);
        s.end_entry();
    }
    s.end_map();
}

fn de_map(d: &mut RfsDeserializer) -> Result<HashMap<String, i32>, Error> {
    d.deserialize_map()?;
    let acc = CollectionsAccessor::from_deserializer(d, MAP_CLOSE);
    let mut out = HashMap::new();
    while acc.has_next(d) {
        acc.next_key(d)?;
        let k = string_of(d.deserialize_str()?);
        acc.next_value(d)?;
        let v = d.deserialize_i32()?;
        acc.end_entry(d)?;
        out.insert(k, v);
    }
    d.end_map()?;
    Ok(out)
}

fn ser_traditional(s: &mut RfsSerializer, v: &Traditional) {
    s.serialize_struct();
    s.begin_field("item");
    s.serialize_bool(v.item);
    s.end_entry();
    s.begin_field("number");
    s.serialize_i32(v.number);
    s.end_entry();
    s.begin_field("s");
    s.serialize_str(&v.s);
    s.end_entry();
    s.end_map();
}

fn de_traditional(d: &mut RfsDeserializer) -> Result<Traditional, Error> {
    d.deserialize_map()?;
    let acc = CollectionsAccessor::from_deserializer(d, MAP_CLOSE);
    field(&acc, d, "item")?;
    let item = d.deserialize_bool()?;
    acc.end_entry(d)?;
    field(&acc, d, "number")?;
    let number = d.deserialize_i32()?;
    acc.end_entry(d)?;
    field(&acc, d, "s")?;
    let s = string_of(d.deserialize_str()?);
    acc.end_entry(d)?;
    d.end_map()?;
    Ok(Traditional { item, number, s })
}

fn ser_tuple(s: &mut RfsSerializer, v: &Tuple) {
    s.serialize_tuple();
    s.serialize_bool((v.0).0);
    s.serialize_str(&(v.0).1);
    s.serialize_u32((v.0).2);
    s.end_tuple();
}

fn de_tuple(d: &mut RfsDeserializer) -> Result<Tuple, Error> {
    d.deserialize_tuple()?;
    let t = (d.deserialize_bool()?, string_of(d.deserialize_str()?), d.deserialize_u32()?);
    d.end_tuple()?;
    Ok(Tuple(t))
}

fn ser_newtype(s: &mut RfsSerializer, v: &NewType) {
    s.serialize_bool(v.0);
}

fn de_newtype(d: &mut RfsDeserializer) -> Result<NewType, Error> {
    Ok(NewType(d.deserialize_bool()?))
}

fn ser_unit(s: &mut RfsSerializer, _: &Unit) {
    s.serialize_unit_struct();
}

fn de_unit(d: &mut RfsDeserializer) -> Result<Unit, Error> {
    d.deserialize_unit_struct()?;
    Ok(Unit)
}

#[test]
fn test_ser_de_map() {
    let map: HashMap<String, i32> = HashMap::from([
        ("asd".to_string(), 10_000),
        ("how about that 👏👏👏".to_string(), 69),
    ]);
    ser_de_loops(&map, ser_map, de_map);
}

/// Sequences, like vectors and tuples
#[test]
fn test_ser_de_seq() {
    ser_de_loops(&vec![100, 200, 300, 400], ser_i32_seq, de_i32_seq);
    ser_de_loops(&(12, 100, 20000), ser_i32_triple, de_i32_triple);
    let tup_enum = (
        E::VStruct { a: true, b: 0, c: "first tuple element".to_string() },
        E::VStruct { a: false, b: 120, c: "second tuple element".to_string() },
    );
    ser_de_loops(&tup_enum, ser_e_pair, de_e_pair);
}

/// Structs
#[test]
fn test_ser_de_struct() {
    ser_de_loops(
        &Traditional { item: false, number: 10000, s: "asd".to_string() },
        ser_traditional,
        de_traditional,
    );
    ser_de_loops(&Tuple((true, "how does serialization work?".to_string(), 314159)), ser_tuple, de_tuple);
    ser_de_loops(&NewType(true), ser_newtype, de_newtype);
    ser_de_loops(&Unit, ser_unit, de_unit);
}

/// Enums and their kinds of variants
#[test]
fn test_ser_de_enum() {
    ser_de_loops(&E::VUnit, ser_e, de_e);
    ser_de_loops(&E::VNewType(false), ser_e, de_e);
    ser_de_loops(&E::VTuple((10, true)), ser_e, de_e);
    ser_de_loops(&E::VStruct { a: true, b: i8::MAX, c: "Hello How are You".to_string() }, ser_e, de_e);
}

#[test]
fn packing_round_trips_with_lone_delimiters() {
    // a `#` whose window is no marker is copied and read back as it is
    for bytes in [vec![b'#'], vec![b'#', 0, 0, 0, 0], vec![7, b'#', 1, 0, 0], vec![b'#', b'#']] {
        assert_eq!(unpack_bytes(&pack_bytes(&bytes)), bytes);
    }
}

#[test]
fn packing_misreads_copied_marker_windows() {
    // `#5` before a run of zeroes packs to `#5#4#`, whose first window
    // reads as five zeroes
    let bytes = vec![b'#', 5, 0, 0, 0, 0];
    assert_eq!(pack_bytes(&bytes), vec![b'#', 5, b'#', 4, b'#']);
    assert_ne!(unpack_bytes(&pack_bytes(&bytes)), bytes);
}
