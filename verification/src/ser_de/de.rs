//! The deserializer: the counterpart of [`RfsSerializer`](super::ser::RfsSerializer).
//!
//! Each method checks and consumes the encoding of one element of the serde
//! data model at the cursor.

use vstd::prelude::*;

use super::consts::{
    BOOL_FALSE, BOOL_TRUE, MAP_CLOSE, MAP_ENTRY_CLOSE, MAP_ENTRY_MID, MAP_ENTRY_OPEN, MAP_OPEN,
    OPTION_NONE, OPTION_SOME, PREFIX_BOOL, PREFIX_BYTES, PREFIX_ENUM, PREFIX_FLOAT, PREFIX_MAP,
    PREFIX_NUM, PREFIX_OPTIONAL, PREFIX_SEQ, PREFIX_SEQ_CONST, PREFIX_STR, PREFIX_UNIT, SEQ_CLOSE,
    SEQ_CONST_CLOSE, SEQ_CONST_OPEN, SEQ_OPEN,
};
use super::err::Error;
use super::ser::{
    enc_bool, enc_bytes, enc_char, enc_none, enc_signed, enc_sized, enc_some_prefix, enc_str,
    enc_unit, enc_unsigned, enc_variant,
};
use super::{
    be_bytes_u32, be_bytes_u64, from_be_u32, from_be_u64, lemma_be_u32_roundtrip,
    lemma_be_u64_roundtrip, lemma_from_be_u64_prefix, u32_from_be_bytes, u64_from_be_bytes,
    ByteViewer,
};

verus! {

/// Whether `v` is the scalar value of a `char`.
pub open spec fn is_char_value(v: u32) -> bool {
    v <= 0x10FFFF && !(0xD800 <= v <= 0xDFFF)
}

/// The `char` with scalar value `v`, or `None` when `v` is not one.
#[verifier::external_body]
fn char_from_u32(v: u32) -> (res: Option<char>)
    ensures
        res is Some <==> is_char_value(v),
        res matches Some(c) ==> c as u32 == v,
{
    char::from_u32(v)
}

/// Outcome of checking one expected byte at the front of `r`.
pub open spec fn decode_byte(r: Seq<u8>, known: u8, err: Error) -> Result<(), Error> {
    if r.len() == 0 {
        Err(Error::OutOfBytes)
    } else if r[0] != known {
        Err(err)
    } else {
        Ok(())
    }
}

/// Outcome of reading a labelled 8-byte integer at the front of `r`.
pub open spec fn decode_num(r: Seq<u8>, prefix: u8) -> Result<u64, Error> {
    if r.len() == 0 {
        Err(Error::OutOfBytes)
    } else if r[0] != prefix {
        Err(Error::PrefixNotMatched(prefix))
    } else if r.len() < 9 {
        Err(Error::OutOfBytes)
    } else {
        Ok(from_be_u64(r.subrange(1, 9)))
    }
}

/// The value of a boolean at the front of `r`, when `r` starts with one.
pub open spec fn decode_bool(r: Seq<u8>) -> Option<bool> {
    if r.len() >= 2 && r[0] == PREFIX_BOOL && (r[1] == BOOL_TRUE || r[1] == BOOL_FALSE) {
        Some(r[1] == BOOL_TRUE)
    } else {
        None
    }
}

/// Outcome of reading a char at the front of `r`.
pub open spec fn decode_char(r: Seq<u8>) -> Result<u32, Error> {
    if r.len() < 4 {
        Err(Error::OutOfBytes)
    } else if !is_char_value(from_be_u32(r.subrange(0, 4))) {
        Err(Error::MalformedData)
    } else {
        Ok(from_be_u32(r.subrange(0, 4)))
    }
}

/// Outcome of reading a length and that many bytes at the front of `r`.
pub open spec fn decode_len_bytes(r: Seq<u8>) -> Result<Seq<u8>, Error> {
    if r.len() < 8 {
        Err(Error::OutOfBytes)
    } else if r.len() - 8 < from_be_u64(r.subrange(0, 8)) {
        Err(Error::OutOfBytes)
    } else {
        Ok(r.subrange(8, 8 + from_be_u64(r.subrange(0, 8))))
    }
}

/// Outcome of reading a labelled, length-prefixed run of bytes at the front of `r`.
pub open spec fn decode_sized(r: Seq<u8>, prefix: u8) -> Result<Seq<u8>, Error> {
    if r.len() == 0 {
        Err(Error::OutOfBytes)
    } else if r[0] != prefix {
        Err(Error::PrefixNotMatched(prefix))
    } else {
        decode_len_bytes(r.drop_first())
    }
}

/// Outcome of reading an option marker at the front of `r`: `true` for `Some`.
pub open spec fn decode_option(r: Seq<u8>) -> Result<bool, Error> {
    if r.len() == 0 {
        Err(Error::OutOfBytes)
    } else if r[0] != PREFIX_OPTIONAL {
        Err(Error::PrefixNotMatched(PREFIX_OPTIONAL))
    } else if r.len() < 2 {
        Err(Error::OutOfBytes)
    } else if r[1] == OPTION_NONE {
        Ok(false)
    } else if r[1] == OPTION_SOME {
        Ok(true)
    } else {
        Err(Error::MalformedData)
    }
}

/// Outcome of reading a collection's label and opening delimiter at the front of `r`.
pub open spec fn decode_open(r: Seq<u8>, prefix: u8, open: u8) -> Result<(), Error> {
    if r.len() == 0 {
        Err(Error::OutOfBytes)
    } else if r[0] != prefix {
        Err(Error::PrefixNotMatched(prefix))
    } else {
        decode_byte(r.drop_first(), open, Error::DelimiterNotFound(open))
    }
}

/// The kinds of value that can be recognised from their label alone.
#[derive(Debug, Clone, Copy, PartialEq, Eq, Structural)]
pub enum AnyKind {
    Bool,
    Bytes,
    Enum,
    MapLike,
    Num,
    Optional,
    Sequence,
    SeqConst,
    Str,
    Unit,
}

/// The kind of value announced by the label `b`, if `b` is one.
pub open spec fn kind_of_prefix(b: u8) -> Option<AnyKind> {
    if b == PREFIX_BOOL {
        Some(AnyKind::Bool)
    } else if b == PREFIX_BYTES {
        Some(AnyKind::Bytes)
    } else if b == PREFIX_ENUM {
        Some(AnyKind::Enum)
    } else if b == PREFIX_MAP {
        Some(AnyKind::MapLike)
    } else if b == PREFIX_NUM {
        Some(AnyKind::Num)
    } else if b == PREFIX_OPTIONAL {
        Some(AnyKind::Optional)
    } else if b == PREFIX_SEQ {
        Some(AnyKind::Sequence)
    } else if b == PREFIX_SEQ_CONST {
        Some(AnyKind::SeqConst)
    } else if b == PREFIX_STR {
        Some(AnyKind::Str)
    } else if b == PREFIX_UNIT {
        Some(AnyKind::Unit)
    } else {
        None
    }
}

/// Custom deserializer over a byte slice.
///
/// It can deserialize the bytes of any data structure serialized by its
/// associated serializer.
pub struct RfsDeserializer<'de> {
    input: ByteViewer<'de>,
}

impl<'de> RfsDeserializer<'de> {
    /// Well-formedness of the cursor.
    pub closed spec fn wf(&self) -> bool {
        self.input.wf()
    }

    /// All bytes being deserialized.
    pub closed spec fn bytes(&self) -> Seq<u8> {
        self.input.bytes()
    }

    /// Position of the cursor.
    pub closed spec fn pos(&self) -> int {
        self.input.pos()
    }

    /// Bytes not consumed yet.
    pub open spec fn rest(&self) -> Seq<u8> {
        self.bytes().subrange(self.pos(), self.bytes().len() as int)
    }

    /// The cursor has moved `n` bytes forward over the same input.
    pub open spec fn advanced(&self, old: &Self, n: int) -> bool {
        &&& self.wf()
        &&& self.bytes() == old.bytes()
        &&& self.pos() == old.pos() + n
    }

    /// Create a deserializer at the start of `s`.
    pub fn from_slice(s: &'de [u8]) -> (res: Self)
        ensures
            res.wf(),
            res.bytes() == s@,
            res.pos() == 0,
    {
        Self { input: ByteViewer::from_slice(s) }
    }

    /// Whether all bytes have been consumed.
    pub fn is_end(&self) -> (res: bool)
        requires
            self.wf(),
        ensures
            res <==> self.rest().len() == 0,
    {
        self.input.is_end()
    }

    /// Checks that the next byte is `known` and consumes it.
    fn validate_next_byte(&mut self, known: u8, err: Error) -> (res: Result<(), Error>)
        requires
            old(self).wf(),
        ensures
            res == decode_byte(old(self).rest(), known, err),
            final(self).advanced(
                old(self),
                if old(self).rest().len() == 0 {
                    0
                } else {
                    1
                },
            ),
    {
        proof {
            self.input.lemma_wf();
        }
        if self.input.distance_to_end() < 1 {
            return Err(Error::OutOfBytes);
        }
        let b = self.input.next_byte();
        if b == known {
            Ok(())
        } else {
            Err(err)
        }
    }

    /// Reads a labelled 8-byte integer.
    fn deserialize_num_bits(&mut self, prefix: u8) -> (res: Result<u64, Error>)
        requires
            old(self).wf(),
        ensures
            final(self).wf(),
            final(self).bytes() == old(self).bytes(),
            res == decode_num(old(self).rest(), prefix),
            res is Ok ==> final(self).advanced(old(self), 9),
    {
        let ghost r = self.rest();
        self.validate_next_byte(prefix, Error::PrefixNotMatched(prefix))?;
        proof {
            self.input.lemma_wf();
        }
        if self.input.distance_to_end() < 8 {
            return Err(Error::OutOfBytes);
        }
        let bytes = self.input.next_bytes_fixed::<8>(true);
        proof {
            assert(bytes@ =~= r.subrange(1, 9));
        }
        Ok(u64_from_be_bytes(bytes))
    }

    /// Reads a boolean.
    pub fn deserialize_bool(&mut self) -> (res: Result<bool, Error>)
        requires
            old(self).wf(),
        ensures
            final(self).wf(),
            final(self).bytes() == old(self).bytes(),
            res is Ok <==> decode_bool(old(self).rest()) is Some,
            res matches Ok(b) ==> Some(b) == decode_bool(old(self).rest()) && final(self).advanced(
                old(self),
                2,
            ),
            old(self).rest().len() < 2 ==> res == Err::<bool, Error>(Error::OutOfBytes),
            old(self).rest().len() >= 2 && old(self).rest()[0] != PREFIX_BOOL ==> res == Err::<
                bool,
                Error,
            >(Error::PrefixNotMatched(PREFIX_BOOL)),
            old(self).rest().len() >= 2 && old(self).rest()[0] == PREFIX_BOOL && decode_bool(
                old(self).rest(),
            ) is None ==> (res matches Err(Error::UnexpectedData { have, .. }) && have == old(self).rest()[1]),
    {
        proof {
            self.input.lemma_wf();
        }
        if self.input.distance_to_end() < 2 {
            return Err(Error::OutOfBytes);
        }
        let prefix = self.input.next_byte();
        if prefix != PREFIX_BOOL {
            return Err(Error::PrefixNotMatched(PREFIX_BOOL));
        }
        let value = self.input.next_byte();
        if value == BOOL_TRUE {
            Ok(true)
        } else if value == BOOL_FALSE {
            Ok(false)
        } else {
            Err(
                Error::UnexpectedData {
                    exp: String::from_str("u8::MAX or u8::MIN"),
                    have: value,
                },
            )
        }
    }

    /// Reads an `i64`.
    pub fn deserialize_i64(&mut self) -> (res: Result<i64, Error>)
        requires
            old(self).wf(),
        ensures
            final(self).wf(),
            final(self).bytes() == old(self).bytes(),
            res is Ok <==> decode_num(old(self).rest(), PREFIX_NUM) is Ok,
            res matches Ok(v) ==> v == decode_num(old(self).rest(), PREFIX_NUM)->Ok_0 as i64
                && final(self).advanced(old(self), 9),
            res matches Err(e) ==> decode_num(old(self).rest(), PREFIX_NUM) == Err::<u64, Error>(e),
    {
        let v = self.deserialize_num_bits(PREFIX_NUM)?;
        Ok(v as i64)
    }

    /// Reads an `i32`, truncating the transmitted 64-bit value.
    pub fn deserialize_i32(&mut self) -> (res: Result<i32, Error>)
        requires
            old(self).wf(),
        ensures
            final(self).wf(),
            final(self).bytes() == old(self).bytes(),
            res is Ok <==> decode_num(old(self).rest(), PREFIX_NUM) is Ok,
            res matches Ok(v) ==> v == (decode_num(old(self).rest(), PREFIX_NUM)->Ok_0 as i64) as i32
                && final(self).advanced(old(self), 9),
            res matches Err(e) ==> decode_num(old(self).rest(), PREFIX_NUM) == Err::<u64, Error>(e),
    {
        let v = self.deserialize_num_bits(PREFIX_NUM)?;
        Ok((v as i64) as i32)
    }

    /// Reads an `i16`, truncating the transmitted 64-bit value.
    pub fn deserialize_i16(&mut self) -> (res: Result<i16, Error>)
        requires
            old(self).wf(),
        ensures
            final(self).wf(),
            final(self).bytes() == old(self).bytes(),
            res is Ok <==> decode_num(old(self).rest(), PREFIX_NUM) is Ok,
            res matches Ok(v) ==> v == (decode_num(old(self).rest(), PREFIX_NUM)->Ok_0 as i64) as i16
                && final(self).advanced(old(self), 9),
            res matches Err(e) ==> decode_num(old(self).rest(), PREFIX_NUM) == Err::<u64, Error>(e),
    {
        let v = self.deserialize_num_bits(PREFIX_NUM)?;
        Ok((v as i64) as i16)
    }

    /// Reads an `i8`, truncating the transmitted 64-bit value.
    pub fn deserialize_i8(&mut self) -> (res: Result<i8, Error>)
        requires
            old(self).wf(),
        ensures
            final(self).wf(),
            final(self).bytes() == old(self).bytes(),
            res is Ok <==> decode_num(old(self).rest(), PREFIX_NUM) is Ok,
            res matches Ok(v) ==> v == (decode_num(old(self).rest(), PREFIX_NUM)->Ok_0 as i64) as i8
                && final(self).advanced(old(self), 9),
            res matches Err(e) ==> decode_num(old(self).rest(), PREFIX_NUM) == Err::<u64, Error>(e),
    {
        let v = self.deserialize_num_bits(PREFIX_NUM)?;
        Ok((v as i64) as i8)
    }

    /// Reads a `u64`.
    pub fn deserialize_u64(&mut self) -> (res: Result<u64, Error>)
        requires
            old(self).wf(),
        ensures
            final(self).wf(),
            final(self).bytes() == old(self).bytes(),
            res == decode_num(old(self).rest(), PREFIX_NUM),
            res is Ok ==> final(self).advanced(old(self), 9),
    {
        self.deserialize_num_bits(PREFIX_NUM)
    }

    /// Reads a `u32`, truncating the transmitted 64-bit value.
    pub fn deserialize_u32(&mut self) -> (res: Result<u32, Error>)
        requires
            old(self).wf(),
        ensures
            final(self).wf(),
            final(self).bytes() == old(self).bytes(),
            res is Ok <==> decode_num(old(self).rest(), PREFIX_NUM) is Ok,
            res matches Ok(v) ==> v == decode_num(old(self).rest(), PREFIX_NUM)->Ok_0 as u32
                && final(self).advanced(old(self), 9),
            res matches Err(e) ==> decode_num(old(self).rest(), PREFIX_NUM) == Err::<u64, Error>(e),
    {
        let v = self.deserialize_num_bits(PREFIX_NUM)?;
        Ok(v as u32)
    }

    /// Reads a `u16`, truncating the transmitted 64-bit value.
    pub fn deserialize_u16(&mut self) -> (res: Result<u16, Error>)
        requires
            old(self).wf(),
        ensures
            final(self).wf(),
            final(self).bytes() == old(self).bytes(),
            res is Ok <==> decode_num(old(self).rest(), PREFIX_NUM) is Ok,
            res matches Ok(v) ==> v == decode_num(old(self).rest(), PREFIX_NUM)->Ok_0 as u16
                && final(self).advanced(old(self), 9),
            res matches Err(e) ==> decode_num(old(self).rest(), PREFIX_NUM) == Err::<u64, Error>(e),
    {
        let v = self.deserialize_num_bits(PREFIX_NUM)?;
        Ok(v as u16)
    }

    /// Reads a `u8`, truncating the transmitted 64-bit value.
    pub fn deserialize_u8(&mut self) -> (res: Result<u8, Error>)
        requires
            old(self).wf(),
        ensures
            final(self).wf(),
            final(self).bytes() == old(self).bytes(),
            res is Ok <==> decode_num(old(self).rest(), PREFIX_NUM) is Ok,
            res matches Ok(v) ==> v == decode_num(old(self).rest(), PREFIX_NUM)->Ok_0 as u8
                && final(self).advanced(old(self), 9),
            res matches Err(e) ==> decode_num(old(self).rest(), PREFIX_NUM) == Err::<u64, Error>(e),
    {
        let v = self.deserialize_num_bits(PREFIX_NUM)?;
        Ok(v as u8)
    }

    /// Reads the 64 raw bits of a floating-point number.
    pub fn deserialize_float_bits(&mut self) -> (res: Result<u64, Error>)
        requires
            old(self).wf(),
        ensures
            final(self).wf(),
            final(self).bytes() == old(self).bytes(),
            res == decode_num(old(self).rest(), PREFIX_FLOAT),
            res is Ok ==> final(self).advanced(old(self), 9),
    {
        self.deserialize_num_bits(PREFIX_FLOAT)
    }

    /// Reads a char from its 4-byte scalar value.
    pub fn deserialize_char(&mut self) -> (res: Result<char, Error>)
        requires
            old(self).wf(),
        ensures
            final(self).wf(),
            final(self).bytes() == old(self).bytes(),
            res is Ok <==> decode_char(old(self).rest()) is Ok,
            res matches Ok(c) ==> c as u32 == decode_char(old(self).rest())->Ok_0
                && final(self).advanced(old(self), 4),
            res matches Err(e) ==> decode_char(old(self).rest()) == Err::<u32, Error>(e),
    {
        let ghost r = self.rest();
        proof {
            self.input.lemma_wf();
        }
        if self.input.distance_to_end() < 4 {
            return Err(Error::OutOfBytes);
        }
        let bytes = self.input.next_bytes_fixed::<4>(true);
        proof {
            assert(bytes@ =~= r.subrange(0, 4));
        }
        match char_from_u32(u32_from_be_bytes(bytes)) {
            Some(c) => Ok(c),
            None => Err(Error::MalformedData),
        }
    }

    /// Reads an 8-byte length and that many bytes.
    fn next_len_bytes(&mut self) -> (res: Result<&'de [u8], Error>)
        requires
            old(self).wf(),
        ensures
            final(self).wf(),
            final(self).bytes() == old(self).bytes(),
            res is Ok <==> decode_len_bytes(old(self).rest()) is Ok,
            res matches Ok(b) ==> b@ == decode_len_bytes(old(self).rest())->Ok_0 && final(self).advanced(old(self), 8 + b@.len() as int),
            res matches Err(e) ==> decode_len_bytes(old(self).rest()) == Err::<Seq<u8>, Error>(e),
    {
        let ghost r = self.rest();
        proof {
            self.input.lemma_wf();
        }
        if self.input.distance_to_end() < 8 {
            return Err(Error::OutOfBytes);
        }
        let len = self.input.pop_size();
        proof {
            self.input.lemma_wf();
            lemma_from_be_u64_prefix(r.subrange(0, 8), old(self).input.rest());
        }
        let dist = self.input.distance_to_end();
        if (dist as u64) < len {
            return Err(Error::OutOfBytes);
        }
        let bytes = self.input.next_bytes(len as usize, true);
        proof {
            assert(bytes@ =~= r.subrange(8, 8 + len));
        }
        Ok(bytes)
    }

    /// Reads a string's label, length and UTF-8 bytes; returns the bytes.
    pub fn deserialize_str(&mut self) -> (res: Result<&'de [u8], Error>)
        requires
            old(self).wf(),
        ensures
            final(self).wf(),
            final(self).bytes() == old(self).bytes(),
            res is Ok <==> decode_sized(old(self).rest(), PREFIX_STR) is Ok,
            res matches Ok(b) ==> b@ == decode_sized(old(self).rest(), PREFIX_STR)->Ok_0 && final(self).advanced(old(self), 9 + b@.len() as int),
            res matches Err(e) ==> decode_sized(old(self).rest(), PREFIX_STR) == Err::<
                Seq<u8>,
                Error,
            >(e),
    {
        let ghost r = self.rest();
        self.validate_next_byte(PREFIX_STR, Error::PrefixNotMatched(PREFIX_STR))?;
        proof {
            assert(self.rest() =~= r.drop_first());
        }
        self.next_len_bytes()
    }

    /// Reads an identifier (a field or variant name), encoded as a string.
    pub fn deserialize_identifier(&mut self) -> (res: Result<&'de [u8], Error>)
        requires
            old(self).wf(),
        ensures
            final(self).wf(),
            final(self).bytes() == old(self).bytes(),
            res is Ok <==> decode_sized(old(self).rest(), PREFIX_STR) is Ok,
            res matches Ok(b) ==> b@ == decode_sized(old(self).rest(), PREFIX_STR)->Ok_0 && final(self).advanced(old(self), 9 + b@.len() as int),
            res matches Err(e) ==> decode_sized(old(self).rest(), PREFIX_STR) == Err::<
                Seq<u8>,
                Error,
            >(e),
    {
        self.deserialize_str()
    }

    /// Reads a length and that many bytes, without a label.
    pub fn deserialize_bytes(&mut self) -> (res: Result<&'de [u8], Error>)
        requires
            old(self).wf(),
        ensures
            final(self).wf(),
            final(self).bytes() == old(self).bytes(),
            res is Ok <==> decode_len_bytes(old(self).rest()) is Ok,
            res matches Ok(b) ==> b@ == decode_len_bytes(old(self).rest())->Ok_0 && final(self).advanced(old(self), 8 + b@.len() as int),
            res matches Err(e) ==> decode_len_bytes(old(self).rest()) == Err::<Seq<u8>, Error>(e),
    {
        self.next_len_bytes()
    }

    /// Reads a byte array's label, length and bytes; returns an owned copy.
    pub fn deserialize_byte_buf(&mut self) -> (res: Result<Vec<u8>, Error>)
        requires
            old(self).wf(),
        ensures
            final(self).wf(),
            final(self).bytes() == old(self).bytes(),
            res is Ok <==> decode_sized(old(self).rest(), PREFIX_BYTES) is Ok,
            res matches Ok(b) ==> b@ == decode_sized(old(self).rest(), PREFIX_BYTES)->Ok_0 && final(self).advanced(old(self), 9 + b@.len() as int),
            res matches Err(e) ==> decode_sized(old(self).rest(), PREFIX_BYTES) == Err::<
                Seq<u8>,
                Error,
            >(e),
    {
        let ghost r = self.rest();
        self.validate_next_byte(PREFIX_BYTES, Error::PrefixNotMatched(PREFIX_BYTES))?;
        proof {
            assert(self.rest() =~= r.drop_first());
        }
        let bytes = self.next_len_bytes()?;
        let mut out: Vec<u8> = Vec::new();
        super::extend_bytes(&mut out, bytes);
        assert(out@ =~= bytes@);
        Ok(out)
    }

    /// Reads an option marker; `true` means a value follows (`Some`).
    pub fn deserialize_option(&mut self) -> (res: Result<bool, Error>)
        requires
            old(self).wf(),
        ensures
            final(self).wf(),
            final(self).bytes() == old(self).bytes(),
            res == decode_option(old(self).rest()),
            res is Ok ==> final(self).advanced(old(self), 2),
    {
        let ghost r = self.rest();
        self.validate_next_byte(PREFIX_OPTIONAL, Error::PrefixNotMatched(PREFIX_OPTIONAL))?;
        proof {
            self.input.lemma_wf();
            assert(self.rest() =~= r.drop_first());
        }
        if self.input.distance_to_end() < 1 {
            return Err(Error::OutOfBytes);
        }
        let variant = self.input.next_byte();
        if variant == OPTION_NONE {
            Ok(false)
        } else if variant == OPTION_SOME {
            Ok(true)
        } else {
            Err(Error::MalformedData)
        }
    }

    /// Reads the unit value.
    pub fn deserialize_unit(&mut self) -> (res: Result<(), Error>)
        requires
            old(self).wf(),
        ensures
            res == decode_byte(old(self).rest(), PREFIX_UNIT, Error::PrefixNotMatched(PREFIX_UNIT)),
            final(self).advanced(
                old(self),
                if old(self).rest().len() == 0 {
                    0
                } else {
                    1
                },
            ),
    {
        self.validate_next_byte(PREFIX_UNIT, Error::PrefixNotMatched(PREFIX_UNIT))
    }

    /// Reads a unit struct, encoded as the unit value.
    pub fn deserialize_unit_struct(&mut self) -> (res: Result<(), Error>)
        requires
            old(self).wf(),
        ensures
            res == decode_byte(old(self).rest(), PREFIX_UNIT, Error::PrefixNotMatched(PREFIX_UNIT)),
            final(self).advanced(
                old(self),
                if old(self).rest().len() == 0 {
                    0
                } else {
                    1
                },
            ),
    {
        self.deserialize_unit()
    }

    /// Reads a collection's label and opening delimiter.
    fn open_collection(&mut self, prefix: u8, open: u8) -> (res: Result<(), Error>)
        requires
            old(self).wf(),
        ensures
            final(self).wf(),
            final(self).bytes() == old(self).bytes(),
            res == decode_open(old(self).rest(), prefix, open),
            res is Ok ==> final(self).advanced(old(self), 2),
    {
        let ghost r = self.rest();
        self.validate_next_byte(prefix, Error::PrefixNotMatched(prefix))?;
        proof {
            assert(self.rest() =~= r.drop_first());
        }
        self.validate_next_byte(open, Error::DelimiterNotFound(open))
    }

    /// Opens a sequence: `PREFIX_SEQ` then `[`.
    pub fn deserialize_seq(&mut self) -> (res: Result<(), Error>)
        requires
            old(self).wf(),
        ensures
            final(self).wf(),
            final(self).bytes() == old(self).bytes(),
            res == decode_open(old(self).rest(), PREFIX_SEQ, SEQ_OPEN),
            res is Ok ==> final(self).advanced(old(self), 2),
    {
        self.open_collection(PREFIX_SEQ, SEQ_OPEN)
    }

    /// Closes a sequence: `]`.
    pub fn end_seq(&mut self) -> (res: Result<(), Error>)
        requires
            old(self).wf(),
        ensures
            res == decode_byte(old(self).rest(), SEQ_CLOSE, Error::DelimiterNotFound(SEQ_CLOSE)),
            res is Ok ==> final(self).advanced(old(self), 1),
            final(self).wf(),
            final(self).bytes() == old(self).bytes(),
    {
        self.validate_next_byte(SEQ_CLOSE, Error::DelimiterNotFound(SEQ_CLOSE))
    }

    /// Opens a tuple: `PREFIX_SEQ_CONST` then `(`.
    pub fn deserialize_tuple(&mut self) -> (res: Result<(), Error>)
        requires
            old(self).wf(),
        ensures
            final(self).wf(),
            final(self).bytes() == old(self).bytes(),
            res == decode_open(old(self).rest(), PREFIX_SEQ_CONST, SEQ_CONST_OPEN),
            res is Ok ==> final(self).advanced(old(self), 2),
    {
        self.open_collection(PREFIX_SEQ_CONST, SEQ_CONST_OPEN)
    }

    /// Closes a tuple: `)`.
    pub fn end_tuple(&mut self) -> (res: Result<(), Error>)
        requires
            old(self).wf(),
        ensures
            res == decode_byte(
                old(self).rest(),
                SEQ_CONST_CLOSE,
                Error::DelimiterNotFound(SEQ_CONST_CLOSE),
            ),
            res is Ok ==> final(self).advanced(old(self), 1),
            final(self).wf(),
            final(self).bytes() == old(self).bytes(),
    {
        self.validate_next_byte(SEQ_CONST_CLOSE, Error::DelimiterNotFound(SEQ_CONST_CLOSE))
    }

    /// Opens a map or struct: `PREFIX_MAP` then `{`.
    pub fn deserialize_map(&mut self) -> (res: Result<(), Error>)
        requires
            old(self).wf(),
        ensures
            final(self).wf(),
            final(self).bytes() == old(self).bytes(),
            res == decode_open(old(self).rest(), PREFIX_MAP, MAP_OPEN),
            res is Ok ==> final(self).advanced(old(self), 2),
    {
        self.open_collection(PREFIX_MAP, MAP_OPEN)
    }

    /// Closes a map or struct: `}`.
    pub fn end_map(&mut self) -> (res: Result<(), Error>)
        requires
            old(self).wf(),
        ensures
            res == decode_byte(old(self).rest(), MAP_CLOSE, Error::DelimiterNotFound(MAP_CLOSE)),
            res is Ok ==> final(self).advanced(old(self), 1),
            final(self).wf(),
            final(self).bytes() == old(self).bytes(),
    {
        self.validate_next_byte(MAP_CLOSE, Error::DelimiterNotFound(MAP_CLOSE))
    }

    /// Reads the enum label; the variant's name follows as an identifier.
    pub fn deserialize_enum(&mut self) -> (res: Result<(), Error>)
        requires
            old(self).wf(),
        ensures
            res == decode_byte(old(self).rest(), PREFIX_ENUM, Error::PrefixNotMatched(PREFIX_ENUM)),
            res is Ok ==> final(self).advanced(old(self), 1),
            final(self).wf(),
            final(self).bytes() == old(self).bytes(),
    {
        self.validate_next_byte(PREFIX_ENUM, Error::PrefixNotMatched(PREFIX_ENUM))
    }

    /// Looks at the label at the cursor and names the kind of value it
    /// announces; fails at the end of input or on an unknown label.
    pub fn deserialize_any(&self) -> (res: Result<AnyKind, Error>)
        requires
            self.wf(),
        ensures
            self.rest().len() == 0 ==> res == Err::<AnyKind, Error>(Error::MalformedData),
            self.rest().len() > 0 ==> match kind_of_prefix(self.rest()[0]) {
                Some(k) => res == Ok::<AnyKind, Error>(k),
                None => res == Err::<AnyKind, Error>(Error::MalformedData),
            },
    {
        match self.input.peek() {
            Some(b) => {
                if b == PREFIX_BOOL {
                    Ok(AnyKind::Bool)
                } else if b == PREFIX_BYTES {
                    Ok(AnyKind::Bytes)
                } else if b == PREFIX_ENUM {
                    Ok(AnyKind::Enum)
                } else if b == PREFIX_MAP {
                    Ok(AnyKind::MapLike)
                } else if b == PREFIX_NUM {
                    Ok(AnyKind::Num)
                } else if b == PREFIX_OPTIONAL {
                    Ok(AnyKind::Optional)
                } else if b == PREFIX_SEQ {
                    Ok(AnyKind::Sequence)
                } else if b == PREFIX_SEQ_CONST {
                    Ok(AnyKind::SeqConst)
                } else if b == PREFIX_STR {
                    Ok(AnyKind::Str)
                } else if b == PREFIX_UNIT {
                    Ok(AnyKind::Unit)
                } else {
                    Err(Error::MalformedData)
                }
            },
            None => Err(Error::MalformedData),
        }
    }
}

/// Access to the elements of a collection: it knows the byte that
/// terminates the collection and the delimiters of map entries.
pub struct CollectionsAccessor {
    terminator: u8,
}

impl CollectionsAccessor {
    /// The byte that ends the collection.
    pub closed spec fn terminator(&self) -> u8 {
        self.terminator
    }

    /// Create an accessor for the collection being read by `des`, ended by `terminator`.
    pub fn from_deserializer(des: &RfsDeserializer, terminator: u8) -> (res: Self)
        ensures
            res.terminator() == terminator,
    {
        Self { terminator }
    }

    /// Whether another element follows: the next byte is not the terminator.
    pub fn has_next(&self, des: &RfsDeserializer) -> (res: bool)
        requires
            des.wf(),
        ensures
            res <==> !(des.rest().len() > 0 && des.rest()[0] == self.terminator()),
    {
        match des.input.peek() {
            Some(b) => b != self.terminator,
            None => true,
        }
    }

    /// Opens a map entry: `<`.
    pub fn next_key(&self, des: &mut RfsDeserializer) -> (res: Result<(), Error>)
        requires
            old(des).wf(),
        ensures
            res == decode_byte(
                old(des).rest(),
                MAP_ENTRY_OPEN,
                Error::DelimiterNotFound(MAP_ENTRY_OPEN),
            ),
            res is Ok ==> final(des).advanced(old(des), 1),
            final(des).wf(),
            final(des).bytes() == old(des).bytes(),
    {
        des.validate_next_byte(MAP_ENTRY_OPEN, Error::DelimiterNotFound(MAP_ENTRY_OPEN))
    }

    /// Separates an entry's key from its value: `-`.
    pub fn next_value(&self, des: &mut RfsDeserializer) -> (res: Result<(), Error>)
        requires
            old(des).wf(),
        ensures
            res == decode_byte(
                old(des).rest(),
                MAP_ENTRY_MID,
                Error::DelimiterNotFound(MAP_ENTRY_MID),
            ),
            res is Ok ==> final(des).advanced(old(des), 1),
            final(des).wf(),
            final(des).bytes() == old(des).bytes(),
    {
        des.validate_next_byte(MAP_ENTRY_MID, Error::DelimiterNotFound(MAP_ENTRY_MID))
    }

    /// Closes a map entry: `>`.
    pub fn end_entry(&self, des: &mut RfsDeserializer) -> (res: Result<(), Error>)
        requires
            old(des).wf(),
        ensures
            res == decode_byte(
                old(des).rest(),
                MAP_ENTRY_CLOSE,
                Error::DelimiterNotFound(MAP_ENTRY_CLOSE),
            ),
            res is Ok ==> final(des).advanced(old(des), 1),
            final(des).wf(),
            final(des).bytes() == old(des).bytes(),
    {
        des.validate_next_byte(MAP_ENTRY_CLOSE, Error::DelimiterNotFound(MAP_ENTRY_CLOSE))
    }
}

/// A boolean reads back as itself, whatever follows it.
pub proof fn lemma_bool_roundtrip(v: bool, tail: Seq<u8>)
    ensures
        decode_bool(enc_bool(v) + tail) == Some(v),
{
    let r = enc_bool(v) + tail;
    assert(r[0] == PREFIX_BOOL && r[1] == enc_bool(v)[1]);
}

/// An unsigned integer reads back as itself, whatever follows it.
pub proof fn lemma_unsigned_roundtrip(v: u64, tail: Seq<u8>)
    ensures
        decode_num(enc_unsigned(v) + tail, PREFIX_NUM) == Ok::<u64, Error>(v),
        enc_unsigned(v).len() == 9,
{
    lemma_be_u64_roundtrip(v);
    let r = enc_unsigned(v) + tail;
    assert(r.subrange(1, 9) =~= be_bytes_u64(v));
}

/// A signed integer reads back as itself, whatever follows it.
pub proof fn lemma_signed_roundtrip(v: i64, tail: Seq<u8>)
    ensures
        decode_num(enc_signed(v) + tail, PREFIX_NUM) is Ok,
        decode_num(enc_signed(v) + tail, PREFIX_NUM)->Ok_0 as i64 == v,
        enc_signed(v).len() == 9,
{
    lemma_unsigned_roundtrip(v as u64, tail);
    assert(enc_signed(v) == enc_unsigned(v as u64));
    assert((v as u64) as i64 == v) by (bit_vector);
}

/// Integers narrower than 64 bits survive the widening on the way out and
/// the truncation on the way in.
pub proof fn lemma_narrow_integers_roundtrip(a: u8, b: u16, c: u32, d: i8, e: i16, f: i32)
    ensures
        (a as u64) as u8 == a,
        (b as u64) as u16 == b,
        (c as u64) as u32 == c,
        (((d as i64) as u64) as i64) as i8 == d,
        (((e as i64) as u64) as i64) as i16 == e,
        (((f as i64) as u64) as i64) as i32 == f,
{
    assert((a as u64) as u8 == a) by (bit_vector);
    assert((b as u64) as u16 == b) by (bit_vector);
    assert((c as u64) as u32 == c) by (bit_vector);
    assert((((d as i64) as u64) as i64) as i8 == d) by (bit_vector);
    assert((((e as i64) as u64) as i64) as i16 == e) by (bit_vector);
    assert((((f as i64) as u64) as i64) as i32 == f) by (bit_vector);
}

/// A char reads back as its scalar value, whatever follows it.
pub proof fn lemma_char_roundtrip(c: char, tail: Seq<u8>)
    ensures
        decode_char(enc_char(c) + tail) == Ok::<u32, Error>(c as u32),
        enc_char(c).len() == 4,
{
    lemma_be_u32_roundtrip(c as u32);
    let r = enc_char(c) + tail;
    assert(r.subrange(0, 4) =~= be_bytes_u32(c as u32));
}

/// A labelled run of bytes reads back as itself, whatever follows it.
pub proof fn lemma_sized_roundtrip(prefix: u8, bytes: Seq<u8>, tail: Seq<u8>)
    requires
        bytes.len() <= u64::MAX,
    ensures
        decode_sized(enc_sized(prefix, bytes) + tail, prefix) == Ok::<Seq<u8>, Error>(bytes),
        enc_sized(prefix, bytes).len() == 9 + bytes.len(),
{
    let n = bytes.len() as u64;
    lemma_be_u64_roundtrip(n);
    let r = enc_sized(prefix, bytes) + tail;
    let q = r.drop_first();
    assert(q =~= be_bytes_u64(n) + bytes + tail);
    assert(q.subrange(0, 8) =~= be_bytes_u64(n));
    assert(q.subrange(8, 8 + n) =~= bytes);
}

/// Strings and byte arrays read back as themselves, whatever follows them.
pub proof fn lemma_str_bytes_roundtrip(bytes: Seq<u8>, tail: Seq<u8>)
    requires
        bytes.len() <= u64::MAX,
    ensures
        decode_sized(enc_str(bytes) + tail, PREFIX_STR) == Ok::<Seq<u8>, Error>(bytes),
        decode_sized(enc_bytes(bytes) + tail, PREFIX_BYTES) == Ok::<Seq<u8>, Error>(bytes),
{
    lemma_sized_roundtrip(PREFIX_STR, bytes, tail);
    lemma_sized_roundtrip(PREFIX_BYTES, bytes, tail);
}

/// Option markers, the unit value and variant labels read back as themselves.
pub proof fn lemma_marker_roundtrips(name: Seq<u8>, tail: Seq<u8>)
    requires
        name.len() <= u64::MAX,
    ensures
        decode_option(enc_none() + tail) == Ok::<bool, Error>(false),
        decode_option(enc_some_prefix() + tail) == Ok::<bool, Error>(true),
        decode_byte(enc_unit() + tail, PREFIX_UNIT, Error::PrefixNotMatched(PREFIX_UNIT)) == Ok::<
            (),
            Error,
        >(()),
        decode_byte(enc_variant(name) + tail, PREFIX_ENUM, Error::PrefixNotMatched(PREFIX_ENUM))
            == Ok::<(), Error>(()),
        decode_sized((enc_variant(name) + tail).drop_first(), PREFIX_STR) == Ok::<Seq<u8>, Error>(
            name,
        ),
{
    let a = enc_none() + tail;
    assert(a[0] == PREFIX_OPTIONAL && a[1] == OPTION_NONE);
    let b = enc_some_prefix() + tail;
    assert(b[0] == PREFIX_OPTIONAL && b[1] == OPTION_SOME);
    let c = enc_unit() + tail;
    assert(c[0] == PREFIX_UNIT);
    let d = enc_variant(name) + tail;
    assert(d[0] == PREFIX_ENUM);
    assert(d.drop_first() =~= enc_str(name) + tail);
    lemma_sized_roundtrip(PREFIX_STR, name, tail);
}

/// The label of every labelled encoding announces the kind it belongs to.
pub proof fn lemma_kinds_of_encodings(v: bool, n: u64, i: i64, bytes: Seq<u8>)
    ensures
        kind_of_prefix(enc_bool(v)[0]) == Some(AnyKind::Bool),
        kind_of_prefix(enc_unsigned(n)[0]) == Some(AnyKind::Num),
        kind_of_prefix(enc_signed(i)[0]) == Some(AnyKind::Num),
        kind_of_prefix(enc_str(bytes)[0]) == Some(AnyKind::Str),
        kind_of_prefix(enc_bytes(bytes)[0]) == Some(AnyKind::Bytes),
        kind_of_prefix(enc_none()[0]) == Some(AnyKind::Optional),
        kind_of_prefix(enc_some_prefix()[0]) == Some(AnyKind::Optional),
        kind_of_prefix(enc_unit()[0]) == Some(AnyKind::Unit),
        kind_of_prefix(enc_variant(bytes)[0]) == Some(AnyKind::Enum),
        kind_of_prefix(PREFIX_SEQ) == Some(AnyKind::Sequence),
        kind_of_prefix(PREFIX_SEQ_CONST) == Some(AnyKind::SeqConst),
        kind_of_prefix(PREFIX_MAP) == Some(AnyKind::MapLike),
{
}

} // verus!
