//! The serializer: each method appends the encoding of one element of the
//! serde data model to the output buffer.

use vstd::prelude::*;
use vstd::string::StringSliceAdditionalSpecFns;

use super::consts::{
    BOOL_FALSE, BOOL_TRUE, MAP_CLOSE, MAP_ENTRY_CLOSE, MAP_ENTRY_MID, MAP_ENTRY_OPEN, MAP_OPEN,
    OPTION_NONE, OPTION_SOME, PREFIX_BOOL, PREFIX_BYTES, PREFIX_ENUM, PREFIX_MAP, PREFIX_NUM,
    PREFIX_OPTIONAL, PREFIX_SEQ, PREFIX_SEQ_CONST, PREFIX_STR, PREFIX_UNIT, SEQ_CLOSE,
    SEQ_CONST_CLOSE, SEQ_CONST_OPEN, SEQ_OPEN,
};
use super::{be_bytes_u32, be_bytes_u64, extend_bytes, u32_to_be_bytes, u64_to_be_bytes};

verus! {

/// Encoding of a boolean.
pub open spec fn enc_bool(v: bool) -> Seq<u8> {
    seq![PREFIX_BOOL, if v { BOOL_TRUE } else { BOOL_FALSE }]
}

/// Encoding of an unsigned integer (every width travels as a `u64`).
pub open spec fn enc_unsigned(v: u64) -> Seq<u8> {
    seq![PREFIX_NUM] + be_bytes_u64(v)
}

/// Encoding of a signed integer (every width travels as an `i64`).
pub open spec fn enc_signed(v: i64) -> Seq<u8> {
    seq![PREFIX_NUM] + be_bytes_u64(v as u64)
}

/// Encoding of a char: its scalar value in 4 big-endian bytes, unlabelled.
pub open spec fn enc_char(c: char) -> Seq<u8> {
    be_bytes_u32(c as u32)
}

/// A labelled, length-prefixed run of bytes.
pub open spec fn enc_sized(prefix: u8, bytes: Seq<u8>) -> Seq<u8> {
    seq![prefix] + be_bytes_u64(bytes.len() as u64) + bytes
}

/// Encoding of a string, given its UTF-8 bytes.
pub open spec fn enc_str(bytes: Seq<u8>) -> Seq<u8> {
    enc_sized(PREFIX_STR, bytes)
}

/// Encoding of a byte array.
pub open spec fn enc_bytes(bytes: Seq<u8>) -> Seq<u8> {
    enc_sized(PREFIX_BYTES, bytes)
}

/// Encoding of `None`.
pub open spec fn enc_none() -> Seq<u8> {
    seq![PREFIX_OPTIONAL, OPTION_NONE]
}

/// The bytes in front of the value held by `Some`.
pub open spec fn enc_some_prefix() -> Seq<u8> {
    seq![PREFIX_OPTIONAL, OPTION_SOME]
}

/// Encoding of the unit value.
pub open spec fn enc_unit() -> Seq<u8> {
    seq![PREFIX_UNIT]
}

/// The bytes that name an enum variant.
pub open spec fn enc_variant(name: Seq<u8>) -> Seq<u8> {
    seq![PREFIX_ENUM] + enc_str(name)
}

/// This data structure holds the serialized bytes of a data structure.
pub struct RfsSerializer {
    pub(crate) output: Vec<u8>,
}

impl Default for RfsSerializer {
    fn default() -> (res: Self)
        ensures
            res.written() == Seq::<u8>::empty(),
    {
        Self { output: Vec::new() }
    }
}

impl RfsSerializer {
    /// The bytes written so far.
    pub closed spec fn written(&self) -> Seq<u8> {
        self.output@
    }

    /// Create a serializer with an empty output.
    pub fn new() -> (res: Self)
        ensures
            res.written() == Seq::<u8>::empty(),
    {
        Self { output: Vec::new() }
    }

    /// Returns the serialized bytes.
    pub fn into_output(self) -> (res: Vec<u8>)
        ensures
            res@ == self.written(),
    {
        self.output
    }

    /// Appends a boolean.
    pub fn serialize_bool(&mut self, v: bool)
        ensures
            final(self).written() == old(self).written() + enc_bool(v),
    {
        self.output.push(PREFIX_BOOL);
        if v {
            self.output.push(BOOL_TRUE);
        } else {
            self.output.push(BOOL_FALSE);
        }
        assert(self.output@ =~= old(self).written() + enc_bool(v));
    }

    /// Appends a signed integer, widened to 64 bits.
    pub fn serialize_i64(&mut self, v: i64)
        ensures
            final(self).written() == old(self).written() + enc_signed(v),
    {
        self.output.push(PREFIX_NUM);
        let bytes = u64_to_be_bytes(v as u64);
        extend_bytes(&mut self.output, bytes.as_slice());
        assert(self.output@ =~= old(self).written() + enc_signed(v));
    }

    /// Appends an `i32`, widened to 64 bits.
    pub fn serialize_i32(&mut self, v: i32)
        ensures
            final(self).written() == old(self).written() + enc_signed(v as i64),
    {
        self.serialize_i64(v as i64)
    }

    /// Appends an `i16`, widened to 64 bits.
    pub fn serialize_i16(&mut self, v: i16)
        ensures
            final(self).written() == old(self).written() + enc_signed(v as i64),
    {
        self.serialize_i64(v as i64)
    }

    /// Appends an `i8`, widened to 64 bits.
    pub fn serialize_i8(&mut self, v: i8)
        ensures
            final(self).written() == old(self).written() + enc_signed(v as i64),
    {
        self.serialize_i64(v as i64)
    }

    /// Appends an unsigned integer, widened to 64 bits.
    pub fn serialize_u64(&mut self, v: u64)
        ensures
            final(self).written() == old(self).written() + enc_unsigned(v),
    {
        self.output.push(PREFIX_NUM);
        let bytes = u64_to_be_bytes(v);
        extend_bytes(&mut self.output, bytes.as_slice());
        assert(self.output@ =~= old(self).written() + enc_unsigned(v));
    }

    /// Appends a `u32`, widened to 64 bits.
    pub fn serialize_u32(&mut self, v: u32)
        ensures
            final(self).written() == old(self).written() + enc_unsigned(v as u64),
    {
        self.serialize_u64(v as u64)
    }

    /// Appends a `u16`, widened to 64 bits.
    pub fn serialize_u16(&mut self, v: u16)
        ensures
            final(self).written() == old(self).written() + enc_unsigned(v as u64),
    {
        self.serialize_u64(v as u64)
    }

    /// Appends a `u8`, widened to 64 bits.
    pub fn serialize_u8(&mut self, v: u8)
        ensures
            final(self).written() == old(self).written() + enc_unsigned(v as u64),
    {
        self.serialize_u64(v as u64)
    }

    /// Appends a char as its 4-byte scalar value.
    pub fn serialize_char(&mut self, v: char)
        ensures
            final(self).written() == old(self).written() + enc_char(v),
    {
        let bytes = u32_to_be_bytes(v as u32);
        extend_bytes(&mut self.output, bytes.as_slice());
    }

    /// Writes a label, the length of `bytes` and `bytes`.
    fn write_sized(&mut self, prefix: u8, bytes: &[u8])
        ensures
            final(self).written() == old(self).written() + enc_sized(prefix, bytes@),
    {
        self.output.push(prefix);
        let len = u64_to_be_bytes(bytes.len() as u64);
        extend_bytes(&mut self.output, len.as_slice());
        extend_bytes(&mut self.output, bytes);
        assert(self.output@ =~= old(self).written() + enc_sized(prefix, bytes@));
    }

    /// Appends a string.
    pub fn serialize_str(&mut self, v: &str)
        ensures
            final(self).written() == old(self).written() + enc_str(v.spec_bytes()),
    {
        self.write_sized(PREFIX_STR, v.as_bytes())
    }

    /// Appends a byte array.
    pub fn serialize_bytes(&mut self, v: &[u8])
        ensures
            final(self).written() == old(self).written() + enc_bytes(v@),
    {
        self.write_sized(PREFIX_BYTES, v)
    }

    /// Appends `None`.
    pub fn serialize_none(&mut self)
        ensures
            final(self).written() == old(self).written() + enc_none(),
    {
        self.output.push(PREFIX_OPTIONAL);
        self.output.push(OPTION_NONE);
        assert(self.output@ =~= old(self).written() + enc_none());
    }

    /// Appends the marker of `Some`; the held value is serialized next.
    pub fn serialize_some(&mut self)
        ensures
            final(self).written() == old(self).written() + enc_some_prefix(),
    {
        self.output.push(PREFIX_OPTIONAL);
        self.output.push(OPTION_SOME);
        assert(self.output@ =~= old(self).written() + enc_some_prefix());
    }

    /// Appends the unit value.
    pub fn serialize_unit(&mut self)
        ensures
            final(self).written() == old(self).written() + enc_unit(),
    {
        self.output.push(PREFIX_UNIT);
        assert(self.output@ =~= old(self).written() + enc_unit());
    }

    /// Appends a unit struct, encoded as the unit value.
    pub fn serialize_unit_struct(&mut self)
        ensures
            final(self).written() == old(self).written() + enc_unit(),
    {
        self.serialize_unit()
    }

    /// Appends a unit variant: the enum label and the variant's name.
    pub fn serialize_unit_variant(&mut self, variant: &str)
        ensures
            final(self).written() == old(self).written() + enc_variant(variant.spec_bytes()),
    {
        self.output.push(PREFIX_ENUM);
        self.serialize_str(variant);
        assert(self.output@ =~= old(self).written() + enc_variant(variant.spec_bytes()));
    }

    /// Appends the name of a newtype variant; the held value is serialized next.
    pub fn serialize_newtype_variant(&mut self, variant: &str)
        ensures
            final(self).written() == old(self).written() + enc_variant(variant.spec_bytes()),
    {
        self.serialize_unit_variant(variant)
    }

    /// Opens a sequence with an arbitrary number of elements.
    pub fn serialize_seq(&mut self)
        ensures
            final(self).written() == old(self).written() + seq![PREFIX_SEQ, SEQ_OPEN],
    {
        self.output.push(PREFIX_SEQ);
        self.output.push(SEQ_OPEN);
        assert(self.output@ =~= old(self).written() + seq![PREFIX_SEQ, SEQ_OPEN]);
    }

    /// Closes a sequence with an arbitrary number of elements.
    pub fn end_seq(&mut self)
        ensures
            final(self).written() == old(self).written().push(SEQ_CLOSE),
    {
        self.output.push(SEQ_CLOSE);
    }

    /// Opens a tuple (a sequence with a known number of elements).
    pub fn serialize_tuple(&mut self)
        ensures
            final(self).written() == old(self).written() + seq![PREFIX_SEQ_CONST, SEQ_CONST_OPEN],
    {
        self.output.push(PREFIX_SEQ_CONST);
        self.output.push(SEQ_CONST_OPEN);
        assert(self.output@ =~= old(self).written() + seq![PREFIX_SEQ_CONST, SEQ_CONST_OPEN]);
    }

    /// Closes a tuple.
    pub fn end_tuple(&mut self)
        ensures
            final(self).written() == old(self).written().push(SEQ_CONST_CLOSE),
    {
        self.output.push(SEQ_CONST_CLOSE);
    }

    /// Opens a tuple struct, encoded as a tuple.
    pub fn serialize_tuple_struct(&mut self)
        ensures
            final(self).written() == old(self).written() + seq![PREFIX_SEQ_CONST, SEQ_CONST_OPEN],
    {
        self.serialize_tuple()
    }

    /// Ends a tuple struct or tuple variant; nothing is written.
    pub fn end_tuple_struct(&mut self)
        ensures
            final(self).written() == old(self).written(),
    {
    }

    /// Opens a tuple variant: the variant's name, then a tuple.
    pub fn serialize_tuple_variant(&mut self, variant: &str)
        ensures
            final(self).written() == old(self).written() + enc_variant(variant.spec_bytes()) + seq![
                PREFIX_SEQ_CONST,
                SEQ_CONST_OPEN,
            ],
    {
        self.serialize_unit_variant(variant);
        self.serialize_tuple();
    }

    /// Opens a map.
    pub fn serialize_map(&mut self)
        ensures
            final(self).written() == old(self).written() + seq![PREFIX_MAP, MAP_OPEN],
    {
        self.output.push(PREFIX_MAP);
        self.output.push(MAP_OPEN);
        assert(self.output@ =~= old(self).written() + seq![PREFIX_MAP, MAP_OPEN]);
    }

    /// Closes a map or a struct.
    pub fn end_map(&mut self)
        ensures
            final(self).written() == old(self).written().push(MAP_CLOSE),
    {
        self.output.push(MAP_CLOSE);
    }

    /// Opens a struct, encoded as a map.
    pub fn serialize_struct(&mut self)
        ensures
            final(self).written() == old(self).written() + seq![PREFIX_MAP, MAP_OPEN],
    {
        self.serialize_map()
    }

    /// Opens a struct variant: the variant's name, then a map.
    pub fn serialize_struct_variant(&mut self, variant: &str)
        ensures
            final(self).written() == old(self).written() + enc_variant(variant.spec_bytes()) + seq![
                PREFIX_MAP,
                MAP_OPEN,
            ],
    {
        self.serialize_unit_variant(variant);
        self.serialize_map();
    }

    /// Opens a map entry; the key is serialized next.
    pub fn begin_entry(&mut self)
        ensures
            final(self).written() == old(self).written().push(MAP_ENTRY_OPEN),
    {
        self.output.push(MAP_ENTRY_OPEN);
    }

    /// Separates a key from its value.
    pub fn entry_mid(&mut self)
        ensures
            final(self).written() == old(self).written().push(MAP_ENTRY_MID),
    {
        self.output.push(MAP_ENTRY_MID);
    }

    /// Closes a map entry.
    pub fn end_entry(&mut self)
        ensures
            final(self).written() == old(self).written().push(MAP_ENTRY_CLOSE),
    {
        self.output.push(MAP_ENTRY_CLOSE);
    }

    /// Appends a struct field's name and opens its value: `<`, the name, `-`.
    pub fn begin_field(&mut self, key: &str)
        ensures
            final(self).written() == old(self).written().push(MAP_ENTRY_OPEN) + enc_str(
                key.spec_bytes(),
            ).push(MAP_ENTRY_MID),
    {
        self.begin_entry();
        self.serialize_str(key);
        self.entry_mid();
        assert(self.output@ =~= old(self).written().push(MAP_ENTRY_OPEN) + enc_str(
            key.spec_bytes(),
        ).push(MAP_ENTRY_MID));
    }
}

} // verus!
