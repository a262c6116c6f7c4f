//! Shared constants between serialization and deserialization logic.
//!
//! Higher-level values are prefixed with a one-byte label so that their type
//! can be checked during deserialization.

use vstd::prelude::*;

verus! {

/// Label of booleans.
pub const PREFIX_BOOL: u8 = 0x62;
/// Label of integers; all integers travel as 8 big-endian bytes.
pub const PREFIX_NUM: u8 = 0x6e;
/// Label of floating-point numbers.
pub const PREFIX_FLOAT: u8 = 0x66;
/// Label of strings.
pub const PREFIX_STR: u8 = 0x73;
/// Label of byte arrays.
pub const PREFIX_BYTES: u8 = 0x79;
/// Label of optional values.
pub const PREFIX_OPTIONAL: u8 = 0x6f;
/// Label of the unit value and unit structs.
pub const PREFIX_UNIT: u8 = 0x75;
/// Label of enum variants.
pub const PREFIX_ENUM: u8 = 0x65;
/// Label of sequences with an arbitrary number of elements.
pub const PREFIX_SEQ: u8 = 0x71;
/// Label of sequences with a known number of elements (tuples).
pub const PREFIX_SEQ_CONST: u8 = 0x74;
/// Label of maps and structs.
pub const PREFIX_MAP: u8 = 0x6d;

/// Payload byte of `true`.
pub const BOOL_TRUE: u8 = 0xff;
/// Payload byte of `false`.
pub const BOOL_FALSE: u8 = 0x00;

/// Variant byte of `Some`.
pub const OPTION_SOME: u8 = 0xff;
/// Variant byte of `None`.
pub const OPTION_NONE: u8 = 0x00;

/// Opens a sequence with an arbitrary number of elements.
pub const SEQ_OPEN: u8 = 0x5b;
/// Closes a sequence with an arbitrary number of elements.
pub const SEQ_CLOSE: u8 = 0x5d;
/// Opens a sequence with a known number of elements.
pub const SEQ_CONST_OPEN: u8 = 0x28;
/// Closes a sequence with a known number of elements.
pub const SEQ_CONST_CLOSE: u8 = 0x29;
/// Opens a map.
pub const MAP_OPEN: u8 = 0x7b;
/// Closes a map.
pub const MAP_CLOSE: u8 = 0x7d;
/// Opens a map entry.
pub const MAP_ENTRY_OPEN: u8 = 0x3c;
/// Separates the key and value of a map entry.
pub const MAP_ENTRY_MID: u8 = 0x2d;
/// Closes a map entry.
pub const MAP_ENTRY_CLOSE: u8 = 0x3e;

} // verus!
