//! Serialization and deserialization module.
//!
//! The byte-level cursor [`ByteViewer`], big-endian integer codecs and the
//! header framing used by remote invocations live here.

pub mod byte_packer;
pub mod consts;
pub mod de;
pub mod err;
pub mod ser;

use vstd::prelude::*;

use self::byte_packer::{lemma_pack_unpack_roundtrip, pack_bytes, pack_spec, packs_unambiguously, unpack_bytes, unpack_spec};
use self::err::Error;

verus! {

/// Size prefix of contiguous collections; all integers travel as 8 bytes.
pub type ByteSizePrefix = u64;

/// The big-endian encoding of a `u64`, most significant byte first.
pub open spec fn be_bytes_u64(v: u64) -> Seq<u8> {
    seq![
        (v >> 56u64) as u8,
        (v >> 48u64) as u8,
        (v >> 40u64) as u8,
        (v >> 32u64) as u8,
        (v >> 24u64) as u8,
        (v >> 16u64) as u8,
        (v >> 8u64) as u8,
        v as u8,
    ]
}

/// The `u64` whose big-endian encoding is the first 8 bytes of `s`.
pub open spec fn from_be_u64(s: Seq<u8>) -> u64 {
    ((s[0] as u64) << 56u64) | ((s[1] as u64) << 48u64) | ((s[2] as u64) << 40u64) | ((
    s[3] as u64) << 32u64) | ((s[4] as u64) << 24u64) | ((s[5] as u64) << 16u64) | ((
    s[6] as u64) << 8u64) | (s[7] as u64)
}

/// The big-endian encoding of a `u32`.
pub open spec fn be_bytes_u32(v: u32) -> Seq<u8> {
    seq![(v >> 24u32) as u8, (v >> 16u32) as u8, (v >> 8u32) as u8, v as u8]
}

/// The `u32` whose big-endian encoding is the first 4 bytes of `s`.
pub open spec fn from_be_u32(s: Seq<u8>) -> u32 {
    ((s[0] as u32) << 24u32) | ((s[1] as u32) << 16u32) | ((s[2] as u32) << 8u32) | (s[3] as u32)
}

/// Decoding the big-endian bytes of a `u64` gives the number back.
pub proof fn lemma_be_u64_roundtrip(v: u64)
    ensures
        from_be_u64(be_bytes_u64(v)) == v,
        be_bytes_u64(v).len() == 8,
{
    let s = be_bytes_u64(v);
    let (b0, b1, b2, b3, b4, b5, b6, b7) = (s[0], s[1], s[2], s[3], s[4], s[5], s[6], s[7]);
    assert(b0 == (v >> 56u64) as u8 && b1 == (v >> 48u64) as u8 && b2 == (v >> 40u64) as u8 && b3
        == (v >> 32u64) as u8 && b4 == (v >> 24u64) as u8 && b5 == (v >> 16u64) as u8 && b6 == (v
        >> 8u64) as u8 && b7 == v as u8);
    assert(((b0 as u64) << 56u64) | ((b1 as u64) << 48u64) | ((b2 as u64) << 40u64) | ((
    b3 as u64) << 32u64) | ((b4 as u64) << 24u64) | ((b5 as u64) << 16u64) | ((b6 as u64) << 8u64)
        | (b7 as u64) == v) by (bit_vector)
        requires
            b0 == (v >> 56u64) as u8,
            b1 == (v >> 48u64) as u8,
            b2 == (v >> 40u64) as u8,
            b3 == (v >> 32u64) as u8,
            b4 == (v >> 24u64) as u8,
            b5 == (v >> 16u64) as u8,
            b6 == (v >> 8u64) as u8,
            b7 == v as u8,
    ;
}

/// `from_be_u64` only reads the first 8 bytes.
pub proof fn lemma_from_be_u64_prefix(a: Seq<u8>, b: Seq<u8>)
    requires
        a.len() >= 8,
        b.len() >= 8,
        forall|i: int| 0 <= i < 8 ==> a[i] == b[i],
    ensures
        from_be_u64(a) == from_be_u64(b),
{
    assert(a[0] == b[0] && a[1] == b[1] && a[2] == b[2] && a[3] == b[3]);
    assert(a[4] == b[4] && a[5] == b[5] && a[6] == b[6] && a[7] == b[7]);
}

/// Re-encoding 8 decoded bytes gives the bytes back.
pub proof fn lemma_be_u64_injective(s: Seq<u8>)
    requires
        s.len() == 8,
    ensures
        be_bytes_u64(from_be_u64(s)) == s,
{
    let (b0, b1, b2, b3, b4, b5, b6, b7) = (s[0], s[1], s[2], s[3], s[4], s[5], s[6], s[7]);
    let v = from_be_u64(s);
    assert(v == ((b0 as u64) << 56u64) | ((b1 as u64) << 48u64) | ((b2 as u64) << 40u64) | ((
    b3 as u64) << 32u64) | ((b4 as u64) << 24u64) | ((b5 as u64) << 16u64) | ((b6 as u64) << 8u64)
        | (b7 as u64));
    assert(b0 == (v >> 56u64) as u8 && b1 == (v >> 48u64) as u8 && b2 == (v >> 40u64) as u8 && b3
        == (v >> 32u64) as u8 && b4 == (v >> 24u64) as u8 && b5 == (v >> 16u64) as u8 && b6 == (v
        >> 8u64) as u8 && b7 == v as u8) by (bit_vector)
        requires
            v == ((b0 as u64) << 56u64) | ((b1 as u64) << 48u64) | ((b2 as u64) << 40u64) | ((
            b3 as u64) << 32u64) | ((b4 as u64) << 24u64) | ((b5 as u64) << 16u64) | ((
            b6 as u64) << 8u64) | (b7 as u64),
    ;
    assert(be_bytes_u64(v) =~= s);
}

/// Decoding the big-endian bytes of a `u32` gives the number back.
pub proof fn lemma_be_u32_roundtrip(v: u32)
    ensures
        from_be_u32(be_bytes_u32(v)) == v,
        be_bytes_u32(v).len() == 4,
{
    let s = be_bytes_u32(v);
    let (b0, b1, b2, b3) = (s[0], s[1], s[2], s[3]);
    assert(((b0 as u32) << 24u32) | ((b1 as u32) << 16u32) | ((b2 as u32) << 8u32) | (b3 as u32)
        == v) by (bit_vector)
        requires
            b0 == (v >> 24u32) as u8,
            b1 == (v >> 16u32) as u8,
            b2 == (v >> 8u32) as u8,
            b3 == v as u8,
    ;
}

/// Returns the big-endian bytes of a `u64`.
pub fn u64_to_be_bytes(v: u64) -> (res: [u8; 8])
    ensures
        res@ == be_bytes_u64(v),
{
    let res = [
        (v >> 56u64) as u8,
        (v >> 48u64) as u8,
        (v >> 40u64) as u8,
        (v >> 32u64) as u8,
        (v >> 24u64) as u8,
        (v >> 16u64) as u8,
        (v >> 8u64) as u8,
        v as u8,
    ];
    assert(res@ =~= be_bytes_u64(v));
    res
}

/// Builds a `u64` from its big-endian bytes.
pub fn u64_from_be_bytes(b: [u8; 8]) -> (res: u64)
    ensures
        res == from_be_u64(b@),
{
    ((b[0] as u64) << 56u64) | ((b[1] as u64) << 48u64) | ((b[2] as u64) << 40u64) | ((
    b[3] as u64) << 32u64) | ((b[4] as u64) << 24u64) | ((b[5] as u64) << 16u64) | ((
    b[6] as u64) << 8u64) | (b[7] as u64)
}

/// Returns the big-endian bytes of a `u32`.
pub fn u32_to_be_bytes(v: u32) -> (res: [u8; 4])
    ensures
        res@ == be_bytes_u32(v),
{
    let res = [(v >> 24u32) as u8, (v >> 16u32) as u8, (v >> 8u32) as u8, v as u8];
    assert(res@ =~= be_bytes_u32(v));
    res
}

/// Builds a `u32` from its big-endian bytes.
pub fn u32_from_be_bytes(b: [u8; 4]) -> (res: u32)
    ensures
        res == from_be_u32(b@),
{
    ((b[0] as u32) << 24u32) | ((b[1] as u32) << 16u32) | ((b[2] as u32) << 8u32) | (b[3] as u32)
}

/// Appends the bytes of `bytes` to `out`.
pub fn extend_bytes(out: &mut Vec<u8>, bytes: &[u8])
    ensures
        final(out)@ == old(out)@ + bytes@,
{
    let mut i: usize = 0;
    while i < bytes.len()
        invariant
            i <= bytes@.len(),
            out@ == old(out)@ + bytes@.subrange(0, i as int),
        decreases bytes@.len() - i,
    {
        out.push(bytes[i]);
        i = i + 1;
        assert(out@ =~= old(out)@ + bytes@.subrange(0, i as int));
    }
    assert(bytes@.subrange(0, i as int) =~= bytes@);
}

/// Index of the first occurrence of `b` in `s`, or `-1` when there is none.
pub open spec fn first_index_of(s: Seq<u8>, b: u8) -> int
    decreases s.len(),
{
    if s.len() == 0 {
        -1
    } else if s[0] == b {
        0
    } else {
        let r = first_index_of(s.drop_first(), b);
        if r < 0 {
            -1
        } else {
            r + 1
        }
    }
}

/// `first_index_of` is either `-1` with no occurrence, or the position of the first one.
pub proof fn lemma_first_index_of(s: Seq<u8>, b: u8)
    ensures
        -1 <= first_index_of(s, b) < s.len(),
        first_index_of(s, b) == -1 ==> forall|j: int| 0 <= j < s.len() ==> s[j] != b,
        first_index_of(s, b) >= 0 ==> s[first_index_of(s, b)] == b && forall|j: int|
            0 <= j < first_index_of(s, b) ==> s[j] != b,
    decreases s.len(),
{
    if s.len() > 0 && s[0] != b {
        lemma_first_index_of(s.drop_first(), b);
        let t = s.drop_first();
        assert forall|j: int| 0 < j < s.len() implies s[j] == t[j - 1] by {}
    }
}

/// Number of leading elements of `s` equal to `b`.
pub open spec fn run_len(s: Seq<u8>, b: u8) -> nat
    decreases s.len(),
{
    if s.len() > 0 && s[0] == b {
        1 + run_len(s.drop_first(), b)
    } else {
        0
    }
}

/// The run is a prefix of equal elements that cannot be extended.
pub proof fn lemma_run_len(s: Seq<u8>, b: u8)
    ensures
        run_len(s, b) <= s.len(),
        forall|j: int| 0 <= j < run_len(s, b) ==> s[j] == b,
        run_len(s, b) < s.len() ==> s[run_len(s, b) as int] != b,
    decreases s.len(),
{
    if s.len() > 0 && s[0] == b {
        let t = s.drop_first();
        lemma_run_len(t, b);
        assert forall|j: int| 0 <= j < run_len(s, b) implies s[j] == b by {
            if j > 0 {
                assert(s[j] == t[j - 1]);
            }
        }
        if run_len(s, b) < s.len() {
            assert(s[run_len(s, b) as int] == t[run_len(t, b) as int]);
        }
    }
}

/// A read-only cursor over a slice of bytes.
///
/// The viewer can perform various immutable operations on the slice and be
/// advanced up to (and including) its end.
pub struct ByteViewer<'arr> {
    slice: &'arr [u8],
    size: usize,
    offset: usize,
}

impl<'arr> ByteViewer<'arr> {
    /// The bytes being viewed.
    pub closed spec fn bytes(&self) -> Seq<u8> {
        self.slice@
    }

    /// The current position of the cursor.
    pub closed spec fn pos(&self) -> int {
        self.offset as int
    }

    /// Well-formedness: the cursor lies within the slice.
    pub closed spec fn wf(&self) -> bool {
        &&& self.size == self.slice@.len()
        &&& self.offset <= self.size
    }

    /// The bytes from the cursor to the end.
    pub open spec fn rest(&self) -> Seq<u8> {
        self.bytes().subrange(self.pos(), self.bytes().len() as int)
    }

    /// The cursor stays within the slice.
    pub proof fn lemma_wf(&self)
        requires
            self.wf(),
        ensures
            0 <= self.pos() <= self.bytes().len(),
            self.bytes().len() <= usize::MAX,
    {
    }

    /// Create a new viewer on a byte slice
    pub fn from_slice(s: &'arr [u8]) -> (res: Self)
        ensures
            res.wf(),
            res.bytes() == s@,
            res.pos() == 0,
    {
        Self { slice: s, size: s.len(), offset: 0 }
    }

    /// Returns the bytes from the internal offset to the end; there must be
    /// at least one left.
    pub fn curr_iter(&self) -> (res: &'arr [u8])
        requires
            self.wf(),
            self.pos() < self.bytes().len(),
        ensures
            res@ == self.rest(),
    {
        &self.slice[self.offset..self.size]
    }

    /// Advance the view on the underlying slice by `steps`.
    ///
    /// The view can be advanced to the end; going past it is an error and
    /// leaves the view unchanged.
    pub fn advance(&mut self, steps: usize) -> (res: Result<(), ()>)
        requires
            old(self).wf(),
        ensures
            final(self).wf(),
            final(self).bytes() == old(self).bytes(),
            res is Ok <==> old(self).pos() + steps <= old(self).bytes().len(),
            res is Ok ==> final(self).pos() == old(self).pos() + steps,
            res is Err ==> final(self).pos() == old(self).pos(),
    {
        if steps <= self.size - self.offset {
            self.offset = self.offset + steps;
            Ok(())
        } else {
            Err(())
        }
    }

    /// Peek at the next byte in the slice; `None` at the end.
    pub fn peek(&self) -> (res: Option<u8>)
        requires
            self.wf(),
        ensures
            self.pos() < self.bytes().len() ==> res == Some(self.bytes()[self.pos()]),
            self.pos() >= self.bytes().len() ==> res is None,
    {
        if self.offset < self.size {
            Some(self.slice[self.offset])
        } else {
            None
        }
    }

    /// Takes the next 8 bytes as a big-endian size prefix and advances past them.
    pub fn pop_size(&mut self) -> (res: ByteSizePrefix)
        requires
            old(self).wf(),
            old(self).pos() + 8 <= old(self).bytes().len(),
        ensures
            final(self).wf(),
            final(self).bytes() == old(self).bytes(),
            final(self).pos() == old(self).pos() + 8,
            res == from_be_u64(old(self).rest()),
    {
        let size_bytes = self.next_bytes_fixed::<8>(true);
        u64_from_be_bytes(size_bytes)
    }

    /// Return the next byte and advance the view.
    pub fn next_byte(&mut self) -> (res: u8)
        requires
            old(self).wf(),
            old(self).pos() < old(self).bytes().len(),
        ensures
            final(self).wf(),
            final(self).bytes() == old(self).bytes(),
            final(self).pos() == old(self).pos() + 1,
            res == old(self).bytes()[old(self).pos()],
    {
        let b = self.slice[self.offset];
        self.offset = self.offset + 1;
        b
    }

    /// Returns the next `size` bytes, advancing past them when `advance` is set.
    pub fn next_bytes(&mut self, size: usize, advance: bool) -> (res: &'arr [u8])
        requires
            old(self).wf(),
            old(self).pos() + size <= old(self).bytes().len(),
        ensures
            final(self).wf(),
            final(self).bytes() == old(self).bytes(),
            res@ == old(self).bytes().subrange(old(self).pos(), old(self).pos() + size),
            final(self).pos() == if advance {
                old(self).pos() + size
            } else {
                old(self).pos()
            },
    {
        let view = &self.slice[self.offset..self.offset + size];
        if advance {
            self.offset = self.offset + size;
        }
        view
    }

    /// Returns a copy of the next `ARR_SIZE` bytes as an array, advancing past
    /// them when `advance` is set.
    pub fn next_bytes_fixed<const ARR_SIZE: usize>(&mut self, advance: bool) -> (res: [u8; ARR_SIZE])
        requires
            old(self).wf(),
            old(self).pos() + ARR_SIZE <= old(self).bytes().len(),
        ensures
            final(self).wf(),
            final(self).bytes() == old(self).bytes(),
            res@ == old(self).bytes().subrange(old(self).pos(), old(self).pos() + ARR_SIZE),
            final(self).pos() == if advance {
                old(self).pos() + ARR_SIZE
            } else {
                old(self).pos()
            },
    {
        let mut arr = [0u8;ARR_SIZE];
        let mut i: usize = 0;
        while i < ARR_SIZE
            invariant
                self.wf(),
                self.pos() + ARR_SIZE <= self.bytes().len(),
                i <= ARR_SIZE,
                arr@.len() == ARR_SIZE,
                forall|k: int| 0 <= k < i ==> arr@[k] == self.bytes()[self.pos() + k],
            decreases ARR_SIZE - i,
        {
            arr.set(i, self.slice[self.offset + i]);
            i = i + 1;
        }
        if advance {
            self.offset = self.offset + ARR_SIZE;
        }
        assert(arr@ =~= old(self).bytes().subrange(old(self).pos(), old(self).pos() + ARR_SIZE));
        arr
    }

    /// Finds the next byte equal to `byte` and returns its distance from the cursor.
    pub fn find_byte(&self, byte: u8) -> (res: Option<usize>)
        requires
            self.wf(),
        ensures
            res is None <==> first_index_of(self.rest(), byte) == -1,
            res matches Some(k) ==> k == first_index_of(self.rest(), byte),
    {
        proof {
            lemma_first_index_of(self.rest(), byte);
        }
        let mut i: usize = self.offset;
        while i < self.size
            invariant
                self.wf(),
                self.pos() <= i <= self.bytes().len(),
                forall|j: int| self.pos() <= j < i ==> self.bytes()[j] != byte,
            decreases self.size - i,
        {
            if self.slice[i] == byte {
                proof {
                    lemma_first_index_of(self.rest(), byte);
                    let k = first_index_of(self.rest(), byte);
                    assert(self.rest()[i - self.pos()] == byte);
                    if k == -1 || k > i - self.pos() {
                        assert(false);
                    }
                    if k < i - self.pos() {
                        assert(self.rest()[k] == self.bytes()[self.pos() + k]);
                    }
                }
                return Some(i - self.offset);
            }
            i = i + 1;
        }
        proof {
            let k = first_index_of(self.rest(), byte);
            if k >= 0 {
                assert(self.rest()[k] == self.bytes()[self.pos() + k]);
            }
        }
        None
    }

    /// Returns the number of bytes equal to the byte at the cursor, counted
    /// from the cursor up to the first different byte (0 at the end).
    pub fn num_duplicates(&mut self) -> (res: usize)
        requires
            old(self).wf(),
        ensures
            *final(self) == *old(self),
            old(self).pos() == old(self).bytes().len() ==> res == 0,
            old(self).pos() < old(self).bytes().len() ==> res == run_len(
                old(self).rest(),
                old(self).rest()[0],
            ),
    {
        if self.offset >= self.size {
            return 0;
        }
        let first = self.slice[self.offset];
        let ghost r = self.rest();
        proof {
            lemma_run_len(r, first);
        }
        let mut i: usize = self.offset;
        while i < self.size && self.slice[i] == first
            invariant
                self.wf(),
                r == self.rest(),
                self.pos() < self.bytes().len(),
                first == r[0],
                self.pos() <= i <= self.bytes().len(),
                i - self.pos() <= run_len(r, first),
            decreases self.size - i,
        {
            proof {
                lemma_run_len(r, first);
                if i - self.pos() == run_len(r, first) {
                    assert(r[i - self.pos()] == self.bytes()[i as int]);
                }
            }
            i = i + 1;
        }
        proof {
            lemma_run_len(r, first);
            if i - self.pos() < run_len(r, first) {
                assert(r[i - self.pos()] == first);
                assert(r[i - self.pos()] == self.bytes()[i as int]);
            }
        }
        i - self.offset
    }

    /// Returns the number of bytes between the cursor and the end.
    pub fn distance_to_end(&self) -> (res: usize)
        requires
            self.wf(),
        ensures
            res == self.bytes().len() - self.pos(),
    {
        self.size - self.offset
    }

    /// Checks if the viewer has reached the end of the slice.
    pub fn is_end(&self) -> (res: bool)
        requires
            self.wf(),
        ensures
            res <==> self.pos() == self.bytes().len(),
    {
        self.offset == self.size
    }
}

/// Whether `bytes` starts with `prefix`.
pub open spec fn has_prefix(bytes: Seq<u8>, prefix: Seq<u8>) -> bool {
    prefix.len() <= bytes.len() && bytes.subrange(0, prefix.len() as int) == prefix
}

/// Checks whether `bytes` starts with `prefix`.
pub fn starts_with(bytes: &[u8], prefix: &[u8]) -> (res: bool)
    ensures
        res == has_prefix(bytes@, prefix@),
{
    if prefix.len() > bytes.len() {
        return false;
    }
    let mut i: usize = 0;
    while i < prefix.len()
        invariant
            prefix@.len() <= bytes@.len(),
            i <= prefix@.len(),
            forall|j: int| 0 <= j < i ==> bytes@[j] == prefix@[j],
        decreases prefix@.len() - i,
    {
        if bytes[i] != prefix[i] {
            proof {
                assert(bytes@.subrange(0, prefix@.len() as int)[i as int] != prefix@[i as int]);
            }
            return false;
        }
        i = i + 1;
    }
    assert(bytes@.subrange(0, prefix@.len() as int) =~= prefix@);
    true
}

/// Puts `header` in front of `body`.
pub fn prepend_header(header: &[u8], body: &[u8]) -> (res: Vec<u8>)
    ensures
        res@ == header@ + body@,
{
    let mut out: Vec<u8> = Vec::new();
    extend_bytes(&mut out, header);
    extend_bytes(&mut out, body);
    assert(out@ =~= header@ + body@);
    out
}

/// Checks that `bytes` starts with `header` and returns what follows it.
pub fn strip_header<'a>(bytes: &'a [u8], header: &[u8]) -> (res: Result<&'a [u8], Error>)
    ensures
        has_prefix(bytes@, header@) ==> (res matches Ok(body) && body@ == bytes@.subrange(
            header@.len() as int,
            bytes@.len() as int,
        )),
        !has_prefix(bytes@, header@) ==> res == Err::<&[u8], Error>(Error::MalformedData),
{
    if starts_with(bytes, header) {
        Ok(&bytes[header.len()..bytes.len()])
    } else {
        Err(Error::MalformedData)
    }
}

/// Serialized bytes packed behind a header.
pub fn pack_with_header(header: &[u8], serialized: &[u8]) -> (res: Vec<u8>)
    ensures
        res@ == header@ + pack_spec(serialized@),
{
    let packed = pack_bytes(serialized);
    prepend_header(header, packed.as_slice())
}

/// Checks that `bytes` start with `header` and unpacks what follows it.
pub fn unpack_with_header(bytes: &[u8], header: &[u8]) -> (res: Result<Vec<u8>, Error>)
    ensures
        has_prefix(bytes@, header@) ==> (res matches Ok(v) && v@ == unpack_spec(
            bytes@.subrange(header@.len() as int, bytes@.len() as int),
        )),
        !has_prefix(bytes@, header@) ==> res matches Err(Error::MalformedData),
{
    match strip_header(bytes, header) {
        Ok(body) => Ok(unpack_bytes(body)),
        Err(e) => Err(e),
    }
}

/// Packing behind a header and unpacking under the same header gives the
/// serialized bytes back, when their packed form holds no `#x#` window but
/// the markers packing wrote.
pub proof fn lemma_packed_header_roundtrip(header: Seq<u8>, serialized: Seq<u8>)
    requires
        packs_unambiguously(serialized),
    ensures
        has_prefix(header + pack_spec(serialized), header),
        unpack_spec(
            (header + pack_spec(serialized)).subrange(
                header.len() as int,
                (header + pack_spec(serialized)).len() as int,
            ),
        ) == serialized,
{
    lemma_header_roundtrip(header, pack_spec(serialized));
    lemma_pack_unpack_roundtrip(serialized);
}

/// Removing a header that was put in front of a body gives the body back.
pub proof fn lemma_header_roundtrip(header: Seq<u8>, body: Seq<u8>)
    ensures
        has_prefix(header + body, header),
        (header + body).subrange(header.len() as int, (header + body).len() as int) == body,
{
    assert((header + body).subrange(0, header.len() as int) =~= header);
    assert((header + body).subrange(header.len() as int, (header + body).len() as int) =~= body);
}

} // verus!
