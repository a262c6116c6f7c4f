//! Simple byte packing, for reducing the size of a sequence of
//! bytes that contains continuous sequences of `0`s.
//!
//! A run of 4 to 255 zeroes is replaced by the marker `#n#`, and a run of
//! one to three zeroes is copied as it is. A longer run gives a marker of
//! 255 zeroes, and what is left of it is packed the same way (so a left-over
//! of one to three zeroes stays as it is).
//!
//! Unpacking reads every `#n#` window as a marker, so packing and unpacking
//! give the bytes back exactly when the packed form holds no such window
//! that packing did not write itself as a marker.

use vstd::prelude::*;

use super::{extend_bytes, first_index_of, lemma_first_index_of, lemma_run_len, run_len, ByteViewer};

verus! {

/// The delimiter that indicates a packed sequence of zeroes.
pub const BYTE_COUNT_DELIM: u8 = 0x23;

/// `n` zero bytes.
pub open spec fn zeros(n: nat) -> Seq<u8> {
    Seq::new(n, |i: int| 0u8)
}

/// Whether `s` holds no delimiter byte.
pub open spec fn no_delim(s: Seq<u8>) -> bool {
    forall|i: int| 0 <= i < s.len() ==> s[i] != BYTE_COUNT_DELIM
}

/// The packed form of `s`.
pub open spec fn pack_spec(s: Seq<u8>) -> Seq<u8>
    decreases s.len(),
{
    if s.len() == 0 {
        seq![]
    } else if s[0] != 0 {
        seq![s[0]] + pack_spec(s.drop_first())
    } else {
        let n = run_len(s, 0);
        proof {
            lemma_run_len(s, 0);
        }
        if n <= 3 {
            s.subrange(0, n as int) + pack_spec(s.subrange(n as int, s.len() as int))
        } else if n <= 255 {
            seq![BYTE_COUNT_DELIM, n as u8, BYTE_COUNT_DELIM] + pack_spec(
                s.subrange(n as int, s.len() as int),
            )
        } else {
            seq![BYTE_COUNT_DELIM, 255u8, BYTE_COUNT_DELIM] + pack_spec(
                s.subrange(255, s.len() as int),
            )
        }
    }
}

/// The unpacked form of `s`: every `#n#` window met from left to right
/// becomes `n` zeroes; the last two bytes are copied as they are.
pub open spec fn unpack_spec(s: Seq<u8>) -> Seq<u8>
    decreases s.len(),
{
    if s.len() <= 2 {
        s
    } else if s[0] == BYTE_COUNT_DELIM && s[2] == BYTE_COUNT_DELIM {
        zeros(s[1] as nat) + unpack_spec(s.subrange(3, s.len() as int))
    } else {
        seq![s[0]] + unpack_spec(s.drop_first())
    }
}

/// A prefix without zeroes is copied by packing.
proof fn lemma_pack_nonzero_prefix(s: Seq<u8>, k: int)
    requires
        0 <= k <= s.len(),
        forall|j: int| 0 <= j < k ==> s[j] != 0,
    ensures
        pack_spec(s) == s.subrange(0, k) + pack_spec(s.subrange(k, s.len() as int)),
    decreases k,
{
    if k == 0 {
        assert(s.subrange(0, 0) + pack_spec(s.subrange(0, s.len() as int)) =~= pack_spec(s)) by {
            assert(s.subrange(0, s.len() as int) =~= s);
        }
    } else {
        let t = s.drop_first();
        assert forall|j: int| 0 <= j < k - 1 implies t[j] != 0 by {
            assert(t[j] == s[j + 1]);
        }
        lemma_pack_nonzero_prefix(t, k - 1);
        assert(t.subrange(k - 1, t.len() as int) =~= s.subrange(k, s.len() as int));
        assert(seq![s[0]] + t.subrange(0, k - 1) =~= s.subrange(0, k));
    }
}

/// A prefix without delimiters is copied by unpacking.
proof fn lemma_unpack_plain_prefix(p: Seq<u8>, q: Seq<u8>)
    requires
        no_delim(p),
    ensures
        unpack_spec(p + q) == p + unpack_spec(q),
    decreases p.len(),
{
    if p.len() > 0 {
        let pq = p + q;
        let t = p.drop_first();
        assert(no_delim(t)) by {
            assert forall|i: int| 0 <= i < t.len() implies t[i] != BYTE_COUNT_DELIM by {
                assert(t[i] == p[i + 1]);
            }
        }
        lemma_unpack_plain_prefix(t, q);
        assert(pq.drop_first() =~= t + q);
        if pq.len() <= 2 {
            assert(q.len() <= 1);
            assert(unpack_spec(q) == q);
            assert(p + unpack_spec(q) =~= pq);
        } else {
            assert(pq[0] == p[0]);
            assert(seq![p[0]] + (t + unpack_spec(q)) =~= p + unpack_spec(q));
        }
    }
}

/// Which bytes of the packed form of `s` packing wrote as part of a marker
/// (the others are copied from `s`).
pub open spec fn pack_marks(s: Seq<u8>) -> Seq<bool>
    decreases s.len(),
{
    if s.len() == 0 {
        seq![]
    } else if s[0] != 0 {
        seq![false] + pack_marks(s.drop_first())
    } else {
        let n = run_len(s, 0);
        proof {
            lemma_run_len(s, 0);
        }
        if n <= 3 {
            Seq::new(n, |i: int| false) + pack_marks(s.subrange(n as int, s.len() as int))
        } else if n <= 255 {
            seq![true, true, true] + pack_marks(s.subrange(n as int, s.len() as int))
        } else {
            seq![true, true, true] + pack_marks(s.subrange(255, s.len() as int))
        }
    }
}

/// Whether no `#x#` window of `p` starts at a byte that `m` does not mark.
pub open spec fn windows_marked(p: Seq<u8>, m: Seq<bool>) -> bool {
    forall|i: int|
        0 <= i < m.len() && i + 2 < p.len() && !#[trigger] m[i] ==> !(p[i] == BYTE_COUNT_DELIM && p[i + 2]
            == BYTE_COUNT_DELIM)
}

/// Whether the packed form of `s` holds no `#x#` window but the markers
/// packing wrote: then unpacking gives `s` back.
pub open spec fn packs_unambiguously(s: Seq<u8>) -> bool {
    windows_marked(pack_spec(s), pack_marks(s))
}

/// One mark for each packed byte.
proof fn lemma_marks_len(s: Seq<u8>)
    ensures
        pack_marks(s).len() == pack_spec(s).len(),
    decreases s.len(),
{
    if s.len() > 0 {
        if s[0] != 0 {
            lemma_marks_len(s.drop_first());
        } else {
            let n = run_len(s, 0);
            lemma_run_len(s, 0);
            if n <= 255 {
                lemma_marks_len(s.subrange(n as int, s.len() as int));
            } else {
                lemma_marks_len(s.subrange(255, s.len() as int));
            }
        }
    }
}

/// What follows the first `k` bytes keeps its windows marked.
proof fn lemma_windows_marked_tail(p: Seq<u8>, m: Seq<bool>, k: int)
    requires
        windows_marked(p, m),
        0 <= k <= p.len(),
        k <= m.len(),
    ensures
        windows_marked(p.subrange(k, p.len() as int), m.subrange(k, m.len() as int)),
{
    let pt = p.subrange(k, p.len() as int);
    let mt = m.subrange(k, m.len() as int);
    assert forall|i: int| 0 <= i < mt.len() && i + 2 < pt.len() && !#[trigger] mt[i] implies !(pt[i]
        == BYTE_COUNT_DELIM && pt[i + 2] == BYTE_COUNT_DELIM) by {
        assert(mt[i] == m[i + k]);
        assert(pt[i] == p[i + k] && pt[i + 2] == p[i + k + 2]);
    }
}

/// Unpacking a packed sequence gives it back when its packed form holds no
/// `#x#` window but the markers packing wrote.
pub proof fn lemma_pack_unpack_roundtrip(s: Seq<u8>)
    requires
        packs_unambiguously(s),
    ensures
        unpack_spec(pack_spec(s)) == s,
    decreases s.len(),
{
    let p = pack_spec(s);
    let m = pack_marks(s);
    lemma_marks_len(s);
    if s.len() == 0 {
    } else if s[0] != 0 {
        let t = s.drop_first();
        lemma_marks_len(t);
        assert(p.subrange(1, p.len() as int) =~= pack_spec(t));
        assert(m.subrange(1, m.len() as int) =~= pack_marks(t));
        lemma_windows_marked_tail(p, m, 1);
        lemma_pack_unpack_roundtrip(t);
        if p.len() <= 2 {
            assert(unpack_spec(pack_spec(t)) == pack_spec(t));
            assert(p =~= s);
        } else {
            assert(!m[0]);
            assert(p.drop_first() =~= pack_spec(t));
            assert(seq![s[0]] + t =~= s);
        }
    } else {
        let n = run_len(s, 0);
        lemma_run_len(s, 0);
        let k: int = if n <= 255 {
            n as int
        } else {
            255
        };
        let rest = s.subrange(k, s.len() as int);
        lemma_marks_len(rest);
        let w: int = if n <= 3 {
            n as int
        } else {
            3
        };
        assert(p.subrange(w, p.len() as int) =~= pack_spec(rest));
        assert(m.subrange(w, m.len() as int) =~= pack_marks(rest));
        lemma_windows_marked_tail(p, m, w);
        lemma_pack_unpack_roundtrip(rest);
        assert(s.subrange(0, k) =~= zeros(k as nat));
        if n <= 3 {
            assert(no_delim(s.subrange(0, k)));
            assert(p =~= s.subrange(0, k) + pack_spec(rest));
            lemma_unpack_plain_prefix(s.subrange(0, k), pack_spec(rest));
        } else {
            assert(p[0] == BYTE_COUNT_DELIM && p[1] == k as u8 && p[2] == BYTE_COUNT_DELIM);
            assert(p.subrange(3, p.len() as int) =~= pack_spec(rest));
        }
        assert(s.subrange(0, k) + rest =~= s);
    }
}

/// Bytes copied by packing from a sequence without delimiter bytes are no
/// delimiters.
proof fn lemma_copied_bytes_plain(s: Seq<u8>)
    requires
        no_delim(s),
    ensures
        forall|i: int|
            0 <= i < pack_spec(s).len() && !#[trigger] pack_marks(s)[i] ==> pack_spec(s)[i] != BYTE_COUNT_DELIM,
    decreases s.len(),
{
    lemma_marks_len(s);
    if s.len() > 0 {
        let k: int = if s[0] != 0 {
            1
        } else {
            lemma_run_len(s, 0);
            if run_len(s, 0) <= 255 {
                run_len(s, 0) as int
            } else {
                255
            }
        };
        lemma_run_len(s, 0);
        let rest = s.subrange(k, s.len() as int);
        assert(no_delim(rest)) by {
            assert forall|i: int| 0 <= i < rest.len() implies rest[i] != BYTE_COUNT_DELIM by {
                assert(rest[i] == s[i + k]);
            }
        }
        lemma_copied_bytes_plain(rest);
        lemma_marks_len(rest);
        let p = pack_spec(s);
        let m = pack_marks(s);
        let w = p.len() - pack_spec(rest).len();
        if s[0] != 0 {
            assert(rest =~= s.drop_first());
        }
        assert forall|i: int| 0 <= i < p.len() && !#[trigger] m[i] implies p[i] != BYTE_COUNT_DELIM by {
            if i >= w {
                assert(p[i] == pack_spec(rest)[i - w]);
                assert(m[i] == pack_marks(rest)[i - w]);
            }
        }
    }
}

/// A sequence without delimiter bytes always packs unambiguously.
pub proof fn lemma_no_delim_packs_unambiguously(s: Seq<u8>)
    requires
        no_delim(s),
    ensures
        packs_unambiguously(s),
{
    lemma_copied_bytes_plain(s);
    lemma_marks_len(s);
}

/// Pack a sequence of bytes.
pub fn pack_bytes(input: &[u8]) -> (packed: Vec<u8>)
    ensures
        packed@ == pack_spec(input@),
{
    let mut viewer = ByteViewer::from_slice(input);
    let mut packed: Vec<u8> = Vec::new();
    proof {
        assert(viewer.rest() =~= input@);
    }
    while !viewer.is_end()
        invariant
            viewer.wf(),
            viewer.bytes() == input@,
            packed@ + pack_spec(viewer.rest()) == pack_spec(input@),
        decreases viewer.bytes().len() - viewer.pos(),
    {
        proof {
            viewer.lemma_wf();
        }
        let ghost r0 = viewer.rest();
        match viewer.find_byte(0) {
            Some(offset) => {
                proof {
                    lemma_first_index_of(r0, 0);
                    lemma_pack_nonzero_prefix(r0, offset as int);
                    assert(r0.subrange(offset as int, r0.len() as int) =~= viewer.bytes().subrange(
                        viewer.pos() + offset,
                        viewer.bytes().len() as int,
                    ));
                    assert(r0.subrange(0, offset as int) =~= viewer.bytes().subrange(
                        viewer.pos(),
                        viewer.pos() + offset,
                    ));
                }
                let chunk = viewer.next_bytes(offset, true);
                extend_bytes(&mut packed, chunk);
                assert(packed@ + pack_spec(viewer.rest()) =~= pack_spec(input@));
            },
            None => {
                proof {
                    lemma_first_index_of(r0, 0);
                    lemma_pack_nonzero_prefix(r0, r0.len() as int);
                    assert(r0.subrange(0, r0.len() as int) =~= r0);
                }
                let chunk = viewer.curr_iter();
                extend_bytes(&mut packed, chunk);
                let dist = viewer.distance_to_end();
                let _ = viewer.advance(dist);
                proof {
                    assert(viewer.rest() =~= Seq::<u8>::empty());
                    assert(packed@ + pack_spec(viewer.rest()) =~= pack_spec(input@));
                }
                continue ;
            },
        }
        let ghost r = viewer.rest();
        proof {
            viewer.lemma_wf();
            assert(r[0] == 0);
            lemma_run_len(r, 0);
        }
        let num_zeroes = viewer.num_duplicates();
        if num_zeroes <= 3 {
            proof {
                assert(r.subrange(0, num_zeroes as int) =~= viewer.bytes().subrange(
                    viewer.pos(),
                    viewer.pos() + num_zeroes,
                ));
                assert(r.subrange(num_zeroes as int, r.len() as int) =~= viewer.bytes().subrange(
                    viewer.pos() + num_zeroes,
                    viewer.bytes().len() as int,
                ));
            }
            let chunk = viewer.next_bytes(num_zeroes, true);
            extend_bytes(&mut packed, chunk);
            assert(packed@ + pack_spec(viewer.rest()) =~= pack_spec(input@));
        } else if num_zeroes <= 255 {
            packed.push(BYTE_COUNT_DELIM);
            packed.push(num_zeroes as u8);
            packed.push(BYTE_COUNT_DELIM);
            let _ = viewer.advance(num_zeroes);
            proof {
                assert(r.subrange(num_zeroes as int, r.len() as int) =~= viewer.rest());
                assert(packed@ + pack_spec(viewer.rest()) =~= pack_spec(input@));
            }
        } else {
            packed.push(BYTE_COUNT_DELIM);
            packed.push(255u8);
            packed.push(BYTE_COUNT_DELIM);
            let _ = viewer.advance(255);
            proof {
                assert(r.subrange(255, r.len() as int) =~= viewer.rest());
                assert(packed@ + pack_spec(viewer.rest()) =~= pack_spec(input@));
            }
        }
    }
    proof {
        assert(viewer.rest() =~= Seq::<u8>::empty());
        assert(packed@ + pack_spec(viewer.rest()) =~= packed@);
    }
    packed
}

/// Unpack a packed sequence of bytes.
pub fn unpack_bytes(input: &[u8]) -> (unpacked: Vec<u8>)
    ensures
        unpacked@ == unpack_spec(input@),
{
    let mut viewer = ByteViewer::from_slice(input);
    let mut unpacked: Vec<u8> = Vec::new();
    proof {
        assert(viewer.rest() =~= input@);
    }
    while !viewer.is_end()
        invariant
            viewer.wf(),
            viewer.bytes() == input@,
            unpacked@ + unpack_spec(viewer.rest()) == unpack_spec(input@),
        decreases viewer.bytes().len() - viewer.pos(),
    {
        proof {
            viewer.lemma_wf();
        }
        let ghost r = viewer.rest();
        if viewer.distance_to_end() <= 2 {
            let chunk = viewer.curr_iter();
            extend_bytes(&mut unpacked, chunk);
            let dist = viewer.distance_to_end();
            let _ = viewer.advance(dist);
            proof {
                assert(viewer.rest() =~= Seq::<u8>::empty());
                assert(unpacked@ + unpack_spec(viewer.rest()) =~= unpack_spec(input@));
            }
        } else {
            let window = viewer.next_bytes_fixed::<3>(false);
            proof {
                assert(window@[0] == r[0] && window@[1] == r[1] && window@[2] == r[2]);
            }
            if window[0] == BYTE_COUNT_DELIM && window[2] == BYTE_COUNT_DELIM {
                let count = window[1];
                let mut i: u8 = 0;
                let ghost before = unpacked@;
                while i < count
                    invariant
                        i <= count,
                        unpacked@ == before + zeros(i as nat),
                    decreases count - i,
                {
                    unpacked.push(0u8);
                    i = i + 1;
                    assert(unpacked@ =~= before + zeros(i as nat));
                }
                let _ = viewer.advance(3);
                proof {
                    assert(r.subrange(3, r.len() as int) =~= viewer.rest());
                    assert(unpacked@ + unpack_spec(viewer.rest()) =~= unpack_spec(input@));
                }
            } else {
                let b = viewer.next_byte();
                let ghost before = unpacked@;
                unpacked.push(b);
                proof {
                    assert(r.drop_first() =~= viewer.rest());
                    assert(unpack_spec(r) == seq![b] + unpack_spec(r.drop_first()));
                    assert(unpacked@ =~= before + seq![b]);
                    assert(unpacked@ + unpack_spec(viewer.rest()) =~= unpack_spec(input@));
                }
            }
        }
    }
    proof {
        assert(viewer.rest() =~= Seq::<u8>::empty());
        assert(unpacked@ + unpack_spec(viewer.rest()) =~= unpacked@);
    }
    unpacked
}

} // verus!
