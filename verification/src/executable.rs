//! The executable image: the interchange format an external assembler
//! produces and every engine loads.
//!
//! Byte layout (little-endian words, versioned contract of this crate):
//! bytes 0..2 hold the entry point, byte 2 the segment count `n`; then `n`
//! records follow back to back, each `kind (1 byte: 0 = data, 1 = code)`,
//! `base address (2 bytes)`, `length (2 bytes)`, and `length` payload bytes.
//! The buffer must be consumed exactly.  A parsed image is valid when its
//! segments are pairwise non-overlapping and the entry point lies inside a
//! code segment; anything else is `MalformedImage`.

use vstd::prelude::*;

use crate::common::{MalformedImage, read_word, word_of, zero_vec};

verus! {

/// One contiguous range of bytes with a declared base address and a
/// code/data marker.
#[derive(Clone, Debug, PartialEq, Eq)]
pub struct Segment {
    pub is_code: bool,
    pub base: u16,
    pub data: Vec<u8>,
}

#[verifier::ext_equal]
pub struct SegmentView {
    pub is_code: bool,
    pub base: u16,
    pub data: Seq<u8>,
}

impl View for Segment {
    type V = SegmentView;

    open spec fn view(&self) -> SegmentView {
        SegmentView { is_code: self.is_code, base: self.base, data: self.data@ }
    }
}

/// A parsed executable image: where execution begins, and the segments to
/// copy into an engine's memory.  Immutable once constructed.
#[derive(Clone, Debug, PartialEq, Eq)]
pub struct Executable {
    pub entry_point: u16,
    pub segments: Vec<Segment>,
}

#[verifier::ext_equal]
pub struct ExecutableView {
    pub entry_point: u16,
    pub segments: Seq<SegmentView>,
}

pub open spec fn segs_seq(v: Seq<Segment>) -> Seq<SegmentView> {
    Seq::new(v.len(), |i: int| v[i]@)
}

impl View for Executable {
    type V = ExecutableView;

    open spec fn view(&self) -> ExecutableView {
        ExecutableView { entry_point: self.entry_point, segments: segs_seq(self.segments@) }
    }
}

/// First byte address past the segment.
pub open spec fn seg_end(s: SegmentView) -> int {
    s.base + s.data.len()
}

/// The structural reading of the segment records of `b` starting at `off`,
/// expecting `n` more records and exact consumption of the buffer.
pub open spec fn parse_segments(b: Seq<u8>, off: int, n: int) -> Option<Seq<SegmentView>>
    decreases n,
{
    if n <= 0 {
        if off == b.len() {
            Some(Seq::<SegmentView>::empty())
        } else {
            None
        }
    } else if off + 5 <= b.len() {
        let kind = b[off];
        let base = word_of(b, off + 1);
        let len = word_of(b, off + 3) as int;
        if kind <= 1 && off + 5 + len <= b.len() {
            match parse_segments(b, off + 5 + len, n - 1) {
                Some(rest) => Some(
                    seq![
                        SegmentView {
                            is_code: kind == 1,
                            base: base,
                            data: b.subrange(off + 5, off + 5 + len),
                        },
                    ] + rest,
                ),
                None => None,
            }
        } else {
            None
        }
    } else {
        None
    }
}

/// The structural reading of a whole raw buffer, before validation.
pub open spec fn parse_image(b: Seq<u8>) -> Option<ExecutableView> {
    if b.len() >= 3 {
        match parse_segments(b, 3, b[2] as int) {
            Some(segs) => Some(ExecutableView { entry_point: word_of(b, 0), segments: segs }),
            None => None,
        }
    } else {
        None
    }
}

pub open spec fn segs_disjoint(segs: Seq<SegmentView>) -> bool {
    forall|i: int, j: int|
        #![trigger segs[i], segs[j]]
        0 <= i < j < segs.len() ==> (seg_end(segs[i]) <= segs[j].base || seg_end(segs[j])
            <= segs[i].base)
}

/// `s` is a code segment whose byte range covers address `e`.
pub open spec fn seg_covers(s: SegmentView, e: u16) -> bool {
    s.is_code && s.base <= e < seg_end(s)
}

pub open spec fn entry_in_code(img: ExecutableView) -> bool {
    exists|i: int|
        0 <= i < img.segments.len() && seg_covers(#[trigger] img.segments[i], img.entry_point)
}

/// A raw buffer is a valid executable image: it parses structurally, its
/// segments do not overlap, and its entry point lies in a code segment.
pub open spec fn image_ok(b: Seq<u8>) -> bool {
    match parse_image(b) {
        Some(img) => segs_disjoint(img.segments) && entry_in_code(img),
        None => false,
    }
}

/// Every segment lies within the first `size` bytes of memory and the entry
/// point addresses them: the image fits an engine with that memory size.
pub open spec fn image_fits(img: ExecutableView, size: int) -> bool {
    img.entry_point < size && forall|i: int|
        0 <= i < img.segments.len() ==> seg_end(#[trigger] img.segments[i]) <= size
}

/// `m` with the segment's bytes written over it at its base address.
pub open spec fn write_seg(m: Seq<u8>, s: SegmentView) -> Seq<u8> {
    Seq::new(
        m.len(),
        |i: int|
            if s.base <= i < s.base + s.data.len() {
                s.data[i - s.base]
            } else {
                m[i]
            },
    )
}

pub open spec fn loaded_upto(segs: Seq<SegmentView>, size: int, k: int) -> Seq<u8>
    decreases k,
{
    if k <= 0 {
        Seq::new(size as nat, |i: int| 0u8)
    } else {
        write_seg(loaded_upto(segs, size, k - 1), segs[k - 1])
    }
}

/// Memory contents after copying every segment, in order, over `size` zeroed
/// bytes.
pub open spec fn loaded_mem(img: ExecutableView, size: int) -> Seq<u8> {
    loaded_upto(img.segments, size, img.segments.len() as int)
}

impl Executable {
    /// Parses and validates a raw byte buffer against the layout documented
    /// above.  Pure: depends on `bytes` alone.  Returns `Ok` exactly when the
    /// buffer parses structurally, its segments are pairwise disjoint, and
    /// the entry point lies in a code segment; the parsed image is then the
    /// structural reading of the buffer.
    #[verifier::loop_isolation(false)]
    pub fn parse(bytes: &Vec<u8>) -> (r: Result<Executable, MalformedImage>)
        ensures
            match r {
                Ok(e) => image_ok(bytes@) && parse_image(bytes@) == Some(e@),
                Err(_) => !image_ok(bytes@),
            },
    {
        let total = bytes.len();
        if total < 3 {
            return Err(MalformedImage);
        }
        let entry_point = read_word(bytes, 0);
        let nseg = bytes[2] as usize;
        let mut segments: Vec<Segment> = Vec::new();
        let mut off: usize = 3;
        let mut k: usize = 0;
        while k < nseg
            invariant
                3 <= off <= total,
                k <= nseg,
                segments@.len() == k,
                forall|p: int|
                    0 <= p < segments@.len() ==> (#[trigger] segments@[p]).data@.len() <= 0xFFFF,
                ({
                    let full = parse_segments(bytes@, 3, nseg as int);
                    match parse_segments(bytes@, off as int, nseg - k) {
                        Some(rest) => full == Some(segs_seq(segments@) + rest),
                        None => full is None,
                    }
                }),
            decreases nseg - k,
        {
            if total - off < 5 {
                return Err(MalformedImage);
            }
            let kind = bytes[off];
            if kind > 1 {
                return Err(MalformedImage);
            }
            let base = read_word(bytes, off + 1);
            let len = read_word(bytes, off + 3) as usize;
            if len > total - (off + 5) {
                return Err(MalformedImage);
            }
            let mut data: Vec<u8> = Vec::new();
            let mut i: usize = 0;
            while i < len
                invariant
                    i <= len,
                    off + 5 + len <= total,
                    data@ == bytes@.subrange(off + 5, off + 5 + i),
                decreases len - i,
            {
                data.push(bytes[off + 5 + i]);
                i = i + 1;
                proof {
                    assert(data@ =~= bytes@.subrange(off + 5, off + 5 + i));
                }
            }
            let seg = Segment { is_code: kind == 1, base: base, data: data };
            let ghost old_segs = segments@;
            let ghost rest_off = off + 5 + len;
            segments.push(seg);
            off = off + 5 + len;
            k = k + 1;
            proof {
                assert(forall|rest: Seq<SegmentView>|
                    segs_seq(old_segs) + (seq![seg@] + rest) =~= segs_seq(
                        segments@,
                    ) + rest) by {
                    assert forall|rest: Seq<SegmentView>|
                        segs_seq(old_segs) + (seq![seg@] + rest) =~= segs_seq(
                            segments@,
                        ) + rest by {
                        assert(segs_seq(segments@) =~= segs_seq(old_segs).push(seg@));
                    }
                }
            }
        }
        if off != total {
            return Err(MalformedImage);
        }
        proof {
            assert(segs_seq(segments@) + Seq::<SegmentView>::empty() =~= segs_seq(segments@));
        }
        let ghost img = ExecutableView { entry_point: entry_point, segments: segs_seq(segments@) };
        proof {
            assert(parse_image(bytes@) == Some(img));
        }
        let n = segments.len();
        // Reject overlapping segments.
        let mut p: usize = 0;
        while p < n
            invariant
                p <= n,
                forall|a: int, b: int|
                    #![trigger segments@[a], segments@[b]]
                    0 <= a < b < n && a < p ==> (seg_end(segments@[a]@) <= segments@[b]@.base
                        || seg_end(segments@[b]@) <= segments@[a]@.base),
            decreases n - p,
        {
            let mut q: usize = p + 1;
            while q < n
                invariant
                    p < q <= n,
                    forall|b: int|
                        #![trigger segments@[b]]
                        p < b < q ==> (seg_end(segments@[p as int]@) <= segments@[b]@.base
                            || seg_end(segments@[b]@) <= segments@[p as int]@.base),
                decreases n - q,
            {
                let end_p = segments[p].base as u32 + segments[p].data.len() as u32;
                let end_q = segments[q].base as u32 + segments[q].data.len() as u32;
                if !(end_p <= segments[q].base as u32 || end_q <= segments[p].base as u32) {
                    proof {
                        assert(segments@[p as int].data@.len() <= 0xFFFF);
                        assert(segments@[q as int].data@.len() <= 0xFFFF);
                        assert(seg_end(img.segments[p as int]) > img.segments[q as int].base);
                        assert(seg_end(img.segments[q as int]) > img.segments[p as int].base);
                        assert(!segs_disjoint(img.segments));
                    }
                    return Err(MalformedImage);
                }
                q = q + 1;
            }
            p = p + 1;
        }
        proof {
            assert(segs_disjoint(img.segments));
        }
        // The entry point must lie in some code segment.
        let mut found = false;
        let mut i: usize = 0;
        while i < n
            invariant
                i <= n,
                found ==> entry_in_code(img),
                !found ==> forall|p: int|
                    0 <= p < i ==> !seg_covers(#[trigger] img.segments[p], entry_point),
            decreases n - i,
        {
            let s = &segments[i];
            if s.is_code && s.base <= entry_point && (entry_point as u32) < s.base as u32
                + s.data.len() as u32 {
                proof {
                    assert(seg_covers(img.segments[i as int], entry_point));
                }
                found = true;
            }
            i = i + 1;
        }
        if !found {
            return Err(MalformedImage);
        }
        Ok(Executable { entry_point: entry_point, segments: segments })
    }
}

/// Builds a fresh `size`-byte memory holding the image's segments over
/// zeroes, or reports that the image does not fit such a memory.  Shared by
/// every engine's load operation.
#[verifier::loop_isolation(false)]
pub fn load_memory(exe: &Executable, size: usize) -> (r: Option<Vec<u8>>)
    ensures
        match r {
            Some(m) => image_fits(exe@, size as int) && m@.len() == size && m@ == loaded_mem(
                exe@,
                size as int,
            ),
            None => !image_fits(exe@, size as int),
        },
{
    if exe.entry_point as usize >= size {
        return None;
    }
    let n = exe.segments.len();
    let mut k: usize = 0;
    while k < n
        invariant
            k <= n,
            forall|i: int| 0 <= i < k ==> seg_end(#[trigger] exe@.segments[i]) <= size,
        decreases n - k,
    {
        let seg = &exe.segments[k];
        if seg.data.len() > size || (seg.base as usize) > size - seg.data.len() {
            proof {
                assert(seg_end(exe@.segments[k as int]) > size);
            }
            return None;
        }
        k = k + 1;
    }
    let mut m = zero_vec(size);
    let mut k: usize = 0;
    while k < n
        invariant
            k <= n,
            m@.len() == size,
            m@ == loaded_upto(exe@.segments, size as int, k as int),
        decreases n - k,
    {
        let seg = &exe.segments[k];
        proof {
            assert(seg_end(exe@.segments[k as int]) <= size);
        }
        let ghost m0 = m@;
        let base = seg.base as usize;
        let len = seg.data.len();
        let mut i: usize = 0;
        while i < len
            invariant
                i <= len,
                base + len <= size,
                m@.len() == size,
                m@ == Seq::new(
                    m0.len(),
                    |j: int|
                        if base <= j < base + i {
                            seg@.data[j - base]
                        } else {
                            m0[j]
                        },
                ),
            decreases len - i,
        {
            m.set(base + i, seg.data[i]);
            i = i + 1;
            proof {
                assert(m@ =~= Seq::new(
                    m0.len(),
                    |j: int|
                        if base <= j < base + i {
                            seg@.data[j - base]
                        } else {
                            m0[j]
                        },
                ));
            }
        }
        k = k + 1;
        proof {
            assert(m@ =~= write_seg(m0, seg@));
            assert(m@ =~= loaded_upto(exe@.segments, size as int, k as int));
        }
    }
    Some(m)
}

} // verus!
