//! The mathematical model of one open file's contents, and the laws the
//! file capability obeys.
//!
//! A file is a byte sequence. Reading clamps at end-of-file (a short read is
//! an answer, never an error), writing past end-of-file extends the file
//! sparsely with zero bytes, and truncation may shrink or zero-extend. The
//! capability contracts in [`crate::traits`] are stated over these
//! functions, and the proof functions below are the interface laws.

use vstd::math::max;
use vstd::prelude::*;

verus! {

/// A run of `n` zero bytes.
pub open spec fn zero_bytes(n: nat) -> Seq<u8> {
    Seq::new(n, |i: int| 0u8)
}

/// What reading `n` bytes at offset `off` returns: the bytes that exist
/// there, clamped at end-of-file. Fewer than `n` bytes come back exactly
/// when fewer than `n` bytes lie before end-of-file.
pub open spec fn read_span(data: Seq<u8>, off: int, n: int) -> Seq<u8> {
    if off < 0 || n < 0 || off >= data.len() {
        Seq::empty()
    } else if off + n <= data.len() {
        data.subrange(off, off + n)
    } else {
        data.subrange(off, data.len() as int)
    }
}

/// The file contents after writing `buf` at offset `off`: the write lands
/// over the old bytes, the file grows to hold it when needed, and a gap
/// between the old end and `off` is zero-filled.
pub open spec fn write_span(data: Seq<u8>, buf: Seq<u8>, off: int) -> Seq<u8>
    recommends
        0 <= off,
{
    Seq::new(
        max(data.len() as int, off + buf.len() as int) as nat,
        |i: int|
            if off <= i < off + buf.len() {
                buf[i - off]
            } else if 0 <= i < data.len() {
                data[i]
            } else {
                0u8
            },
    )
}

/// The file contents after setting the length to `size`: a shrink keeps the
/// prefix, a growth zero-fills the new region.
pub open spec fn truncate_span(data: Seq<u8>, size: int) -> Seq<u8> {
    if size <= 0 {
        Seq::empty()
    } else if size <= data.len() {
        data.subrange(0, size)
    } else {
        data + zero_bytes((size - data.len()) as nat)
    }
}

/// Round trip: writing any byte sequence at any offset and reading the same
/// span back on the same contents returns exactly what was written.
pub proof fn lemma_write_then_read(data: Seq<u8>, buf: Seq<u8>, off: int)
    requires
        0 <= off,
    ensures
        read_span(write_span(data, buf, off), off, buf.len() as int) == buf,
{
    let w = write_span(data, buf, off);
    if buf.len() == 0 {
        assert(read_span(w, off, 0) =~= buf);
    } else {
        assert(off + buf.len() <= w.len());
        assert(read_span(w, off, buf.len() as int) =~= buf);
    }
}

/// Short read: asking for `n` bytes where fewer than `n` exist before
/// end-of-file returns exactly the available bytes — all of them, and
/// strictly fewer than `n`.
pub proof fn lemma_short_read(data: Seq<u8>, off: int, n: int)
    requires
        0 <= off,
        0 < n,
        data.len() < off + n,
    ensures
        read_span(data, off, n).len() == if off <= data.len() {
            data.len() - off
        } else {
            0int
        },
        read_span(data, off, n).len() < n,
{
}

/// Truncate then size: after setting the length to `size`, the contents
/// hold exactly `size` bytes.
pub proof fn lemma_truncate_then_size(data: Seq<u8>, size: int)
    requires
        0 <= size,
    ensures
        truncate_span(data, size).len() == size,
{
}

/// Growing truncation: the newly added region reads back as zero bytes,
/// in full and without error.
pub proof fn lemma_truncate_grow_zero_fills(data: Seq<u8>, size: int)
    requires
        data.len() <= size,
    ensures
        read_span(truncate_span(data, size), data.len() as int, size - data.len()) == zero_bytes(
            (size - data.len()) as nat,
        ),
{
    let t = truncate_span(data, size);
    if data.len() == size {
        assert(read_span(t, data.len() as int, 0) =~= zero_bytes(0));
    } else {
        assert(read_span(t, data.len() as int, size - data.len()) =~= zero_bytes(
            (size - data.len()) as nat,
        ));
    }
}

/// The contents after a batch of writes lands, in order: each element of
/// `ws` is one write, the bytes paired with their offset.
pub open spec fn apply_writes(data: Seq<u8>, ws: Seq<(Seq<u8>, int)>) -> Seq<u8>
    decreases ws.len(),
{
    if ws.len() == 0 {
        data
    } else {
        write_span(apply_writes(data, ws.drop_last()), ws.last().0, ws.last().1)
    }
}

/// Whether two writes touch disjoint offset ranges.
pub open spec fn writes_disjoint(a: (Seq<u8>, int), b: (Seq<u8>, int)) -> bool {
    a.1 + a.0.len() <= b.1 || b.1 + b.0.len() <= a.1
}

/// Whether all writes of a batch touch pairwise disjoint ranges.
pub open spec fn all_writes_disjoint(ws: Seq<(Seq<u8>, int)>) -> bool {
    forall|i: int, j: int|
        0 <= i < j < ws.len() ==> writes_disjoint(#[trigger] ws[i], #[trigger] ws[j])
}

/// A write that stays outside a fully present span leaves that span's
/// bytes exactly as they were.
pub proof fn lemma_disjoint_write_preserves_read(
    data: Seq<u8>,
    buf: Seq<u8>,
    off: int,
    roff: int,
    n: int,
)
    requires
        0 <= off,
        0 <= roff,
        0 <= n,
        roff + n <= data.len(),
        roff + n <= off || off + buf.len() <= roff,
    ensures
        read_span(write_span(data, buf, off), roff, n) == read_span(data, roff, n),
{
    let w = write_span(data, buf, off);
    assert(w.len() >= data.len());
    if n == 0 {
        assert(read_span(w, roff, 0) =~= read_span(data, roff, 0));
    } else {
        assert(read_span(w, roff, n) =~= read_span(data, roff, n));
    }
}

/// Many writers: after a whole batch of pairwise disjoint writes lands,
/// every writer finds its own bytes intact at its own offset.
pub proof fn lemma_disjoint_batch_reads_back(data: Seq<u8>, ws: Seq<(Seq<u8>, int)>, k: int)
    requires
        all_writes_disjoint(ws),
        forall|i: int| 0 <= i < ws.len() ==> (#[trigger] ws[i]).1 >= 0,
        0 <= k < ws.len(),
    ensures
        read_span(apply_writes(data, ws), ws[k].1, ws[k].0.len() as int) == ws[k].0,
    decreases ws.len(),
{
    let prev = apply_writes(data, ws.drop_last());
    let lst = ws.last();
    if k == ws.len() - 1 {
        lemma_write_then_read(prev, lst.0, lst.1);
    } else {
        let dl = ws.drop_last();
        assert(forall|i: int| 0 <= i < dl.len() ==> #[trigger] dl[i] == ws[i]);
        lemma_disjoint_batch_reads_back(data, dl, k);
        let roff = ws[k].1;
        let n = ws[k].0.len() as int;
        if n == 0 {
            assert(read_span(apply_writes(data, ws), roff, 0) =~= ws[k].0);
        } else {
            assert(roff + n <= prev.len());
            assert(writes_disjoint(ws[k], ws[ws.len() - 1]));
            lemma_disjoint_write_preserves_read(prev, lst.0, lst.1, roff, n);
        }
    }
}

/// Non-overlapping writes: two writes to disjoint offset ranges land in
/// either order with the same outcome, each span reads back its own bytes
/// intact, and the resulting length is the maximum extent touched.
pub proof fn lemma_disjoint_writes(
    data: Seq<u8>,
    buf1: Seq<u8>,
    off1: int,
    buf2: Seq<u8>,
    off2: int,
)
    requires
        0 <= off1,
        0 <= off2,
        off1 + buf1.len() <= off2 || off2 + buf2.len() <= off1,
    ensures
        write_span(write_span(data, buf1, off1), buf2, off2) == write_span(
            write_span(data, buf2, off2),
            buf1,
            off1,
        ),
        read_span(write_span(write_span(data, buf1, off1), buf2, off2), off1, buf1.len() as int)
            == buf1,
        read_span(write_span(write_span(data, buf1, off1), buf2, off2), off2, buf2.len() as int)
            == buf2,
        write_span(write_span(data, buf1, off1), buf2, off2).len() == max(
            data.len() as int,
            max(off1 + buf1.len(), off2 + buf2.len()),
        ),
{
    let w12 = write_span(write_span(data, buf1, off1), buf2, off2);
    let w21 = write_span(write_span(data, buf2, off2), buf1, off1);
    assert(w12 =~= w21);
    lemma_write_then_read(write_span(data, buf1, off1), buf2, off2);
    if buf1.len() == 0 {
        assert(read_span(w12, off1, 0) =~= buf1);
    } else {
        assert(off1 + buf1.len() <= w12.len());
        assert(read_span(w12, off1, buf1.len() as int) =~= buf1);
    }
}

} // verus!
