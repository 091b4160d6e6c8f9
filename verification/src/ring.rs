//! Single-producer / single-consumer byte ring with length-prefixed frames.
//!
//! The ring is a contiguous data region of fixed capacity with three
//! cursors: `head` (producer-owned), `tail` (consumer-owned) and a
//! `dropped` counter.  A frame is a four-byte little-endian length followed
//! by that many payload bytes, stored with natural wrap-around; a frame may
//! straddle the end of the region, but no byte is split.  In the deployed
//! system the region lives in a shared memory section and the cursors are
//! published with release/acquire ordering; this module holds the sequential
//! logic of both sides, which is what the cursor discipline makes sound.

use vstd::prelude::*;
use vstd::arithmetic::div_mod::{
    lemma_fundamental_div_mod, lemma_fundamental_div_mod_converse_mod, lemma_mod_bound,
    lemma_small_mod,
};

use crate::bytes::{spec_le_u32, spec_u32_le, u32_from_le_bytes, u32_to_le_vec};

verus! {

/// Bytes from `from` forward to `to` in a ring of capacity `c`.
pub open spec fn dist(from: int, to: int, c: int) -> int {
    (to - from) % c
}

/// The `n` bytes of `data` starting at offset `off`, wrapping at the end.
pub open spec fn read_wrapped(data: Seq<u8>, off: int, n: int) -> Seq<u8> {
    Seq::new(n as nat, |j: int| data[(off + j) % (data.len() as int)])
}

/// `data` with `src` written starting at offset `off`, wrapping at the end.
pub open spec fn write_wrapped(data: Seq<u8>, off: int, src: Seq<u8>) -> Seq<u8> {
    Seq::new(
        data.len(),
        |i: int|
            {
                let d = (i - off) % (data.len() as int);
                if d < src.len() {
                    src[d]
                } else {
                    data[i]
                }
            },
    )
}

/// A wrap distance lies in `[0, c)`.
pub proof fn lemma_dist_bound(from: int, to: int, c: int)
    requires
        0 < c,
    ensures
        0 <= dist(from, to, c) < c,
{
    lemma_mod_bound(to - from, c);
}

/// Shifting `off` by `j < c` lands at offset `(off + j) % c`, whose wrap
/// distance from `off` is exactly `j`.
pub proof fn lemma_mod_shift(off: int, j: int, c: int)
    requires
        0 <= off < c,
        0 <= j < c,
    ensures
        0 <= (off + j) % c < c,
        ((off + j) % c - off) % c == j,
{
    lemma_mod_bound(off + j, c);
    if off + j < c {
        lemma_small_mod((off + j) as nat, c as nat);
        lemma_small_mod(j as nat, c as nat);
    } else {
        lemma_fundamental_div_mod_converse_mod(off + j, c, 1, off + j - c);
        assert((off + j) % c == off + j - c);
        lemma_fundamental_div_mod_converse_mod(j - c, c, -1, j);
    }
}

/// An offset in `[0, c)` whose wrap distance from `off` is `j` is the
/// offset `(off + j) % c`.
pub proof fn lemma_mod_shift_converse(off: int, j: int, i: int, c: int)
    requires
        0 <= off < c,
        0 <= j < c,
        0 <= i < c,
        (i - off) % c == j,
    ensures
        i == (off + j) % c,
{
    lemma_fundamental_div_mod(i - off, c);
    let q = (i - off) / c;
    assert(i - off == c * q + j);
    assert(-2 * c < c * q < c) by {
        assert(c * q == i - off - j);
    }
    assert(q == 0 || q == -1) by (nonlinear_arith)
        requires
            c > 0 && -2 * c < c * q < c,
    ;
    if q == 0 {
        assert(i == off + j) by {
            assert(c * q == 0) by (nonlinear_arith)
                requires
                    q == 0,
            ;
        }
        lemma_small_mod((off + j) as nat, c as nat);
    } else {
        assert(i == off + j - c) by {
            assert(c * q == -c) by (nonlinear_arith)
                requires
                    q == -1,
            ;
        }
        lemma_fundamental_div_mod_converse_mod(off + j, c, 1, i);
    }
}

/// Writing one more source byte equals updating one ring cell.
pub proof fn lemma_write_wrapped_step(data: Seq<u8>, off: int, src: Seq<u8>, j: int)
    requires
        0 <= off < data.len(),
        0 <= j < src.len(),
        src.len() <= data.len(),
    ensures
        write_wrapped(data, off, src.take(j + 1)) =~= write_wrapped(data, off, src.take(j)).update(
            (off + j) % (data.len() as int),
            src[j],
        ),
{
    let c = data.len() as int;
    let p = (off + j) % c;
    lemma_mod_shift(off, j, c);
    assert forall|i: int| 0 <= i < c implies write_wrapped(data, off, src.take(j + 1))[i]
        == write_wrapped(data, off, src.take(j)).update(p, src[j])[i] by {
        let d = (i - off) % c;
        lemma_mod_bound(i - off, c);
        if d == j {
            lemma_mod_shift_converse(off, j, i, c);
            assert(i == p);
        } else if i == p {
            assert(d == j);
        }
    }
}

/// Reading back exactly what was just written yields the source bytes.
pub proof fn lemma_read_of_write(data: Seq<u8>, off: int, src: Seq<u8>)
    requires
        0 <= off < data.len(),
        src.len() <= data.len(),
    ensures
        read_wrapped(write_wrapped(data, off, src), off, src.len() as int) =~= src,
{
    let c = data.len() as int;
    assert forall|j: int| 0 <= j < src.len() implies read_wrapped(
        write_wrapped(data, off, src),
        off,
        src.len() as int,
    )[j] == src[j] by {
        lemma_mod_shift(off, j, c);
    }
}

/// A read whose positions all lie at wrap distance at least `src.len()`
/// from the write offset sees the old bytes.
pub proof fn lemma_read_of_write_disjoint(
    data: Seq<u8>,
    woff: int,
    src: Seq<u8>,
    roff: int,
    n: int,
)
    requires
        0 <= woff < data.len(),
        0 <= roff < data.len(),
        0 <= n,
        src.len() <= data.len(),
        forall|j: int| 0 <= j < n ==> #[trigger] ((roff + j - woff) % (data.len() as int))
            >= src.len(),
    ensures
        read_wrapped(write_wrapped(data, woff, src), roff, n) =~= read_wrapped(data, roff, n),
{
    let c = data.len() as int;
    assert forall|j: int| 0 <= j < n implies read_wrapped(write_wrapped(data, woff, src), roff, n)[j]
        == read_wrapped(data, roff, n)[j] by {
        lemma_mod_bound(roff + j, c);
        lemma_mod_mod_sub(roff + j, woff, c);
        assert(((roff + j) % c - woff) % c >= src.len());
    }
}

/// Subtracting before or after reducing modulo `c` gives the same residue.
pub proof fn lemma_mod_mod_sub(a: int, b: int, c: int)
    requires
        0 < c,
    ensures
        (a % c - b) % c == (a - b) % c,
{
    lemma_fundamental_div_mod(a, c);
    let q = a / c;
    assert(a == c * q + a % c);
    assert(a % c - b == (a - b) - q * c) by {
        assert(c * q == q * c) by (nonlinear_arith);
    }
    lemma_mod_sub_mul(a - b, q, c);
}

/// The shared ring: a data region of fixed capacity and the three header
/// cursors.  `head` is advanced by the producer, `tail` by the consumer,
/// `dropped` counts frames the producer discarded for lack of space.
pub struct MemoryRing {
    /// The data region (its length is the capacity).
    pub data: Vec<u8>,
    /// Offset of the next free byte, producer-owned.
    pub head: u32,
    /// Offset of the first unread byte, consumer-owned.
    pub tail: u32,
    /// Number of frames dropped because they did not fit.
    pub dropped: u32,
}

impl MemoryRing {
    /// Capacity of the data region.
    pub open spec fn capacity_int(&self) -> int {
        self.data@.len() as int
    }

    /// A structurally valid ring: the capacity leaves room for at least one
    /// length prefix and a byte, fits the header's 32-bit size field, and
    /// both cursors point inside the data region.
    pub open spec fn wf(&self) -> bool {
        &&& 4 < self.capacity_int() <= u32::MAX
        &&& (self.head as int) < self.capacity_int()
        &&& (self.tail as int) < self.capacity_int()
    }

    /// Bytes currently owed to the consumer: `(head - tail) mod capacity`.
    pub open spec fn used_int(&self) -> int {
        dist(self.tail as int, self.head as int, self.capacity_int())
    }

    /// Bytes the producer may still write.
    pub open spec fn free_int(&self) -> int {
        self.capacity_int() - self.used_int()
    }

    /// Whether a payload of `n` bytes fits: the frame needs `4 + n` logical
    /// bytes, at most the capacity and at most the free space.
    pub open spec fn spec_frame_fits(&self, n: int) -> bool {
        &&& 4 + n <= self.capacity_int()
        &&& 4 + n <= self.free_int()
    }

    /// The data region after a frame with payload `p` is written at `head`.
    pub open spec fn spec_push_data(data: Seq<u8>, head: int, p: Seq<u8>) -> Seq<u8> {
        let c = data.len() as int;
        write_wrapped(write_wrapped(data, head, spec_u32_le(p.len() as u32)), (head + 4) % c, p)
    }

    /// The `dropped` counter after one more discarded frame.
    pub open spec fn spec_bump(d: u32) -> u32 {
        if d < u32::MAX {
            (d + 1) as u32
        } else {
            d
        }
    }

    /// A fresh ring of the given capacity, zero-filled, cursors at zero.
    pub fn new(capacity: u32) -> (r: MemoryRing)
        requires
            capacity > 4,
        ensures
            r.wf(),
            r.head == 0 && r.tail == 0 && r.dropped == 0,
            r.data@ =~= Seq::new(capacity as nat, |i: int| 0u8),
    {
        let mut data: Vec<u8> = Vec::new();
        let mut i: u32 = 0;
        while i < capacity
            invariant
                i <= capacity,
                data@ =~= Seq::new(i as nat, |j: int| 0u8),
            decreases capacity - i,
        {
            data.push(0u8);
            i = i + 1;
        }
        MemoryRing { data, head: 0, tail: 0, dropped: 0 }
    }

    /// Adopt an already-mapped data region together with the cursor values
    /// found in its header.  The header is kept only when its recorded size
    /// matches the region and its cursors are in range; otherwise the ring
    /// is re-initialized, so that a mapping left by an older instance with a
    /// different capacity cannot desynchronize producer and consumer.
    pub fn attach(data: Vec<u8>, head0: u32, tail0: u32, dropped0: u32, size0: u32) -> (r:
        MemoryRing)
        requires
            4 < data@.len() <= u32::MAX,
        ensures
            r.wf(),
            r.data@ == data@,
            (size0 == data@.len() && head0 < size0 && tail0 < size0) ==> r.head == head0 && r.tail
                == tail0 && r.dropped == dropped0,
            !(size0 == data@.len() && head0 < size0 && tail0 < size0) ==> r.head == 0 && r.tail
                == 0 && r.dropped == 0,
    {
        let cap: usize = data.len();
        if size0 as usize == cap && head0 < size0 && tail0 < size0 {
            MemoryRing { data, head: head0, tail: tail0, dropped: dropped0 }
        } else {
            MemoryRing { data, head: 0, tail: 0, dropped: 0 }
        }
    }

    /// Bytes currently queued between the consumer and producer cursors.
    pub fn used_bytes(&self) -> (r: u32)
        requires
            self.wf(),
        ensures
            r as int == self.used_int(),
    {
        let cap: u32 = self.data.len() as u32;
        let head = self.head;
        let tail = self.tail;
        proof {
            let c = self.capacity_int();
            if head >= tail {
                lemma_small_mod((head - tail) as nat, c as nat);
            } else {
                lemma_fundamental_div_mod_converse_mod(
                    head as int - tail as int,
                    c,
                    -1,
                    c + head as int - tail as int,
                );
            }
        }
        if head >= tail {
            head - tail
        } else {
            cap - (tail - head)
        }
    }

    /// How `push_bytes` relates the ring after the call (`post`) to the
    /// ring before it (`pre`): a fitting frame is written at `head` and
    /// `head` advances; one that does not fit leaves the ring unchanged
    /// and bumps `dropped`.
    pub open spec fn spec_pushed(pre: MemoryRing, post: MemoryRing, p: Seq<u8>) -> bool {
        &&& post.tail == pre.tail
        &&& post.data@.len() == pre.data@.len()
        &&& post.dropped >= pre.dropped
        &&& pre.spec_frame_fits(p.len() as int) ==> {
            &&& post.head as int == (pre.head + 4 + p.len()) % pre.capacity_int()
            &&& post.dropped == pre.dropped
            &&& post.data@ == MemoryRing::spec_push_data(pre.data@, pre.head as int, p)
        }
        &&& !pre.spec_frame_fits(p.len() as int) ==> {
            &&& post.head == pre.head
            &&& post.data@ == pre.data@
            &&& post.dropped == MemoryRing::spec_bump(pre.dropped)
        }
    }

    /// Append one frame carrying `payload`, or count it as dropped.
    ///
    /// A frame needs `4 + payload.len()` logical bytes.  If that exceeds the
    /// capacity, or exceeds the free space left by the consumer, the frame
    /// is discarded and `dropped` is bumped; the ring is otherwise
    /// unchanged.  On success the length prefix is written at `head`, the
    /// payload at `(head + 4) mod capacity`, and `head` advances by the
    /// frame size modulo the capacity.  `dropped` never decreases.
    pub fn push_bytes(&mut self, payload: &[u8])
        requires
            old(self).wf(),
        ensures
            final(self).wf(),
            MemoryRing::spec_pushed(*old(self), *final(self), payload@),
    {
        let cap: usize = self.data.len();
        let plen: usize = payload.len();

        // A frame that cannot fit even in an empty ring.
        if plen > cap - 4 {
            self.dropped = if self.dropped < u32::MAX {
                self.dropped + 1
            } else {
                self.dropped
            };
            return ;
        }
        let frame_total: usize = 4 + plen;

        let used: u32 = self.used_bytes();
        let free: u32 = (cap as u32) - used;
        proof {
            lemma_dist_bound(self.tail as int, self.head as int, cap as int);
        }
        if frame_total > free as usize {
            self.dropped = if self.dropped < u32::MAX {
                self.dropped + 1
            } else {
                self.dropped
            };
            return ;
        }

        let head = self.head;
        let len_prefix: Vec<u8> = u32_to_le_vec(plen as u32);
        self.copy_in(head, len_prefix.as_slice());
        let off2: u32 = (((head as u64) + 4) % (cap as u64)) as u32;
        proof {
            lemma_mod_bound(head as int + 4, cap as int);
            assert(off2 as int == (head as int + 4) % (cap as int));
        }
        self.copy_in(off2, payload);
        let new_head: u32 = (((head as u64) + (frame_total as u64)) % (cap as u64)) as u32;
        proof {
            lemma_mod_bound(head as int + frame_total as int, cap as int);
            assert(new_head as int == (head as int + frame_total as int) % (cap as int));
        }
        self.head = new_head;
    }

    /// Pull the next complete frame, if one is fully published.
    ///
    /// Returns `None` when the ring is empty, when the frame at `tail` is
    /// not yet fully written, or when the length prefix is corrupt (zero, or
    /// larger than any frame the ring could carry) - in the corrupt case the
    /// consumer resynchronizes by skipping to `head`.  On success the
    /// payload is returned and `tail` advances past the frame.
    pub fn read_next(&mut self) -> (r: Option<Vec<u8>>)
        requires
            old(self).wf(),
        ensures
            final(self).wf(),
            final(self).data@ == old(self).data@,
            final(self).head == old(self).head,
            final(self).dropped == old(self).dropped,
            final(self).tail as int == MemoryRing::spec_read(*old(self)).1,
            r.is_some() == MemoryRing::spec_read(*old(self)).0.is_some(),
            r.is_some() ==> r.unwrap()@ == MemoryRing::spec_read(*old(self)).0.unwrap(),
    {
        let cap: usize = self.data.len();
        let head = self.head;
        let tail = self.tail;
        if tail == head {
            return None;
        }

        let prefix: Vec<u8> = self.copy_out(tail, 4);
        let len: u32 = u32_from_le_bytes(prefix[0], prefix[1], prefix[2], prefix[3]);
        proof {
            assert(seq![prefix@[0], prefix@[1], prefix@[2], prefix@[3]] =~= read_wrapped(
                self.data@,
                tail as int,
                4,
            ));
        }

        if len == 0 || len > (cap as u32) - 4 {
            // Corrupt prefix: resynchronize with the producer.
            self.tail = head;
            return None;
        }

        let available: u32 = self.used_bytes();
        if available < 4 + len {
            // The producer has not yet published the whole frame.
            return None;
        }

        let off2: u32 = (((tail as u64) + 4) % (cap as u64)) as u32;
        proof {
            lemma_mod_bound(tail as int + 4, cap as int);
            assert(off2 as int == (tail as int + 4) % (cap as int));
        }
        let payload: Vec<u8> = self.copy_out(off2, len as usize);
        let new_tail: u32 = (((tail as u64) + 4 + (len as u64)) % (cap as u64)) as u32;
        proof {
            lemma_mod_bound(tail as int + 4 + len as int, cap as int);
            assert(new_tail as int == (tail as int + 4 + len as int) % (cap as int));
        }
        self.tail = new_tail;
        Some(payload)
    }

    /// What `read_next` does to a ring: the returned payload (if any) and
    /// the consumer cursor after the call.
    pub open spec fn spec_read(pre: MemoryRing) -> (Option<Seq<u8>>, int) {
        let c = pre.capacity_int();
        let t = pre.tail as int;
        let h = pre.head as int;
        if t == h {
            (None::<Seq<u8>>, t)
        } else {
            let l = spec_le_u32(read_wrapped(pre.data@, t, 4)) as int;
            if l == 0 || l > c - 4 {
                (None::<Seq<u8>>, h)
            } else if dist(t, h, c) < 4 + l {
                (None::<Seq<u8>>, t)
            } else {
                (Some(read_wrapped(pre.data@, (t + 4) % c, l)), (t + 4 + l) % c)
            }
        }
    }

    /// True when the consumer has caught up with the producer.
    pub fn is_empty(&self) -> (r: bool)
        requires
            self.wf(),
        ensures
            r == (self.tail == self.head),
    {
        self.tail == self.head
    }

    /// Skip every frame currently buffered by moving `tail` to `head`.
    pub fn skip_all(&mut self)
        requires
            old(self).wf(),
        ensures
            final(self).wf(),
            final(self).tail == old(self).head,
            final(self).head == old(self).head,
            final(self).data@ == old(self).data@,
            final(self).dropped == old(self).dropped,
    {
        self.tail = self.head;
    }

    /// Current producer cursor.
    pub fn head(&self) -> (r: u32)
        ensures
            r == self.head,
    {
        self.head
    }

    /// Current consumer cursor.
    pub fn tail(&self) -> (r: u32)
        ensures
            r == self.tail,
    {
        self.tail
    }

    /// Capacity of the data region in bytes.
    pub fn capacity(&self) -> (r: u32)
        requires
            self.wf(),
        ensures
            r as int == self.capacity_int(),
    {
        self.data.len() as u32
    }

    /// Number of frames the producer dropped for lack of space.
    pub fn dropped_count(&self) -> (r: u32)
        ensures
            r == self.dropped,
    {
        self.dropped
    }

    /// Write `src` into the data region starting at `off`, wrapping at the
    /// end of the region.
    fn copy_in(&mut self, off: u32, src: &[u8])
        requires
            old(self).wf(),
            (off as int) < old(self).capacity_int(),
            src@.len() <= old(self).capacity_int(),
        ensures
            final(self).wf(),
            final(self).data@ =~= write_wrapped(old(self).data@, off as int, src@),
            final(self).head == old(self).head,
            final(self).tail == old(self).tail,
            final(self).dropped == old(self).dropped,
    {
        let ghost orig = self.data@;
        let cap: usize = self.data.len();
        let mut j: usize = 0;
        while j < src.len()
            invariant
                self.wf(),
                self.head == old(self).head,
                self.tail == old(self).tail,
                self.dropped == old(self).dropped,
                j <= src@.len(),
                src@.len() <= cap,
                cap == self.data@.len(),
                cap == orig.len(),
                (off as int) < cap as int,
                self.data@ =~= write_wrapped(orig, off as int, src@.take(j as int)),
            decreases src@.len() - j,
        {
            let idx: usize = ((off as u64 + j as u64) % (cap as u64)) as usize;
            proof {
                lemma_mod_bound(off as int + j as int, cap as int);
                assert(idx as int == (off as int + j as int) % (cap as int));
                lemma_write_wrapped_step(orig, off as int, src@, j as int);
            }
            self.data[idx] = src[j];
            j = j + 1;
        }
        proof {
            assert(src@.take(src@.len() as int) =~= src@);
        }
    }

    /// Read `n` bytes from the data region starting at `off`, wrapping at
    /// the end of the region.
    fn copy_out(&self, off: u32, n: usize) -> (r: Vec<u8>)
        requires
            self.wf(),
            (off as int) < self.capacity_int(),
            n as int <= self.capacity_int(),
        ensures
            r@ =~= read_wrapped(self.data@, off as int, n as int),
    {
        let cap: usize = self.data.len();
        let mut r: Vec<u8> = Vec::new();
        let mut j: usize = 0;
        while j < n
            invariant
                self.wf(),
                j <= n,
                n <= cap,
                cap == self.data@.len(),
                (off as int) < cap as int,
                r@ =~= read_wrapped(self.data@, off as int, j as int),
            decreases n - j,
        {
            let idx: usize = ((off as u64 + j as u64) % (cap as u64)) as usize;
            proof {
                lemma_mod_bound(off as int + j as int, cap as int);
                assert(idx as int == (off as int + j as int) % (cap as int));
            }
            let b: u8 = self.data[idx];
            r.push(b);
            proof {
                assert(r@ =~= read_wrapped(self.data@, off as int, j as int + 1));
            }
            j = j + 1;
        }
        r
    }
}

/// Subtracting a multiple of `c` does not change the residue.
proof fn lemma_mod_sub_mul(x: int, q: int, c: int)
    requires
        0 < c,
    ensures
        (x - q * c) % c == x % c,
{
    lemma_fundamental_div_mod(x, c);
    lemma_mod_bound(x, c);
    assert(x - q * c == (x / c - q) * c + x % c) by (nonlinear_arith)
        requires
            x == c * (x / c) + x % c,
    ;
    lemma_fundamental_div_mod_converse_mod(x - q * c, c, x / c - q, x % c);
}

} // verus!
