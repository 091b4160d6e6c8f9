//! Laws of the ring: the frame-queue abstraction and the round-trip
//! guarantees between producer and consumer.
//!
//! `frames_from` decodes the bytes between `tail` and `head` as a queue of
//! length-prefixed frames.  The laws below state that a successful push
//! appends exactly one frame to that queue and that a read pops exactly the
//! first one, byte for byte - so payloads emitted by the producer arrive at
//! the consumer unchanged and in order.

use vstd::prelude::*;
use vstd::arithmetic::div_mod::{
    lemma_fundamental_div_mod_converse_mod, lemma_mod_bound, lemma_small_mod,
    lemma_sub_mod_noop_right,
};

use crate::bytes::{lemma_u32_le_roundtrip, spec_le_u32, spec_u32_le};
use crate::ring::{
    dist, lemma_dist_bound, lemma_mod_mod_sub, lemma_read_of_write, lemma_read_of_write_disjoint,
    read_wrapped, MemoryRing,
};

verus! {

/// Both cursors of a valid ring lie inside the data region, the queued
/// byte count is below the capacity, and queued plus free bytes equal the
/// capacity exactly.
pub proof fn lemma_used_free(r: MemoryRing)
    requires
        r.wf(),
    ensures
        0 <= r.used_int() < r.capacity_int(),
        r.used_int() + r.free_int() == r.capacity_int(),
{
    lemma_dist_bound(r.tail as int, r.head as int, r.capacity_int());
}

/// The queue of frames encoded in `data` between `tail` and `head`, or
/// `None` when the bytes there do not parse as a well-formed sequence of
/// frames ending exactly at `head`.
pub open spec fn frames_from(data: Seq<u8>, tail: int, head: int) -> Option<Seq<Seq<u8>>>
    decreases dist(tail, head, data.len() as int),
        when 4 < data.len() && 0 <= tail < data.len() && 0 <= head < data.len()
        via frames_from_decreases
{
    let c = data.len() as int;
    if tail == head {
        Some(Seq::<Seq<u8>>::empty())
    } else {
        let avail = dist(tail, head, c);
        let l = spec_le_u32(read_wrapped(data, tail, 4)) as int;
        if l == 0 || 4 + l > avail {
            None
        } else {
            match frames_from(data, (tail + 4 + l) % c, head) {
                Option::None => None,
                Option::Some(rest) => Some(seq![read_wrapped(data, (tail + 4) % c, l)].add(rest)),
            }
        }
    }
}

#[via_fn]
proof fn frames_from_decreases(data: Seq<u8>, tail: int, head: int) {
    let c = data.len() as int;
    if tail != head {
        let avail = dist(tail, head, c);
        let l = spec_le_u32(read_wrapped(data, tail, 4)) as int;
        if !(l == 0 || 4 + l > avail) {
            lemma_dist_bound(tail, head, c);
            lemma_next_dist(data, tail, head, l);
        }
    }
}

/// Skipping a frame of payload length `l` shortens the queued distance by
/// exactly `4 + l`.
proof fn lemma_next_dist(data: Seq<u8>, tail: int, head: int, l: int)
    requires
        4 < data.len(),
        0 <= tail < data.len(),
        0 <= head < data.len(),
        tail != head,
        0 <= l,
        4 + l <= dist(tail, head, data.len() as int),
    ensures
        0 <= (tail + 4 + l) % (data.len() as int) < data.len(),
        dist((tail + 4 + l) % (data.len() as int), head, data.len() as int) == dist(
            tail,
            head,
            data.len() as int,
        ) - 4 - l,
{
    let c = data.len() as int;
    let avail = dist(tail, head, c);
    lemma_dist_bound(tail, head, c);
    let t2 = (tail + 4 + l) % c;
    lemma_mod_bound(tail + 4 + l, c);
    // head - t2 and head - tail - 4 - l agree modulo c.
    lemma_sub_mod_noop_right(head, tail + 4 + l, c);
    // head - tail - 4 - l and avail - 4 - l agree modulo c.
    lemma_mod_mod_sub(head - tail, 4 + l, c);
    lemma_small_mod((avail - 4 - l) as nat, c as nat);
}

/// Reads whose positions all lie at wrap distance at least `4 + p.len()`
/// from the producer cursor are untouched by a push of `p` at `head`.
proof fn lemma_push_read_untouched(data: Seq<u8>, head: int, p: Seq<u8>, roff: int, n: int)
    requires
        4 < data.len() <= u32::MAX,
        0 <= head < data.len(),
        0 <= roff < data.len(),
        0 <= n,
        4 + p.len() <= data.len(),
        forall|j: int| 0 <= j < n ==> 4 + p.len() <= #[trigger] ((roff + j - head) % (
        data.len() as int)),
    ensures
        read_wrapped(MemoryRing::spec_push_data(data, head, p), roff, n) =~= read_wrapped(
            data,
            roff,
            n,
        ),
{
    let c = data.len() as int;
    let le = spec_u32_le(p.len() as u32);
    let d1 = crate::ring::write_wrapped(data, head, le);
    let h2 = (head + 4) % c;
    lemma_mod_bound(head + 4, c);
    // The payload write at `(head + 4) % c` misses every read position.
    assert forall|j: int| 0 <= j < n implies #[trigger] ((roff + j - h2) % c) >= p.len() by {
        lemma_sub_mod_noop_right(roff + j, head + 4, c);
        assert((roff + j - h2) % c == (roff + j - head - 4) % c);
        let r1 = (roff + j - head) % c;
        assert(4 + p.len() <= r1);
        lemma_mod_bound(roff + j - head, c);
        lemma_mod_mod_sub(roff + j - head, 4, c);
        assert((r1 - 4) % c == (roff + j - head - 4) % c);
        lemma_small_mod((r1 - 4) as nat, c as nat);
    }
    lemma_read_of_write_disjoint(d1, h2, p, roff, n);
    // The four-byte prefix write at `head` misses them as well.
    assert forall|j: int| 0 <= j < n implies #[trigger] ((roff + j - head) % c) >= le.len() by {
        assert(4 + p.len() <= (roff + j - head) % c);
    }
    lemma_read_of_write_disjoint(data, head, le, roff, n);
}

/// Consumer side of the round-trip law: when the ring holds the frame
/// queue `fs` and `fs` is not empty, a read returns exactly the first
/// queued payload, advances `tail` by `4 + fs[0].len()` modulo the
/// capacity, and leaves the remaining queue behind.
pub proof fn lemma_read_pops_frame(r: MemoryRing)
    requires
        r.wf(),
        frames_from(r.data@, r.tail as int, r.head as int).is_some(),
        frames_from(r.data@, r.tail as int, r.head as int).unwrap().len() > 0,
    ensures
        ({
            let fs = frames_from(r.data@, r.tail as int, r.head as int).unwrap();
            let c = r.capacity_int();
            let t2 = (r.tail + 4 + fs[0].len()) % c;
            &&& MemoryRing::spec_read(r).0 == Some(fs[0])
            &&& MemoryRing::spec_read(r).1 == t2
            &&& frames_from(r.data@, t2, r.head as int) == Some(fs.drop_first())
        }),
{
    let c = r.capacity_int();
    let t = r.tail as int;
    let h = r.head as int;
    let fs = frames_from(r.data@, t, h).unwrap();
    assert(t != h);
    let avail = dist(t, h, c);
    lemma_dist_bound(t, h, c);
    let l = spec_le_u32(read_wrapped(r.data@, t, 4)) as int;
    assert(l >= 1 && 4 + l <= avail);
    assert(l <= c - 4);
    let rest = frames_from(r.data@, (t + 4 + l) % c, h).unwrap();
    assert(fs == seq![read_wrapped(r.data@, (t + 4) % c, l)].add(rest));
    assert(fs[0] == read_wrapped(r.data@, (t + 4) % c, l));
    assert(fs.drop_first() =~= rest);
}

/// Producer side of the round-trip law: when the ring holds the frame
/// queue `fs` and a frame carrying `p` still leaves at least one free byte
/// (`used + 4 + p.len() < capacity`), pushing `p` makes the ring hold
/// exactly `fs.push(p)` - every queued frame is preserved, byte for byte,
/// and the new frame is appended at the back.
#[verifier::rlimit(80)]
pub proof fn lemma_push_appends_frame(data: Seq<u8>, tail: int, head: int, p: Seq<u8>)
    requires
        4 < data.len() <= u32::MAX,
        0 <= tail < data.len(),
        0 <= head < data.len(),
        frames_from(data, tail, head).is_some(),
        1 <= p.len(),
        dist(tail, head, data.len() as int) + 4 + p.len() < data.len(),
    ensures
        ({
            let c = data.len() as int;
            let head2 = (head + 4 + p.len()) % c;
            frames_from(MemoryRing::spec_push_data(data, head, p), tail, head2) == Some(
                frames_from(data, tail, head).unwrap().push(p),
            )
        }),
    decreases dist(tail, head, data.len() as int),
{
    let c = data.len() as int;
    let pl = p.len() as int;
    let head2 = (head + 4 + pl) % c;
    let data2 = MemoryRing::spec_push_data(data, head, p);
    let le = spec_u32_le(p.len() as u32);
    let d1 = crate::ring::write_wrapped(data, head, le);
    let h2 = (head + 4) % c;
    let avail = dist(tail, head, c);
    lemma_dist_bound(tail, head, c);
    lemma_mod_bound(head + 4 + pl, c);
    lemma_mod_bound(head + 4, c);
    lemma_small_mod(0, c as nat);
    assert(data2.len() == c);

    // The new producer cursor sits `4 + p.len()` past the old queue.
    assert(dist(tail, head2, c) == avail + 4 + pl) by {
        lemma_mod_mod_sub(head + 4 + pl, tail, c);
        assert((head2 - tail) % c == (head + 4 + pl - tail) % c);
        lemma_mod_mod_sub(head - tail, -(4 + pl), c);
        assert((avail + (4 + pl)) % c == (head - tail + 4 + pl) % c);
        lemma_small_mod((avail + 4 + pl) as nat, c as nat);
    }

    // The length prefix of the new frame decodes to `p.len()`.
    assert(read_wrapped(data2, head, 4) =~= le) by {
        assert forall|j: int| 0 <= j < 4 implies #[trigger] ((head + j - h2) % c) >= p.len() by {
            lemma_sub_mod_noop_right(head + j, head + 4, c);
            assert((head + j - h2) % c == (j - 4) % c);
            lemma_fundamental_div_mod_converse_mod(j - 4, c, -1, c + j - 4);
        }
        lemma_read_of_write_disjoint(d1, h2, p, head, 4);
        lemma_read_of_write(data, head, le);
    }
    assert(spec_le_u32(le) == p.len() as u32) by {
        lemma_u32_le_roundtrip(p.len() as u32);
    }

    // The payload of the new frame reads back unchanged.
    assert(read_wrapped(data2, h2, pl) =~= p) by {
        lemma_read_of_write(d1, h2, p);
    }

    if tail == head {
        // Base: the queue was empty; the pushed frame is the only one.
        assert(avail == 0);
        let fs2 = frames_from(data2, tail, head2);
        assert(dist(tail, head2, c) == 4 + pl);
        assert(tail != head2) by {
            assert(dist(tail, head2, c) != 0);
        }
        assert((tail + 4 + pl) % c == head2);
        assert(frames_from(data2, head2, head2) == Some(Seq::<Seq<u8>>::empty()));
        assert(fs2 == Some(seq![read_wrapped(data2, (tail + 4) % c, pl)].add(Seq::<Seq<
            u8,
        >>::empty())));
        assert(seq![p].add(Seq::<Seq<u8>>::empty()) =~= frames_from(
            data,
            tail,
            head,
        ).unwrap().push(p));
    } else {
        // Step: the first queued frame is untouched; recurse past it.
        assert(avail >= 1);
        let l0 = spec_le_u32(read_wrapped(data, tail, 4)) as int;
        assert(l0 >= 1 && 4 + l0 <= avail);
        let t1 = (tail + 4 + l0) % c;
        lemma_next_dist(data, tail, head, l0);
        let rest = frames_from(data, t1, head).unwrap();
        let f0 = read_wrapped(data, (tail + 4) % c, l0);
        assert(frames_from(data, tail, head).unwrap() == seq![f0].add(rest));

        // Positions of the first frame keep a wrap distance of at least
        // `4 + p.len()` from `head`, so the push does not touch them.
        assert forall|j: int| 0 <= j < 4 implies 4 + p.len() <= #[trigger] ((tail + j - head)
            % c) by {
            lemma_sub_mod_noop_right(j, head - tail, c);
            assert((tail + j - head) % c == (j - avail) % c);
            lemma_fundamental_div_mod_converse_mod(j - avail, c, -1, c + j - avail);
        }
        lemma_push_read_untouched(data, head, p, tail, 4);
        assert(read_wrapped(data2, tail, 4) =~= read_wrapped(data, tail, 4));

        let roff = (tail + 4) % c;
        lemma_mod_bound(tail + 4, c);
        assert forall|j: int| 0 <= j < l0 implies 4 + p.len() <= #[trigger] ((roff + j - head)
            % c) by {
            lemma_mod_mod_sub(tail + 4, head - j, c);
            assert((roff + j - head) % c == (tail + 4 + j - head) % c);
            lemma_sub_mod_noop_right(4 + j, head - tail, c);
            assert((tail + 4 + j - head) % c == (4 + j - avail) % c);
            lemma_fundamental_div_mod_converse_mod(4 + j - avail, c, -1, c + 4 + j - avail);
        }
        lemma_push_read_untouched(data, head, p, roff, l0);
        assert(read_wrapped(data2, roff, l0) =~= f0);

        lemma_push_appends_frame(data, t1, head, p);
        assert(frames_from(data2, t1, head2) == Some(rest.push(p)));

        let l2 = spec_le_u32(read_wrapped(data2, tail, 4)) as int;
        assert(l2 == l0);
        assert(tail != head2) by {
            assert(dist(tail, head2, c) != 0);
        }
        assert(!(l2 == 0 || 4 + l2 > dist(tail, head2, c)));
        assert((tail + 4 + l2) % c == t1);
        assert(read_wrapped(data2, (tail + 4) % c, l2) == f0);
        assert(frames_from(data2, tail, head2) == Some(seq![f0].add(rest.push(p))));
        assert(seq![f0].add(rest.push(p)) =~= (seq![f0].add(rest)).push(p));
    }
}

/// Single-frame round trip: after a successful push of `p` into a ring
/// whose consumer had caught up, the very next read returns `p`, byte for
/// byte, and leaves the consumer cursor level with the producer again.
/// `r1` is the ring before the push, `r2` the ring after it, related as
/// `push_bytes` guarantees.
pub proof fn lemma_roundtrip_single(r1: MemoryRing, r2: MemoryRing, p: Seq<u8>)
    requires
        r1.wf(),
        r2.wf(),
        r1.tail == r1.head,
        1 <= p.len(),
        4 + p.len() < r1.capacity_int(),
        r2.data@ == MemoryRing::spec_push_data(r1.data@, r1.head as int, p),
        r2.head as int == (r1.head + 4 + p.len()) % r1.capacity_int(),
        r2.tail == r1.tail,
    ensures
        MemoryRing::spec_read(r2).0 == Some(p),
        MemoryRing::spec_read(r2).1 == (r1.tail + 4 + p.len()) % r1.capacity_int(),
{
    let c = r1.capacity_int();
    let t = r1.tail as int;
    lemma_small_mod(0, c as nat);
    assert(dist(t, t, c) == 0);
    assert(frames_from(r1.data@, t, t) == Some(Seq::<Seq<u8>>::empty()));
    lemma_push_appends_frame(r1.data@, t, t, p);
    let fs = frames_from(r2.data@, r2.tail as int, r2.head as int).unwrap();
    assert(fs == Seq::<Seq<u8>>::empty().push(p));
    assert(fs[0] == p);
    lemma_read_pops_frame(r2);
}

/// Total logical bytes of a batch of frames: four prefix bytes plus the
/// payload, per frame.
pub open spec fn spec_frames_total(ps: Seq<Seq<u8>>) -> int
    decreases ps.len(),
{
    if ps.len() == 0 {
        0
    } else {
        4 + ps[0].len() + spec_frames_total(ps.drop_first())
    }
}

/// Every payload in the batch is non-empty (a zero-length frame signals
/// corruption and never decodes).
pub open spec fn spec_all_nonempty(ps: Seq<Seq<u8>>) -> bool {
    forall|i: int| 0 <= i < ps.len() ==> (#[trigger] ps[i]).len() >= 1
}

/// The data region after pushing every frame of `ps` in order, starting
/// at `head`.
pub open spec fn spec_push_all_data(data: Seq<u8>, head: int, ps: Seq<Seq<u8>>) -> Seq<u8>
    decreases ps.len(),
{
    if ps.len() == 0 {
        data
    } else {
        spec_push_all_data(
            MemoryRing::spec_push_data(data, head, ps[0]),
            (head + 4 + ps[0].len()) % (data.len() as int),
            ps.drop_first(),
        )
    }
}

/// The producer cursor after pushing every frame of `ps` in order,
/// starting at `head` in a ring of capacity `c`.
pub open spec fn spec_push_all_head(head: int, ps: Seq<Seq<u8>>, c: int) -> int
    decreases ps.len(),
{
    if ps.len() == 0 {
        head
    } else {
        spec_push_all_head((head + 4 + ps[0].len()) % c, ps.drop_first(), c)
    }
}

/// Round-trip law for whole batches: a ring holding the queue `fs`, with
/// room to spare for the batch `ps` (its frames non-empty, their total
/// strictly under the free space), holds exactly `fs + ps` after the
/// batch is pushed.  With `lemma_read_pops_frame` popping one frame per
/// read, payloads written by the producer reach the consumer in order
/// and byte for byte: as many reads as pushes, each equal to its push.
pub proof fn lemma_push_batch(data: Seq<u8>, tail: int, head: int, ps: Seq<Seq<u8>>)
    requires
        4 < data.len() <= u32::MAX,
        0 <= tail < data.len(),
        0 <= head < data.len(),
        frames_from(data, tail, head).is_some(),
        spec_all_nonempty(ps),
        dist(tail, head, data.len() as int) + spec_frames_total(ps) < data.len(),
    ensures
        ({
            let c = data.len() as int;
            frames_from(spec_push_all_data(data, head, ps), tail, spec_push_all_head(head, ps, c))
                == Some(frames_from(data, tail, head).unwrap().add(ps))
        }),
    decreases ps.len(),
{
    let c = data.len() as int;
    let fs = frames_from(data, tail, head).unwrap();
    if ps.len() == 0 {
        assert(fs.add(ps) =~= fs);
    } else {
        let p0 = ps[0];
        assert(spec_frames_total(ps) == 4 + p0.len() + spec_frames_total(ps.drop_first()));
        assert(spec_frames_total(ps.drop_first()) >= 0) by {
            lemma_frames_total_nonneg(ps.drop_first());
        }
        lemma_push_appends_frame(data, tail, head, p0);
        let data1 = MemoryRing::spec_push_data(data, head, p0);
        let head1 = (head + 4 + p0.len()) % c;
        lemma_mod_bound(head + 4 + p0.len(), c);
        assert(frames_from(data1, tail, head1) == Some(fs.push(p0)));
        assert(dist(tail, head1, c) == dist(tail, head, c) + 4 + p0.len()) by {
            lemma_mod_mod_sub(head + 4 + p0.len(), tail, c);
            lemma_mod_mod_sub(head - tail, -(4 + p0.len()), c);
            lemma_small_mod((dist(tail, head, c) + 4 + p0.len()) as nat, c as nat);
        }
        assert(data1.len() == c);
        assert(spec_all_nonempty(ps.drop_first())) by {
            assert forall|i: int| 0 <= i < ps.drop_first().len() implies (#[trigger] ps.drop_first(
            )[i]).len() >= 1 by {
                assert(ps.drop_first()[i] == ps[i + 1]);
            }
        }
        lemma_push_batch(data1, tail, head1, ps.drop_first());
        assert(spec_push_all_data(data, head, ps) == spec_push_all_data(
            data1,
            head1,
            ps.drop_first(),
        ));
        assert(spec_push_all_head(head, ps, c) == spec_push_all_head(head1, ps.drop_first(), c));
        assert(fs.push(p0).add(ps.drop_first()) =~= fs.add(ps));
    }
}

/// A batch's total byte count is never negative.
proof fn lemma_frames_total_nonneg(ps: Seq<Seq<u8>>)
    ensures
        spec_frames_total(ps) >= 0,
    decreases ps.len(),
{
    if ps.len() > 0 {
        lemma_frames_total_nonneg(ps.drop_first());
    }
}

} // verus!
