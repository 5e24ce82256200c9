//! Lock-free SPSC ring buffers, from the `rtrb` crate.
//!
//! The pipeline uses two element shapes: tagged recording samples
//! `(track id, sample)` bound for the per-track writer, and plain samples
//! `i64` for the interleaved-stereo monitor, playback and mix streams.
//!
//! The two halves of a queue live on different threads, so the free slots
//! and the unread elements are shared state that can move under either
//! half at any time; no contract here speaks of them. Each half is
//! modelled by its own history alone: a producer by the sequence it has
//! made available (a push appends on success and changes nothing on Full
//! — which of the two happens is left open), a consumer by the sequence
//! it has returned (a pop extends it by one element or, on Empty, not at
//! all). Everything the pipeline proves about ring traffic rests on those
//! histories.

use vstd::prelude::*;

verus! {

#[verifier::external_type_specification]
#[verifier::external_body]
#[verifier::reject_recursive_types(T)]
pub struct ExProducer<T>(rtrb::Producer<T>);

#[verifier::external_type_specification]
#[verifier::external_body]
#[verifier::reject_recursive_types(T)]
pub struct ExConsumer<T>(rtrb::Consumer<T>);

/// What a producer of tagged recording samples has made available, oldest
/// first.
pub uninterp spec fn rec_queue(p: rtrb::Producer<(usize, i64)>) -> Seq<(usize, i64)>;

/// What a consumer of tagged recording samples has returned, oldest
/// first.
pub uninterp spec fn rec_popped(c: rtrb::Consumer<(usize, i64)>) -> Seq<(usize, i64)>;

/// What a producer of plain samples has made available, oldest first.
pub uninterp spec fn sample_queue(p: rtrb::Producer<i64>) -> Seq<i64>;

/// What a consumer of plain samples has returned, oldest first.
pub uninterp spec fn sample_popped(c: rtrb::Consumer<i64>) -> Seq<i64>;

/// Relies on rtrb::Producer::push: the element is appended when a slot is
/// free and returned in a Full error otherwise. Whether a slot is free
/// depends on the consumer's progress on its own thread, so nothing here
/// says when which happens.
#[verifier::external_body]
pub fn rec_push(p: &mut rtrb::Producer<(usize, i64)>, item: (usize, i64)) -> (ok: bool)
    ensures
        ok ==> rec_queue(*final(p)) == rec_queue(*old(p)).push(item),
        !ok ==> rec_queue(*final(p)) == rec_queue(*old(p)),
{
    p.push(item).is_ok()
}

/// Relies on rtrb::Producer::push: the element is appended when a slot is
/// free and returned in a Full error otherwise. Whether a slot is free
/// depends on the consumer's progress on its own thread, so nothing here
/// says when which happens.
#[verifier::external_body]
pub fn sample_push(p: &mut rtrb::Producer<i64>, item: i64) -> (ok: bool)
    ensures
        ok ==> sample_queue(*final(p)) == sample_queue(*old(p)).push(item),
        !ok ==> sample_queue(*final(p)) == sample_queue(*old(p)),
{
    p.push(item).is_ok()
}

/// Relies on rtrb::Consumer::pop: one element out when one is pending, an
/// Empty error otherwise. What is pending depends on the producer's
/// progress on its own thread, so nothing here says when which happens.
#[verifier::external_body]
pub fn rec_pop(c: &mut rtrb::Consumer<(usize, i64)>) -> (r: Option<(usize, i64)>)
    ensures
        match r {
            Some(x) => rec_popped(*final(c)) == rec_popped(*old(c)).push(x),
            None => rec_popped(*final(c)) == rec_popped(*old(c)),
        },
{
    c.pop().ok()
}

/// Relies on rtrb::Consumer::pop: one element out when one is pending, an
/// Empty error otherwise. What is pending depends on the producer's
/// progress on its own thread, so nothing here says when which happens.
#[verifier::external_body]
pub fn sample_pop(c: &mut rtrb::Consumer<i64>) -> (r: Option<i64>)
    ensures
        match r {
            Some(x) => sample_popped(*final(c)) == sample_popped(*old(c)).push(x),
            None => sample_popped(*final(c)) == sample_popped(*old(c)),
        },
{
    c.pop().ok()
}

/// Whether `s` is `t` with zero or more elements left out, order kept.
pub open spec fn subsequence_of<A>(s: Seq<A>, t: Seq<A>) -> bool
    decreases t.len(), s.len(),
{
    if s.len() == 0 {
        true
    } else if t.len() == 0 {
        false
    } else if s.last() == t.last() {
        subsequence_of(s.drop_last(), t.drop_last())
    } else {
        subsequence_of(s, t.drop_last())
    }
}

/// A subsequence stays one when the same element is appended to both.
pub proof fn lemma_subsequence_push_both<A>(s: Seq<A>, t: Seq<A>, x: A)
    requires
        subsequence_of(s, t),
    ensures
        subsequence_of(s.push(x), t.push(x)),
{
    assert(s.push(x).drop_last() =~= s);
    assert(t.push(x).drop_last() =~= t);
}

/// A subsequence stays one when the longer side grows.
pub proof fn lemma_subsequence_extend<A>(s: Seq<A>, t: Seq<A>, x: A)
    requires
        subsequence_of(s, t),
    ensures
        subsequence_of(s, t.push(x)),
    decreases t.len(), 1int,
{
    if s.len() > 0 {
        assert(t.push(x).drop_last() =~= t);
        if s.last() == x {
            lemma_subsequence_shrink(s, t);
        }
    }
}

/// Dropping the last element of a subsequence keeps it one.
pub proof fn lemma_subsequence_shrink<A>(s: Seq<A>, t: Seq<A>)
    requires
        subsequence_of(s, t),
        s.len() > 0,
    ensures
        subsequence_of(s.drop_last(), t),
    decreases t.len(), 0int,
{
    if s.last() == t.last() {
        if s.drop_last().len() > 0 {
            lemma_subsequence_extend(s.drop_last(), t.drop_last(), t.last());
        }
        assert(t.drop_last().push(t.last()) =~= t);
    } else {
        lemma_subsequence_shrink(s, t.drop_last());
        lemma_subsequence_extend(s.drop_last(), t.drop_last(), t.last());
        assert(t.drop_last().push(t.last()) =~= t);
    }
}

/// Push a whole batch of plain samples, dropping what finds no free slot:
/// the queue grows by the batch's elements in order, less those the ring
/// refused, and never blocks.
pub fn push_samples(p: &mut rtrb::Producer<i64>, batch: &Vec<i64>)
    ensures
        exists|s: Seq<i64>|
            sample_queue(*final(p)) == sample_queue(*old(p)) + s && #[trigger] subsequence_of(
                s,
                batch@,
            ),
{
    let ghost q0 = sample_queue(*p);
    let ghost mut pushed = Seq::<i64>::empty();
    let mut i: usize = 0;
    proof {
        assert(q0 + pushed =~= q0);
    }
    while i < batch.len()
        invariant
            i <= batch@.len(),
            sample_queue(*p) == q0 + pushed,
            subsequence_of(pushed, batch@.take(i as int)),
        decreases batch@.len() - i,
    {
        let ok = sample_push(p, batch[i]);
        proof {
            assert(batch@.take(i + 1) =~= batch@.take(i as int).push(batch@[i as int]));
            if ok {
                lemma_subsequence_push_both(pushed, batch@.take(i as int), batch@[i as int]);
                pushed = pushed.push(batch@[i as int]);
                assert(sample_queue(*p) =~= q0 + pushed);
            } else {
                lemma_subsequence_extend(pushed, batch@.take(i as int), batch@[i as int]);
            }
        }
        i = i + 1;
    }
    proof {
        assert(batch@.take(batch@.len() as int) =~= batch@);
        assert(sample_queue(*p) == sample_queue(*old(p)) + pushed && subsequence_of(
            pushed,
            batch@,
        ));
    }
}

/// Push a whole batch of tagged recording samples, dropping what finds no
/// free slot: the queue grows by the batch's elements in order, less
/// those the ring refused.
pub fn push_tagged(p: &mut rtrb::Producer<(usize, i64)>, batch: &Vec<(usize, i64)>)
    ensures
        exists|s: Seq<(usize, i64)>|
            rec_queue(*final(p)) == rec_queue(*old(p)) + s && #[trigger] subsequence_of(
                s,
                batch@,
            ),
{
    let ghost q0 = rec_queue(*p);
    let ghost mut pushed = Seq::<(usize, i64)>::empty();
    let mut i: usize = 0;
    proof {
        assert(q0 + pushed =~= q0);
    }
    while i < batch.len()
        invariant
            i <= batch@.len(),
            rec_queue(*p) == q0 + pushed,
            subsequence_of(pushed, batch@.take(i as int)),
        decreases batch@.len() - i,
    {
        let ok = rec_push(p, batch[i]);
        proof {
            assert(batch@.take(i + 1) =~= batch@.take(i as int).push(batch@[i as int]));
            if ok {
                lemma_subsequence_push_both(pushed, batch@.take(i as int), batch@[i as int]);
                pushed = pushed.push(batch@[i as int]);
                assert(rec_queue(*p) =~= q0 + pushed);
            } else {
                lemma_subsequence_extend(pushed, batch@.take(i as int), batch@[i as int]);
            }
        }
        i = i + 1;
    }
    proof {
        assert(batch@.take(batch@.len() as int) =~= batch@);
        assert(rec_queue(*p) == rec_queue(*old(p)) + pushed && subsequence_of(pushed, batch@));
    }
}

/// Read pending plain samples in order: up to `max` of them, fewer only
/// when a pop finds the ring empty. Exactly what is returned is appended
/// to the consumer's history.
pub fn drain_samples(c: &mut rtrb::Consumer<i64>, max: usize) -> (v: Vec<i64>)
    ensures
        v@.len() <= max,
        sample_popped(*final(c)) == sample_popped(*old(c)) + v@,
{
    let ghost popped0 = sample_popped(*c);
    let mut v: Vec<i64> = Vec::new();
    proof {
        assert(popped0 + v@ =~= popped0);
    }
    let mut i: usize = 0;
    while i < max
        invariant
            i <= max,
            v@.len() == i,
            popped0 == sample_popped(*old(c)),
            sample_popped(*c) == popped0 + v@,
        decreases max - i,
    {
        match sample_pop(c) {
            Some(x) => {
                proof {
                    assert((popped0 + v@).push(x) =~= popped0 + v@.push(x));
                }
                v.push(x);
            },
            None => {
                return v;
            },
        }
        i = i + 1;
    }
    v
}

/// Read pending tagged recording samples in order: up to `max` of them,
/// fewer only when a pop finds the ring empty. Exactly what is returned
/// is appended to the consumer's history.
pub fn drain_tagged(c: &mut rtrb::Consumer<(usize, i64)>, max: usize) -> (v: Vec<(usize, i64)>)
    ensures
        v@.len() <= max,
        rec_popped(*final(c)) == rec_popped(*old(c)) + v@,
{
    let ghost popped0 = rec_popped(*c);
    let mut v: Vec<(usize, i64)> = Vec::new();
    proof {
        assert(popped0 + v@ =~= popped0);
    }
    let mut i: usize = 0;
    while i < max
        invariant
            i <= max,
            v@.len() == i,
            popped0 == rec_popped(*old(c)),
            rec_popped(*c) == popped0 + v@,
        decreases max - i,
    {
        match rec_pop(c) {
            Some(x) => {
                proof {
                    assert((popped0 + v@).push(x) =~= popped0 + v@.push(x));
                }
                v.push(x);
            },
            None => {
                return v;
            },
        }
        i = i + 1;
    }
    v
}

/// Samples the input recording ring must hold: a few seconds of every
/// input channel.
pub fn input_ring_capacity(sample_rate: u32, ring_seconds: usize, channels: usize) -> (n: usize)
    requires
        sample_rate as int * ring_seconds as int * channels as int <= usize::MAX as int,
    ensures
        n == sample_rate as int * ring_seconds as int * channels as int,
{
    proof {
        assert(sample_rate as int * ring_seconds as int <= 0xFFFF_FFFFint
            * 0xFFFF_FFFF_FFFF_FFFFint) by (nonlinear_arith)
            requires
                0 <= sample_rate as int <= 0xFFFF_FFFFint,
                0 <= ring_seconds as int <= 0xFFFF_FFFF_FFFF_FFFFint,
        {}
    }
    let wide: u128 = sample_rate as u128 * ring_seconds as u128;
    proof {
        assert(wide * channels as u128 <= usize::MAX as u128);
    }
    (wide * channels as u128) as usize
}

/// Samples a low-latency interleaved-stereo ring must hold for the given
/// span of milliseconds.
pub fn stereo_ring_capacity_ms(sample_rate: u32, millis: usize) -> (n: usize)
    requires
        (sample_rate as int * 2 * millis as int) / 1000 <= usize::MAX as int,
        millis <= 1000,
    ensures
        n == (sample_rate as int * 2 * millis as int) / 1000,
{
    let wide: u128 = sample_rate as u128 * 2 * millis as u128;
    (wide / 1000) as usize
}

/// Samples the stereo mix ring must hold: a few seconds of interleaved
/// stereo.
pub fn mix_ring_capacity(sample_rate: u32, ring_seconds: usize) -> (n: usize)
    requires
        sample_rate as int * ring_seconds as int * 2 <= usize::MAX as int,
    ensures
        n == sample_rate as int * ring_seconds as int * 2,
{
    proof {
        assert(sample_rate as int * ring_seconds as int <= 0xFFFF_FFFFint
            * 0xFFFF_FFFF_FFFF_FFFFint) by (nonlinear_arith)
            requires
                0 <= sample_rate as int <= 0xFFFF_FFFFint,
                0 <= ring_seconds as int <= 0xFFFF_FFFF_FFFF_FFFFint,
        {}
    }
    let wide: u128 = sample_rate as u128 * ring_seconds as u128;
    proof {
        assert(wide * 2 <= usize::MAX as u128);
    }
    (wide * 2) as usize
}

} // verus!
