//! What the background file-writer workers decide: capture file names and
//! the routing of drained samples to per-track files. The file handles,
//! threads and flush timing belong to the surrounding application; every
//! byte of policy is here.

use vstd::prelude::*;
use crate::text::{dec_digits_pad2, usize_to_dec_pad2, is_dec_digit};
use crate::ring::{rec_popped, drain_tagged};

verus! {

use vstd::string::StringExecFns;

/// The name of a track's capture file: the 1-indexed track number, padded
/// to two digits, then the session timestamp, as `NN-timestamp.wav`.
pub open spec fn track_file_name_spec(track_id: int, timestamp: Seq<char>) -> Seq<char> {
    dec_digits_pad2((track_id + 1) as nat) + "-"@ + timestamp + ".wav"@
}

/// The capture file name for a track id.
pub fn track_file_name(track_id: usize, timestamp: &str) -> (r: String)
    requires
        track_id < usize::MAX,
    ensures
        r@ == track_file_name_spec(track_id as int, timestamp@),
{
    let mut s = usize_to_dec_pad2(track_id + 1);
    s.append("-");
    s.append(timestamp);
    s.append(".wav");
    s
}

/// The name of the stereo mix capture file, `mix-timestamp.wav`.
pub open spec fn mix_file_name_spec(timestamp: Seq<char>) -> Seq<char> {
    "mix-"@ + timestamp + ".wav"@
}

/// The mix capture file name.
pub fn mix_file_name(timestamp: &str) -> (r: String)
    ensures
        r@ == mix_file_name_spec(timestamp@),
{
    let mut s = String::from_str("mix-");
    s.append(timestamp);
    s.append(".wav");
    s
}

/// Relies on chrono's local clock and formatting: the current wall-clock
/// moment rendered as `YYYYMMDD-HHMMSS`. Whatever the moment, the fixed
/// format yields at least 15 characters, all decimal digits except one
/// separating dash seven characters from the end (the first character may
/// instead carry the sign chrono prints for years outside four digits,
/// which also make the render longer).
#[verifier::external_body]
pub fn generate_timestamp() -> (r: String)
    ensures
        r@.len() >= 15,
        r@[r@.len() - 7] == '-',
        forall|i: int|
            1 <= i < r@.len() && i != r@.len() - 7 ==> is_dec_digit(#[trigger] r@[i]),
        is_dec_digit(r@[0]) || r@[0] == '+' || r@[0] == '-',
{
    chrono::Local::now().format("%Y%m%d-%H%M%S").to_string()
}

/// The position of `id` among the armed track ids, if it is armed.
pub open spec fn first_index_of(armed: Seq<usize>, id: usize) -> Option<int>
    decreases armed.len(),
{
    if armed.len() == 0 {
        None
    } else if armed[0] == id {
        Some(0int)
    } else {
        match first_index_of(armed.drop_first(), id) {
            Some(i) => Some(i + 1),
            None => None,
        }
    }
}

proof fn lemma_first_index_absent(armed: Seq<usize>, id: usize)
    requires
        forall|k: int| 0 <= k < armed.len() ==> armed[k] != id,
    ensures
        first_index_of(armed, id) is None,
    decreases armed.len(),
{
    if armed.len() > 0 {
        lemma_first_index_absent(armed.drop_first(), id);
    }
}

proof fn lemma_first_index_range(armed: Seq<usize>, id: usize)
    ensures
        first_index_of(armed, id) matches Some(i) ==> 0 <= i < armed.len(),
    decreases armed.len(),
{
    if armed.len() > 0 {
        lemma_first_index_range(armed.drop_first(), id);
    }
}

proof fn lemma_first_index_at(armed: Seq<usize>, id: usize, i: int)
    requires
        0 <= i < armed.len(),
        armed[i] == id,
        forall|k: int| 0 <= k < i ==> armed[k] != id,
    ensures
        first_index_of(armed, id) == Some(i),
    decreases i,
{
    if i > 0 {
        lemma_first_index_at(armed.drop_first(), id, i - 1);
    }
}

/// The bucket a tagged sample belongs to: the position of its id among the
/// armed ids, none when the track is not armed.
pub fn find_bucket(armed: &Vec<usize>, id: usize) -> (r: Option<usize>)
    ensures
        r == match first_index_of(armed@, id) {
            Some(i) => Some(i as usize),
            None => None::<usize>,
        },
        r matches Some(b) ==> b < armed@.len(),
{
    let mut i: usize = 0;
    while i < armed.len()
        invariant
            i <= armed@.len(),
            forall|k: int| 0 <= k < i ==> armed@[k] != id,
        decreases armed@.len() - i,
    {
        if armed[i] == id {
            proof {
                lemma_first_index_at(armed@, id, i as int);
            }
            return Some(i);
        }
        i = i + 1;
    }
    proof {
        lemma_first_index_absent(armed@, id);
    }
    None
}

/// What lands in bucket `b` when a batch of tagged samples is routed to
/// the armed tracks' files, in arrival order.
pub open spec fn routed(samples: Seq<(usize, i64)>, armed: Seq<usize>, b: int) -> Seq<i64>
    decreases samples.len(),
{
    if samples.len() == 0 {
        Seq::empty()
    } else {
        let pre = routed(samples.drop_last(), armed, b);
        let s = samples.last();
        if first_index_of(armed, s.0) == Some(b) {
            pre.push(s.1)
        } else {
            pre
        }
    }
}

/// Distribute a drained batch to per-file buckets, one bucket per armed
/// track id in order: each sample goes to the bucket of its track id, and
/// samples of tracks that are not armed are dropped.
pub fn route_samples(samples: &Vec<(usize, i64)>, armed: &Vec<usize>) -> (buckets: Vec<Vec<i64>>)
    ensures
        buckets@.len() == armed@.len(),
        forall|b: int|
            0 <= b < armed@.len() ==> (#[trigger] buckets@[b])@ == routed(samples@, armed@, b),
{
    let mut buckets: Vec<Vec<i64>> = Vec::new();
    let mut b: usize = 0;
    while b < armed.len()
        invariant
            b <= armed@.len(),
            buckets@.len() == b,
            forall|k: int| 0 <= k < b ==> (#[trigger] buckets@[k])@.len() == 0,
        decreases armed@.len() - b,
    {
        buckets.push(Vec::new());
        b = b + 1;
    }

    let mut i: usize = 0;
    while i < samples.len()
        invariant
            i <= samples@.len(),
            armed@.len() <= usize::MAX,
            buckets@.len() == armed@.len(),
            forall|k: int|
                0 <= k < armed@.len() ==> (#[trigger] buckets@[k])@ == routed(
                    samples@.take(i as int),
                    armed@,
                    k,
                ),
        decreases samples@.len() - i,
    {
        let (id, sample) = samples[i];
        proof {
            assert(samples@.take(i + 1).drop_last() =~= samples@.take(i as int));
            assert(samples@.take(i + 1).last() == samples@[i as int]);
        }
        match find_bucket(armed, id) {
            Some(bi) => {
                proof {
                    lemma_first_index_range(armed@, id);
                }
                let ghost before = buckets@;
                let bucket = &mut buckets[bi];
                bucket.push(sample);
                proof {
                    assert forall|k: int|
                        0 <= k < armed@.len() implies (#[trigger] buckets@[k])@ == routed(
                        samples@.take(i + 1),
                        armed@,
                        k,
                    ) by {
                        if k == bi {
                            assert(first_index_of(armed@, id) == Some(k));
                            assert(buckets@[k]@ =~= routed(
                                samples@.take(i as int),
                                armed@,
                                k,
                            ).push(sample));
                        } else {
                            assert(buckets@[k] == before[k]);
                            assert(first_index_of(armed@, id) != Some(k));
                        }
                    }
                }
            },
            None => {
                proof {
                    assert forall|k: int|
                        0 <= k < armed@.len() implies (#[trigger] buckets@[k])@ == routed(
                        samples@.take(i + 1),
                        armed@,
                        k,
                    ) by {
                        assert(first_index_of(armed@, id) is None);
                    }
                }
            },
        }
        i = i + 1;
    }
    proof {
        assert(samples@.take(samples@.len() as int) =~= samples@);
    }
    buckets
}

/// One drain pass of the per-track writer: read up to `max` pending
/// samples (fewer only when the ring runs empty) and route exactly what
/// was read to the armed tracks' buckets.
pub fn writer_drain_pass(c: &mut rtrb::Consumer<(usize, i64)>, armed: &Vec<usize>, max: usize)
    -> (buckets: Vec<Vec<i64>>)
    ensures
        buckets@.len() == armed@.len(),
        rec_popped(*old(c)).is_prefix_of(rec_popped(*final(c))),
        rec_popped(*final(c)).len() - rec_popped(*old(c)).len() <= max,
        forall|b: int|
            0 <= b < armed@.len() ==> (#[trigger] buckets@[b])@ == routed(
                rec_popped(*final(c)).skip(rec_popped(*old(c)).len() as int),
                armed@,
                b,
            ),
{
    let samples = drain_tagged(c, max);
    proof {
        assert((rec_popped(*old(c)) + samples@).skip(rec_popped(*old(c)).len() as int)
            =~= samples@);
        assert((rec_popped(*old(c)) + samples@).take(rec_popped(*old(c)).len() as int)
            =~= rec_popped(*old(c)));
    }
    route_samples(&samples, armed)
}

} // verus!
