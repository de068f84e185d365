//! Evenly spaced timestamps over the length of a video.
//!
//! A video's length is counted in whole microseconds, the resolution in
//! which the prober reports it. A timestamp is held exactly, as a fraction of
//! microseconds: dividing a length by a count rarely comes out even, and two
//! timestamps of one schedule must not fall together.

use vstd::prelude::*;
use crate::error::{CommandError, ErrorKind};

verus! {

/// The length of a video, in microseconds.
#[derive(Clone, Copy, Debug, PartialEq, Eq, Structural)]
pub struct Duration {
    pub micros: u64,
}

/// A point in a video: `numerator / denominator` microseconds from its start.
#[derive(Clone, Copy, Debug, PartialEq, Eq, Structural)]
pub struct Timestamp {
    pub numerator: u128,
    pub denominator: u32,
}

impl Timestamp {
    /// Whether this is a point in time that a video can have: a fraction
    /// with a positive denominator, below 2 to the power of 64 microseconds.
    pub open spec fn wf(self) -> bool {
        &&& self.denominator >= 1
        &&& self.numerator < self.denominator * 0x1_0000_0000_0000_0000
    }

    /// Whether this point lies strictly before `other`.
    pub open spec fn before(self, other: Timestamp) -> bool {
        self.numerator * other.denominator < other.numerator * self.denominator
    }

    /// Whether this point lies strictly before `micros` microseconds.
    pub open spec fn before_micros(self, micros: int) -> bool {
        self.numerator < micros * self.denominator
    }

    /// Whether this point is the start of the video.
    pub open spec fn is_start(self) -> bool {
        self.numerator == 0
    }
}

/// The `index`-th of `count` evenly spaced timestamps over `duration`
/// microseconds: exactly `index * duration / count`.
pub open spec fn timestamp_at(duration: u64, count: u32, index: u32) -> Timestamp {
    Timestamp { numerator: (index * duration) as u128, denominator: count }
}

/// All `count` timestamps over `duration` microseconds, in order.
pub open spec fn timestamps(duration: u64, count: u32) -> Seq<Timestamp> {
    Seq::new(count as nat, |i: int| timestamp_at(duration, count, i as u32))
}

/// The product of an index and a duration fits the numerator of a timestamp.
proof fn lemma_numerator_fits(duration: u64, index: u32)
    ensures
        0 <= index * duration <= 0xffff_ffff * 0xffff_ffff_ffff_ffff,
        (index * duration) as u128 == index * duration,
{
    assert(0 <= index * duration <= 0xffff_ffff * 0xffff_ffff_ffff_ffff) by (nonlinear_arith)
        requires
            0 <= index <= 0xffff_ffff,
            0 <= duration <= 0xffff_ffff_ffff_ffff,
    ;
}

/// A timestamp of a schedule is a point in time that a video can have.
pub proof fn lemma_timestamp_wf(duration: u64, count: u32, index: u32)
    requires
        index < count,
    ensures
        timestamp_at(duration, count, index).wf(),
{
    lemma_numerator_fits(duration, index);
    assert(index * duration < count * 0x1_0000_0000_0000_0000) by (nonlinear_arith)
        requires
            0 <= index < count,
            0 <= duration < 0x1_0000_0000_0000_0000,
    ;
}

/// The shape of a schedule of `count >= 1` timestamps over a duration: it
/// has `count` entries and the first is the start of the video. Over a
/// positive duration every entry lies strictly before the next, and the last
/// lies strictly before the end. Over a duration of zero every entry is the
/// start.
pub proof fn lemma_schedule_shape(duration: u64, count: u32)
    requires
        1 <= count,
    ensures
        timestamps(duration, count).len() == count,
        timestamps(duration, count)[0].is_start(),
        forall|i: int| 0 <= i < count ==> (#[trigger] timestamps(duration, count)[i]).wf(),
        duration > 0 ==> forall|i: int, j: int|
            0 <= i < j < count ==> (#[trigger] timestamps(duration, count)[i]).before(
                #[trigger] timestamps(duration, count)[j],
            ),
        duration > 0 ==> timestamps(duration, count)[count - 1].before_micros(duration as int),
        duration == 0 ==> forall|i: int|
            0 <= i < count ==> (#[trigger] timestamps(duration, count)[i]).is_start(),
{
    let ts = timestamps(duration, count);
    lemma_numerator_fits(duration, 0);
    assert(0 * duration == 0);
    assert forall|i: int| 0 <= i < count implies (#[trigger] ts[i]).wf() by {
        lemma_timestamp_wf(duration, count, i as u32);
    }
    if duration > 0 {
        assert forall|i: int, j: int| 0 <= i < j < count implies (#[trigger] ts[i]).before(
            #[trigger] ts[j],
        ) by {
            lemma_numerator_fits(duration, i as u32);
            lemma_numerator_fits(duration, j as u32);
            assert((i * duration) * count < (j * duration) * count) by (nonlinear_arith)
                requires
                    0 <= i < j,
                    duration > 0,
                    count >= 1,
            ;
        }
        lemma_numerator_fits(duration, (count - 1) as u32);
        assert((count - 1) * duration < duration * count) by (nonlinear_arith)
            requires
                duration > 0,
                count >= 1,
        ;
    } else {
        assert forall|i: int| 0 <= i < count implies (#[trigger] ts[i]).is_start() by {
            lemma_numerator_fits(duration, i as u32);
            assert(i * 0 == 0);
        }
    }
}

/// The `index`-th of `count` evenly spaced timestamps over `duration`.
pub fn timestamp(duration: Duration, count: u32, index: u32) -> (t: Timestamp)
    requires
        index < count,
    ensures
        t == timestamp_at(duration.micros, count, index),
        t.wf(),
{
    proof {
        lemma_numerator_fits(duration.micros, index);
        lemma_timestamp_wf(duration.micros, count, index);
    }
    Timestamp { numerator: (index as u128) * (duration.micros as u128), denominator: count }
}

/// The timestamps at which `count` preview frames are taken from a video of
/// the given length. A count of zero is refused.
pub fn schedule(duration: Duration, count: u32) -> (r: Result<Vec<Timestamp>, CommandError>)
    ensures
        count == 0 <==> r is Err,
        r matches Err(e) ==> e@.kind == ErrorKind::InvalidArgument
            && e@.message == "thumbnail count must be at least 1"@,
        r matches Ok(v) ==> v@ == timestamps(duration.micros, count),
{
    if count == 0 {
        return Err(
            CommandError::new(ErrorKind::InvalidArgument, "thumbnail count must be at least 1"),
        );
    }
    let mut v: Vec<Timestamp> = Vec::new();
    let mut i: u32 = 0;
    while i < count
        invariant
            i <= count,
            v@.len() == i,
            forall|k: int| 0 <= k < i ==> v@[k] == timestamp_at(duration.micros, count, k as u32),
        decreases count - i,
    {
        let t = timestamp(duration, count, i);
        v.push(t);
        i = i + 1;
    }
    assert(v@ =~= timestamps(duration.micros, count));
    Ok(v)
}

} // verus!
