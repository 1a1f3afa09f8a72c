//! A frame-rate counter that measures over batches of frames.

use std::time::Instant;
use vstd::prelude::*;

verus! {

/// The number of frames in a batch: the clock restarts with every batch.
pub const BATCH: u32 = 30;

/// One second in nanoseconds.
pub const NANOS_PER_SEC: u128 = 1_000_000_000;

/// Thousandths of a frame per second in one frame per nanosecond.
pub const MILLIHERTZ_PER_GIGAHERTZ: u128 = 1_000_000_000_000;

/// A point on std's monotonic clock. Nothing is known of its inside.
#[verifier::external_type_specification]
#[verifier::external_body]
pub struct ExInstant(std::time::Instant);

/// `Instant::now` reads the monotonic clock. Nothing is claimed of the
/// reading.
pub assume_specification[ std::time::Instant::now ]() -> (now: std::time::Instant);

/// `Instant::elapsed` gives the time that has passed since `start`. Nothing
/// is claimed of its length.
pub assume_specification[ std::time::Instant::elapsed ](
    start: &std::time::Instant,
) -> (elapsed: std::time::Duration);

/// `Duration::as_nanos` gives the whole duration in nanoseconds. Nothing is
/// claimed of the number.
pub assume_specification[ std::time::Duration::as_nanos ](
    duration: &std::time::Duration,
) -> (nanos: u128);

/// A frame rate, kept exact: `frames` frames in `nanos` nanoseconds.
#[derive(Debug, Clone, Copy, PartialEq, Eq, Structural)]
pub struct Rate {
    pub frames: u32,
    pub nanos: u128,
}

impl Rate {
    /// The rate in thousandths of a frame per second, rounded down. No time
    /// at all gives no number: the rate is then beyond every bound.
    pub open spec fn spec_millihertz(self) -> Option<int> {
        if self.nanos == 0 {
            None
        } else {
            Some(self.frames * MILLIHERTZ_PER_GIGAHERTZ / (self.nanos as int))
        }
    }

    /// The rate in thousandths of a frame per second, rounded down, or
    /// `None` where no time has passed.
    pub fn millihertz(&self) -> (rate: Option<u128>)
        ensures
            match rate {
                Some(r) => self.spec_millihertz() == Some(r as int),
                None => self.spec_millihertz() is None,
            },
    {
        if self.nanos == 0 {
            None
        } else {
            Some(self.frames as u128 * MILLIHERTZ_PER_GIGAHERTZ / self.nanos)
        }
    }
}

/// What a counter holds, as numbers: the frames seen in the running batch,
/// and the rate computed last.
pub struct Tally {
    pub samples: nat,
    pub rate: Rate,
}

/// The tally of a counter that has seen no frame: no samples, and the rate
/// zero, as no frame in one second.
pub open spec fn fresh() -> Tally {
    Tally { samples: 0, rate: Rate { frames: 0, nanos: NANOS_PER_SEC } }
}

/// The tally after one more frame, seen `nanos` nanoseconds after the batch
/// began. The rate counts that frame; a batch that is full then starts anew.
pub open spec fn step(tally: Tally, nanos: u128) -> Tally {
    Tally {
        samples: if tally.samples + 1 == BATCH {
            0
        } else {
            tally.samples + 1
        },
        rate: Rate { frames: (tally.samples + 1) as u32, nanos },
    }
}

/// The tally after frames seen at `elapsed[0]`, `elapsed[1]`, ..., each time
/// measured from the start of the batch that the frame falls in.
pub open spec fn run(elapsed: Seq<u128>) -> Tally
    decreases elapsed.len(),
{
    if elapsed.len() == 0 {
        fresh()
    } else {
        step(run(elapsed.drop_last()), elapsed.last())
    }
}

/// The counting of frames in batches, apart from any clock.
pub struct FrameBatch {
    counter: u32,
    fps: Rate,
}

impl View for FrameBatch {
    type V = Tally;

    closed spec fn view(&self) -> Tally {
        Tally { samples: self.counter as nat, rate: self.fps }
    }
}

impl FrameBatch {
    #[verifier::type_invariant]
    spec fn batch_open(&self) -> bool {
        self.counter < BATCH
    }

    /// A batch without samples.
    pub fn new() -> (batch: FrameBatch)
        ensures
            batch@ == fresh(),
    {
        FrameBatch { counter: 0, fps: Rate { frames: 0, nanos: NANOS_PER_SEC } }
    }

    /// Counts one frame, seen `nanos` nanoseconds after the batch began, and
    /// returns the rate over the batch so far, that frame included. With the
    /// last frame of a batch a new batch begins.
    pub fn record(&mut self, nanos: u128) -> (rate: Rate)
        ensures
            final(self)@ == step(old(self)@, nanos),
            final(self)@.samples < BATCH,
            rate == final(self)@.rate,
    {
        proof {
            use_type_invariant(&*self);
        }
        let seen: u32 = self.counter + 1;
        self.fps = Rate { frames: seen, nanos };
        if seen == BATCH {
            self.counter = 0;
        } else {
            self.counter = seen;
        }
        self.fps
    }

    /// The frames counted in the running batch.
    pub fn samples(&self) -> (samples: u32)
        ensures
            samples == self@.samples,
            samples < BATCH,
    {
        proof {
            use_type_invariant(self);
        }
        self.counter
    }

    /// The rate that `record` returned last; zero before the first frame.
    pub fn rate(&self) -> (rate: Rate)
        ensures
            rate == self@.rate,
    {
        self.fps
    }
}

/// Counts frames against the monotonic clock. The rate is taken over the
/// running batch of up to `BATCH` frames, so that it stays steady from frame
/// to frame.
pub struct FpsCounter {
    instant: Instant,
    batch: FrameBatch,
}

impl View for FpsCounter {
    type V = Tally;

    closed spec fn view(&self) -> Tally {
        self.batch@
    }
}

impl FpsCounter {
    /// The reading of the clock at which the running batch began.
    pub closed spec fn reference(&self) -> Instant {
        self.instant
    }

    /// A counter whose first batch begins now.
    pub fn new() -> (counter: FpsCounter)
        ensures
            counter@ == fresh(),
    {
        FpsCounter::starting_at(Instant::now())
    }

    /// A counter whose first batch began at the reading `now`.
    pub fn starting_at(now: Instant) -> (counter: FpsCounter)
        ensures
            counter@ == fresh(),
            counter.reference() == now,
    {
        FpsCounter { instant: now, batch: FrameBatch::new() }
    }

    /// Counts one frame and returns the rate over the running batch: the
    /// frames counted in it, this one included, and the time since it began,
    /// as the clock gives it. The batch goes on from the reading at which it
    /// began until a frame fills it; then the clock is read anew.
    pub fn count(&mut self) -> (rate: Rate)
        ensures
            final(self)@ == step(old(self)@, rate.nanos),
            final(self)@.samples < BATCH,
            rate == final(self)@.rate,
            old(self)@.samples + 1 < BATCH ==> final(self).reference() == old(self).reference(),
    {
        let nanos = self.instant.elapsed().as_nanos();
        if self.batch.samples() + 1 == BATCH {
            self.count_at(nanos, Instant::now())
        } else {
            self.batch.record(nanos)
        }
    }

    /// Counts one frame with both readings given: `nanos`, the nanoseconds
    /// since the running batch began, and `now`, the clock at this frame. The
    /// frame that fills a batch makes `now` the beginning of the next one;
    /// any other frame leaves the beginning where it was.
    pub fn count_at(&mut self, nanos: u128, now: Instant) -> (rate: Rate)
        ensures
            final(self)@ == step(old(self)@, nanos),
            final(self)@.samples < BATCH,
            rate == final(self)@.rate,
            final(self).reference() == (if old(self)@.samples + 1 == BATCH {
                now
            } else {
                old(self).reference()
            }),
    {
        let rate = self.batch.record(nanos);
        if rate.frames == BATCH {
            self.instant = now;
        }
        rate
    }

    /// The reading of the clock at which the running batch began.
    pub fn reference_time(&self) -> (began: Instant)
        ensures
            began == self.reference(),
    {
        self.instant
    }

    /// The frames counted in the running batch.
    pub fn samples(&self) -> (samples: u32)
        ensures
            samples == self@.samples,
            samples < BATCH,
    {
        self.batch.samples()
    }

    /// The rate that `count` returned last; zero before the first frame.
    pub fn rate(&self) -> (rate: Rate)
        ensures
            rate == self@.rate,
    {
        self.batch.rate()
    }
}

/// Within a batch the count of samples goes 1, 2, ... and falls back to 0
/// with the frame that fills the batch; the rate after every frame is the
/// number of frames of its batch so far over the time measured at that frame.
pub proof fn lemma_batching(elapsed: Seq<u128>)
    ensures
        run(elapsed).samples == elapsed.len() % (BATCH as nat),
        elapsed.len() > 0 ==> run(elapsed).rate == (Rate {
            frames: ((elapsed.len() - 1) % (BATCH as int) + 1) as u32,
            nanos: elapsed.last(),
        }),
    decreases elapsed.len(),
{
    if elapsed.len() > 0 {
        lemma_batching(elapsed.drop_last());
    }
}

/// Over any time that is not zero the rate is a number, and not below zero.
pub proof fn lemma_rate_not_negative(rate: Rate)
    requires
        rate.nanos > 0,
    ensures
        rate.spec_millihertz() matches Some(r) && r >= 0,
{
    assert(rate.frames * MILLIHERTZ_PER_GIGAHERTZ / (rate.nanos as int) >= 0) by (nonlinear_arith)
        requires
            rate.frames >= 0,
            MILLIHERTZ_PER_GIGAHERTZ > 0,
            rate.nanos > 0,
    ;
}

} // verus!
