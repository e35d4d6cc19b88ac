//! Wall-clock measurement. The clock readings themselves come from the
//! standard library and are opaque; what is verified is the bookkeeping:
//! every `stop` appends exactly one measurement, and the summary reads
//! report exactly the recorded values.

use vstd::prelude::*;

verus! {

#[verifier::external_type_specification]
#[verifier::external_body]
pub struct ExInstant(std::time::Instant);

/// Relies on std::time::Instant::now: an opaque reading of the monotonic
/// clock. Nothing can be promised of its value.
#[verifier::external_body]
fn instant_now() -> std::time::Instant {
    std::time::Instant::now()
}

/// Relies on std::time::Instant::elapsed: the time since `start`, as an
/// opaque duration. The value depends on the clock, so nothing is promised.
#[verifier::external_body]
fn instant_elapsed(start: &std::time::Instant) -> std::time::Duration {
    start.elapsed()
}

/// Relies on std::time::Duration::as_micros: the duration in whole
/// microseconds. The value depends on the clock reading alone, and no bound
/// can be promised of it.
#[verifier::external_body]
fn duration_as_micros(d: &std::time::Duration) -> u128 {
    d.as_micros()
}

/// The sum of a sequence of measurements, in microseconds.
pub open spec fn sum_micros(s: Seq<u64>) -> nat
    decreases s.len(),
{
    if s.len() == 0 {
        0
    } else {
        (sum_micros(s.drop_last()) + s.last()) as nat
    }
}

/// Records how long stretches of work take, in microseconds.
pub struct PerformanceTimer {
    start_time: std::time::Instant,
    measurements: Vec<u64>,
}

impl PerformanceTimer {
    /// The recorded measurements in microseconds, oldest first.
    pub closed spec fn recorded(&self) -> Seq<u64> {
        self.measurements@
    }

    pub fn new() -> (r: Self)
        ensures
            r.recorded() == Seq::<u64>::empty(),
    {
        let r = PerformanceTimer { start_time: instant_now(), measurements: Vec::new() };
        proof {
            assert(r.recorded() =~= Seq::<u64>::empty());
        }
        r
    }

    /// Begin a measurement; the recorded values are untouched.
    pub fn start(&mut self)
        ensures
            final(self).recorded() == old(self).recorded(),
    {
        self.start_time = instant_now();
    }

    /// End a measurement: exactly one value, the microseconds since the
    /// matching `start`, is appended. Its size depends on the clock and is
    /// unconstrained; a span beyond the 64-bit range saturates.
    pub fn stop(&mut self)
        ensures
            final(self).recorded().len() == old(self).recorded().len() + 1,
            final(self).recorded().take(old(self).recorded().len() as int)
                == old(self).recorded(),
    {
        let elapsed = instant_elapsed(&self.start_time);
        let wide: u128 = duration_as_micros(&elapsed);
        let micros: u64 = if wide > u64::MAX as u128 {
            u64::MAX
        } else {
            wide as u64
        };
        self.measurements.push(micros);
        proof {
            assert(self.measurements@.take(old(self).measurements@.len() as int)
                =~= old(self).measurements@);
        }
    }

    /// Discard every recorded measurement.
    pub fn reset(&mut self)
        ensures
            final(self).recorded() == Seq::<u64>::empty(),
    {
        self.measurements.clear();
        proof {
            assert(self.recorded() =~= Seq::<u64>::empty());
        }
    }

    /// How many measurements are recorded.
    pub fn count(&self) -> (r: usize)
        ensures
            r == self.recorded().len(),
    {
        self.measurements.len()
    }

    /// One recorded measurement, by age.
    pub fn measurement(&self, idx: usize) -> (r: u64)
        requires
            idx < self.recorded().len(),
        ensures
            r == self.recorded()[idx as int],
    {
        self.measurements[idx]
    }

    /// The smallest recorded measurement, if any.
    pub fn min_micros(&self) -> (r: Option<u64>)
        ensures
            r is None <==> self.recorded().len() == 0,
            r matches Some(m) ==> self.recorded().contains(m)
                && forall|i: int| 0 <= i < self.recorded().len() ==> m <= self.recorded()[i],
    {
        if self.measurements.len() == 0 {
            return None;
        }
        let mut m: u64 = self.measurements[0];
        let mut i: usize = 1;
        while i < self.measurements.len()
            invariant
                1 <= i <= self.recorded().len(),
                exists|j: int| 0 <= j < i && self.recorded()[j] == m,
                forall|j: int| 0 <= j < i ==> m <= self.recorded()[j],
            decreases self.recorded().len() - i,
        {
            let v = self.measurements[i];
            if v < m {
                m = v;
            }
            i = i + 1;
        }
        proof {
            let j = choose|j: int| 0 <= j < self.recorded().len() && self.recorded()[j] == m;
            assert(self.recorded().contains(m));
        }
        Some(m)
    }

    /// The largest recorded measurement, if any.
    pub fn max_micros(&self) -> (r: Option<u64>)
        ensures
            r is None <==> self.recorded().len() == 0,
            r matches Some(m) ==> self.recorded().contains(m)
                && forall|i: int| 0 <= i < self.recorded().len() ==> self.recorded()[i] <= m,
    {
        if self.measurements.len() == 0 {
            return None;
        }
        let mut m: u64 = self.measurements[0];
        let mut i: usize = 1;
        while i < self.measurements.len()
            invariant
                1 <= i <= self.recorded().len(),
                exists|j: int| 0 <= j < i && self.recorded()[j] == m,
                forall|j: int| 0 <= j < i ==> self.recorded()[j] <= m,
            decreases self.recorded().len() - i,
        {
            let v = self.measurements[i];
            if v > m {
                m = v;
            }
            i = i + 1;
        }
        proof {
            let j = choose|j: int| 0 <= j < self.recorded().len() && self.recorded()[j] == m;
            assert(self.recorded().contains(m));
        }
        Some(m)
    }

    /// The sum of all recorded measurements, saturating at the 64-bit
    /// limit.
    pub fn total_micros(&self) -> (r: u64)
        ensures
            sum_micros(self.recorded()) <= u64::MAX ==> r == sum_micros(self.recorded()),
            sum_micros(self.recorded()) > u64::MAX ==> r == u64::MAX,
    {
        let mut total: u64 = 0;
        let mut saturated: bool = false;
        let mut i: usize = 0;
        while i < self.measurements.len()
            invariant
                i <= self.recorded().len(),
                !saturated ==> total == sum_micros(self.recorded().take(i as int)),
                saturated ==> sum_micros(self.recorded().take(i as int)) > u64::MAX
                    && total == u64::MAX,
            decreases self.recorded().len() - i,
        {
            let v = self.measurements[i];
            proof {
                assert(self.recorded().take(i + 1).drop_last() =~= self.recorded().take(i as int));
                assert(self.recorded().take(i + 1).last() == self.recorded()[i as int]);
            }
            if !saturated {
                if total > u64::MAX - v {
                    saturated = true;
                    total = u64::MAX;
                } else {
                    total = total + v;
                }
            }
            i = i + 1;
        }
        proof {
            assert(self.recorded().take(self.recorded().len() as int) =~= self.recorded());
        }
        total
    }
}

} // verus!
