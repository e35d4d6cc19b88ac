//! Adaptive quantizer and rate controller: the integer core.
//!
//! Scaling a coefficient against its masking threshold is floating-point
//! work and happens outside the verified core; what is proved here is
//! everything the rate-distortion loop decides with: clamping the scaled
//! values into the 16-bit range, the per-value bit-cost estimate, the
//! convergence test, the asymmetric gain adjustment, and the bit-reservoir
//! bookkeeping.

use vstd::prelude::*;

use vstd::arithmetic::power2::lemma2_to64;
use vstd::arithmetic::power2::pow2;

verus! {

/// floor(log2(n)) for n >= 1; 0 for n == 0.
pub open spec fn log2(n: nat) -> nat
    decreases n,
{
    if n < 2 {
        0
    } else {
        (1 + log2((n / 2) as nat)) as nat
    }
}

proof fn lemma_log2_lt(n: nat, k: nat)
    requires
        n < pow2(k),
        k >= 1,
    ensures
        log2(n) < k,
    decreases k,
{
    if n < 2 {
    } else {
        lemma2_to64();
        assert(k >= 2) by {
            if k == 1 {
                assert(pow2(1) == 2);
            }
        }
        assert(pow2(k) == 2 * pow2((k - 1) as nat)) by {
            vstd::arithmetic::power2::lemma_pow2_unfold(k);
        }
        lemma_log2_lt((n / 2) as nat, (k - 1) as nat);
    }
}

/// The magnitude of a 16-bit value, as a natural number.
pub open spec fn abs_i16(v: i16) -> nat {
    if v >= 0 {
        v as nat
    } else {
        (-(v as int)) as nat
    }
}

/// Estimated cost in bits of one quantized value: a 2-bit escape for zero,
/// 4 bits plus a sign bit for small magnitudes, and an escape-coding
/// approximation for the rest.
pub open spec fn bit_cost(v: i16) -> nat {
    if v == 0 {
        2
    } else if abs_i16(v) < 16 {
        if v < 0 {
            5
        } else {
            4
        }
    } else {
        (8 + 2 * log2(abs_i16(v))) as nat
    }
}

/// Total estimated cost of a frame's quantized values.
pub open spec fn frame_cost(s: Seq<i16>) -> nat
    decreases s.len(),
{
    if s.len() == 0 {
        0
    } else {
        (frame_cost(s.drop_last()) + bit_cost(s.last())) as nat
    }
}

proof fn lemma_bit_cost_bound(v: i16)
    requires
        v != i16::MIN,
    ensures
        bit_cost(v) <= 36,
{
    if v != 0 && abs_i16(v) >= 16 {
        lemma2_to64();
        lemma_log2_lt(abs_i16(v), 15);
    }
}

/// A scaled coefficient clamped to the quantizer's 16-bit output range.
pub open spec fn clamp_quantized(v: i64) -> i16 {
    if v < -32767 {
        -32767i16
    } else if v > 32767 {
        32767i16
    } else {
        v as i16
    }
}

/// The reservoir accumulator clamped to its bounded range.
pub open spec fn clamp_reservoir(v: int) -> int {
    if v < -1000 {
        -1000
    } else if v > 1000 {
        1000
    } else {
        v
    }
}

fn ilog2_u32(x: u32) -> (r: u32)
    requires
        x >= 1,
    ensures
        r == log2(x as nat),
{
    proof {
        lemma2_to64();
        lemma_log2_lt(x as nat, 32);
    }
    let mut n: u32 = x;
    let mut r: u32 = 0;
    while n >= 2
        invariant
            n >= 1,
            log2(x as nat) == r + log2(n as nat),
            log2(x as nat) < 32,
        decreases n,
    {
        n = n / 2;
        r = r + 1;
    }
    r
}

#[derive(Debug)]
struct RateController {
    target_bits: u32,
    /// Running average of bits per frame, kept in thousandths of a bit.
    avg_bits_milli: u64,
    bit_reservoir: i32,
}

/// Per-band scale factors, the global gain, and the feedback-controlled
/// rate state that persists across frames.
#[derive(Debug)]
pub struct AdaptiveQuantizer {
    scale_factors: Vec<u8>,
    global_gain: u8,
    rate_controller: RateController,
}

impl AdaptiveQuantizer {
    pub closed spec fn gain(&self) -> u8 {
        self.global_gain
    }

    pub closed spec fn factors(&self) -> Seq<u8> {
        self.scale_factors@
    }

    pub closed spec fn target_bits(&self) -> u32 {
        self.rate_controller.target_bits
    }

    pub closed spec fn avg_bits_milli(&self) -> u64 {
        self.rate_controller.avg_bits_milli
    }

    pub closed spec fn reservoir(&self) -> i32 {
        self.rate_controller.bit_reservoir
    }

    /// Bounds that every operation preserves.
    pub closed spec fn wf(&self) -> bool {
        &&& self.rate_controller.target_bits <= 0x7FFF_FFFF
        &&& self.rate_controller.avg_bits_milli <= 0xFFFF_FFFF * 1000
        &&& -1000 <= self.rate_controller.bit_reservoir
        &&& self.rate_controller.bit_reservoir <= 1000
    }

    /// Derives the per-frame bit budget `bitrate * frame_size / sample_rate`
    /// once; the gain starts mid-range and the reservoir empty.
    pub fn new(bands: usize, bitrate: u32, sample_rate: u32, frame_size: usize) -> (r: Self)
        requires
            sample_rate >= 1,
            bitrate * frame_size <= 0x7FFF_FFFF,
        ensures
            r.wf(),
            r.gain() == 100,
            r.target_bits() == bitrate * frame_size / sample_rate as int,
            r.avg_bits_milli() == 1000 * (bitrate * frame_size / sample_rate as int),
            r.reservoir() == 0,
            r.factors().len() == bands,
            forall|i: int| 0 <= i < bands ==> r.factors()[i] == 0,
    {
        let bits_per_frame = (bitrate as u64 * frame_size as u64 / sample_rate as u64) as u32;
        let mut scale_factors: Vec<u8> = Vec::new();
        let mut i: usize = 0;
        while i < bands
            invariant
                i <= bands,
                scale_factors@.len() == i,
                forall|j: int| 0 <= j < i ==> scale_factors@[j] == 0,
            decreases bands - i,
        {
            scale_factors.push(0);
            i = i + 1;
        }
        Self {
            scale_factors,
            global_gain: 100,
            rate_controller: RateController {
                target_bits: bits_per_frame,
                avg_bits_milli: 1000 * bits_per_frame as u64,
                bit_reservoir: 0,
            },
        }
    }

    /// Estimated Huffman cost in bits of one quantized value.
    pub fn estimate_bits(&self, value: i16) -> (r: u32)
        requires
            value != i16::MIN,
        ensures
            r == bit_cost(value),
    {
        let abs_val: u32 = if value < 0 {
            (-value) as u32
        } else {
            value as u32
        };
        if abs_val == 0 {
            2
        } else if abs_val < 16 {
            if value < 0 {
                5
            } else {
                4
            }
        } else {
            proof {
                lemma_bit_cost_bound(value);
            }
            8 + 2 * ilog2_u32(abs_val)
        }
    }

    /// Estimated cost in bits of a whole frame of quantized values.
    pub fn estimate_frame_bits(&self, values: &[i16]) -> (r: u32)
        requires
            forall|i: int| 0 <= i < values@.len() ==> values@[i] != i16::MIN,
            values@.len() <= 0x0100_0000,
        ensures
            r == frame_cost(values@),
    {
        let mut total: u32 = 0;
        let mut i: usize = 0;
        while i < values.len()
            invariant
                i <= values@.len(),
                values@.len() <= 0x0100_0000,
                forall|j: int| 0 <= j < values@.len() ==> values@[j] != i16::MIN,
                total == frame_cost(values@.take(i as int)),
                total <= 36 * i,
            decreases values@.len() - i,
        {
            let b = self.estimate_bits(values[i]);
            proof {
                lemma_bit_cost_bound(values@[i as int]);
                assert(values@.take(i + 1).drop_last() =~= values@.take(i as int));
                assert(values@.take(i + 1).last() == values@[i as int]);
            }
            total = total + b;
            i = i + 1;
        }
        proof {
            assert(values@.take(values@.len() as int) =~= values@);
        }
        total
    }

    /// Clamp scaled-and-rounded coefficients into the quantizer's 16-bit
    /// range. The output holds exactly one value per input coefficient.
    pub fn quantize_values(rounded: &[i64]) -> (r: Vec<i16>)
        ensures
            r@.len() == rounded@.len(),
            forall|i: int| 0 <= i < r@.len() ==> r@[i] == clamp_quantized(rounded@[i]),
    {
        let mut out: Vec<i16> = Vec::new();
        let mut i: usize = 0;
        while i < rounded.len()
            invariant
                i <= rounded@.len(),
                out@.len() == i,
                forall|j: int| 0 <= j < i ==> out@[j] == clamp_quantized(rounded@[j]),
            decreases rounded@.len() - i,
        {
            let v = rounded[i];
            let q: i16 = if v < -32767 {
                -32767
            } else if v > 32767 {
                32767
            } else {
                v as i16
            };
            out.push(q);
            i = i + 1;
        }
        out
    }

    /// Whether the rate-distortion loop stops after seeing this bit count at
    /// this iteration: the deviation from the target is under one twentieth
    /// of the target, or the iteration cap is reached.
    pub open spec fn step_converged(&self, total_bits: u32, iteration: usize) -> bool {
        let err = total_bits - self.target_bits();
        let mag = if err < 0 { -err } else { err };
        mag < self.target_bits() / 20 || iteration >= 10
    }

    /// One decision of the rate-distortion loop. On convergence the running
    /// average and the bounded reservoir are updated and the gain is left
    /// alone; otherwise the gain moves up by two (clamped to 255) when over
    /// budget and down by one (clamped to 0) when under — the asymmetry is
    /// deliberate and drives the convergence behaviour.
    pub fn rate_control_step(&mut self, total_bits: u32, iteration: usize) -> (done: bool)
        requires
            old(self).wf(),
            total_bits <= 0x7FFF_FFFF,
        ensures
            final(self).wf(),
            done == old(self).step_converged(total_bits, iteration),
            final(self).target_bits() == old(self).target_bits(),
            final(self).factors() == old(self).factors(),
            done ==> {
                &&& final(self).gain() == old(self).gain()
                &&& final(self).avg_bits_milli()
                    == (9 * old(self).avg_bits_milli() + 1000 * total_bits) / 10
                &&& final(self).reservoir()
                    == clamp_reservoir(old(self).reservoir() + old(self).target_bits() - total_bits)
            },
            !done ==> {
                &&& final(self).avg_bits_milli() == old(self).avg_bits_milli()
                &&& final(self).reservoir() == old(self).reservoir()
                &&& final(self).gain() == if total_bits > old(self).target_bits() {
                    if old(self).gain() + 2 > 255 { 255int } else { old(self).gain() + 2 }
                } else {
                    if old(self).gain() == 0 { 0int } else { old(self).gain() - 1 }
                }
            },
    {
        let target = self.rate_controller.target_bits;
        let bit_error: i64 = total_bits as i64 - target as i64;
        let abs_error: i64 = if bit_error < 0 {
            -bit_error
        } else {
            bit_error
        };
        if abs_error < (target / 20) as i64 || iteration >= 10 {
            let avg = self.rate_controller.avg_bits_milli;
            self.rate_controller.avg_bits_milli = (9 * avg + 1000 * (total_bits as u64)) / 10;
            let res: i64 = self.rate_controller.bit_reservoir as i64 + target as i64
                - total_bits as i64;
            let clamped: i64 = if res < -1000 {
                -1000
            } else if res > 1000 {
                1000
            } else {
                res
            };
            self.rate_controller.bit_reservoir = clamped as i32;
            true
        } else {
            if bit_error > 0 {
                self.global_gain = if self.global_gain >= 253 {
                    255
                } else {
                    self.global_gain + 2
                };
            } else {
                self.global_gain = if self.global_gain == 0 {
                    0
                } else {
                    self.global_gain - 1
                };
            }
            false
        }
    }

    /// The current global gain, read by the scaling stage.
    pub fn global_gain(&self) -> (r: u8)
        ensures
            r == self.gain(),
    {
        self.global_gain
    }

    /// The per-frame bit budget derived at construction.
    pub fn target_bits_per_frame(&self) -> (r: u32)
        ensures
            r == self.target_bits(),
    {
        self.rate_controller.target_bits
    }

    /// The current bounded bit reservoir.
    pub fn bit_reservoir(&self) -> (r: i32)
        ensures
            r == self.reservoir(),
    {
        self.rate_controller.bit_reservoir
    }

    /// How many per-band scale factors the quantizer carries.
    pub fn band_count(&self) -> (r: usize)
        ensures
            r == self.factors().len(),
    {
        self.scale_factors.len()
    }

    /// The scale factor of one band, read by the scaling stage.
    pub fn scale_factor(&self, idx: usize) -> (r: u8)
        requires
            idx < self.factors().len(),
        ensures
            r == self.factors()[idx as int],
    {
        self.scale_factors[idx]
    }
}

} // verus!
