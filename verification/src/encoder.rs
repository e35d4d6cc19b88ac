//! Encoder orchestration: frame geometry checks, the shared frame header,
//! the per-channel coefficient code, frame assembly, and running statistics.
//!
//! The transform, masking and scaling stages work on floating-point samples
//! and run outside the verified core; they deliver each channel's quantized
//! coefficients, and everything from there to the finished frame bytes is
//! specified and proved here.

use vstd::prelude::*;

use crate::bitstream::BitstreamWriter;
use crate::bitstream::bytes_bits;
use crate::bitstream::value_bits;
use crate::bitstream::zero_pad;
use crate::config::AacLdConfig;
use crate::config::frame_size_for;
use crate::error::AacLdError;
use crate::quantizer::abs_i16;

verus! {

/// The 4-bit header index of a sample rate, if the rate is one of the twelve
/// the header can name. A rate outside this table is a hard error at
/// header-write time even when configuration accepted it.
pub open spec fn sample_rate_index(sample_rate: u32) -> Option<u32> {
    if sample_rate == 96000 {
        Some(0u32)
    } else if sample_rate == 88200 {
        Some(1u32)
    } else if sample_rate == 64000 {
        Some(2u32)
    } else if sample_rate == 48000 {
        Some(3u32)
    } else if sample_rate == 44100 {
        Some(4u32)
    } else if sample_rate == 32000 {
        Some(5u32)
    } else if sample_rate == 24000 {
        Some(6u32)
    } else if sample_rate == 22050 {
        Some(7u32)
    } else if sample_rate == 16000 {
        Some(8u32)
    } else if sample_rate == 12000 {
        Some(9u32)
    } else if sample_rate == 11025 {
        Some(10u32)
    } else if sample_rate == 8000 {
        Some(11u32)
    } else {
        None
    }
}

/// The header bits written before the sample-rate index is looked up:
/// sync word, MPEG id, layer, protection flag and profile code.
pub open spec fn header_prefix_bits() -> Seq<bool> {
    value_bits(0xFFF, 12) + value_bits(0, 1) + value_bits(0, 2) + value_bits(1, 1)
        + value_bits(23, 5)
}

/// The complete shared frame header: the prefix, the sample-rate index, a
/// private bit, the channel configuration, and two reserved bits.
pub open spec fn header_bits(sr_index: u32, channels: u8) -> Seq<bool> {
    header_prefix_bits() + value_bits(sr_index, 4) + value_bits(0, 1)
        + value_bits(channels as u32, 3) + value_bits(0, 1) + value_bits(0, 1)
}

/// The variable-length code of one quantized coefficient: a 2-bit escape
/// for zero; a 2-bit prefix, 4-bit magnitude and sign bit for magnitudes
/// under 16; a 2-bit prefix, 16-bit magnitude and sign bit otherwise.
pub open spec fn coeff_bits(v: i16) -> Seq<bool> {
    if v == 0 {
        value_bits(0, 2)
    } else if abs_i16(v) < 16 {
        value_bits(1, 2) + value_bits(abs_i16(v) as u32, 4)
            + value_bits(if v < 0 { 1u32 } else { 0u32 }, 1)
    } else {
        value_bits(2, 2) + value_bits(abs_i16(v) as u32, 16)
            + value_bits(if v < 0 { 1u32 } else { 0u32 }, 1)
    }
}

/// One channel's payload: each coefficient's code in order.
pub open spec fn channel_bits(s: Seq<i16>) -> Seq<bool>
    decreases s.len(),
{
    if s.len() == 0 {
        Seq::empty()
    } else {
        channel_bits(s.drop_last()) + coeff_bits(s.last())
    }
}

/// All channels' payloads in order.
pub open spec fn channels_bits(chs: Seq<Seq<i16>>) -> Seq<bool>
    decreases chs.len(),
{
    if chs.len() == 0 {
        Seq::empty()
    } else {
        channels_bits(chs.drop_last()) + channel_bits(chs.last())
    }
}

/// The finished frame: the shared header, every channel's payload, and zero
/// padding up to the next byte boundary.
pub open spec fn frame_bits(sr_index: u32, channels: u8, quantized: Seq<Seq<i16>>) -> Seq<bool> {
    zero_pad(header_bits(sr_index, channels) + channels_bits(quantized))
}

/// Cumulative encoding statistics, mutated only by the orchestrator.
#[derive(Debug, Clone, Copy, PartialEq, Eq, Structural)]
pub struct PerformanceStats {
    pub frames_encoded: u64,
    pub total_bits: u64,
    pub encoding_time_us: u64,
}

impl Default for PerformanceStats {
    /// All counters start at zero.
    fn default() -> (r: Self)
        ensures
            r.frames_encoded == 0,
            r.total_bits == 0,
            r.encoding_time_us == 0,
    {
        PerformanceStats { frames_encoded: 0, total_bits: 0, encoding_time_us: 0 }
    }
}

/// The encoder's verified state: the validated configuration, the frame
/// counter and the running statistics. The per-channel transform and
/// masking state is floating-point and lives with the stages themselves.
pub struct EncoderCore {
    config: AacLdConfig,
    frame_count: u64,
    stats: PerformanceStats,
}

impl EncoderCore {
    pub closed spec fn cfg(&self) -> AacLdConfig {
        self.config
    }

    pub closed spec fn stats_spec(&self) -> PerformanceStats {
        self.stats
    }

    pub closed spec fn frames(&self) -> u64 {
        self.frame_count
    }

    /// Well-formed: the configuration passed validation and carries the
    /// frame size its sample rate derives.
    pub open spec fn wf(&self) -> bool {
        self.cfg().valid()
    }

    /// A core is built only from a configuration that validates and whose
    /// frame size matches its sample rate; counters start at zero.
    pub fn new(config: AacLdConfig) -> (r: Result<EncoderCore, AacLdError>)
        ensures
            r is Ok <==> config.valid(),
            r matches Ok(c) ==> {
                &&& c.wf()
                &&& c.cfg() == config
                &&& c.frames() == 0
                &&& c.stats_spec().frames_encoded == 0
                &&& c.stats_spec().total_bits == 0
                &&& c.stats_spec().encoding_time_us == 0
            },
            r matches Err(e) ==> e matches AacLdError::InvalidConfig(_),
    {
        match config.validate() {
            Ok(()) => {},
            Err(e) => {
                return Err(e);
            },
        }
        let derived = match frame_size_of(config.sample_rate) {
            Some(f) => f,
            None => {
                return Err(AacLdError::InvalidConfig("Unsupported sample rate".to_owned()));
            },
        };
        if derived != config.frame_size {
            return Err(AacLdError::InvalidConfig(
                "Frame size does not match the sample rate".to_owned(),
            ));
        }
        Ok(EncoderCore {
            config,
            frame_count: 0,
            stats: PerformanceStats { frames_encoded: 0, total_bits: 0, encoding_time_us: 0 },
        })
    }

    /// The exact number of interleaved samples one frame must hold.
    pub fn expected_frame_len(&self) -> (r: usize)
        requires
            self.wf(),
        ensures
            r == self.cfg().frame_size * self.cfg().channels,
    {
        self.config.frame_size * (self.config.channels as usize)
    }

    /// One frame's input must hold exactly frame_size * channels samples;
    /// any other length is rejected, before any stage runs, with the
    /// expected and actual lengths in the error.
    pub fn validate_frame_len(&self, len: usize) -> (r: Result<(), AacLdError>)
        requires
            self.wf(),
        ensures
            r is Ok <==> len == self.cfg().frame_size * self.cfg().channels,
            r is Err ==> r == Err::<(), AacLdError>(AacLdError::BufferSizeMismatch {
                expected: (self.cfg().frame_size * self.cfg().channels as usize) as usize,
                actual: len,
            }),
    {
        let expected = self.expected_frame_len();
        if len != expected {
            Err(AacLdError::BufferSizeMismatch { expected, actual: len })
        } else {
            Ok(())
        }
    }

    /// A buffer must hold an exact multiple of one frame's samples; any
    /// other length is rejected with the nearest whole-frame length as the
    /// expected value.
    pub fn validate_buffer_len(&self, len: usize) -> (r: Result<(), AacLdError>)
        requires
            self.wf(),
        ensures
            r is Ok <==> len as int % (self.cfg().frame_size * self.cfg().channels as int) == 0,
            r is Err ==> r == Err::<(), AacLdError>(AacLdError::BufferSizeMismatch {
                expected: (len - len as int % (self.cfg().frame_size * self.cfg().channels as int)) as usize,
                actual: len,
            }),
    {
        let expected = self.expected_frame_len();
        let remainder = len % expected;
        proof {
            vstd::arithmetic::div_mod::lemma_mod_decreases(len as nat, expected as nat);
        }
        if remainder != 0 {
            Err(AacLdError::BufferSizeMismatch { expected: len - remainder, actual: len })
        } else {
            Ok(())
        }
    }

    /// Write the shared frame header. A sample rate outside the header's
    /// twelve-entry table is a hard error after the fixed prefix was
    /// written.
    pub fn write_frame_header(&self, bitstream: &mut BitstreamWriter) -> (r: Result<
        (),
        AacLdError,
    >)
        requires
            self.wf(),
            old(bitstream).wf(),
        ensures
            final(bitstream).wf(),
            match sample_rate_index(self.cfg().sample_rate) {
                Some(idx) => r is Ok && final(bitstream).bits() == old(bitstream).bits()
                    + header_bits(idx, self.cfg().channels),
                None => (r matches Err(AacLdError::BitstreamError(m))
                    && m@ == "Unsupported sample rate"@) && final(bitstream).bits()
                    == old(bitstream).bits() + header_prefix_bits(),
            },
    {
        let ghost start = old(bitstream).bits();
        match bitstream.write_bits(0xFFF, 12) {
            Ok(()) => {},
            Err(e) => {
                return Err(e);
            },
        }
        match bitstream.write_bits(0, 1) {
            Ok(()) => {},
            Err(e) => {
                return Err(e);
            },
        }
        match bitstream.write_bits(0, 2) {
            Ok(()) => {},
            Err(e) => {
                return Err(e);
            },
        }
        match bitstream.write_bits(1, 1) {
            Ok(()) => {},
            Err(e) => {
                return Err(e);
            },
        }
        match bitstream.write_bits(23, 5) {
            Ok(()) => {},
            Err(e) => {
                return Err(e);
            },
        }
        proof {
            assert(bitstream.bits() =~= start + header_prefix_bits());
        }

        let sr_index: u32 = match self.config.sample_rate {
            96000 => 0,
            88200 => 1,
            64000 => 2,
            48000 => 3,
            44100 => 4,
            32000 => 5,
            24000 => 6,
            22050 => 7,
            16000 => 8,
            12000 => 9,
            11025 => 10,
            8000 => 11,
            _ => {
                return Err(AacLdError::BitstreamError("Unsupported sample rate".to_owned()));
            },
        };

        match bitstream.write_bits(sr_index, 4) {
            Ok(()) => {},
            Err(e) => {
                return Err(e);
            },
        }
        match bitstream.write_bits(0, 1) {
            Ok(()) => {},
            Err(e) => {
                return Err(e);
            },
        }
        match bitstream.write_bits(self.config.channels as u32, 3) {
            Ok(()) => {},
            Err(e) => {
                return Err(e);
            },
        }
        match bitstream.write_bits(0, 1) {
            Ok(()) => {},
            Err(e) => {
                return Err(e);
            },
        }
        match bitstream.write_bits(0, 1) {
            Ok(()) => {},
            Err(e) => {
                return Err(e);
            },
        }
        proof {
            assert(bitstream.bits() =~= start
                + header_bits(sr_index, self.cfg().channels));
        }
        Ok(())
    }

    /// Append one channel's payload: every coefficient's variable-length
    /// code, in order. Never fails, since no single code exceeds 32 bits.
    pub fn write_audio_data(&self, bitstream: &mut BitstreamWriter, coeffs: &[i16]) -> (r: Result<
        (),
        AacLdError,
    >)
        requires
            old(bitstream).wf(),
            forall|i: int| 0 <= i < coeffs@.len() ==> coeffs@[i] != i16::MIN,
        ensures
            r is Ok,
            final(bitstream).wf(),
            final(bitstream).bits() == old(bitstream).bits() + channel_bits(coeffs@),
    {
        let ghost start = old(bitstream).bits();
        let mut i: usize = 0;
        while i < coeffs.len()
            invariant
                i <= coeffs@.len(),
                forall|j: int| 0 <= j < coeffs@.len() ==> coeffs@[j] != i16::MIN,
                bitstream.wf(),
                bitstream.bits() == start + channel_bits(coeffs@.take(i as int)),
            decreases coeffs@.len() - i,
        {
            let coeff = coeffs[i];
            let ghost before = bitstream.bits();
            if coeff == 0 {
                match bitstream.write_bits(0, 2) {
                    Ok(()) => {},
                    Err(e) => {
                        return Err(e);
                    },
                }
            } else {
                let abs_val: u16 = if coeff < 0 {
                    (-coeff) as u16
                } else {
                    coeff as u16
                };
                let sign: u32 = if coeff < 0 {
                    1
                } else {
                    0
                };
                if abs_val < 16 {
                    match bitstream.write_bits(1, 2) {
                        Ok(()) => {},
                        Err(e) => {
                            return Err(e);
                        },
                    }
                    match bitstream.write_bits(abs_val as u32, 4) {
                        Ok(()) => {},
                        Err(e) => {
                            return Err(e);
                        },
                    }
                    match bitstream.write_bits(sign, 1) {
                        Ok(()) => {},
                        Err(e) => {
                            return Err(e);
                        },
                    }
                } else {
                    match bitstream.write_bits(2, 2) {
                        Ok(()) => {},
                        Err(e) => {
                            return Err(e);
                        },
                    }
                    match bitstream.write_bits(abs_val as u32, 16) {
                        Ok(()) => {},
                        Err(e) => {
                            return Err(e);
                        },
                    }
                    match bitstream.write_bits(sign, 1) {
                        Ok(()) => {},
                        Err(e) => {
                            return Err(e);
                        },
                    }
                }
            }
            proof {
                assert(abs_i16(coeffs@[i as int]) == abs_i16(coeff));
                assert(bitstream.bits() =~= before + coeff_bits(coeff));
                assert(coeffs@.take(i + 1).drop_last() =~= coeffs@.take(i as int));
                assert(coeffs@.take(i + 1).last() == coeffs@[i as int]);
                assert(bitstream.bits() =~= start + channel_bits(coeffs@.take(i + 1)));
            }
            i = i + 1;
        }
        proof {
            assert(coeffs@.take(coeffs@.len() as int) =~= coeffs@);
        }
        Ok(())
    }

    /// Pack one shared header and each channel's quantized payload into the
    /// finished frame bytes.
    pub fn assemble_frame(&self, quantized: &Vec<Vec<i16>>) -> (r: Result<Vec<u8>, AacLdError>)
        requires
            self.wf(),
            forall|c: int, i: int|
                0 <= c < quantized@.len() && 0 <= i < quantized@[c]@.len()
                    ==> quantized@[c]@[i] != i16::MIN,
        ensures
            match sample_rate_index(self.cfg().sample_rate) {
                Some(idx) => r matches Ok(bytes) && bytes_bits(bytes@) == frame_bits(
                    idx,
                    self.cfg().channels,
                    quantized@.map_values(|v: Vec<i16>| v@),
                ),
                None => r matches Err(AacLdError::BitstreamError(m))
                    && m@ == "Unsupported sample rate"@,
            },
    {
        let ghost views = quantized@.map_values(|v: Vec<i16>| v@);
        let mut bitstream = BitstreamWriter::new();
        match self.write_frame_header(&mut bitstream) {
            Ok(()) => {},
            Err(e) => {
                return Err(e);
            },
        }
        let ghost after_header = bitstream.bits();
        let mut c: usize = 0;
        while c < quantized.len()
            invariant
                c <= quantized@.len(),
                views == quantized@.map_values(|v: Vec<i16>| v@),
                forall|k: int, i: int|
                    0 <= k < quantized@.len() && 0 <= i < quantized@[k]@.len()
                        ==> quantized@[k]@[i] != i16::MIN,
                bitstream.wf(),
                bitstream.bits() == after_header + channels_bits(views.take(c as int)),
            decreases quantized@.len() - c,
        {
            let ghost before = bitstream.bits();
            match self.write_audio_data(&mut bitstream, quantized[c].as_slice()) {
                Ok(()) => {},
                Err(e) => {
                    return Err(e);
                },
            }
            proof {
                assert(views.take(c + 1).drop_last() =~= views.take(c as int));
                assert(views.take(c + 1).last() == views[c as int]);
                assert(bitstream.bits() =~= after_header + channels_bits(views.take(c + 1)));
            }
            c = c + 1;
        }
        proof {
            assert(views.take(views.len() as int) =~= views);
        }
        match bitstream.finish() {
            Ok(bytes) => Ok(bytes),
            Err(e) => Err(e),
        }
    }

    /// Account one finished frame: one more frame, its size in bits, and
    /// the time it took.
    pub fn record_frame(&mut self, encoded_len: usize, duration_us: u64)
        requires
            old(self).frames() < u64::MAX,
            old(self).stats_spec().frames_encoded < u64::MAX,
            old(self).stats_spec().total_bits + encoded_len * 8 <= u64::MAX,
            old(self).stats_spec().encoding_time_us + duration_us <= u64::MAX,
        ensures
            final(self).cfg() == old(self).cfg(),
            final(self).frames() == old(self).frames() + 1,
            final(self).stats_spec().frames_encoded
                == old(self).stats_spec().frames_encoded + 1,
            final(self).stats_spec().total_bits
                == old(self).stats_spec().total_bits + encoded_len * 8,
            final(self).stats_spec().encoding_time_us
                == old(self).stats_spec().encoding_time_us + duration_us,
    {
        self.stats.frames_encoded = self.stats.frames_encoded + 1;
        self.stats.total_bits = self.stats.total_bits + (encoded_len as u64) * 8;
        self.stats.encoding_time_us = self.stats.encoding_time_us + duration_us;
        self.frame_count = self.frame_count + 1;
    }

    /// Clear the running statistics; the configuration and the frame
    /// counter are untouched.
    pub fn reset_stats(&mut self)
        ensures
            final(self).cfg() == old(self).cfg(),
            final(self).frames() == old(self).frames(),
            final(self).stats_spec().frames_encoded == 0,
            final(self).stats_spec().total_bits == 0,
            final(self).stats_spec().encoding_time_us == 0,
    {
        self.stats = PerformanceStats::default();
    }

    pub fn get_config(&self) -> (r: &AacLdConfig)
        ensures
            *r == self.cfg(),
    {
        &self.config
    }

    pub fn get_stats(&self) -> (r: &PerformanceStats)
        ensures
            *r == self.stats_spec(),
    {
        &self.stats
    }

    /// Algorithmic delay in samples: half a frame of transform overlap plus
    /// a fixed 64-sample encoder delay — exactly frame_size / 2 + 64 for
    /// every valid configuration.
    pub fn calculate_delay_samples(&self) -> (r: usize)
        requires
            self.wf(),
        ensures
            r == self.cfg().frame_size / 2 + 64,
    {
        self.config.frame_size / 2 + 64
    }

    /// Recommended caller-side buffer: four whole frames.
    pub fn get_recommended_buffer_size(&self) -> (r: usize)
        requires
            self.wf(),
        ensures
            r == self.cfg().frame_size * self.cfg().channels * 4,
    {
        (self.config.frame_size * (self.config.channels as usize)) * 4
    }

    /// A rough upper estimate of the working memory, in whole kilobytes:
    /// the transform buffers, the masking model's per-bin history, the
    /// quantized coefficients and the overlap state.
    pub fn estimate_memory_usage_kb(&self) -> (r: usize)
        requires
            self.wf(),
        ensures
            r == (self.cfg().frame_size * 4 + (self.cfg().frame_size / 2) * 8
                + (self.cfg().frame_size / 2) * 2 + (self.cfg().frame_size / 2) * 4) / 1024,
    {
        let frame_size = self.config.frame_size;
        let spectrum_size = frame_size / 2;
        let mdct_memory = frame_size * 4;
        let psycho_memory = spectrum_size * 8;
        let quantizer_memory = spectrum_size * 2;
        let overlap_memory = spectrum_size * 4;
        (mdct_memory + psycho_memory + quantizer_memory + overlap_memory) / 1024
    }
}

/// The frame size a sample rate derives, as executable code.
fn frame_size_of(sample_rate: u32) -> (r: Option<usize>)
    ensures
        r == frame_size_for(sample_rate),
{
    if 8000 <= sample_rate && sample_rate <= 16000 {
        Some(240)
    } else if 16001 <= sample_rate && sample_rate <= 32000 {
        Some(480)
    } else if 32001 <= sample_rate && sample_rate <= 48000 {
        Some(480)
    } else if 48001 <= sample_rate && sample_rate <= 96000 {
        Some(512)
    } else {
        None
    }
}

} // verus!
