//! Encoder configuration: validated bounds and derived frame geometry.

use vstd::prelude::*;

use crate::error::AacLdError;

verus! {

/// The frame size derived from a sample rate, if the rate is supported.
pub open spec fn frame_size_for(sample_rate: u32) -> Option<usize> {
    if 8000 <= sample_rate && sample_rate <= 16000 {
        Some(240usize)
    } else if 16001 <= sample_rate && sample_rate <= 32000 {
        Some(480usize)
    } else if 32001 <= sample_rate && sample_rate <= 48000 {
        Some(480usize)
    } else if 48001 <= sample_rate && sample_rate <= 96000 {
        Some(512usize)
    } else {
        None
    }
}

/// Encoder configuration. `frame_size` is derived from `sample_rate` and is
/// not an independent degree of freedom; `quality` is kept in thousandths
/// (0 lowest, 1000 highest) so that the bound can be stated and checked
/// exactly. `use_pns` is accepted and validated but consumed by no stage.
#[derive(Debug, Clone, Copy)]
pub struct AacLdConfig {
    pub sample_rate: u32,
    pub channels: u8,
    pub frame_size: usize,
    pub bitrate: u32,
    /// Quality in thousandths: 750 means three quarters of full quality.
    pub quality: u32,
    pub use_tns: bool,
    pub use_pns: bool,
}

impl AacLdConfig {
    /// The bounds that `validate` enforces.
    pub open spec fn bounds_ok(&self) -> bool {
        &&& 1 <= self.channels && self.channels <= 8
        &&& 8000 <= self.bitrate && self.bitrate <= 320000
        &&& self.quality <= 1000
    }

    /// Everything construction guarantees: validated bounds and a frame size
    /// that matches the sample rate.
    pub open spec fn valid(&self) -> bool {
        &&& self.bounds_ok()
        &&& frame_size_for(self.sample_rate) == Some(self.frame_size)
    }

    pub fn new(sample_rate: u32, channels: u8, bitrate: u32) -> (r: Result<Self, AacLdError>)
        ensures
            r is Ok <==> (frame_size_for(sample_rate) is Some
                && 1 <= channels && channels <= 8
                && 8000 <= bitrate && bitrate <= 320000),
            r matches Ok(c) ==> {
                &&& c.valid()
                &&& c.sample_rate == sample_rate
                &&& c.channels == channels
                &&& Some(c.frame_size) == frame_size_for(sample_rate)
                &&& c.bitrate == bitrate
                &&& c.quality == 750
                &&& c.use_tns == true
                &&& c.use_pns == false
            },
            r matches Err(e) ==> e matches AacLdError::InvalidConfig(_),
    {
        let frame_size = match Self::calculate_frame_size(sample_rate) {
            Ok(f) => f,
            Err(e) => {
                return Err(e);
            },
        };
        let config = Self {
            sample_rate,
            channels,
            frame_size,
            bitrate,
            quality: 750,
            use_tns: true,
            use_pns: false,
        };
        match config.validate() {
            Ok(()) => Ok(config),
            Err(e) => Err(e),
        }
    }

    fn calculate_frame_size(sample_rate: u32) -> (r: Result<usize, AacLdError>)
        ensures
            match r {
                Ok(f) => frame_size_for(sample_rate) == Some(f),
                Err(e) => frame_size_for(sample_rate) is None
                    && (e matches AacLdError::InvalidConfig(m)
                        && m@ == "Unsupported sample rate"@),
            },
    {
        if 8000 <= sample_rate && sample_rate <= 16000 {
            Ok(240)
        } else if 16001 <= sample_rate && sample_rate <= 32000 {
            Ok(480)
        } else if 32001 <= sample_rate && sample_rate <= 48000 {
            Ok(480)
        } else if 48001 <= sample_rate && sample_rate <= 96000 {
            Ok(512)
        } else {
            Err(AacLdError::InvalidConfig("Unsupported sample rate".to_owned()))
        }
    }

    /// Check the channel, bitrate and quality bounds; the sample rate was
    /// already checked when the frame size was derived.
    pub fn validate(&self) -> (r: Result<(), AacLdError>)
        ensures
            r is Ok <==> self.bounds_ok(),
            !(1 <= self.channels && self.channels <= 8)
                ==> (r matches Err(AacLdError::InvalidConfig(m))
                    && m@ == "Invalid channel count"@),
            (1 <= self.channels && self.channels <= 8)
                && !(8000 <= self.bitrate && self.bitrate <= 320000)
                ==> (r matches Err(AacLdError::InvalidConfig(m))
                    && m@ == "Invalid bitrate"@),
            (1 <= self.channels && self.channels <= 8)
                && (8000 <= self.bitrate && self.bitrate <= 320000)
                && self.quality > 1000
                ==> (r matches Err(AacLdError::InvalidConfig(m))
                    && m@ == "Quality must be between 0.0 and 1.0"@),
    {
        if self.channels == 0 || self.channels > 8 {
            return Err(AacLdError::InvalidConfig("Invalid channel count".to_owned()));
        }
        if self.bitrate < 8000 || self.bitrate > 320000 {
            return Err(AacLdError::InvalidConfig("Invalid bitrate".to_owned()));
        }
        if self.quality > 1000 {
            return Err(AacLdError::InvalidConfig(
                "Quality must be between 0.0 and 1.0".to_owned(),
            ));
        }
        Ok(())
    }
}

impl Default for AacLdConfig {
    /// The default configuration: 44.1 kHz stereo at 128 kbit/s.
    fn default() -> (r: Self)
        ensures
            r.valid(),
            r.sample_rate == 44100,
            r.channels == 2,
            r.frame_size == 480,
            r.bitrate == 128000,
            r.quality == 750,
            r.use_tns == true,
            r.use_pns == false,
    {
        let r = AacLdConfig::new(44100, 2, 128000);
        r.unwrap()
    }
}

} // verus!
