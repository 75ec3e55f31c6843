//! What the pipeline asks of the input device.

use vstd::prelude::*;
use crate::error::SessionError;

verus! {

/// How a device represents one sample.
#[derive(Clone, Copy, Debug, PartialEq, Eq, Structural)]
pub enum SampleFormat {
    /// 32-bit floating point, the one representation that is captured.
    F32,
    /// Any other representation.
    Other,
}

/// The default configuration that an input device reports.
#[derive(Clone, Copy, Debug, PartialEq, Eq, Structural)]
pub struct DeviceConfig {
    /// Samples per second and channel.
    pub sample_rate: u32,
    /// Interleaved channels per frame.
    pub channels: u16,
    /// The representation of a sample.
    pub sample_format: SampleFormat,
}

/// The outcome of opening capture on a device, where `None` stands for a
/// device that is missing or gave no configuration.
pub open spec fn capture_outcome(device: Option<DeviceConfig>) -> Result<
    DeviceConfig,
    SessionError,
> {
    match device {
        None => Err(SessionError::DeviceUnavailable),
        Some(config) => if config.sample_format == SampleFormat::F32 {
            Ok(config)
        } else {
            Err(SessionError::UnsupportedSampleFormat)
        },
    }
}

/// Decides whether capture can be opened on the default input device.
///
/// `device` is the configuration that the device reported, or `None` where
/// there is no device or it gave none.  A missing device is
/// `DeviceUnavailable`; a sample representation other than 32-bit floating
/// point is `UnsupportedSampleFormat`.  Otherwise the configuration to
/// capture with comes back.
pub fn open_capture(device: Option<DeviceConfig>) -> (outcome: Result<DeviceConfig, SessionError>)
    ensures
        outcome == capture_outcome(device),
{
    match device {
        None => Err(SessionError::DeviceUnavailable),
        Some(config) => match config.sample_format {
            SampleFormat::F32 => Ok(config),
            SampleFormat::Other => Err(SessionError::UnsupportedSampleFormat),
        },
    }
}

} // verus!
