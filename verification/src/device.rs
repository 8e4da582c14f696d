//! Device binding: combining the default input device's capabilities
//! with the resolved configuration into the settings the stream is
//! opened with.
//!
//! The audio backend supplies the device snapshot; this module only
//! decides. Times are carried in microseconds and rates in millihertz
//! so every field is an exact integer.

use vstd::prelude::*;
use crate::codec::SampleBuffer;
use crate::config::CaptureConfig;

verus! {

/// Why no stream settings could be built.
#[derive(Clone, Copy, PartialEq, Eq, Structural, Debug)]
pub enum DeviceError {
    /// The backend reports no default input device.
    NoInputDevice,
    /// The backend failed while it was queried for the device.
    QueryFailed,
    /// The device offers no input channels, so a capture stream over
    /// it would be degenerate.
    NoInputChannels,
}

impl DeviceError {
    /// What the one-line report of this error says.
    pub open spec fn spec_message(self) -> Seq<char> {
        match self {
            DeviceError::NoInputDevice => "no default input device"@,
            DeviceError::QueryFailed => "device query failed"@,
            DeviceError::NoInputChannels => "device has no input channels"@,
        }
    }

    /// The one-line report of this error.
    pub fn message(&self) -> (r: String)
        ensures
            r@ == self.spec_message(),
    {
        match self {
            DeviceError::NoInputDevice => "no default input device".to_owned(),
            DeviceError::QueryFailed => "device query failed".to_owned(),
            DeviceError::NoInputChannels => "device has no input channels".to_owned(),
        }
    }
}

/// A read-only snapshot of the default input device, as the backend
/// reports it.
#[derive(Clone, Copy, PartialEq, Eq, Structural, Debug)]
pub struct DeviceDescriptor {
    /// The backend's index for the device.
    pub index: u32,
    /// The most input channels the device will open. The backend
    /// reports it signed; values at or below zero mean the device
    /// cannot capture.
    pub max_input_channels: i32,
    /// The device's default low input latency, in microseconds.
    pub default_low_input_latency_us: u64,
    /// The device's default sample rate, in millihertz.
    pub default_sample_rate_mhz: u64,
}

/// Everything the stream is opened with, derived once per run from the
/// configuration and the device snapshot.
#[derive(Clone, Copy, PartialEq, Eq, Structural, Debug)]
pub struct StreamSettings {
    /// The backend's index for the device.
    pub device_index: u32,
    /// Channels captured per frame: the device's maximum.
    pub channel_count: i32,
    /// Frame-major sample ordering; the negation of the configured
    /// deinterleaved mode.
    pub interleaved: bool,
    /// The stream's latency, in microseconds: the device's default low
    /// input latency.
    pub latency_us: u64,
    /// The capture rate, in millihertz: the configured override when
    /// present, else the device's default.
    pub sample_rate_mhz: u64,
    /// Frames delivered per callback: the configured buffer size.
    pub frames_per_buffer: u32,
}

impl StreamSettings {
    /// How many samples one interleaved buffer of these settings
    /// holds: one sample per channel per frame.
    pub open spec fn samples_per_buffer(self) -> int {
        self.frames_per_buffer * self.channel_count
    }
}

/// Binds the device to the configuration: settings whose channel count
/// is the device's maximum, whose latency is the device's default low
/// input latency, whose sample rate is the configured override when
/// present and the device's default otherwise, and whose buffer size
/// is the configured frames-per-buffer. A device without input
/// channels is rejected instead of opened degenerately.
pub fn derive_settings(config: &CaptureConfig, device: &DeviceDescriptor) -> (r: Result<
    StreamSettings,
    DeviceError,
>)
    requires
        config.valid(),
    ensures
        r is Ok <==> device.max_input_channels > 0,
        r matches Err(e) ==> e == DeviceError::NoInputChannels,
        r matches Ok(s) ==> {
            &&& s.device_index == device.index
            &&& s.channel_count == device.max_input_channels
            &&& s.interleaved == !config.deinterleaved
            &&& s.latency_us == device.default_low_input_latency_us
            &&& s.sample_rate_mhz == match config.sample_rate_mhz {
                Some(rate) => rate,
                None => device.default_sample_rate_mhz,
            }
            &&& s.frames_per_buffer == config.frames_per_buffer
            &&& s.sample_rate_mhz > 0 || (config.sample_rate_mhz is None
                && device.default_sample_rate_mhz == 0)
        },
{
    if device.max_input_channels <= 0 {
        return Err(DeviceError::NoInputChannels);
    }
    let sample_rate_mhz = match config.sample_rate_mhz {
        Some(rate) => rate,
        None => device.default_sample_rate_mhz,
    };
    Ok(
        StreamSettings {
            device_index: device.index,
            channel_count: device.max_input_channels,
            interleaved: !config.deinterleaved,
            latency_us: device.default_low_input_latency_us,
            sample_rate_mhz,
            frames_per_buffer: config.frames_per_buffer,
        },
    )
}

/// Every delivered buffer has a fixed wire size: a buffer that fills
/// one callback of these settings serializes to exactly
/// frames-per-buffer times channel count times the format's width in
/// bytes.
pub proof fn lemma_bytes_per_callback(settings: StreamSettings, buffer: SampleBuffer)
    requires
        buffer.sample_count() == settings.samples_per_buffer(),
    ensures
        buffer.wire().len() == settings.frames_per_buffer * settings.channel_count
            * buffer.format().spec_width(),
{
    buffer.lemma_wire_len();
    assert(buffer.sample_count() * buffer.format().spec_width() == settings.frames_per_buffer
        * settings.channel_count * buffer.format().spec_width()) by (nonlinear_arith)
        requires
            buffer.sample_count() == settings.frames_per_buffer * settings.channel_count,
    ;
}

} // verus!
