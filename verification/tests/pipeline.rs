use audio_stdout::codec::{
    bits_of_i16, bits_of_i32, i16_of_bits, i32_of_bits, serialize_f32_bits, serialize_s16,
    serialize_s32, SampleBuffer,
};
use audio_stdout::config::{resolve_config, CaptureConfig, SampleFormat, ValidationError};
use audio_stdout::device::{derive_settings, DeviceDescriptor, DeviceError};
use audio_stdout::queue::{drain_to_bytes, producer_step, writer_step, HandoffQueue};

fn test_device() -> DeviceDescriptor {
    DeviceDescriptor {
        index: 3,
        max_input_channels: 2,
        default_low_input_latency_us: 8_700,
        default_sample_rate_mhz: 44_100_000,
    }
}

fn test_config(format: SampleFormat) -> CaptureConfig {
    CaptureConfig {
        sample_rate_mhz: None,
        format,
        frames_per_buffer: 256,
        deinterleaved: false,
    }
}

// --- format names ---

#[test]
fn format_names_resolve() {
    assert_eq!(SampleFormat::of_name("S16"), Some(SampleFormat::S16));
    assert_eq!(SampleFormat::of_name("S32"), Some(SampleFormat::S32));
    assert_eq!(SampleFormat::of_name("F32"), Some(SampleFormat::F32));
}

#[test]
fn unknown_format_names_are_rejected() {
    assert_eq!(SampleFormat::of_name("S8"), None);
    assert_eq!(SampleFormat::of_name("s16"), None);
    assert_eq!(SampleFormat::of_name(""), None);
    assert_eq!(SampleFormat::of_name("S165"), None);
}

#[test]
fn format_widths() {
    assert_eq!(SampleFormat::S16.width(), 2);
    assert_eq!(SampleFormat::S32.width(), 4);
    assert_eq!(SampleFormat::F32.width(), 4);
}

// --- configuration resolution ---

#[test]
fn resolve_accepts_defaults() {
    let c = resolve_config(None, "S16", 256, false).unwrap();
    assert_eq!(c.sample_rate_mhz, None);
    assert_eq!(c.format, SampleFormat::S16);
    assert_eq!(c.frames_per_buffer, 256);
    assert!(!c.deinterleaved);
}

#[test]
fn resolve_keeps_override_and_flags() {
    let c = resolve_config(Some(48_000_000), "F32", 512, true).unwrap();
    assert_eq!(c.sample_rate_mhz, Some(48_000_000));
    assert_eq!(c.format, SampleFormat::F32);
    assert_eq!(c.frames_per_buffer, 512);
    assert!(c.deinterleaved);
}

#[test]
fn resolve_rejects_invalid_format_name() {
    // An invalid format fails resolution, before any device is involved.
    let r = resolve_config(None, "S8", 256, false);
    assert_eq!(r, Err(ValidationError::UnknownFormat));
}

#[test]
fn resolve_rejects_zero_sample_rate() {
    let r = resolve_config(Some(0), "S16", 256, false);
    assert_eq!(r, Err(ValidationError::InvalidSampleRate));
}

#[test]
fn resolve_rejects_zero_buffer_size() {
    let r = resolve_config(None, "S16", 0, false);
    assert_eq!(r, Err(ValidationError::InvalidBufferSize));
}

#[test]
fn resolve_reports_sample_rate_before_format() {
    let r = resolve_config(Some(0), "S8", 0, false);
    assert_eq!(r, Err(ValidationError::InvalidSampleRate));
}

#[test]
fn validation_error_messages() {
    assert_eq!(
        ValidationError::UnknownFormat.message(),
        "unknown sample format"
    );
    assert_eq!(
        ValidationError::InvalidSampleRate.message(),
        "sample rate must be positive"
    );
    assert_eq!(
        ValidationError::InvalidBufferSize.message(),
        "buffer size must be positive"
    );
}

// --- device binding ---

#[test]
fn settings_take_buffer_size_and_device_default_rate() {
    let c = test_config(SampleFormat::S16);
    let s = derive_settings(&c, &test_device()).unwrap();
    assert_eq!(s.frames_per_buffer, 256);
    assert_eq!(s.sample_rate_mhz, 44_100_000);
    assert_eq!(s.channel_count, 2);
    assert_eq!(s.latency_us, 8_700);
    assert_eq!(s.device_index, 3);
    assert!(s.interleaved);
}

#[test]
fn settings_take_sample_rate_override() {
    let mut c = test_config(SampleFormat::S16);
    c.sample_rate_mhz = Some(96_000_000);
    let s = derive_settings(&c, &test_device()).unwrap();
    assert_eq!(s.sample_rate_mhz, 96_000_000);
}

#[test]
fn settings_negate_deinterleaved() {
    let mut c = test_config(SampleFormat::S16);
    c.deinterleaved = true;
    let s = derive_settings(&c, &test_device()).unwrap();
    assert!(!s.interleaved);
}

#[test]
fn device_without_input_channels_is_rejected() {
    let c = test_config(SampleFormat::S16);
    let mut d = test_device();
    d.max_input_channels = 0;
    assert_eq!(derive_settings(&c, &d), Err(DeviceError::NoInputChannels));
    d.max_input_channels = -1;
    assert_eq!(derive_settings(&c, &d), Err(DeviceError::NoInputChannels));
}

#[test]
fn buffer_size_one_is_accepted() {
    let mut c = test_config(SampleFormat::S16);
    c.frames_per_buffer = 1;
    let s = derive_settings(&c, &test_device()).unwrap();
    assert_eq!(s.frames_per_buffer, 1);
    // A one-frame buffer also serializes without trouble.
    let bytes = serialize_s16(&[-5, 5]);
    assert_eq!(bytes.len(), 4);
}

#[test]
fn device_error_messages() {
    assert_eq!(
        DeviceError::NoInputDevice.message(),
        "no default input device"
    );
    assert_eq!(DeviceError::QueryFailed.message(), "device query failed");
    assert_eq!(
        DeviceError::NoInputChannels.message(),
        "device has no input channels"
    );
}

// --- serialization ---

#[test]
fn s16_serializes_to_exact_little_endian_bytes() {
    let samples: [i16; 4] = [0, 1000, -1000, 32767];
    let bytes = serialize_s16(&samples);
    assert_eq!(bytes.len(), 8);
    assert_eq!(bytes, vec![0x00, 0x00, 0xE8, 0x03, 0x18, 0xFC, 0xFF, 0x7F]);
    // Decoding the bytes as 16-bit integers reproduces the samples.
    let mut decoded: Vec<i16> = Vec::new();
    for pair in bytes.chunks(2) {
        decoded.push(i16::from_le_bytes([pair[0], pair[1]]));
    }
    assert_eq!(decoded, samples.to_vec());
}

#[test]
fn s32_serializes_to_exact_little_endian_bytes() {
    let samples: [i32; 3] = [0, -2, 0x0102_0304];
    let bytes = serialize_s32(&samples);
    assert_eq!(
        bytes,
        vec![0, 0, 0, 0, 0xFE, 0xFF, 0xFF, 0xFF, 0x04, 0x03, 0x02, 0x01]
    );
    let mut decoded: Vec<i32> = Vec::new();
    for four in bytes.chunks(4) {
        decoded.push(i32::from_le_bytes([four[0], four[1], four[2], four[3]]));
    }
    assert_eq!(decoded, samples.to_vec());
}

#[test]
fn f32_bit_patterns_serialize_to_their_bytes() {
    let one = 1.0f32.to_bits();
    let half = 0.5f32.to_bits();
    let bytes = serialize_f32_bits(&[one, half]);
    assert_eq!(bytes, vec![0x00, 0x00, 0x80, 0x3F, 0x00, 0x00, 0x00, 0x3F]);
    let back = f32::from_bits(u32::from_le_bytes([bytes[0], bytes[1], bytes[2], bytes[3]]));
    assert_eq!(back, 1.0f32);
}

#[test]
fn s32_buffer_of_512_frames_over_two_channels_is_4096_bytes() {
    // format=S32, buffer-size=512, two channels, interleaved.
    let frames = 512usize;
    let channels = 2usize;
    let mut samples: Vec<i32> = Vec::new();
    for i in 0..(frames * channels) {
        samples.push(i as i32 - 300);
    }
    let bytes = serialize_s32(&samples);
    assert_eq!(bytes.len(), frames * channels * 4);
    // Frame-interleaved order: the first frame's two channel samples
    // come first, in channel order.
    assert_eq!(
        &bytes[0..8],
        &[
            (-300i32).to_le_bytes(),
            (-299i32).to_le_bytes()
        ]
        .concat()[..]
    );
}

#[test]
fn bit_pattern_round_trips() {
    for x in [0i16, 1, -1, 1000, -1000, i16::MAX, i16::MIN] {
        assert_eq!(i16_of_bits(bits_of_i16(x)), x);
        assert_eq!(bits_of_i16(x), x as u16);
    }
    for x in [0i32, 7, -7, i32::MAX, i32::MIN] {
        assert_eq!(i32_of_bits(bits_of_i32(x)), x);
        assert_eq!(bits_of_i32(x), x as u32);
    }
}

// --- hand-off queue and writer loop ---

#[test]
fn queue_delivers_in_fifo_order() {
    let mut q: HandoffQueue<u32> = HandoffQueue::new(8);
    assert!(q.push(10));
    assert!(q.push(20));
    assert!(q.push(30));
    assert_eq!(q.len(), 3);
    assert_eq!(q.pop(), Some(10));
    assert_eq!(q.pop(), Some(20));
    assert_eq!(q.pop(), Some(30));
    assert_eq!(q.pop(), None);
}

#[test]
fn full_queue_refuses_the_newest_without_blocking() {
    let mut q: HandoffQueue<u32> = HandoffQueue::new(2);
    assert!(q.push(1));
    assert!(q.push(2));
    assert!(!q.push(3));
    assert_eq!(q.len(), 2);
    assert_eq!(q.pop(), Some(1));
    assert!(q.push(4));
    assert_eq!(q.pop(), Some(2));
    assert_eq!(q.pop(), Some(4));
}

#[test]
fn writer_emits_buffers_in_production_order() {
    // A simulated producer hands over three buffers; the drained bytes
    // are their serializations, back to back, in production order.
    let b0 = SampleBuffer::S16(vec![1, -1]);
    let b1 = SampleBuffer::S16(vec![2, -2, 3]);
    let b2 = SampleBuffer::S16(vec![i16::MIN]);
    let mut expected: Vec<u8> = Vec::new();
    expected.extend(b0.serialize());
    expected.extend(b1.serialize());
    expected.extend(b2.serialize());

    let mut q: HandoffQueue<SampleBuffer> = HandoffQueue::new(16);
    assert!(q.push(b0));
    assert!(q.push(b1));
    assert!(q.push(b2));
    let mut out: Vec<u8> = Vec::new();
    drain_to_bytes(&mut q, &mut out);
    assert_eq!(out, expected);
    assert_eq!(q.len(), 0);
}

#[test]
fn writer_step_takes_exactly_the_oldest_buffer() {
    let mut q: HandoffQueue<SampleBuffer> = HandoffQueue::new(4);
    q.push(SampleBuffer::S32(vec![5]));
    q.push(SampleBuffer::S32(vec![6]));
    let mut out: Vec<u8> = Vec::new();
    assert!(writer_step(&mut q, &mut out));
    assert_eq!(out, 5i32.to_le_bytes().to_vec());
    assert_eq!(q.len(), 1);
    assert!(writer_step(&mut q, &mut out));
    assert!(!writer_step(&mut q, &mut out));
    let mut expected = 5i32.to_le_bytes().to_vec();
    expected.extend(6i32.to_le_bytes());
    assert_eq!(out, expected);
}

#[test]
fn producer_always_continues_and_counts_drops() {
    let mut q: HandoffQueue<SampleBuffer> = HandoffQueue::new(2);
    assert_eq!(q.capacity(), 2);
    let mut dropped: u64 = 0;
    assert!(producer_step(&mut q, SampleBuffer::S16(vec![1]), &mut dropped));
    assert!(producer_step(&mut q, SampleBuffer::S16(vec![2]), &mut dropped));
    assert_eq!(dropped, 0);
    // The queue is full: the newest buffer is dropped and counted, and
    // the producer is still told to continue.
    assert!(producer_step(&mut q, SampleBuffer::S16(vec![3]), &mut dropped));
    assert_eq!(dropped, 1);
    assert_eq!(q.len(), 2);
    // The two accepted buffers come out unharmed, oldest first.
    let mut out: Vec<u8> = Vec::new();
    drain_to_bytes(&mut q, &mut out);
    assert_eq!(out, vec![1, 0, 2, 0]);
}

#[test]
fn mixed_format_buffers_report_their_length() {
    assert_eq!(SampleBuffer::S16(vec![0; 7]).len(), 7);
    assert_eq!(SampleBuffer::S32(vec![0; 5]).len(), 5);
    assert_eq!(SampleBuffer::F32(vec![0; 3]).len(), 3);
}
