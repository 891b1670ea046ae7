//! Decisions made while capturing: which microphone sample types a stream
//! is opened for, and how the bytes of a system-audio buffer are laid out.

use vstd::prelude::*;
use vstd::string::*;

verus! {

/// The sample formats an input device can report.
#[derive(PartialEq, Eq, Structural, Clone, Copy, Debug)]
pub enum MicrophoneFormat {
    I8,
    I16,
    I32,
    I64,
    U8,
    U16,
    U32,
    U64,
    F32,
    F64,
}

/// The sample types a microphone stream is opened with.
#[derive(PartialEq, Eq, Structural, Clone, Copy, Debug)]
pub enum StreamSample {
    I8,
    I16,
    I32,
    F32,
}

/// The name a format is shown by in messages.
pub open spec fn format_name(format: MicrophoneFormat) -> Seq<char> {
    match format {
        MicrophoneFormat::I8 => "I8"@,
        MicrophoneFormat::I16 => "I16"@,
        MicrophoneFormat::I32 => "I32"@,
        MicrophoneFormat::I64 => "I64"@,
        MicrophoneFormat::U8 => "U8"@,
        MicrophoneFormat::U16 => "U16"@,
        MicrophoneFormat::U32 => "U32"@,
        MicrophoneFormat::U64 => "U64"@,
        MicrophoneFormat::F32 => "F32"@,
        MicrophoneFormat::F64 => "F64"@,
    }
}

impl MicrophoneFormat {
    /// The name the format is shown by in messages.
    pub fn name(&self) -> (name: &'static str)
        ensures
            name@ == format_name(*self),
    {
        match self {
            MicrophoneFormat::I8 => "I8",
            MicrophoneFormat::I16 => "I16",
            MicrophoneFormat::I32 => "I32",
            MicrophoneFormat::I64 => "I64",
            MicrophoneFormat::U8 => "U8",
            MicrophoneFormat::U16 => "U16",
            MicrophoneFormat::U32 => "U32",
            MicrophoneFormat::U64 => "U64",
            MicrophoneFormat::F32 => "F32",
            MicrophoneFormat::F64 => "F64",
        }
    }
}

/// The stream sample type for each format a microphone stream can be opened with.
pub open spec fn stream_sample_for(format: MicrophoneFormat) -> Option<StreamSample> {
    match format {
        MicrophoneFormat::I8 => Some(StreamSample::I8),
        MicrophoneFormat::I16 => Some(StreamSample::I16),
        MicrophoneFormat::I32 => Some(StreamSample::I32),
        MicrophoneFormat::F32 => Some(StreamSample::F32),
        _ => None,
    }
}

pub open spec fn unsupported_format_message(format: MicrophoneFormat) -> Seq<char> {
    "Unsupported microphone sample format: "@ + format_name(format)
}

/// The sample type to open the microphone stream with: signed 8, 16 and
/// 32-bit integers and 32-bit floats are read as they are; any other format
/// is refused with a message that names it.
pub fn microphone_stream_sample(format: MicrophoneFormat) -> (r: Result<StreamSample, String>)
    ensures
        match r {
            Ok(sample) => stream_sample_for(format) == Some(sample),
            Err(message) => stream_sample_for(format) is None
                && message@ == unsupported_format_message(format),
        },
{
    match format {
        MicrophoneFormat::I8 => Ok(StreamSample::I8),
        MicrophoneFormat::I16 => Ok(StreamSample::I16),
        MicrophoneFormat::I32 => Ok(StreamSample::I32),
        MicrophoneFormat::F32 => Ok(StreamSample::F32),
        _ => {
            let mut message = String::from_str("Unsupported microphone sample format: ");
            message.append(format.name());
            Err(message)
        },
    }
}

/// How the bytes of one system-audio sample are read.
#[derive(PartialEq, Eq, Structural, Clone, Copy, Debug)]
pub enum PcmEncoding {
    /// Four bytes of a 32-bit float.
    Float32,
    /// Four bytes of a 32-bit signed integer.
    Int32,
    /// Two bytes of a 16-bit signed integer.
    Int16,
    /// Nothing readable: the sample counts as silence.
    Silence,
}

/// How a sample of `len` bytes is read, given the buffer's bits per sample
/// and whether it holds floats: 32-bit floats, 32-bit integers and 16-bit
/// integers are read when enough bytes are there; anything else is silence.
pub open spec fn spec_pcm_encoding(bits_per_sample: u32, is_float: bool, len: nat) -> PcmEncoding {
    if bits_per_sample == 32 && is_float && len >= 4 {
        PcmEncoding::Float32
    } else if bits_per_sample == 32 && !is_float && len >= 4 {
        PcmEncoding::Int32
    } else if bits_per_sample == 16 && !is_float && len >= 2 {
        PcmEncoding::Int16
    } else {
        PcmEncoding::Silence
    }
}

/// How to read one sample of the given bytes.
pub fn pcm_encoding(bits_per_sample: u32, is_float: bool, bytes: &[u8]) -> (encoding: PcmEncoding)
    ensures
        encoding == spec_pcm_encoding(bits_per_sample, is_float, bytes@.len()),
{
    let len: usize = bytes.len();
    if bits_per_sample == 32 && is_float && len >= 4 {
        PcmEncoding::Float32
    } else if bits_per_sample == 32 && !is_float && len >= 4 {
        PcmEncoding::Int32
    } else if bits_per_sample == 16 && !is_float && len >= 2 {
        PcmEncoding::Int16
    } else {
        PcmEncoding::Silence
    }
}

/// The bytes per sample and per frame of a buffer with the given bits per
/// sample and channel count; a buffer with fewer than eight bits per sample
/// is skipped (`None`). A buffer that reports no channel is read as mono.
pub fn pcm_frame_layout(bits_per_sample: u32, channels: u32) -> (r: Option<(usize, usize)>)
    requires
        (bits_per_sample / 8) * (if channels == 0 { 1 } else { channels as int }) <= usize::MAX,
    ensures
        match r {
            Some((sample_bytes, frame_bytes)) => bits_per_sample / 8 > 0
                && sample_bytes == bits_per_sample / 8
                && frame_bytes == sample_bytes * (if channels == 0 { 1 } else { channels as int }),
            None => bits_per_sample / 8 == 0,
        },
{
    let sample_bytes: usize = (bits_per_sample / 8) as usize;
    if sample_bytes == 0 {
        return None;
    }
    let channel_count: usize = if channels == 0 { 1 } else { channels as usize };
    Some((sample_bytes, sample_bytes * channel_count))
}

} // verus!
