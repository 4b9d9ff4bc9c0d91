//! Configuration values handed to the native library, and their encodings
//! as the plain integers the native ABI expects.
//!
//! Enum variants carry no explicit discriminants; each enumeration has one
//! function that states its native encoding, so every number that crosses
//! the boundary is pinned by a contract.

use vstd::prelude::*;

verus! {

/// Capacity in bytes of the fixed native buffer holding a product
/// identifier; shorter identifiers are zero-padded to this size.
pub const PRODUCT_ID_CAPACITY: usize = 64;

/// Capacity in bytes of the fixed native buffer holding a license payload.
pub const LICENSE_CAPACITY: usize = 512;

/// Geographic area selector: the global default, or a bitwise combination
/// of the region bits below.
pub const AREA_CODE_DEFAULT: u32 = 0xFFFF_FFFF;

/// Region bit: mainland China.
pub const AREA_CODE_CN: u32 = 0x1;

/// Region bit: North America.
pub const AREA_CODE_NA: u32 = 0x2;

/// Region bit: Europe.
pub const AREA_CODE_EU: u32 = 0x4;

/// Region bit: Asia except mainland China.
pub const AREA_CODE_AS: u32 = 0x8;

/// Region bit: Japan.
pub const AREA_CODE_JP: u32 = 0x10;

/// Region bit: India.
pub const AREA_CODE_IN: u32 = 0x20;

/// Log severity, ordered from most to least severe.
#[derive(Clone, Copy, Debug, PartialEq, Eq, Structural)]
pub enum LogLevel {
    Emergency,
    Alert,
    Critical,
    Error,
    Warning,
    Notice,
    Info,
    Debug,
}

impl Default for LogLevel {
    /// The severity used when none is chosen.
    fn default() -> (r: Self)
        ensures
            r == LogLevel::Notice,
    {
        LogLevel::Notice
    }
}

/// Native encoding of a [`LogLevel`]: the severities number 0 (emergency)
/// through 7 (debug), in order.
pub open spec fn spec_log_level_code(level: LogLevel) -> i32 {
    match level {
        LogLevel::Emergency => 0,
        LogLevel::Alert => 1,
        LogLevel::Critical => 2,
        LogLevel::Error => 3,
        LogLevel::Warning => 4,
        LogLevel::Notice => 5,
        LogLevel::Info => 6,
        LogLevel::Debug => 7,
    }
}

/// Encodes a [`LogLevel`] as the integer the native ABI expects.
pub fn log_level_code(level: LogLevel) -> (r: i32)
    ensures
        r == spec_log_level_code(level),
{
    match level {
        LogLevel::Emergency => 0,
        LogLevel::Alert => 1,
        LogLevel::Critical => 2,
        LogLevel::Error => 3,
        LogLevel::Warning => 4,
        LogLevel::Notice => 5,
        LogLevel::Info => 6,
        LogLevel::Debug => 7,
    }
}

/// Logging configuration handed to the native initializer.
///
/// If the directory path is marshaled as a native string, the byte buffer
/// backing it must outlive the native call that receives the pointer; the
/// session layer encodes it into the call payload so the caller controls
/// that lifetime explicitly.
#[derive(Clone, Debug)]
pub struct LogConfig {
    /// Disables native logging entirely.
    pub disable: bool,
    /// Redacts sensitive values from native log lines.
    pub redact: bool,
    /// Severity threshold for native log lines.
    pub level: LogLevel,
    /// Directory the native library writes its logs into.
    pub path: String,
}

impl Default for LogConfig {
    /// Logging on, unredacted, at [`LogLevel::Notice`], with an empty path.
    fn default() -> (r: Self)
        ensures
            !r.disable,
            !r.redact,
            r.level == LogLevel::Notice,
            r.path@ == Seq::<char>::empty(),
    {
        LogConfig { disable: false, redact: false, level: LogLevel::Notice, path: String::new() }
    }
}

/// Configuration snapshot passed once at initialization and immutable
/// afterwards; the native layer may retain a copy for the rest of the
/// process.
#[derive(Clone, Debug)]
pub struct ServiceOptions {
    /// Geographic area selector: [`AREA_CODE_DEFAULT`] or a bitwise
    /// combination of the region bits.
    pub area_code: u32,
    /// Product identifier, at most [`PRODUCT_ID_CAPACITY`] bytes; marshaled
    /// zero-padded.
    pub product_id: Vec<u8>,
    /// Logging configuration.
    pub log_config: LogConfig,
    /// License payload, at most [`LICENSE_CAPACITY`] bytes; marshaled
    /// zero-padded.
    pub license: Vec<u8>,
}

impl Default for ServiceOptions {
    /// The default area, an all-zero product identifier, default logging,
    /// and an empty license.
    fn default() -> (r: Self)
        ensures
            r.area_code == AREA_CODE_DEFAULT,
            r.product_id@ == Seq::<u8>::empty(),
            !r.log_config.disable,
            !r.log_config.redact,
            r.log_config.level == LogLevel::Notice,
            r.log_config.path@ == Seq::<char>::empty(),
            r.license@ == Seq::<u8>::empty(),
    {
        ServiceOptions {
            area_code: AREA_CODE_DEFAULT,
            product_id: Vec::new(),
            log_config: Default::default(),
            license: Vec::new(),
        }
    }
}

/// Audio codec selection for a join; disabled unless chosen.
#[derive(Clone, Copy, Debug, PartialEq, Eq, Structural)]
pub enum AudioCodec {
    Disabled,
    Opus,
    G722,
    G711A,
    G711U,
}

/// Native encoding of an [`AudioCodec`].
pub open spec fn spec_audio_codec_code(codec: AudioCodec) -> i32 {
    match codec {
        AudioCodec::Disabled => 0,
        AudioCodec::Opus => 1,
        AudioCodec::G722 => 2,
        AudioCodec::G711A => 8,
        AudioCodec::G711U => 9,
    }
}

/// Encodes an [`AudioCodec`] as the integer the native ABI expects.
pub fn audio_codec_code(codec: AudioCodec) -> (r: i32)
    ensures
        r == spec_audio_codec_code(codec),
{
    match codec {
        AudioCodec::Disabled => 0,
        AudioCodec::Opus => 1,
        AudioCodec::G722 => 2,
        AudioCodec::G711A => 8,
        AudioCodec::G711U => 9,
    }
}

/// Per-join configuration, supplied fresh on every join and treated as
/// call-scoped: the native layer is not documented to retain it.
#[derive(Clone, Copy, Debug, PartialEq, Eq, Structural)]
pub struct ChannelOptions {
    /// Subscribe to remote audio streams automatically.
    pub auto_subscribe_audio: bool,
    /// Subscribe to remote video streams automatically.
    pub auto_subscribe_video: bool,
    /// Subscribe to the local user's own streams.
    pub subscribe_local_user: bool,
    /// Enable the native audio jitter buffer.
    pub enable_audio_jitter_buffer: bool,
    /// Enable the native audio mixer.
    pub enable_audio_mixer: bool,
    /// Audio codec selection.
    pub audio_codec: AudioCodec,
    /// Enable native payload encryption.
    pub enable_encryption: bool,
}

impl Default for ChannelOptions {
    /// Audio and video auto-subscription on, everything else off, codec
    /// disabled.
    fn default() -> (r: Self)
        ensures
            r == (ChannelOptions {
                auto_subscribe_audio: true,
                auto_subscribe_video: true,
                subscribe_local_user: false,
                enable_audio_jitter_buffer: false,
                enable_audio_mixer: false,
                audio_codec: AudioCodec::Disabled,
                enable_encryption: false,
            }),
    {
        ChannelOptions {
            auto_subscribe_audio: true,
            auto_subscribe_video: true,
            subscribe_local_user: false,
            enable_audio_jitter_buffer: false,
            enable_audio_mixer: false,
            audio_codec: AudioCodec::Disabled,
            enable_encryption: false,
        }
    }
}

/// Payload kind of an outgoing video frame.
#[derive(Clone, Copy, Debug, PartialEq, Eq, Structural)]
pub enum VideoDataType {
    RawYuv,
    H264,
    H265,
    Generic,
    GenericJpeg,
}

/// Native encoding of a [`VideoDataType`].
pub open spec fn spec_video_data_type_code(data_type: VideoDataType) -> i32 {
    match data_type {
        VideoDataType::RawYuv => 0,
        VideoDataType::H264 => 2,
        VideoDataType::H265 => 3,
        VideoDataType::Generic => 6,
        VideoDataType::GenericJpeg => 20,
    }
}

/// Encodes a [`VideoDataType`] as the integer the native ABI expects.
pub fn video_data_type_code(data_type: VideoDataType) -> (r: i32)
    ensures
        r == spec_video_data_type_code(data_type),
{
    match data_type {
        VideoDataType::RawYuv => 0,
        VideoDataType::H264 => 2,
        VideoDataType::H265 => 3,
        VideoDataType::Generic => 6,
        VideoDataType::GenericJpeg => 20,
    }
}

/// Frame kind of an outgoing video frame.
#[derive(Clone, Copy, Debug, PartialEq, Eq, Structural)]
pub enum VideoFrameType {
    /// Let the native encoder decide.
    Auto,
    /// Key frame.
    Key,
    /// Delta frame.
    Delta,
}

/// Native encoding of a [`VideoFrameType`].
pub open spec fn spec_video_frame_type_code(frame_type: VideoFrameType) -> i32 {
    match frame_type {
        VideoFrameType::Auto => 0,
        VideoFrameType::Key => 3,
        VideoFrameType::Delta => 4,
    }
}

/// Encodes a [`VideoFrameType`] as the integer the native ABI expects.
pub fn video_frame_type_code(frame_type: VideoFrameType) -> (r: i32)
    ensures
        r == spec_video_frame_type_code(frame_type),
{
    match frame_type {
        VideoFrameType::Auto => 0,
        VideoFrameType::Key => 3,
        VideoFrameType::Delta => 4,
    }
}

/// Frame rate of an outgoing video stream, from the fixed set the native
/// ABI enumerates.
#[derive(Clone, Copy, Debug, PartialEq, Eq, Structural)]
pub enum VideoFrameRate {
    Fps1,
    Fps7,
    Fps10,
    Fps15,
    Fps24,
    Fps30,
    Fps60,
}

/// Native encoding of a [`VideoFrameRate`]: the rate itself in frames per
/// second.
pub open spec fn spec_video_frame_rate_code(rate: VideoFrameRate) -> i32 {
    match rate {
        VideoFrameRate::Fps1 => 1,
        VideoFrameRate::Fps7 => 7,
        VideoFrameRate::Fps10 => 10,
        VideoFrameRate::Fps15 => 15,
        VideoFrameRate::Fps24 => 24,
        VideoFrameRate::Fps30 => 30,
        VideoFrameRate::Fps60 => 60,
    }
}

/// Encodes a [`VideoFrameRate`] as the integer the native ABI expects.
pub fn video_frame_rate_code(rate: VideoFrameRate) -> (r: i32)
    ensures
        r == spec_video_frame_rate_code(rate),
{
    match rate {
        VideoFrameRate::Fps1 => 1,
        VideoFrameRate::Fps7 => 7,
        VideoFrameRate::Fps10 => 10,
        VideoFrameRate::Fps15 => 15,
        VideoFrameRate::Fps24 => 24,
        VideoFrameRate::Fps30 => 30,
        VideoFrameRate::Fps60 => 60,
    }
}

/// Quality tier of an outgoing video stream.
#[derive(Clone, Copy, Debug, PartialEq, Eq, Structural)]
pub enum StreamQuality {
    High,
    Low,
}

/// Native encoding of a [`StreamQuality`].
pub open spec fn spec_stream_quality_code(quality: StreamQuality) -> i32 {
    match quality {
        StreamQuality::High => 0,
        StreamQuality::Low => 1,
    }
}

/// Encodes a [`StreamQuality`] as the integer the native ABI expects.
pub fn stream_quality_code(quality: StreamQuality) -> (r: i32)
    ensures
        r == spec_stream_quality_code(quality),
{
    match quality {
        StreamQuality::High => 0,
        StreamQuality::Low => 1,
    }
}

/// Per-frame metadata passed to the native video sender.
#[derive(Clone, Copy, Debug, PartialEq, Eq, Structural)]
pub struct VideoFrameInfo {
    /// Payload kind of the frame data.
    pub data_type: VideoDataType,
    /// Key, delta, or encoder's choice.
    pub frame_type: VideoFrameType,
    /// Nominal rate of the stream the frame belongs to.
    pub frame_rate: VideoFrameRate,
    /// Quality tier of the stream the frame belongs to.
    pub stream_quality: StreamQuality,
}

impl Default for VideoFrameInfo {
    /// A generic payload, encoder-chosen frame kind, 30 frames per second,
    /// high quality.
    fn default() -> (r: Self)
        ensures
            r == (VideoFrameInfo {
                data_type: VideoDataType::Generic,
                frame_type: VideoFrameType::Auto,
                frame_rate: VideoFrameRate::Fps30,
                stream_quality: StreamQuality::High,
            }),
    {
        VideoFrameInfo {
            data_type: VideoDataType::Generic,
            frame_type: VideoFrameType::Auto,
            frame_rate: VideoFrameRate::Fps30,
            stream_quality: StreamQuality::High,
        }
    }
}

} // verus!
