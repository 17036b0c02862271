use vstd::prelude::*;

verus! {

/// A rational number, used as the unit in which timestamps are expressed.
#[derive(Copy, Clone, Debug, PartialEq, Eq, Structural)]
pub struct AVRational {
    pub num: i32,
    pub den: i32,
}

impl AVRational {
    pub fn new(num: i32, den: i32) -> (r: AVRational)
        ensures
            r.num == num,
            r.den == den,
    {
        AVRational { num, den }
    }

    /// The unit `1 / time_unit`: `with_normalize(1_000_000)` is one microsecond.
    pub fn with_normalize(time_unit: i32) -> (r: AVRational)
        ensures
            r.num == 1,
            r.den == time_unit,
    {
        AVRational { num: 1, den: time_unit }
    }
}

/// Codec identity, passed through to the engine.
#[allow(non_camel_case_types)]
#[derive(Copy, Clone, Debug, PartialEq, Eq, Structural)]
pub enum AVCodecID {
    AV_CODEC_ID_NONE,
    AV_CODEC_ID_H264,
    AV_CODEC_ID_HEVC,
    AV_CODEC_ID_AAC,
    AV_CODEC_ID_MP3,
}

pub open spec fn codec_has_gop(c: AVCodecID) -> bool {
    c == AVCodecID::AV_CODEC_ID_H264 || c == AVCodecID::AV_CODEC_ID_HEVC
}

impl AVCodecID {
    /// True for the codecs whose streams are organised in groups of pictures,
    /// i.e. where only some frames (the keyframes) can start a decodable file.
    pub fn has_gop(&self) -> (r: bool)
        ensures
            r == codec_has_gop(*self),
    {
        matches!(self, AVCodecID::AV_CODEC_ID_H264 | AVCodecID::AV_CODEC_ID_HEVC)
    }
}

/// Kind of an elementary stream.
#[allow(non_camel_case_types)]
#[derive(Copy, Clone, Debug, PartialEq, Eq, Structural)]
pub enum AVMediaType {
    AVMEDIA_TYPE_UNKNOWN,
    AVMEDIA_TYPE_VIDEO,
    AVMEDIA_TYPE_AUDIO,
    AVMEDIA_TYPE_DATA,
    AVMEDIA_TYPE_SUBTITLE,
    AVMEDIA_TYPE_ATTACHMENT,
}

/// Pixel layout of a video stream.
#[allow(non_camel_case_types)]
#[derive(Copy, Clone, Debug, PartialEq, Eq, Structural)]
pub enum AVPixelFormat {
    AV_PIX_FMT_NONE,
    AV_PIX_FMT_YUV420P,
}

/// Sample layout of an audio stream.
#[allow(non_camel_case_types)]
#[derive(Copy, Clone, Debug, PartialEq, Eq, Structural)]
pub enum AVSampleFormat {
    AV_SAMPLE_FMT_NONE,
    AV_SAMPLE_FMT_S16,
    AV_SAMPLE_FMT_FLTP,
}

/// Codec tag `avc1`: H.264 stored with length-prefixed NAL units.
pub const AV_CODEC_TAG_AVC1: u32 = 0x3163_7661;

/// Codec tag `hev1`: HEVC stored with length-prefixed NAL units.
pub const AV_CODEC_TAG_HEV1: u32 = 0x3176_6568;

/// Codec tag `hvc1`: HEVC stored with length-prefixed NAL units.
pub const AV_CODEC_TAG_HVC1: u32 = 0x3163_7668;

/// Timestamp value that stands for "unknown".
pub const AV_NOPTS_VALUE: i64 = i64::MIN;

/// Packet flag bit marking a keyframe.
pub const AV_PKT_FLAG_KEY: i32 = 1;

} // verus!
