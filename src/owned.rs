use vstd::prelude::*;
use crate::codec::{AVCodecID, AVMediaType, AVRational, AVSampleFormat};

verus! {

/// Engine status code for "try again" (`-EAGAIN`).
pub const AVERROR_EAGAIN: i32 = -11;

/// Outcome of a bitstream filter call that produced nothing.
#[derive(Debug)]
pub enum AVBSFError {
    /// The filter needs more input before it can produce output.
    Again,
    /// The filter failed, with the engine's description.
    Reason(String),
}

/// Classifies a bitstream filter status code: non-negative is success,
/// `AVERROR_EAGAIN` asks for more input, anything else fails with `reason`.
pub fn bsf_status(err: i32, reason: String) -> (r: Result<(), AVBSFError>)
    ensures
        err >= 0 <==> r is Ok,
        r is Err && r->Err_0 is Again <==> err == AVERROR_EAGAIN,
        (r is Err && r->Err_0 is Reason) ==> r->Err_0->Reason_0@ == reason@,
{
    if err >= 0 {
        Ok(())
    } else if err == AVERROR_EAGAIN {
        Err(AVBSFError::Again)
    } else {
        Err(AVBSFError::Reason(reason))
    }
}

/// Output format flag: the format writes no file of its own.
pub const AVFMT_NOFILE: i32 = 0x0001;

/// Whether an output context must open its destination file, given the
/// output format's flags: unless the format declares `AVFMT_NOFILE`.
pub fn output_needs_file(oformat_flags: i32) -> (r: bool)
    ensures
        r == (oformat_flags & AVFMT_NOFILE != AVFMT_NOFILE),
{
    oformat_flags & AVFMT_NOFILE != AVFMT_NOFILE
}

/// Whether a format context reads (demuxes) or writes (muxes).
#[derive(Copy, Clone, Debug, PartialEq, Eq, Structural)]
pub enum AVFormatContextMode {
    Input,
    Output,
}

/// The codec parameters of one stream.
#[derive(Copy, Clone, Debug, PartialEq, Eq, Structural)]
pub struct AVCodecParameters {
    pub codec_type: AVMediaType,
    pub codec_id: AVCodecID,
    pub codec_tag: u32,
    pub bit_rate: i64,
    pub width: i32,
    pub height: i32,
    pub sample_fmt: AVSampleFormat,
    pub sample_rate: usize,
    pub channels: usize,
}

/// One stream of a format context: its codec parameters, if the engine has
/// them, and the time base its timestamps are expressed in.
#[derive(Copy, Clone, Debug, PartialEq, Eq, Structural)]
pub struct AVStreamOwned {
    pub codecpar: Option<AVCodecParameters>,
    pub time_base: AVRational,
}

impl AVStreamOwned {
    pub fn codecpar(&self) -> (r: Option<AVCodecParameters>)
        ensures
            r == self.codecpar,
    {
        self.codecpar
    }
}

/// What a format context exposes once it is opened: its mode, its streams
/// in index order, and the container-level figures.
#[derive(Debug)]
pub struct AVFormatContextOwned {
    pub mode: AVFormatContextMode,
    pub streams: Vec<AVStreamOwned>,
    pub bit_rate: i64,
    pub duration: i64,
    pub start_time: i64,
}

/// The metadata of one compressed packet; its bytes stay with the engine
/// (when reading) or with the caller (when writing).
#[derive(Copy, Clone, Debug, PartialEq, Eq, Structural)]
pub struct AVPacketOwned {
    pub pts: i64,
    pub dts: i64,
    pub duration: i64,
    pub size: i32,
    pub stream_index: i32,
    pub flags: i32,
    pub pos: i64,
}

impl AVPacketOwned {
    /// An empty packet: every field zero.
    pub fn new() -> (r: AVPacketOwned)
        ensures
            r.pts == 0 && r.dts == 0 && r.duration == 0,
            r.size == 0 && r.stream_index == 0 && r.flags == 0 && r.pos == 0,
    {
        AVPacketOwned { pts: 0, dts: 0, duration: 0, size: 0, stream_index: 0, flags: 0, pos: 0 }
    }
}

} // verus!
