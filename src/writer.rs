use vstd::prelude::*;
use crate::codec::{
    AVCodecID, AVMediaType, AVPixelFormat, AVRational, AVSampleFormat, AV_PKT_FLAG_KEY,
};
use crate::owned::{AVCodecParameters, AVPacketOwned, AVStreamOwned};
use crate::rescale::{rescale_q_near_pass_minmax, rescale_q_spec};

verus! {

/// Audio description.
#[derive(Copy, Clone, Debug, PartialEq, Eq, Structural)]
pub struct AudioDesc {
    pub codec_id: AVCodecID,
    pub sample_fmt: AVSampleFormat,
    pub bit_rate: i64,
    pub sample_rate: usize,
    pub channels: usize,
}

impl AudioDesc {
    /// An audio description with no codec and every figure zero.
    pub fn new() -> (r: AudioDesc)
        ensures
            r.codec_id == AVCodecID::AV_CODEC_ID_NONE,
            r.sample_fmt == AVSampleFormat::AV_SAMPLE_FMT_NONE,
            r.bit_rate == 0 && r.sample_rate == 0 && r.channels == 0,
    {
        AudioDesc {
            codec_id: AVCodecID::AV_CODEC_ID_NONE,
            sample_fmt: AVSampleFormat::AV_SAMPLE_FMT_NONE,
            bit_rate: 0,
            sample_rate: 0,
            channels: 0,
        }
    }
}

/// Video description.
#[derive(Copy, Clone, Debug, PartialEq, Eq, Structural)]
pub struct VideoDesc {
    pub codec_id: AVCodecID,
    pub width: i32,
    pub height: i32,
    pub bit_rate: i64,
    pub time_base: AVRational,
    pub gop_size: i32,
    pub pix_fmt: AVPixelFormat,
}

impl VideoDesc {
    /// A video description with no codec and every figure zero.
    pub fn new() -> (r: VideoDesc)
        ensures
            r.codec_id == AVCodecID::AV_CODEC_ID_NONE,
            r.width == 0 && r.height == 0 && r.bit_rate == 0 && r.gop_size == 0,
            r.time_base == (AVRational { num: 0, den: 0 }),
            r.pix_fmt == AVPixelFormat::AV_PIX_FMT_NONE,
    {
        VideoDesc {
            codec_id: AVCodecID::AV_CODEC_ID_NONE,
            width: 0,
            height: 0,
            bit_rate: 0,
            time_base: AVRational { num: 0, den: 0 },
            gop_size: 0,
            pix_fmt: AVPixelFormat::AV_PIX_FMT_NONE,
        }
    }

    /// H.264 at the given size and bit rate, timestamps in `1 / time_unit`,
    /// a group of 12 pictures, YUV 4:2:0.
    pub fn with_h264(width: i32, height: i32, bit_rate: i64, time_unit: i32) -> (r: VideoDesc)
        ensures
            r.codec_id == AVCodecID::AV_CODEC_ID_H264,
            r.width == width && r.height == height && r.bit_rate == bit_rate,
            r.time_base == (AVRational { num: 1, den: time_unit }),
            r.gop_size == 12,
            r.pix_fmt == AVPixelFormat::AV_PIX_FMT_YUV420P,
    {
        VideoDesc {
            codec_id: AVCodecID::AV_CODEC_ID_H264,
            width,
            height,
            bit_rate,
            time_base: AVRational::with_normalize(time_unit),
            gop_size: 12,
            pix_fmt: AVPixelFormat::AV_PIX_FMT_YUV420P,
        }
    }

    /// HEVC at the given size and bit rate, timestamps in `1 / time_unit`,
    /// a group of 12 pictures, YUV 4:2:0.
    pub fn with_h265(width: i32, height: i32, bit_rate: i64, time_unit: i32) -> (r: VideoDesc)
        ensures
            r.codec_id == AVCodecID::AV_CODEC_ID_HEVC,
            r.width == width && r.height == height && r.bit_rate == bit_rate,
            r.time_base == (AVRational { num: 1, den: time_unit }),
            r.gop_size == 12,
            r.pix_fmt == AVPixelFormat::AV_PIX_FMT_YUV420P,
    {
        VideoDesc {
            codec_id: AVCodecID::AV_CODEC_ID_HEVC,
            width,
            height,
            bit_rate,
            time_base: AVRational::with_normalize(time_unit),
            gop_size: 12,
            pix_fmt: AVPixelFormat::AV_PIX_FMT_YUV420P,
        }
    }
}

/// Description of one elementary stream handed to a writer.
#[derive(Copy, Clone, Debug, PartialEq, Eq, Structural)]
pub enum MediaDesc {
    Audio(AudioDesc),
    Video(VideoDesc),
}

pub open spec fn desc_codec_id(d: MediaDesc) -> AVCodecID {
    match d {
        MediaDesc::Audio(a) => a.codec_id,
        MediaDesc::Video(v) => v.codec_id,
    }
}

impl MediaDesc {
    pub fn codec_id(&self) -> (r: AVCodecID)
        ensures
            r == desc_codec_id(*self),
    {
        match self {
            MediaDesc::Audio(a) => a.codec_id,
            MediaDesc::Video(v) => v.codec_id,
        }
    }

    pub fn as_audio_desc(&self) -> (r: Option<&AudioDesc>)
        ensures
            self is Audio ==> r == Some(&self->Audio_0),
            self is Video ==> r is None,
    {
        match self {
            MediaDesc::Audio(a) => Some(a),
            MediaDesc::Video(_) => None,
        }
    }

    pub fn as_video_desc(&self) -> (r: Option<&VideoDesc>)
        ensures
            self is Video ==> r == Some(&self->Video_0),
            self is Audio ==> r is None,
    {
        match self {
            MediaDesc::Video(v) => Some(v),
            MediaDesc::Audio(_) => None,
        }
    }
}

/// One output stream of a writer and the time base the caller's
/// timestamps for it are expressed in.
#[derive(Copy, Clone, Debug, PartialEq, Eq, Structural)]
pub struct Stream {
    pub stream: AVStreamOwned,
    pub in_time_base: AVRational,
}

/// The time base of an audio stream's timestamps: one sample, `1 / sample_rate`
/// (unset, `0 / 0`, for a rate beyond `i32`).
pub open spec fn sample_time_base(sample_rate: usize) -> AVRational {
    if sample_rate <= i32::MAX {
        AVRational { num: 1, den: sample_rate as i32 }
    } else {
        AVRational { num: 0, den: 0 }
    }
}

/// The output stream a descriptor opens: one for each H.264 or HEVC video
/// description and for each AAC or MP3 audio description, carrying its codec
/// parameters; a description without a codec the writer knows opens none.
pub open spec fn stream_of(d: MediaDesc) -> Option<Stream> {
    match d {
        MediaDesc::Video(v) => if v.codec_id == AVCodecID::AV_CODEC_ID_H264
            || v.codec_id == AVCodecID::AV_CODEC_ID_HEVC {
            Some(
                Stream {
                    stream: AVStreamOwned {
                        codecpar: Some(
                            AVCodecParameters {
                                codec_type: AVMediaType::AVMEDIA_TYPE_VIDEO,
                                codec_id: v.codec_id,
                                codec_tag: 0,
                                bit_rate: v.bit_rate,
                                width: v.width,
                                height: v.height,
                                sample_fmt: AVSampleFormat::AV_SAMPLE_FMT_NONE,
                                sample_rate: 0,
                                channels: 0,
                            },
                        ),
                        time_base: AVRational { num: 0, den: 0 },
                    },
                    in_time_base: v.time_base,
                },
            )
        } else {
            None
        },
        MediaDesc::Audio(a) => if a.codec_id == AVCodecID::AV_CODEC_ID_AAC || a.codec_id
            == AVCodecID::AV_CODEC_ID_MP3 {
            Some(
                Stream {
                    stream: AVStreamOwned {
                        codecpar: Some(
                            AVCodecParameters {
                                codec_type: AVMediaType::AVMEDIA_TYPE_AUDIO,
                                codec_id: a.codec_id,
                                codec_tag: 0,
                                bit_rate: a.bit_rate,
                                width: 0,
                                height: 0,
                                sample_fmt: a.sample_fmt,
                                sample_rate: a.sample_rate,
                                channels: a.channels,
                            },
                        ),
                        time_base: AVRational { num: 0, den: 0 },
                    },
                    in_time_base: sample_time_base(a.sample_rate),
                },
            )
        } else {
            None
        },
    }
}

/// The output streams of a list of descriptors, in order.
pub open spec fn streams_of(descs: Seq<MediaDesc>) -> Seq<Stream>
    decreases descs.len(),
{
    if descs.len() == 0 {
        Seq::empty()
    } else {
        let rest = streams_of(descs.drop_last());
        match stream_of(descs.last()) {
            Some(s) => rest.push(s),
            None => rest,
        }
    }
}

fn desc_stream(d: &MediaDesc) -> (r: Option<Stream>)
    ensures
        r == stream_of(*d),
{
    match d {
        MediaDesc::Video(v) => {
            if matches!(v.codec_id, AVCodecID::AV_CODEC_ID_H264 | AVCodecID::AV_CODEC_ID_HEVC) {
                let par = AVCodecParameters {
                    codec_type: AVMediaType::AVMEDIA_TYPE_VIDEO,
                    codec_id: v.codec_id,
                    codec_tag: 0,
                    bit_rate: v.bit_rate,
                    width: v.width,
                    height: v.height,
                    sample_fmt: AVSampleFormat::AV_SAMPLE_FMT_NONE,
                    sample_rate: 0,
                    channels: 0,
                };
                Some(
                    Stream {
                        stream: AVStreamOwned {
                            codecpar: Some(par),
                            time_base: AVRational { num: 0, den: 0 },
                        },
                        in_time_base: v.time_base,
                    },
                )
            } else {
                None
            }
        },
        MediaDesc::Audio(a) => {
            if matches!(a.codec_id, AVCodecID::AV_CODEC_ID_AAC | AVCodecID::AV_CODEC_ID_MP3) {
                let par = AVCodecParameters {
                    codec_type: AVMediaType::AVMEDIA_TYPE_AUDIO,
                    codec_id: a.codec_id,
                    codec_tag: 0,
                    bit_rate: a.bit_rate,
                    width: 0,
                    height: 0,
                    sample_fmt: a.sample_fmt,
                    sample_rate: a.sample_rate,
                    channels: a.channels,
                };
                let in_time_base = if a.sample_rate <= i32::MAX as usize {
                    AVRational { num: 1, den: a.sample_rate as i32 }
                } else {
                    AVRational { num: 0, den: 0 }
                };
                Some(
                    Stream {
                        stream: AVStreamOwned {
                            codecpar: Some(par),
                            time_base: AVRational { num: 0, den: 0 },
                        },
                        in_time_base,
                    },
                )
            } else {
                None
            }
        },
    }
}

/// Builds the output streams for `descs`.
pub fn build_streams(descs: &[MediaDesc]) -> (r: Vec<Stream>)
    ensures
        r@ == streams_of(descs@),
{
    let mut streams: Vec<Stream> = Vec::new();
    let mut i: usize = 0;
    while i < descs.len()
        invariant
            i <= descs@.len(),
            streams@ == streams_of(descs@.subrange(0, i as int)),
        decreases descs@.len() - i,
    {
        assert(descs@.subrange(0, i as int + 1).drop_last() =~= descs@.subrange(0, i as int));
        if let Some(s) = desc_stream(&descs[i]) {
            streams.push(s);
        }
        i = i + 1;
    }
    assert(descs@.subrange(0, descs@.len() as int) =~= descs@);
    streams
}

/// A call made on a single-file writer, as far as the header and trailer
/// are concerned.
#[derive(Copy, Clone, Debug, PartialEq, Eq, Structural)]
pub enum WriterCall {
    /// A `write_bytes` that the writer accepts, followed by `confirm_header`
    /// when its plan asked for the header.
    Write,
    /// `write_trailer`.
    WriteTrailer,
    /// `close`, also what disposal does.
    Close,
}

/// Whether `call` writes the header, given whether the header and the
/// trailer have been written.
pub open spec fn header_due(header: bool, trailer: bool, call: WriterCall) -> bool {
    match call {
        WriterCall::Write => !header && !trailer,
        WriterCall::WriteTrailer => false,
        WriterCall::Close => !header,
    }
}

/// Whether `call` writes the trailer.
pub open spec fn trailer_due(header: bool, trailer: bool, call: WriterCall) -> bool {
    match call {
        WriterCall::Write => false,
        WriterCall::WriteTrailer => header && !trailer,
        WriterCall::Close => !trailer,
    }
}

/// The header and trailer flags after `call`.
pub open spec fn flags_after(header: bool, trailer: bool, call: WriterCall) -> (bool, bool) {
    (header || header_due(header, trailer, call), trailer || trailer_due(header, trailer, call))
}

/// The header and trailer flags after `calls`, made in order on a new writer.
pub open spec fn flags_after_calls(calls: Seq<WriterCall>) -> (bool, bool)
    decreases calls.len(),
{
    if calls.len() == 0 {
        (false, false)
    } else {
        let prev = flags_after_calls(calls.drop_last());
        flags_after(prev.0, prev.1, calls.last())
    }
}

/// How many times `calls`, made in order on a new writer, write the header.
pub open spec fn header_writes(calls: Seq<WriterCall>) -> nat
    decreases calls.len(),
{
    if calls.len() == 0 {
        0
    } else {
        let prev = flags_after_calls(calls.drop_last());
        header_writes(calls.drop_last()) + if header_due(prev.0, prev.1, calls.last()) {
            1nat
        } else {
            0nat
        }
    }
}

/// How many times `calls`, made in order on a new writer, write the trailer.
pub open spec fn trailer_writes(calls: Seq<WriterCall>) -> nat
    decreases calls.len(),
{
    if calls.len() == 0 {
        0
    } else {
        let prev = flags_after_calls(calls.drop_last());
        trailer_writes(calls.drop_last()) + if trailer_due(prev.0, prev.1, calls.last()) {
            1nat
        } else {
            0nat
        }
    }
}

/// Over any sequence of calls on a writer, the header and the trailer are
/// each written at most once; a lifecycle that ends in `close` (or disposal)
/// writes each exactly once, however many writes and closes it holds.
pub proof fn lemma_header_and_trailer_once(calls: Seq<WriterCall>)
    ensures
        header_writes(calls) <= 1,
        trailer_writes(calls) <= 1,
        calls.len() > 0 && calls.last() == WriterCall::Close ==> header_writes(calls) == 1
            && trailer_writes(calls) == 1,
    decreases calls.len(),
{
    lemma_counts_match_flags(calls);
}

proof fn lemma_counts_match_flags(calls: Seq<WriterCall>)
    ensures
        header_writes(calls) == if flags_after_calls(calls).0 { 1nat } else { 0nat },
        trailer_writes(calls) == if flags_after_calls(calls).1 { 1nat } else { 0nat },
        flags_after_calls(calls).1 ==> flags_after_calls(calls).0,
    decreases calls.len(),
{
    if calls.len() > 0 {
        lemma_counts_match_flags(calls.drop_last());
    }
}

/// Why a packet was refused.
#[derive(Copy, Clone, Debug, PartialEq, Eq, Structural)]
pub enum WriterError {
    /// The trailer has been written: the file is finished.
    Closed,
    /// The payload is longer than a packet can describe (`i32::MAX` bytes).
    PacketTooLarge,
    /// The stream index does not fit a packet's `i32` field.
    StreamIndexTooLarge,
}

/// What the engine must do for one accepted `write_bytes` call: write the
/// container header first if `write_header`, then the packet that
/// `packet` builds once the stream's output time base is known.
#[derive(Copy, Clone, Debug, PartialEq, Eq, Structural)]
pub struct WritePlan {
    pub write_header: bool,
    pub stream_index: i32,
    pub pts: i64,
    pub duration: i64,
    pub size: i32,
    pub is_key_frame: bool,
    pub in_time_base: AVRational,
}

impl WritePlan {
    /// The packet to submit, its timestamps rescaled from the caller's time
    /// base to `out_time_base`: `pts` (also used as `dts`) and `duration`,
    /// rounded to nearest, with unknown values passed through.
    pub fn packet(&self, out_time_base: AVRational) -> (r: AVPacketOwned)
        ensures
            r.pts == rescale_q_spec(self.pts as int, self.in_time_base, out_time_base, true),
            r.dts == r.pts,
            r.duration == rescale_q_spec(self.duration as int, self.in_time_base, out_time_base, true),
            r.size == self.size,
            r.stream_index == self.stream_index,
            r.flags == (if self.is_key_frame { AV_PKT_FLAG_KEY } else { 0 }),
            r.pos == -1,
    {
        let pts = rescale_q_near_pass_minmax(self.pts, self.in_time_base, out_time_base);
        let duration = rescale_q_near_pass_minmax(self.duration, self.in_time_base, out_time_base);
        AVPacketOwned {
            pts,
            dts: pts,
            duration,
            size: self.size,
            stream_index: self.stream_index,
            flags: if self.is_key_frame { AV_PKT_FLAG_KEY } else { 0 },
            pos: -1,
        }
    }
}

/// What closing a writer asks of the engine.
#[derive(Copy, Clone, Debug, PartialEq, Eq, Structural)]
pub struct ClosePlan {
    pub write_header: bool,
    pub write_trailer: bool,
}

/// Single-file writer: the destination, the output streams, and whether the
/// header and the trailer have been written.
#[derive(Debug)]
pub struct SimpleWriter {
    path: String,
    format: Option<String>,
    format_options: String,
    streams: Vec<Stream>,
    header_writed: bool,
    trailer_writed: bool,
}

impl SimpleWriter {
    pub closed spec fn spec_path(&self) -> Seq<char> {
        self.path@
    }

    pub closed spec fn spec_format(&self) -> Option<Seq<char>> {
        match self.format {
            Some(f) => Some(f@),
            None => None,
        }
    }

    pub closed spec fn spec_format_options(&self) -> Seq<char> {
        self.format_options@
    }

    pub closed spec fn spec_streams(&self) -> Seq<Stream> {
        self.streams@
    }

    pub closed spec fn header_written(&self) -> bool {
        self.header_writed
    }

    pub closed spec fn trailer_written(&self) -> bool {
        self.trailer_writed
    }

    /// A trailer is only ever written after the header.
    pub open spec fn wf(&self) -> bool {
        self.trailer_written() ==> self.header_written()
    }

    /// A writer for `path` with the output stream each description opens
    /// (`stream_of`), the container
    /// `format` (guessed from `path` when `None`) and its options (none when
    /// `None`). Nothing is written yet.
    pub fn new(path: &str, descs: &[MediaDesc], format: Option<&str>, format_options: Option<&str>)
        -> (r: SimpleWriter)
        ensures
            r.wf(),
            r.spec_path() == path@,
            r.spec_format() == (match format {
                Some(f) => Some(f@),
                None => None::<Seq<char>>,
            }),
            r.spec_format_options() == (match format_options {
                Some(o) => o@,
                None => Seq::<char>::empty(),
            }),
            r.spec_streams() == streams_of(descs@),
            !r.header_written(),
            !r.trailer_written(),
    {
        let format = match format {
            Some(f) => Some(f.to_owned()),
            None => None,
        };
        let format_options = match format_options {
            Some(o) => o.to_owned(),
            None => String::new(),
        };
        SimpleWriter {
            path: path.to_owned(),
            format,
            format_options,
            streams: build_streams(descs),
            header_writed: false,
            trailer_writed: false,
        }
    }

    pub fn path(&self) -> (r: &str)
        ensures
            r@ == self.spec_path(),
    {
        self.path.as_str()
    }

    pub fn format(&self) -> (r: Option<&str>)
        ensures
            r is None <==> self.spec_format() is None,
            r is Some ==> r->Some_0@ == self.spec_format()->Some_0,
    {
        match &self.format {
            Some(f) => Some(f.as_str()),
            None => None,
        }
    }

    /// The options handed to the engine with the header.
    pub fn format_options(&self) -> (r: &str)
        ensures
            r@ == self.spec_format_options(),
    {
        self.format_options.as_str()
    }

    pub fn streams(&self) -> (r: &[Stream])
        ensures
            r@ == self.spec_streams(),
    {
        self.streams.as_slice()
    }

    pub fn is_header_written(&self) -> (r: bool)
        ensures
            r == self.header_written(),
    {
        self.header_writed
    }

    pub fn is_trailer_written(&self) -> (r: bool)
        ensures
            r == self.trailer_written(),
    {
        self.trailer_writed
    }

    /// What `write_bytes` answers for a payload of `len` bytes: refused once
    /// the trailer is written, or when the length or the stream index do not
    /// fit a packet's `i32` fields; otherwise the packet's plan, asking for the
    /// header while it has not been written.
    pub open spec fn write_outcome(
        &self,
        len: int,
        pts: i64,
        duration: i64,
        is_key_frame: bool,
        stream_index: int,
    ) -> Result<WritePlan, WriterError> {
        if self.trailer_written() {
            Err(WriterError::Closed)
        } else if len > i32::MAX {
            Err(WriterError::PacketTooLarge)
        } else if stream_index > i32::MAX {
            Err(WriterError::StreamIndexTooLarge)
        } else {
            Ok(
                WritePlan {
                    write_header: !self.header_written(),
                    stream_index: stream_index as i32,
                    pts,
                    duration,
                    size: len as i32,
                    is_key_frame,
                    in_time_base: self.spec_streams()[stream_index].in_time_base,
                },
            )
        }
    }

    /// Plans one packet for `stream_index`. The writer does not change: once
    /// the engine has written the header that the plan asks for, the caller
    /// records it with `confirm_header`, so a failed header is asked for again.
    pub fn write_bytes(
        &self,
        bytes: &[u8],
        pts: i64,
        duration: i64,
        is_key_frame: bool,
        stream_index: usize,
    ) -> (r: Result<WritePlan, WriterError>)
        requires
            stream_index < self.spec_streams().len(),
        ensures
            r == self.write_outcome(bytes@.len() as int, pts, duration, is_key_frame, stream_index as int),
            !self.trailer_written() && bytes@.len() <= i32::MAX && stream_index <= i32::MAX ==> r is Ok,
    {
        if self.trailer_writed {
            return Err(WriterError::Closed);
        }
        if bytes.len() > i32::MAX as usize {
            return Err(WriterError::PacketTooLarge);
        }
        if stream_index > i32::MAX as usize {
            return Err(WriterError::StreamIndexTooLarge);
        }
        let in_time_base = self.streams[stream_index].in_time_base;
        Ok(
            WritePlan {
                write_header: !self.header_writed,
                stream_index: stream_index as i32,
                pts,
                duration,
                size: bytes.len() as i32,
                is_key_frame,
                in_time_base,
            },
        )
    }

    /// Records that the engine wrote the header. Together with a `write_bytes`
    /// that asked for it, this is a `WriterCall::Write` on the flags.
    pub fn confirm_header(&mut self)
        requires
            old(self).wf(),
            !old(self).trailer_written(),
        ensures
            final(self).wf(),
            (final(self).header_written(), final(self).trailer_written()) == flags_after(
                old(self).header_written(),
                old(self).trailer_written(),
                WriterCall::Write,
            ),
            final(self).header_written(),
            !final(self).trailer_written(),
            final(self).spec_streams() == old(self).spec_streams(),
            final(self).spec_path() == old(self).spec_path(),
            final(self).spec_format() == old(self).spec_format(),
            final(self).spec_format_options() == old(self).spec_format_options(),
    {
        self.header_writed = true;
    }

    /// Asks for the trailer when the header has been written and the trailer
    /// has not.
    pub fn write_trailer(&mut self) -> (r: bool)
        requires
            old(self).wf(),
        ensures
            final(self).wf(),
            r == trailer_due(old(self).header_written(), old(self).trailer_written(), WriterCall::WriteTrailer),
            (final(self).header_written(), final(self).trailer_written()) == flags_after(
                old(self).header_written(),
                old(self).trailer_written(),
                WriterCall::WriteTrailer,
            ),
            final(self).spec_streams() == old(self).spec_streams(),
            final(self).spec_path() == old(self).spec_path(),
            final(self).spec_format() == old(self).spec_format(),
            final(self).spec_format_options() == old(self).spec_format_options(),
    {
        if self.header_writed && !self.trailer_writed {
            self.trailer_writed = true;
            true
        } else {
            false
        }
    }

    /// Finishes the file: asks for the header if it was never written (an
    /// empty file still gets a valid header) and for the trailer if it was
    /// not written yet.
    pub fn close(&mut self) -> (r: ClosePlan)
        requires
            old(self).wf(),
        ensures
            final(self).wf(),
            r.write_header == header_due(old(self).header_written(), old(self).trailer_written(), WriterCall::Close),
            r.write_trailer == trailer_due(old(self).header_written(), old(self).trailer_written(), WriterCall::Close),
            (final(self).header_written(), final(self).trailer_written()) == flags_after(
                old(self).header_written(),
                old(self).trailer_written(),
                WriterCall::Close,
            ),
            final(self).header_written() && final(self).trailer_written(),
            final(self).spec_streams() == old(self).spec_streams(),
            final(self).spec_path() == old(self).spec_path(),
            final(self).spec_format() == old(self).spec_format(),
            final(self).spec_format_options() == old(self).spec_format_options(),
    {
        let plan = ClosePlan { write_header: !self.header_writed, write_trailer: !self.trailer_writed };
        self.header_writed = true;
        self.trailer_writed = true;
        plan
    }
}

} // verus!
