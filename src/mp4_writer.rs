use vstd::prelude::*;
use crate::codec::{AVCodecID, AVMediaType, AVPixelFormat, AVRational, AVSampleFormat};
use crate::owned::{AVCodecParameters, AVPacketOwned, AVStreamOwned};
use crate::writer::ClosePlan;

verus! {

/// Audio stream options.
#[derive(Copy, Clone, Debug, PartialEq, Eq, Structural)]
pub struct AudioOptions {
    pub codec_id: AVCodecID,
    pub sample_fmt: AVSampleFormat,
    pub bit_rate: usize,
    pub sample_rate: usize,
    pub channels: usize,
}

impl AudioOptions {
    /// No codec, every figure zero.
    pub fn new() -> (r: AudioOptions)
        ensures
            r.codec_id == AVCodecID::AV_CODEC_ID_NONE,
            r.sample_fmt == AVSampleFormat::AV_SAMPLE_FMT_NONE,
            r.bit_rate == 0 && r.sample_rate == 0 && r.channels == 0,
    {
        AudioOptions {
            codec_id: AVCodecID::AV_CODEC_ID_NONE,
            sample_fmt: AVSampleFormat::AV_SAMPLE_FMT_NONE,
            bit_rate: 0,
            sample_rate: 0,
            channels: 0,
        }
    }
}

/// Video stream options.
#[derive(Copy, Clone, Debug, PartialEq, Eq, Structural)]
pub struct VideoOptions {
    pub codec_id: AVCodecID,
    pub bit_rate: i64,
    pub width: i32,
    pub height: i32,
    pub time_base: AVRational,
    pub gop_size: i32,
    pub pix_fmt: AVPixelFormat,
}

impl VideoOptions {
    /// No codec, every figure zero.
    pub fn new() -> (r: VideoOptions)
        ensures
            r.codec_id == AVCodecID::AV_CODEC_ID_NONE,
            r.bit_rate == 0 && r.width == 0 && r.height == 0 && r.gop_size == 0,
            r.time_base == (AVRational { num: 0, den: 0 }),
            r.pix_fmt == AVPixelFormat::AV_PIX_FMT_NONE,
    {
        VideoOptions {
            codec_id: AVCodecID::AV_CODEC_ID_NONE,
            bit_rate: 0,
            width: 0,
            height: 0,
            time_base: AVRational { num: 0, den: 0 },
            gop_size: 0,
            pix_fmt: AVPixelFormat::AV_PIX_FMT_NONE,
        }
    }
}

/// Options of one stream of an MP4 file.
#[derive(Copy, Clone, Debug, PartialEq, Eq, Structural)]
pub enum MediaOptions {
    Audio(AudioOptions),
    Video(VideoOptions),
}

impl MediaOptions {
    pub fn codec_id(&self) -> (r: AVCodecID)
        ensures
            r == match *self {
                MediaOptions::Audio(a) => a.codec_id,
                MediaOptions::Video(v) => v.codec_id,
            },
    {
        match self {
            MediaOptions::Audio(a) => a.codec_id,
            MediaOptions::Video(v) => v.codec_id,
        }
    }

    pub fn is_audio(&self) -> (r: bool)
        ensures
            r == self is Audio,
    {
        matches!(self, MediaOptions::Audio(_))
    }

    pub fn is_video(&self) -> (r: bool)
        ensures
            r == self is Video,
    {
        matches!(self, MediaOptions::Video(_))
    }

    pub fn as_audio_options(&self) -> (r: Option<&AudioOptions>)
        ensures
            self is Audio ==> r == Some(&self->Audio_0),
            self is Video ==> r is None,
    {
        match self {
            MediaOptions::Audio(a) => Some(a),
            MediaOptions::Video(_) => None,
        }
    }

    pub fn as_video_options(&self) -> (r: Option<&VideoOptions>)
        ensures
            self is Video ==> r == Some(&self->Video_0),
            self is Audio ==> r is None,
    {
        match self {
            MediaOptions::Video(v) => Some(v),
            MediaOptions::Audio(_) => None,
        }
    }
}

/// An audio bit rate as the engine holds it (`i64`), saturating.
pub open spec fn audio_bit_rate(bit_rate: usize) -> i64 {
    if bit_rate <= i64::MAX {
        bit_rate as i64
    } else {
        i64::MAX
    }
}

/// The stream that options open in an MP4 file: one for H.264 or HEVC video
/// and one for AAC or MP3 audio, carrying the codec parameters.
pub open spec fn mp4_stream_of(o: MediaOptions) -> Option<AVStreamOwned> {
    match o {
        MediaOptions::Video(v) => if v.codec_id == AVCodecID::AV_CODEC_ID_H264 || v.codec_id
            == AVCodecID::AV_CODEC_ID_HEVC {
            Some(
                AVStreamOwned {
                    codecpar: Some(
                        AVCodecParameters {
                            codec_type: AVMediaType::AVMEDIA_TYPE_VIDEO,
                            codec_id: v.codec_id,
                            codec_tag: 0,
                            bit_rate: v.bit_rate,
                            width: v.width,
                            height: v.height,
                            sample_fmt: AVSampleFormat::AV_SAMPLE_FMT_NONE,
                            sample_rate: 0,
                            channels: 0,
                        },
                    ),
                    time_base: AVRational { num: 0, den: 0 },
                },
            )
        } else {
            None
        },
        MediaOptions::Audio(a) => if a.codec_id == AVCodecID::AV_CODEC_ID_AAC || a.codec_id
            == AVCodecID::AV_CODEC_ID_MP3 {
            Some(
                AVStreamOwned {
                    codecpar: Some(
                        AVCodecParameters {
                            codec_type: AVMediaType::AVMEDIA_TYPE_AUDIO,
                            codec_id: a.codec_id,
                            codec_tag: 0,
                            bit_rate: audio_bit_rate(a.bit_rate),
                            width: 0,
                            height: 0,
                            sample_fmt: a.sample_fmt,
                            sample_rate: a.sample_rate,
                            channels: a.channels,
                        },
                    ),
                    time_base: AVRational { num: 0, den: 0 },
                },
            )
        } else {
            None
        },
    }
}

fn options_stream(o: &MediaOptions) -> (r: Option<AVStreamOwned>)
    ensures
        r == mp4_stream_of(*o),
{
    match o {
        MediaOptions::Video(v) => if matches!(
            v.codec_id,
            AVCodecID::AV_CODEC_ID_H264 | AVCodecID::AV_CODEC_ID_HEVC
        ) {
            let par = AVCodecParameters {
                codec_type: AVMediaType::AVMEDIA_TYPE_VIDEO,
                codec_id: v.codec_id,
                codec_tag: 0,
                bit_rate: v.bit_rate,
                width: v.width,
                height: v.height,
                sample_fmt: AVSampleFormat::AV_SAMPLE_FMT_NONE,
                sample_rate: 0,
                channels: 0,
            };
            Some(AVStreamOwned { codecpar: Some(par), time_base: AVRational { num: 0, den: 0 } })
        } else {
            None
        },
        MediaOptions::Audio(a) => if matches!(
            a.codec_id,
            AVCodecID::AV_CODEC_ID_AAC | AVCodecID::AV_CODEC_ID_MP3
        ) {
            let bit_rate = if (a.bit_rate as u64) <= (i64::MAX as u64) {
                a.bit_rate as i64
            } else {
                i64::MAX
            };
            let par = AVCodecParameters {
                codec_type: AVMediaType::AVMEDIA_TYPE_AUDIO,
                codec_id: a.codec_id,
                codec_tag: 0,
                bit_rate,
                width: 0,
                height: 0,
                sample_fmt: a.sample_fmt,
                sample_rate: a.sample_rate,
                channels: a.channels,
            };
            Some(AVStreamOwned { codecpar: Some(par), time_base: AVRational { num: 0, den: 0 } })
        } else {
            None
        },
    }
}

/// The streams of an MP4 file for a list of options, in order.
pub open spec fn mp4_streams_of(options: Seq<MediaOptions>) -> Seq<AVStreamOwned>
    decreases options.len(),
{
    if options.len() == 0 {
        Seq::empty()
    } else {
        let rest = mp4_streams_of(options.drop_last());
        match mp4_stream_of(options.last()) {
            Some(s) => rest.push(s),
            None => rest,
        }
    }
}

/// What one `write` asks of the engine: the header first if `write_header`,
/// then `packet`.
#[derive(Copy, Clone, Debug, PartialEq, Eq, Structural)]
pub struct Mp4WritePlan {
    pub write_header: bool,
    pub packet: AVPacketOwned,
}

/// Writer of one MP4 file, timestamps taken as they are given.
#[derive(Debug)]
pub struct Mp4Writer {
    path: String,
    streams: Vec<AVStreamOwned>,
    header_writed: bool,
    trailer_writed: bool,
}

impl Mp4Writer {
    pub closed spec fn spec_path(&self) -> Seq<char> {
        self.path@
    }

    pub closed spec fn spec_streams(&self) -> Seq<AVStreamOwned> {
        self.streams@
    }

    pub closed spec fn header_written(&self) -> bool {
        self.header_writed
    }

    pub closed spec fn trailer_written(&self) -> bool {
        self.trailer_writed
    }

    /// An MP4 writer for `path` with the stream each option opens
    /// (`mp4_stream_of`); nothing is written yet.
    pub fn new(path: &str, options: &[MediaOptions]) -> (r: Mp4Writer)
        ensures
            r.spec_path() == path@,
            r.spec_streams() == mp4_streams_of(options@),
            !r.header_written(),
            !r.trailer_written(),
    {
        let mut streams: Vec<AVStreamOwned> = Vec::new();
        let mut i: usize = 0;
        while i < options.len()
            invariant
                i <= options@.len(),
                streams@ == mp4_streams_of(options@.subrange(0, i as int)),
            decreases options@.len() - i,
        {
            assert(options@.subrange(0, i as int + 1).drop_last() =~= options@.subrange(0, i as int));
            if let Some(st) = options_stream(&options[i]) {
                streams.push(st);
            }
            i = i + 1;
        }
        assert(options@.subrange(0, options@.len() as int) =~= options@);
        Mp4Writer {
            path: path.to_owned(),
            streams,
            header_writed: false,
            trailer_writed: false,
        }
    }

    pub fn path(&self) -> (r: &str)
        ensures
            r@ == self.spec_path(),
    {
        self.path.as_str()
    }

    pub fn streams(&self) -> (r: &[AVStreamOwned])
        ensures
            r@ == self.spec_streams(),
    {
        self.streams.as_slice()
    }

    /// Plans one packet: the header goes first on the first call; the packet
    /// carries `pts` as both timestamps, `duration`, the payload length and
    /// the stream index, with no flags and no byte position.
    pub fn write(&mut self, bytes: &[u8], pts: i64, duration: i64, stream_index: usize) -> (r: Mp4WritePlan)
        requires
            bytes@.len() <= i32::MAX,
            stream_index <= i32::MAX,
        ensures
            r.write_header == !old(self).header_written(),
            final(self).header_written(),
            final(self).trailer_written() == old(self).trailer_written(),
            final(self).spec_streams() == old(self).spec_streams(),
            final(self).spec_path() == old(self).spec_path(),
            r.packet == (AVPacketOwned {
                pts,
                dts: pts,
                duration,
                size: bytes@.len() as i32,
                stream_index: stream_index as i32,
                flags: 0i32,
                pos: -1i64,
            }),
    {
        let write_header = !self.header_writed;
        self.header_writed = true;
        Mp4WritePlan {
            write_header,
            packet: AVPacketOwned {
                pts,
                dts: pts,
                duration,
                size: bytes.len() as i32,
                stream_index: stream_index as i32,
                flags: 0,
                pos: -1,
            },
        }
    }

    /// Finishes the file (disposal does this): the header if it was never
    /// written, then the trailer if it was not written yet.
    pub fn finish(&mut self) -> (r: ClosePlan)
        ensures
            r.write_header == !old(self).header_written(),
            r.write_trailer == !old(self).trailer_written(),
            final(self).header_written() && final(self).trailer_written(),
            final(self).spec_streams() == old(self).spec_streams(),
            final(self).spec_path() == old(self).spec_path(),
    {
        let plan = ClosePlan { write_header: !self.header_writed, write_trailer: !self.trailer_writed };
        self.header_writed = true;
        self.trailer_writed = true;
        plan
    }
}

} // verus!
