use vstd::prelude::*;
use crate::codec::{
    AVCodecID, AVMediaType, AVRational, AV_CODEC_TAG_AVC1, AV_CODEC_TAG_HEV1, AV_CODEC_TAG_HVC1,
};
use crate::owned::{AVBSFError, AVFormatContextOwned, AVPacketOwned, AVStreamOwned};
use crate::rescale::{rescale_q_near_pass_minmax, rescale_q_spec};

verus! {

/// Codec identity and kind of the frames of one stream.
#[derive(Copy, Clone, Debug, PartialEq, Eq, Structural)]
pub struct FrameInfo {
    pub codec_id: AVCodecID,
    pub codec_type: AVMediaType,
}

/// The frame description of a stream: its codec identity and kind, or no
/// codec and an unknown kind when the stream has no codec parameters.
pub open spec fn frame_info_of(s: AVStreamOwned) -> FrameInfo {
    match s.codecpar {
        Some(p) => FrameInfo { codec_id: p.codec_id, codec_type: p.codec_type },
        None => FrameInfo {
            codec_id: AVCodecID::AV_CODEC_ID_NONE,
            codec_type: AVMediaType::AVMEDIA_TYPE_UNKNOWN,
        },
    }
}

fn frame_info(s: &AVStreamOwned) -> (r: FrameInfo)
    ensures
        r == frame_info_of(*s),
{
    match s.codecpar {
        Some(p) => FrameInfo { codec_id: p.codec_id, codec_type: p.codec_type },
        None => FrameInfo {
            codec_id: AVCodecID::AV_CODEC_ID_NONE,
            codec_type: AVMediaType::AVMEDIA_TYPE_UNKNOWN,
        },
    }
}

fn frame_infos_of(streams: &[AVStreamOwned]) -> (r: Vec<FrameInfo>)
    ensures
        r@.len() == streams@.len(),
        forall|i: int| 0 <= i < streams@.len() ==> r@[i] == frame_info_of(#[trigger] streams@[i]),
{
    let mut infos: Vec<FrameInfo> = Vec::new();
    let mut i: usize = 0;
    while i < streams.len()
        invariant
            i <= streams@.len(),
            infos@.len() == i,
            forall|j: int| 0 <= j < i ==> infos@[j] == frame_info_of(#[trigger] streams@[j]),
        decreases streams@.len() - i,
    {
        infos.push(frame_info(&streams[i]));
        i = i + 1;
    }
    infos
}

/// The bitstream filter for a stream with codec tag `tag`: length-prefixed
/// H.264 and HEVC are converted to start codes; anything else passes through.
pub open spec fn filter_name_spec(tag: u32) -> Seq<char> {
    if tag == AV_CODEC_TAG_AVC1 {
        "h264_mp4toannexb"@
    } else if tag == AV_CODEC_TAG_HEV1 || tag == AV_CODEC_TAG_HVC1 {
        "hevc_mp4toannexb"@
    } else {
        "null"@
    }
}

/// The bitstream filter of a stream; `null` when it has no codec parameters.
pub open spec fn stream_filter_spec(s: AVStreamOwned) -> Seq<char> {
    match s.codecpar {
        Some(p) => filter_name_spec(p.codec_tag),
        None => "null"@,
    }
}

/// The bitstream filter for codec tag `tag`.
pub fn filter_name(tag: u32) -> (r: &'static str)
    ensures
        r@ == filter_name_spec(tag),
{
    if tag == AV_CODEC_TAG_AVC1 {
        "h264_mp4toannexb"
    } else if tag == AV_CODEC_TAG_HEV1 || tag == AV_CODEC_TAG_HVC1 {
        "hevc_mp4toannexb"
    } else {
        "null"
    }
}

/// What the reader asks of the engine next.
#[derive(Copy, Clone, Debug, PartialEq, Eq, Structural)]
pub enum ReadStep {
    /// Ask bitstream filter `i` for a filtered packet.
    Receive(usize),
    /// Read the next packet from the source.
    Fetch,
    /// Submit this packet (timestamps already converted) to filter `i`.
    Send(usize, AVPacketOwned),
    /// The next frame is this packet (from the filter last asked).
    Yield(AVPacketOwned),
    /// No more frames.
    End,
}

/// What the engine answered.
#[derive(Debug)]
pub enum ReadEvent {
    /// A new frame is wanted.
    Begin,
    /// The filter asked by `Receive` answered.
    Received(Result<AVPacketOwned, AVBSFError>),
    /// The source answered `Fetch`: a packet, or `None` at its end.
    Fetched(Option<AVPacketOwned>),
    /// The filter answered `Send`.
    Sent(Result<(), AVBSFError>),
}

/// The first step of a frame: poll the filters in stream order, or read
/// from the source when there are none.
pub open spec fn restart_step(n: nat) -> ReadStep {
    if n > 0 {
        ReadStep::Receive(0)
    } else {
        ReadStep::Fetch
    }
}

/// A packet read from stream `s`, its timestamps converted to `time_base`
/// when one was asked for: pts, dts and duration rounded to nearest, with
/// unknown values passed through.
pub open spec fn converted(p: AVPacketOwned, s: AVStreamOwned, time_base: Option<AVRational>) -> AVPacketOwned {
    match time_base {
        Some(out) => AVPacketOwned {
            pts: rescale_q_spec(p.pts as int, s.time_base, out, true) as i64,
            dts: rescale_q_spec(p.dts as int, s.time_base, out, true) as i64,
            duration: rescale_q_spec(p.duration as int, s.time_base, out, true) as i64,
            ..p
        },
        None => p,
    }
}

/// The reader's next step after `event`, when it last asked for `pending`.
/// A filter's packet is the next frame; a filter with nothing (more input
/// needed, or a failure) passes the turn to the next filter, then to the
/// source; a source packet goes, converted, to its stream's filter, and the
/// round starts again. The end of the source, a failed submission, a packet
/// of an unknown stream, or an answer to a question not asked end the frames.
pub open spec fn read_next(
    pending: ReadStep,
    event: ReadEvent,
    streams: Seq<AVStreamOwned>,
    time_base: Option<AVRational>,
) -> ReadStep {
    match event {
        ReadEvent::Begin => restart_step(streams.len()),
        ReadEvent::Received(res) => match pending {
            ReadStep::Receive(i) => match res {
                Ok(p) => ReadStep::Yield(p),
                Err(_) => if i + 1 < streams.len() {
                    ReadStep::Receive((i + 1) as usize)
                } else {
                    ReadStep::Fetch
                },
            },
            _ => ReadStep::End,
        },
        ReadEvent::Fetched(res) => match pending {
            ReadStep::Fetch => match res {
                Some(p) => if 0 <= p.stream_index < streams.len() {
                    ReadStep::Send(
                        p.stream_index as usize,
                        converted(p, streams[p.stream_index as int], time_base),
                    )
                } else {
                    ReadStep::End
                },
                None => ReadStep::End,
            },
            _ => ReadStep::End,
        },
        ReadEvent::Sent(res) => match pending {
            ReadStep::Send(_, _) => match res {
                Ok(_) => restart_step(streams.len()),
                Err(_) => ReadStep::End,
            },
            _ => ReadStep::End,
        },
    }
}

/// Reader of a demuxed source: its streams, one bitstream filter per
/// stream, the time base asked for, and the step it waits on.
#[derive(Debug)]
pub struct SimpleReader {
    ctx: AVFormatContextOwned,
    bsfs: Vec<&'static str>,
    time_base: Option<AVRational>,
    pending: ReadStep,
}

impl SimpleReader {
    pub closed spec fn spec_streams(&self) -> Seq<AVStreamOwned> {
        self.ctx.streams@
    }

    pub closed spec fn spec_bit_rate(&self) -> i64 {
        self.ctx.bit_rate
    }

    pub closed spec fn spec_duration(&self) -> i64 {
        self.ctx.duration
    }

    pub closed spec fn spec_start_time(&self) -> i64 {
        self.ctx.start_time
    }

    pub closed spec fn spec_filters(&self) -> Seq<Seq<char>> {
        self.bsfs@.map_values(|f: &'static str| f@)
    }

    pub closed spec fn spec_time_base(&self) -> Option<AVRational> {
        self.time_base
    }

    pub closed spec fn spec_pending(&self) -> ReadStep {
        self.pending
    }

    /// A reader over an opened source: one filter per stream, chosen by its
    /// codec tag, and timestamps converted to `1 / time_unit` when given.
    pub fn open(ctx: AVFormatContextOwned, time_unit: Option<i32>) -> (r: SimpleReader)
        ensures
            r.spec_streams() == ctx.streams@,
            r.spec_bit_rate() == ctx.bit_rate,
            r.spec_duration() == ctx.duration,
            r.spec_start_time() == ctx.start_time,
            r.spec_filters().len() == ctx.streams@.len(),
            forall|i: int|
                0 <= i < ctx.streams@.len() ==> #[trigger] r.spec_filters()[i] == stream_filter_spec(
                    ctx.streams@[i],
                ),
            r.spec_time_base() == match time_unit {
                Some(x) => Some(AVRational { num: 1, den: x }),
                None => None::<AVRational>,
            },
            r.spec_pending() == ReadStep::End,
    {
        let mut bsfs: Vec<&'static str> = Vec::new();
        let mut i: usize = 0;
        while i < ctx.streams.len()
            invariant
                i <= ctx.streams@.len(),
                bsfs@.len() == i,
                forall|j: int| 0 <= j < i ==> (#[trigger] bsfs@[j])@ == stream_filter_spec(ctx.streams@[j]),
            decreases ctx.streams@.len() - i,
        {
            let name = match ctx.streams[i].codecpar {
                Some(p) => filter_name(p.codec_tag),
                None => "null",
            };
            bsfs.push(name);
            i = i + 1;
        }
        let time_base = match time_unit {
            Some(x) => Some(AVRational::new(1, x)),
            None => None,
        };
        SimpleReader { ctx, bsfs, time_base, pending: ReadStep::End }
    }

    /// The name of the bitstream filter of each stream, in stream order.
    pub fn filter_names(&self) -> (r: &[&'static str])
        ensures
            r@.map_values(|f: &'static str| f@) == self.spec_filters(),
    {
        self.bsfs.as_slice()
    }

    /// The total bit rate in bit/s, 0 if not available.
    pub fn bit_rate(&self) -> (r: i64)
        ensures
            r == self.spec_bit_rate(),
    {
        self.ctx.bit_rate
    }

    /// The duration of the source.
    pub fn duration(&self) -> (r: i64)
        ensures
            r == self.spec_duration(),
    {
        self.ctx.duration
    }

    /// The position of the first frame.
    pub fn start_time(&self) -> (r: i64)
        ensures
            r == self.spec_start_time(),
    {
        self.ctx.start_time
    }

    /// The stream at `index`, if there is one.
    pub fn stream(&self, index: usize) -> (r: Option<&AVStreamOwned>)
        ensures
            index < self.spec_streams().len() ==> r == Some(&self.spec_streams()[index as int]),
            index >= self.spec_streams().len() ==> r is None,
    {
        if index < self.ctx.streams.len() {
            Some(&self.ctx.streams[index])
        } else {
            None
        }
    }

    /// All streams of the source.
    pub fn streams(&self) -> (r: &[AVStreamOwned])
        ensures
            r@ == self.spec_streams(),
    {
        self.ctx.streams.as_slice()
    }

    /// The frame description of each stream.
    pub fn frame_infos(&self) -> (r: Vec<FrameInfo>)
        ensures
            r@.len() == self.spec_streams().len(),
            forall|i: int|
                0 <= i < self.spec_streams().len() ==> r@[i] == frame_info_of(
                    #[trigger] self.spec_streams()[i],
                ),
    {
        frame_infos_of(self.ctx.streams.as_slice())
    }

    /// A pairing of frames with their stream's description.
    pub fn frames(&self) -> (r: FrameIter)
        ensures
            r.spec_frame_infos().len() == self.spec_streams().len(),
            forall|i: int|
                0 <= i < self.spec_streams().len() ==> r.spec_frame_infos()[i] == frame_info_of(
                    #[trigger] self.spec_streams()[i],
                ),
    {
        FrameIter::new(self)
    }

    /// One step of reading a frame: takes the engine's answer to the last
    /// step (`Begin` to start a frame) and returns the next step.
    pub fn read_frame(&mut self, event: ReadEvent) -> (r: ReadStep)
        ensures
            r == read_next(old(self).spec_pending(), event, old(self).spec_streams(), old(self).spec_time_base()),
            final(self).spec_pending() == r,
            final(self).spec_streams() == old(self).spec_streams(),
            final(self).spec_filters() == old(self).spec_filters(),
            final(self).spec_time_base() == old(self).spec_time_base(),
            final(self).spec_bit_rate() == old(self).spec_bit_rate(),
            final(self).spec_duration() == old(self).spec_duration(),
            final(self).spec_start_time() == old(self).spec_start_time(),
    {
        let n = self.ctx.streams.len();
        let next = match event {
            ReadEvent::Begin => self.restart(),
            ReadEvent::Received(res) => match self.pending {
                ReadStep::Receive(i) => match res {
                    Ok(p) => ReadStep::Yield(p),
                    Err(_) => if i < n && i + 1 < n {
                        ReadStep::Receive(i + 1)
                    } else {
                        ReadStep::Fetch
                    },
                },
                _ => ReadStep::End,
            },
            ReadEvent::Fetched(res) => match self.pending {
                ReadStep::Fetch => match res {
                    Some(p) => if 0 <= p.stream_index && (p.stream_index as usize) < n {
                        let idx = p.stream_index as usize;
                        ReadStep::Send(idx, self.convert(p, idx))
                    } else {
                        ReadStep::End
                    },
                    None => ReadStep::End,
                },
                _ => ReadStep::End,
            },
            ReadEvent::Sent(res) => match self.pending {
                ReadStep::Send(_, _) => match res {
                    Ok(_) => self.restart(),
                    Err(_) => ReadStep::End,
                },
                _ => ReadStep::End,
            },
        };
        self.pending = next;
        next
    }

    fn restart(&self) -> (r: ReadStep)
        ensures
            r == restart_step(self.spec_streams().len()),
    {
        if self.ctx.streams.len() > 0 {
            ReadStep::Receive(0)
        } else {
            ReadStep::Fetch
        }
    }

    fn convert(&self, p: AVPacketOwned, idx: usize) -> (r: AVPacketOwned)
        requires
            idx < self.spec_streams().len(),
        ensures
            r == converted(p, self.spec_streams()[idx as int], self.spec_time_base()),
    {
        match self.time_base {
            Some(out) => {
                let in_tb = self.ctx.streams[idx].time_base;
                AVPacketOwned {
                    pts: rescale_q_near_pass_minmax(p.pts, in_tb, out),
                    dts: rescale_q_near_pass_minmax(p.dts, in_tb, out),
                    duration: rescale_q_near_pass_minmax(p.duration, in_tb, out),
                    ..p
                }
            },
            None => p,
        }
    }
}

/// Pairs each frame read with the description of its stream.
#[derive(Debug)]
pub struct FrameIter {
    frame_infos: Vec<FrameInfo>,
}

impl FrameIter {
    pub closed spec fn spec_frame_infos(&self) -> Seq<FrameInfo> {
        self.frame_infos@
    }

    /// Takes the stream descriptions of `reader`.
    pub fn new(reader: &SimpleReader) -> (r: FrameIter)
        ensures
            r.spec_frame_infos().len() == reader.spec_streams().len(),
            forall|i: int|
                0 <= i < reader.spec_streams().len() ==> r.spec_frame_infos()[i] == frame_info_of(
                    #[trigger] reader.spec_streams()[i],
                ),
    {
        FrameIter { frame_infos: reader.frame_infos() }
    }

    /// The frame the reader yielded, with its stream's description; `None`
    /// once the reader has ended.
    pub fn next(&self, frame: Option<AVPacketOwned>) -> (r: Option<(AVPacketOwned, FrameInfo)>)
        requires
            frame is Some ==> 0 <= frame->Some_0.stream_index < self.spec_frame_infos().len(),
        ensures
            frame is None ==> r is None,
            frame is Some ==> r == Some(
                (
                    frame->Some_0,
                    self.spec_frame_infos()[frame->Some_0.stream_index as int],
                ),
            ),
    {
        match frame {
            Some(p) => Some((p, self.frame_infos[p.stream_index as usize])),
            None => None,
        }
    }
}

} // verus!
