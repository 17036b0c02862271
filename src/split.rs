use vstd::prelude::*;
use crate::codec::codec_has_gop;
use crate::naming::{default_file_name, default_location, ext_of_format, ext_of_format_spec};
use crate::writer::{
    desc_codec_id, header_due, streams_of, trailer_due, ClosePlan, MediaDesc, SimpleWriter,
    WritePlan, WriterCall, WriterError,
};

verus! {

/// Overhead allowed above a threshold before rotation is forced, in percent,
/// when none is configured.
pub const DEFAULT_MAX_OVERHEAD: u64 = 10;

/// Options for a segmenting writer; `None` takes the default.
#[derive(Debug)]
pub struct SplitOptions {
    /// Directory that holds the fragments (required).
    pub output_path: Option<String>,
    /// Fragments kept on disk; once exceeded the oldest is deleted (default 0: all).
    pub max_files: Option<usize>,
    /// Bytes per fragment before rotating (default 0: no limit).
    pub max_size_bytes: Option<u64>,
    /// Nanoseconds per fragment before rotating (default 0: no limit).
    pub max_size_time: Option<u64>,
    /// Overhead above either limit, in percent, at which rotation is forced
    /// even while waiting for a keyframe (default 10).
    pub max_overhead: Option<u64>,
    /// Wait for a keyframe before rotating (default true).
    pub split_at_keyframe: Option<bool>,
    /// Index of the first fragment (default 0).
    pub start_index: Option<usize>,
}

impl SplitOptions {
    pub fn new() -> (r: SplitOptions)
        ensures
            r.output_path is None,
            r.max_files is None,
            r.max_size_bytes is None,
            r.max_size_time is None,
            r.max_overhead is None,
            r.split_at_keyframe is None,
            r.start_index is None,
    {
        SplitOptions {
            output_path: None,
            max_files: None,
            max_size_bytes: None,
            max_size_time: None,
            max_overhead: None,
            split_at_keyframe: None,
            start_index: None,
        }
    }
}

/// Some description declares a codec organised in groups of pictures.
pub open spec fn any_gop(descs: Seq<MediaDesc>) -> bool {
    exists|i: int| 0 <= i < descs.len() && codec_has_gop(#[trigger] desc_codec_id(descs[i]))
}

/// `limit` raised by `percent` percent, rounded down.
pub open spec fn with_overhead(limit: u64, percent: u64) -> int {
    limit + limit * percent / 100
}

/// A soft limit is reached: the current file's size (when there is a
/// file) or the time since the fragment started; a limit of 0 is off.
pub open spec fn overrun(max_bytes: u64, max_time: u64, has_writer: bool, size: u64, elapsed: u64) -> bool {
    (has_writer && max_bytes > 0 && size >= max_bytes) || (max_time > 0 && elapsed >= max_time)
}

/// A hard limit (a soft one raised by the overhead) is reached.
pub open spec fn overflow(
    max_bytes: u64,
    max_time: u64,
    percent: u64,
    has_writer: bool,
    size: u64,
    elapsed: u64,
) -> bool {
    (has_writer && max_bytes > 0 && size >= with_overhead(max_bytes, percent)) || (max_time > 0
        && elapsed >= with_overhead(max_time, percent))
}

/// The rotation rule: given whether the writer is armed (waiting for a
/// keyframe), whether splits wait for keyframes (`aligned`: the option is on
/// and some stream has keyframes), whether this packet is a keyframe of a
/// keyframe-bearing stream, and the soft and hard limits, returns whether to
/// rotate now and whether the writer is armed afterwards.
pub open spec fn split_rule(armed: bool, aligned: bool, key_boundary: bool, ovr: bool, ovf: bool) -> (bool, bool) {
    if armed {
        (key_boundary || ovf, false)
    } else if ovr && aligned {
        (ovf, true)
    } else {
        (ovr || ovf, false)
    }
}

/// The fragment index that the rotation away from `current` deletes, when
/// `max_files` (0: unlimited) fragments are kept and the first had index `start`.
pub open spec fn retired_index(current: int, start: int, max_files: int) -> Option<int> {
    if max_files > 0 && current - start >= max_files - 1 && current - (max_files - 1) >= start {
        Some(current - (max_files - 1))
    } else {
        None
    }
}

/// `value >= limit + limit * percent / 100`, computed without overflow.
fn reaches_with_overhead(value: u64, limit: u64, percent: u64) -> (r: bool)
    ensures
        r == (value >= with_overhead(limit, percent)),
{
    assert(0 <= (limit as int) * (percent as int) <= 0xffff_ffff_ffff_ffff * 0xffff_ffff_ffff_ffff) by (nonlinear_arith)
        requires
            0 <= limit <= 0xffff_ffff_ffff_ffff,
            0 <= percent <= 0xffff_ffff_ffff_ffff,
    ;
    let extra: u128 = (limit as u128) * (percent as u128) / 100;
    (value as u128) >= (limit as u128) + extra
}

/// While armed, a packet that is not a keyframe of a keyframe-bearing stream
/// rotates only when a hard limit is reached, whatever the soft limits say;
/// and a reached hard limit rotates in every state.
pub proof fn lemma_armed_waits_unless_overflow(
    armed: bool,
    aligned: bool,
    key_boundary: bool,
    ovr: bool,
    ovf: bool,
)
    ensures
        armed && !key_boundary ==> (split_rule(armed, aligned, key_boundary, ovr, ovf).0 <==> ovf),
        ovf ==> split_rule(armed, aligned, key_boundary, ovr, ovf).0,
{
}

/// With the size and time limits both off, an unarmed writer does not
/// rotate and stays unarmed, whatever the packet, the size and the elapsed
/// time; a new writer is unarmed, so it never rotates.
pub proof fn lemma_no_limits_no_rotation(
    aligned: bool,
    key_boundary: bool,
    has_writer: bool,
    percent: u64,
    size: u64,
    elapsed: u64,
)
    ensures
        split_rule(
            false,
            aligned,
            key_boundary,
            overrun(0, 0, has_writer, size, elapsed),
            overflow(0, 0, percent, has_writer, size, elapsed),
        ) == (false, false),
{
}

/// The fragment indices deleted by `n` rotations of a writer whose first
/// fragment had index `start`, in the order they are deleted.
pub open spec fn retired_over(start: int, max_files: int, n: nat) -> Seq<int>
    decreases n,
{
    if n == 0 {
        Seq::empty()
    } else {
        let prev = retired_over(start, max_files, (n - 1) as nat);
        match retired_index(start + n - 1, start, max_files) {
            Some(i) => prev.push(i),
            None => prev,
        }
    }
}

/// After `n` rotations keeping `max_files` fragments, `max(0, n - max_files + 1)`
/// fragments have been deleted, oldest first: `start`, `start + 1`, and so on.
pub proof fn lemma_retention(start: int, max_files: int, n: nat)
    requires
        max_files >= 1,
    ensures
        retired_over(start, max_files, n).len() == if n + 1 >= max_files {
            n + 1 - max_files
        } else {
            0
        },
        forall|k: int|
            0 <= k < retired_over(start, max_files, n).len() ==> #[trigger] retired_over(
                start,
                max_files,
                n,
            )[k] == start + k,
    decreases n,
{
    if n > 0 {
        lemma_retention(start, max_files, (n - 1) as nat);
    }
}

/// What the caller carries out for one rotation, in this order: notify
/// "before split" with `closed_index`; finish the current file as `close`
/// says (when there was one); delete fragment `delete`; notify "after split"
/// with `next_index`.
#[derive(Copy, Clone, Debug, PartialEq, Eq, Structural)]
pub struct SplitPlan {
    pub closed_index: usize,
    pub close: Option<ClosePlan>,
    pub delete: Option<usize>,
    pub next_index: usize,
}

/// What the caller carries out before writing a packet: the rotation, if
/// any, then opening the fragment `open` (its name from `format_location`
/// or the caller's own naming) and reporting it with `writer_opened`.
#[derive(Copy, Clone, Debug, PartialEq, Eq, Structural)]
pub struct PrepareStep {
    pub split: Option<SplitPlan>,
    pub open: Option<usize>,
}

/// Segmenting writer: writes a series of fragment files, rotating to the next
/// one by size or time, preferably at a keyframe, and keeping at most
/// `max_files` of them.
///
/// A packet is written in three steps: `prepare_write` decides on rotation
/// and says whether a fragment must be opened; the caller opens it and calls
/// `writer_opened` (if opening fails, the next `prepare_write` asks again for
/// the same index); `write_current` then plans the packet in the open
/// fragment, and `confirm_header` records the header once the engine wrote
/// the one the plan asked for.
#[derive(Debug)]
pub struct SplitWriter {
    medias: Vec<MediaDesc>,
    format: Option<String>,
    format_options: Option<String>,
    writer: Option<SimpleWriter>,
    output_path: String,
    max_files: usize,
    max_size_bytes: u64,
    max_size_time: u64,
    max_overhead: u64,
    split_at_keyframe: bool,
    start_index: usize,
    current_index: usize,
    started: bool,
    need_key_frame: bool,
    split_wait_for_key_frame: bool,
}

pub open spec fn opt_view(o: Option<&str>) -> Option<Seq<char>> {
    match o {
        Some(s) => Some(s@),
        None => None,
    }
}

impl SplitWriter {
    pub closed spec fn spec_medias(&self) -> Seq<MediaDesc> {
        self.medias@
    }

    pub closed spec fn spec_format(&self) -> Option<Seq<char>> {
        match self.format {
            Some(f) => Some(f@),
            None => None,
        }
    }

    pub closed spec fn spec_format_options(&self) -> Option<Seq<char>> {
        match self.format_options {
            Some(f) => Some(f@),
            None => None,
        }
    }

    pub closed spec fn spec_writer(&self) -> Option<SimpleWriter> {
        self.writer
    }

    pub closed spec fn spec_output_path(&self) -> Seq<char> {
        self.output_path@
    }

    pub closed spec fn spec_max_files(&self) -> usize {
        self.max_files
    }

    pub closed spec fn spec_max_size_bytes(&self) -> u64 {
        self.max_size_bytes
    }

    pub closed spec fn spec_max_size_time(&self) -> u64 {
        self.max_size_time
    }

    pub closed spec fn spec_max_overhead(&self) -> u64 {
        self.max_overhead
    }

    pub closed spec fn spec_split_at_keyframe(&self) -> bool {
        self.split_at_keyframe
    }

    pub closed spec fn spec_start_index(&self) -> usize {
        self.start_index
    }

    pub closed spec fn spec_current_index(&self) -> usize {
        self.current_index
    }

    pub closed spec fn spec_started(&self) -> bool {
        self.started
    }

    pub closed spec fn spec_need_key_frame(&self) -> bool {
        self.need_key_frame
    }

    pub closed spec fn spec_armed(&self) -> bool {
        self.split_wait_for_key_frame
    }

    /// Fragment indices never go below the first one; the live fragment (if
    /// any) is a well-formed writer with the streams of the descriptions;
    /// `need_key_frame` says whether some description has keyframes.
    pub closed spec fn wf(&self) -> bool {
        &&& self.current_index >= self.start_index
        &&& self.need_key_frame == any_gop(self.medias@)
        &&& match self.writer {
            Some(w) => w.wf() && w.spec_streams() == streams_of(self.medias@),
            None => true,
        }
    }

    /// The configuration's part of the rotation rule: do splits wait for a keyframe?
    pub open spec fn aligned(&self) -> bool {
        self.spec_split_at_keyframe() && self.spec_need_key_frame()
    }

    /// Rotation state and configuration are unchanged from `old`, the live
    /// fragment aside.
    pub open spec fn same_config(&self, old: &SplitWriter) -> bool {
        &&& self.spec_medias() == old.spec_medias()
        &&& self.spec_format() == old.spec_format()
        &&& self.spec_format_options() == old.spec_format_options()
        &&& self.spec_output_path() == old.spec_output_path()
        &&& self.spec_max_files() == old.spec_max_files()
        &&& self.spec_max_size_bytes() == old.spec_max_size_bytes()
        &&& self.spec_max_size_time() == old.spec_max_size_time()
        &&& self.spec_max_overhead() == old.spec_max_overhead()
        &&& self.spec_split_at_keyframe() == old.spec_split_at_keyframe()
        &&& self.spec_start_index() == old.spec_start_index()
        &&& self.spec_need_key_frame() == old.spec_need_key_frame()
    }

    /// A segmenting writer over `descs`, with each option or its default.
    /// No fragment is open yet; the first one gets index `start_index`.
    pub fn new(
        descs: Vec<MediaDesc>,
        format: Option<&str>,
        format_options: Option<&str>,
        split_options: SplitOptions,
    ) -> (r: SplitWriter)
        requires
            split_options.output_path is Some,
        ensures
            r.wf(),
            r.spec_medias() == descs@,
            r.spec_format() == opt_view(format),
            r.spec_format_options() == opt_view(format_options),
            r.spec_output_path() == split_options.output_path->Some_0@,
            r.spec_max_files() == split_options.max_files.unwrap_or(0),
            r.spec_max_size_bytes() == split_options.max_size_bytes.unwrap_or(0),
            r.spec_max_size_time() == split_options.max_size_time.unwrap_or(0),
            r.spec_max_overhead() == split_options.max_overhead.unwrap_or(DEFAULT_MAX_OVERHEAD),
            r.spec_split_at_keyframe() == split_options.split_at_keyframe.unwrap_or(true),
            r.spec_start_index() == split_options.start_index.unwrap_or(0),
            r.spec_current_index() == split_options.start_index.unwrap_or(0),
            r.spec_writer() is None,
            !r.spec_started(),
            !r.spec_armed(),
            r.spec_need_key_frame() == any_gop(descs@),
    {
        let mut need_key_frame = false;
        let mut i: usize = 0;
        while i < descs.len()
            invariant
                i <= descs@.len(),
                need_key_frame == exists|j: int|
                    0 <= j < i && codec_has_gop(#[trigger] desc_codec_id(descs@[j])),
            decreases descs@.len() - i,
        {
            if descs[i].codec_id().has_gop() {
                need_key_frame = true;
            }
            i = i + 1;
        }
        let start_index = match split_options.start_index {
            Some(s) => s,
            None => 0,
        };
        let output_path = match split_options.output_path {
            Some(p) => p,
            None => String::new(),
        };
        SplitWriter {
            medias: descs,
            format: match format {
                Some(f) => Some(f.to_owned()),
                None => None,
            },
            format_options: match format_options {
                Some(o) => Some(o.to_owned()),
                None => None,
            },
            writer: None,
            output_path,
            max_files: match split_options.max_files {
                Some(n) => n,
                None => 0,
            },
            max_size_bytes: match split_options.max_size_bytes {
                Some(n) => n,
                None => 0,
            },
            max_size_time: match split_options.max_size_time {
                Some(n) => n,
                None => 0,
            },
            max_overhead: match split_options.max_overhead {
                Some(n) => n,
                None => DEFAULT_MAX_OVERHEAD,
            },
            split_at_keyframe: match split_options.split_at_keyframe {
                Some(b) => b,
                None => true,
            },
            start_index,
            current_index: start_index,
            started: false,
            need_key_frame,
            split_wait_for_key_frame: false,
        }
    }

    pub fn current_index(&self) -> (r: usize)
        ensures
            r == self.spec_current_index(),
    {
        self.current_index
    }

    pub fn start_index(&self) -> (r: usize)
        ensures
            r == self.spec_start_index(),
    {
        self.start_index
    }

    pub fn output_path(&self) -> (r: &str)
        ensures
            r@ == self.spec_output_path(),
    {
        self.output_path.as_str()
    }

    /// The stream descriptions, in stream order.
    pub fn medias(&self) -> (r: &[MediaDesc])
        ensures
            r@ == self.spec_medias(),
    {
        self.medias.as_slice()
    }

    /// The container format name, if one was given.
    pub fn format(&self) -> (r: Option<&str>)
        ensures
            opt_view(r) == self.spec_format(),
    {
        match &self.format {
            Some(f) => Some(f.as_str()),
            None => None,
        }
    }

    /// Waiting for a keyframe before rotating.
    pub fn is_armed(&self) -> (r: bool)
        ensures
            r == self.spec_armed(),
    {
        self.split_wait_for_key_frame
    }

    /// A fragment has been opened at least once.
    pub fn is_started(&self) -> (r: bool)
        ensures
            r == self.spec_started(),
    {
        self.started
    }

    /// The live fragment, if any.
    pub fn writer(&self) -> (r: Option<&SimpleWriter>)
        ensures
            r is None <==> self.spec_writer() is None,
            r is Some ==> *r->Some_0 == self.spec_writer()->Some_0,
    {
        match &self.writer {
            Some(w) => Some(w),
            None => None,
        }
    }

    fn is_bytes_overrun(&self, size: u64) -> (r: bool)
        ensures
            r == (self.writer is Some && self.max_size_bytes > 0 && size >= self.max_size_bytes),
    {
        self.writer.is_some() && self.max_size_bytes > 0 && size >= self.max_size_bytes
    }

    fn is_bytes_overflow(&self, size: u64) -> (r: bool)
        ensures
            r == (self.writer is Some && self.max_size_bytes > 0 && size >= with_overhead(
                self.max_size_bytes,
                self.max_overhead,
            )),
    {
        self.writer.is_some() && self.max_size_bytes > 0 && reaches_with_overhead(
            size,
            self.max_size_bytes,
            self.max_overhead,
        )
    }

    fn is_time_overrun(&self, elapsed_ns: u64) -> (r: bool)
        ensures
            r == (self.max_size_time > 0 && elapsed_ns >= self.max_size_time),
    {
        self.max_size_time > 0 && elapsed_ns >= self.max_size_time
    }

    fn is_time_overflow(&self, elapsed_ns: u64) -> (r: bool)
        ensures
            r == (self.max_size_time > 0 && elapsed_ns >= with_overhead(
                self.max_size_time,
                self.max_overhead,
            )),
    {
        self.max_size_time > 0 && reaches_with_overhead(
            elapsed_ns,
            self.max_size_time,
            self.max_overhead,
        )
    }

    /// The stream `stream_index` is described with a codec that has keyframes.
    pub fn stream_has_key_frame(&self, stream_index: usize) -> (r: bool)
        requires
            stream_index < self.spec_medias().len(),
        ensures
            r == codec_has_gop(desc_codec_id(self.spec_medias()[stream_index as int])),
    {
        self.medias[stream_index].codec_id().has_gop()
    }

    /// Decides whether to rotate before writing a packet, given the size of the
    /// current file and the nanoseconds since the fragment started. Armed,
    /// it rotates at a keyframe of a keyframe-bearing stream and disarms
    /// either way; otherwise a reached limit rotates at once, or arms when
    /// splits wait for keyframes. A limit raised by the overhead always rotates.
    pub fn can_split_now(&mut self, is_key_frame: bool, stream_index: usize, size: u64, elapsed_ns: u64) -> (r: bool)
        requires
            old(self).wf(),
            stream_index < old(self).spec_medias().len(),
        ensures
            final(self).wf(),
            final(self).same_config(old(self)),
            final(self).spec_writer() == old(self).spec_writer(),
            final(self).spec_current_index() == old(self).spec_current_index(),
            final(self).spec_started() == old(self).spec_started(),
            (r, final(self).spec_armed()) == split_rule(
                old(self).spec_armed(),
                old(self).aligned(),
                codec_has_gop(desc_codec_id(old(self).spec_medias()[stream_index as int])) && is_key_frame,
                overrun(
                    old(self).spec_max_size_bytes(),
                    old(self).spec_max_size_time(),
                    old(self).spec_writer() is Some,
                    size,
                    elapsed_ns,
                ),
                overflow(
                    old(self).spec_max_size_bytes(),
                    old(self).spec_max_size_time(),
                    old(self).spec_max_overhead(),
                    old(self).spec_writer() is Some,
                    size,
                    elapsed_ns,
                ),
            ),
    {
        let mut split_now = false;
        if self.split_wait_for_key_frame {
            split_now = self.stream_has_key_frame(stream_index) && is_key_frame;
            self.split_wait_for_key_frame = false;
        } else {
            let overrun = self.is_bytes_overrun(size) || self.is_time_overrun(elapsed_ns);
            if overrun && self.split_at_keyframe && self.need_key_frame {
                self.split_wait_for_key_frame = true;
            } else {
                split_now = overrun;
            }
        }
        let overflow = self.is_bytes_overflow(size) || self.is_time_overflow(elapsed_ns);
        split_now || overflow
    }

    /// The fragment that a rotation away from the current one deletes, if
    /// keeping it would exceed `max_files`.
    pub fn clean_files(&self) -> (r: Option<usize>)
        requires
            self.wf(),
        ensures
            r is Some <==> retired_index(
                self.spec_current_index() as int,
                self.spec_start_index() as int,
                self.spec_max_files() as int,
            ) is Some,
            r is Some ==> r->Some_0 as int == retired_index(
                self.spec_current_index() as int,
                self.spec_start_index() as int,
                self.spec_max_files() as int,
            )->Some_0,
    {
        if self.max_files > 0 && (self.current_index - self.start_index) >= self.max_files - 1 {
            let index = self.current_index - (self.max_files - 1);
            if index >= self.start_index {
                return Some(index);
            }
        }
        None
    }

    /// The file extension for a container format name.
    pub fn ext_of_format(format: Option<&str>) -> (r: &'static str)
        ensures
            r@ == ext_of_format_spec(opt_view(format)),
    {
        ext_of_format(format)
    }

    /// The default name of fragment `index`, relative to the output directory.
    pub fn format_location(&self, index: usize) -> (r: String)
        ensures
            r@ == default_location(index as nat, self.spec_format()),
    {
        match &self.format {
            Some(f) => default_file_name(index, Some(f.as_str())),
            None => default_file_name(index, None),
        }
    }

    /// `p` is the rotation away from this state: it closes the current index,
    /// finishes the live fragment (if any) as closing it requires, retires the
    /// fragment that `retired_index` names, and moves on to the next index.
    pub open spec fn is_split_plan(&self, p: SplitPlan) -> bool {
        let retired = retired_index(
            self.spec_current_index() as int,
            self.spec_start_index() as int,
            self.spec_max_files() as int,
        );
        &&& p.closed_index == self.spec_current_index()
        &&& p.next_index == self.spec_current_index() + 1
        &&& (p.delete is Some <==> retired is Some)
        &&& (p.delete is Some ==> p.delete->Some_0 as int == retired->Some_0)
        &&& (p.close is Some <==> self.spec_writer() is Some)
        &&& (p.close is Some ==> {
            let w = self.spec_writer()->Some_0;
            &&& p.close->Some_0.write_header == header_due(
                w.header_written(),
                w.trailer_written(),
                WriterCall::Close,
            )
            &&& p.close->Some_0.write_trailer == trailer_due(
                w.header_written(),
                w.trailer_written(),
                WriterCall::Close,
            )
        })
    }

    /// Rotates: the live fragment (if any) is finished and dropped, the oldest
    /// fragment beyond `max_files` is retired, and the index moves on by one.
    /// Whether the writer waits for a keyframe is left as it was.
    pub fn split_now(&mut self) -> (r: SplitPlan)
        requires
            old(self).wf(),
            old(self).spec_current_index() < usize::MAX,
        ensures
            final(self).wf(),
            final(self).same_config(old(self)),
            final(self).spec_writer() is None,
            final(self).spec_current_index() == old(self).spec_current_index() + 1,
            final(self).spec_started() == old(self).spec_started(),
            final(self).spec_armed() == old(self).spec_armed(),
            old(self).is_split_plan(r),
    {
        let closed_index = self.current_index;
        let close = match self.writer.take() {
            Some(mut w) => Some(w.close()),
            None => None,
        };
        let delete = self.clean_files();
        self.current_index = self.current_index + 1;
        SplitPlan { closed_index, close, delete, next_index: self.current_index }
    }

    /// First step of writing a packet. With a live fragment, rotates if
    /// `can_split_now` says so; then, when no fragment is live, asks for one
    /// to be opened at the current index. Without a live fragment (the first
    /// write, or after a failed open) nothing rotates: the fragment is asked
    /// for again at the same index.
    pub fn prepare_write(&mut self, is_key_frame: bool, stream_index: usize, size: u64, elapsed_ns: u64) -> (r: PrepareStep)
        requires
            old(self).wf(),
            stream_index < old(self).spec_medias().len(),
            old(self).spec_current_index() < usize::MAX,
        ensures
            final(self).wf(),
            final(self).same_config(old(self)),
            final(self).spec_started() == old(self).spec_started(),
            old(self).spec_writer() is None ==> {
                &&& r.split is None
                &&& r.open == Some(old(self).spec_current_index())
                &&& final(self).spec_current_index() == old(self).spec_current_index()
                &&& final(self).spec_armed() == old(self).spec_armed()
                &&& final(self).spec_writer() is None
            },
            old(self).spec_writer() is Some ==> {
                let (split, armed) = split_rule(
                    old(self).spec_armed(),
                    old(self).aligned(),
                    codec_has_gop(desc_codec_id(old(self).spec_medias()[stream_index as int])) && is_key_frame,
                    overrun(
                        old(self).spec_max_size_bytes(),
                        old(self).spec_max_size_time(),
                        true,
                        size,
                        elapsed_ns,
                    ),
                    overflow(
                        old(self).spec_max_size_bytes(),
                        old(self).spec_max_size_time(),
                        old(self).spec_max_overhead(),
                        true,
                        size,
                        elapsed_ns,
                    ),
                );
                &&& final(self).spec_armed() == armed
                &&& (r.split is Some <==> split)
                &&& split ==> old(self).is_split_plan(r.split->Some_0)
                    && final(self).spec_current_index() == old(self).spec_current_index() + 1
                    && final(self).spec_writer() is None
                &&& !split ==> final(self).spec_current_index() == old(self).spec_current_index()
                    && final(self).spec_writer() == old(self).spec_writer()
            },
            r.open is Some <==> final(self).spec_writer() is None,
            r.open is Some ==> r.open->Some_0 == final(self).spec_current_index(),
    {
        let mut split = None;
        if self.writer.is_some() && self.can_split_now(is_key_frame, stream_index, size, elapsed_ns) {
            split = Some(self.split_now());
        }
        let open = if self.writer.is_none() {
            Some(self.current_index)
        } else {
            None
        };
        PrepareStep { split, open }
    }

    /// Records that the fragment at the current index was opened at `path`:
    /// it becomes the live fragment, with the descriptions' streams, the
    /// container format and its options.
    pub fn writer_opened(&mut self, path: &str)
        requires
            old(self).wf(),
            old(self).spec_writer() is None,
        ensures
            final(self).wf(),
            final(self).same_config(old(self)),
            final(self).spec_current_index() == old(self).spec_current_index(),
            final(self).spec_armed() == old(self).spec_armed(),
            final(self).spec_started(),
            final(self).spec_writer() is Some,
            final(self).spec_writer()->Some_0.spec_path() == path@,
            final(self).spec_writer()->Some_0.spec_streams() == streams_of(old(self).spec_medias()),
            final(self).spec_writer()->Some_0.spec_format() == old(self).spec_format(),
            final(self).spec_writer()->Some_0.spec_format_options() == match old(self).spec_format_options() {
                Some(o) => o,
                None => Seq::<char>::empty(),
            },
            !final(self).spec_writer()->Some_0.header_written(),
            !final(self).spec_writer()->Some_0.trailer_written(),
    {
        let w = SimpleWriter::new(
            path,
            self.medias.as_slice(),
            match &self.format {
                Some(f) => Some(f.as_str()),
                None => None,
            },
            match &self.format_options {
                Some(o) => Some(o.as_str()),
                None => None,
            },
        );
        self.writer = Some(w);
        self.started = true;
    }

    /// Last step of writing a packet: the live fragment's answer to
    /// `write_bytes`, passed on unchanged.
    pub fn write_current(
        &self,
        bytes: &[u8],
        pts: i64,
        duration: i64,
        is_key_frame: bool,
        stream_index: usize,
    ) -> (r: Result<WritePlan, WriterError>)
        requires
            self.wf(),
            self.spec_writer() is Some,
            stream_index < streams_of(self.spec_medias()).len(),
        ensures
            r == self.spec_writer()->Some_0.write_outcome(
                bytes@.len() as int,
                pts,
                duration,
                is_key_frame,
                stream_index as int,
            ),
            !self.spec_writer()->Some_0.trailer_written() && bytes@.len() <= i32::MAX && stream_index
                <= i32::MAX ==> r is Ok,
    {
        match &self.writer {
            Some(w) => w.write_bytes(bytes, pts, duration, is_key_frame, stream_index),
            None => Err(WriterError::Closed),
        }
    }

    /// Records that the engine wrote the live fragment's header.
    pub fn confirm_header(&mut self)
        requires
            old(self).wf(),
            old(self).spec_writer() is Some,
            !old(self).spec_writer()->Some_0.trailer_written(),
        ensures
            final(self).wf(),
            final(self).same_config(old(self)),
            final(self).spec_current_index() == old(self).spec_current_index(),
            final(self).spec_armed() == old(self).spec_armed(),
            final(self).spec_started() == old(self).spec_started(),
            final(self).spec_writer() is Some,
            ({
                let w = old(self).spec_writer()->Some_0;
                let w2 = final(self).spec_writer()->Some_0;
                &&& w2.header_written()
                &&& !w2.trailer_written()
                &&& w2.spec_streams() == w.spec_streams()
                &&& w2.spec_path() == w.spec_path()
                &&& w2.spec_format() == w.spec_format()
                &&& w2.spec_format_options() == w.spec_format_options()
            }),
    {
        match self.writer.take() {
            Some(mut w) => {
                w.confirm_header();
                self.writer = Some(w);
            },
            None => {},
        }
    }

    /// Asks the live fragment for its trailer: `None` when no fragment is
    /// live, otherwise whether the trailer is due now.
    pub fn write_trailer(&mut self) -> (r: Option<bool>)
        requires
            old(self).wf(),
        ensures
            final(self).wf(),
            final(self).same_config(old(self)),
            final(self).spec_current_index() == old(self).spec_current_index(),
            final(self).spec_armed() == old(self).spec_armed(),
            r is None <==> old(self).spec_writer() is None,
            final(self).spec_writer() is Some <==> old(self).spec_writer() is Some,
            r is Some ==> {
                let w = old(self).spec_writer()->Some_0;
                let w2 = final(self).spec_writer()->Some_0;
                &&& r->Some_0 == trailer_due(w.header_written(), w.trailer_written(), WriterCall::WriteTrailer)
                &&& w2.header_written() == w.header_written()
                &&& w2.trailer_written() == (w.trailer_written() || r->Some_0)
            },
    {
        match self.writer.take() {
            Some(mut w) => {
                let due = w.write_trailer();
                self.writer = Some(w);
                Some(due)
            },
            None => None,
        }
    }

    /// Finishes the live fragment, if any (disposal does this).
    pub fn close(&mut self) -> (r: Option<ClosePlan>)
        requires
            old(self).wf(),
        ensures
            final(self).wf(),
            final(self).same_config(old(self)),
            final(self).spec_current_index() == old(self).spec_current_index(),
            r is Some <==> old(self).spec_writer() is Some,
            final(self).spec_writer() is Some <==> old(self).spec_writer() is Some,
            r is Some ==> {
                let w = old(self).spec_writer()->Some_0;
                &&& r->Some_0.write_header == !w.header_written()
                &&& r->Some_0.write_trailer == !w.trailer_written()
                &&& final(self).spec_writer()->Some_0.header_written()
                &&& final(self).spec_writer()->Some_0.trailer_written()
            },
    {
        match self.writer.take() {
            Some(mut w) => {
                let plan = w.close();
                self.writer = Some(w);
                Some(plan)
            },
            None => None,
        }
    }
}

} // verus!
