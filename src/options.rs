use vstd::prelude::*;
use crate::split::{SplitOptions, SplitWriter, DEFAULT_MAX_OVERHEAD};
use crate::writer::{streams_of, MediaDesc, SimpleWriter};

verus! {

/// A writer of either kind.
#[derive(Debug)]
pub enum Writer {
    /// Writes one file.
    Simple(SimpleWriter),
    /// Writes a series of fragment files.
    Split(SplitWriter),
}

/// Options for opening a writer; a segmenting writer is chosen when the
/// caller names the fragments or sets `max_files`.
#[derive(Debug)]
pub struct OpenOptions {
    pub medias: Vec<MediaDesc>,
    pub format: Option<String>,
    pub format_options: Option<String>,
    pub custom_location: bool,
    pub max_files: Option<usize>,
    pub max_size_bytes: Option<u64>,
    pub max_size_time: Option<u64>,
    pub max_overhead: Option<u64>,
    pub split_at_keyframe: Option<bool>,
    pub start_index: Option<usize>,
}

pub open spec fn string_opt_view(o: Option<String>) -> Option<Seq<char>> {
    match o {
        Some(s) => Some(s@),
        None => None,
    }
}

impl OpenOptions {
    /// No stream, no format, every option at its default.
    pub fn new() -> (r: OpenOptions)
        ensures
            r.medias@.len() == 0,
            r.format is None && r.format_options is None,
            !r.custom_location,
            r.max_files is None && r.max_size_bytes is None && r.max_size_time is None,
            r.max_overhead is None && r.split_at_keyframe is None && r.start_index is None,
    {
        OpenOptions {
            medias: Vec::new(),
            format: None,
            format_options: None,
            custom_location: false,
            max_files: None,
            max_size_bytes: None,
            max_size_time: None,
            max_overhead: None,
            split_at_keyframe: None,
            start_index: None,
        }
    }

    /// Adds a stream description.
    pub fn media(self, media: MediaDesc) -> (r: OpenOptions)
        ensures
            r.medias@ == self.medias@.push(media),
            r.format == self.format && r.format_options == self.format_options,
            r.custom_location == self.custom_location && r.max_files == self.max_files,
            r.max_size_bytes == self.max_size_bytes && r.max_size_time == self.max_size_time,
            r.max_overhead == self.max_overhead && r.split_at_keyframe == self.split_at_keyframe,
            r.start_index == self.start_index,
    {
        let mut o = self;
        o.medias.push(media);
        o
    }

    /// Sets the container format (`mp4`, `mpegts`, ...).
    pub fn format(self, format: &str) -> (r: OpenOptions)
        ensures
            r.format is Some && r.format->Some_0@ == format@,
            r.medias == self.medias && r.format_options == self.format_options,
            r.custom_location == self.custom_location && r.max_files == self.max_files,
            r.max_size_bytes == self.max_size_bytes && r.max_size_time == self.max_size_time,
            r.max_overhead == self.max_overhead && r.split_at_keyframe == self.split_at_keyframe,
            r.start_index == self.start_index,
    {
        let mut o = self;
        o.format = Some(format.to_owned());
        o
    }

    /// Sets the container options (`key=value` pairs separated by `:`).
    pub fn format_options(self, format_options: &str) -> (r: OpenOptions)
        ensures
            r.format_options is Some && r.format_options->Some_0@ == format_options@,
            r.medias == self.medias && r.format == self.format,
            r.custom_location == self.custom_location && r.max_files == self.max_files,
            r.max_size_bytes == self.max_size_bytes && r.max_size_time == self.max_size_time,
            r.max_overhead == self.max_overhead && r.split_at_keyframe == self.split_at_keyframe,
            r.start_index == self.start_index,
    {
        let mut o = self;
        o.format_options = Some(format_options.to_owned());
        o
    }

    /// The caller names the fragment files itself.
    pub fn format_location(self) -> (r: OpenOptions)
        ensures
            r.custom_location,
            r.medias == self.medias && r.format == self.format,
            r.format_options == self.format_options && r.max_files == self.max_files,
            r.max_size_bytes == self.max_size_bytes && r.max_size_time == self.max_size_time,
            r.max_overhead == self.max_overhead && r.split_at_keyframe == self.split_at_keyframe,
            r.start_index == self.start_index,
    {
        let mut o = self;
        o.custom_location = true;
        o
    }

    /// Fragments kept on disk (0: all).
    pub fn max_files(self, max_files: usize) -> (r: OpenOptions)
        ensures
            r.max_files == Some(max_files),
            r.medias == self.medias && r.format == self.format,
            r.format_options == self.format_options && r.custom_location == self.custom_location,
            r.max_size_bytes == self.max_size_bytes && r.max_size_time == self.max_size_time,
            r.max_overhead == self.max_overhead && r.split_at_keyframe == self.split_at_keyframe,
            r.start_index == self.start_index,
    {
        let mut o = self;
        o.max_files = Some(max_files);
        o
    }

    /// Bytes per fragment (0: no limit).
    pub fn max_size_bytes(self, max_size_bytes: u64) -> (r: OpenOptions)
        ensures
            r.max_size_bytes == Some(max_size_bytes),
            r.medias == self.medias && r.format == self.format,
            r.format_options == self.format_options && r.custom_location == self.custom_location,
            r.max_files == self.max_files && r.max_size_time == self.max_size_time,
            r.max_overhead == self.max_overhead && r.split_at_keyframe == self.split_at_keyframe,
            r.start_index == self.start_index,
    {
        let mut o = self;
        o.max_size_bytes = Some(max_size_bytes);
        o
    }

    /// Nanoseconds per fragment (0: no limit).
    pub fn max_size_time(self, max_size_time: u64) -> (r: OpenOptions)
        ensures
            r.max_size_time == Some(max_size_time),
            r.medias == self.medias && r.format == self.format,
            r.format_options == self.format_options && r.custom_location == self.custom_location,
            r.max_files == self.max_files && r.max_size_bytes == self.max_size_bytes,
            r.max_overhead == self.max_overhead && r.split_at_keyframe == self.split_at_keyframe,
            r.start_index == self.start_index,
    {
        let mut o = self;
        o.max_size_time = Some(max_size_time);
        o
    }

    /// Overhead above a limit, in percent, at which rotation no longer waits
    /// for a keyframe (`2` is 2%).
    pub fn max_overhead(self, max_overhead: u64) -> (r: OpenOptions)
        ensures
            r.max_overhead == Some(max_overhead),
            r.medias == self.medias && r.format == self.format,
            r.format_options == self.format_options && r.custom_location == self.custom_location,
            r.max_files == self.max_files && r.max_size_bytes == self.max_size_bytes,
            r.max_size_time == self.max_size_time && r.split_at_keyframe == self.split_at_keyframe,
            r.start_index == self.start_index,
    {
        let mut o = self;
        o.max_overhead = Some(max_overhead);
        o
    }

    /// Whether rotation waits for a keyframe.
    pub fn split_at_keyframe(self, split_at_keyframe: bool) -> (r: OpenOptions)
        ensures
            r.split_at_keyframe == Some(split_at_keyframe),
            r.medias == self.medias && r.format == self.format,
            r.format_options == self.format_options && r.custom_location == self.custom_location,
            r.max_files == self.max_files && r.max_size_bytes == self.max_size_bytes,
            r.max_size_time == self.max_size_time && r.max_overhead == self.max_overhead,
            r.start_index == self.start_index,
    {
        let mut o = self;
        o.split_at_keyframe = Some(split_at_keyframe);
        o
    }

    /// Index of the first fragment.
    pub fn start_index(self, start_index: usize) -> (r: OpenOptions)
        ensures
            r.start_index == Some(start_index),
            r.medias == self.medias && r.format == self.format,
            r.format_options == self.format_options && r.custom_location == self.custom_location,
            r.max_files == self.max_files && r.max_size_bytes == self.max_size_bytes,
            r.max_size_time == self.max_size_time && r.max_overhead == self.max_overhead,
            r.split_at_keyframe == self.split_at_keyframe,
    {
        let mut o = self;
        o.start_index = Some(start_index);
        o
    }

    /// Opens a writer at `path`: a segmenting writer with `path` as its
    /// directory when the caller names the fragments or `max_files` is set,
    /// a single-file writer for the file `path` otherwise.
    pub fn open(self, path: &str) -> (r: Writer)
        ensures
            (self.custom_location || self.max_files is Some) ==> r is Split && {
                let w = r->Split_0;
                &&& w.wf()
                &&& w.spec_medias() == self.medias@
                &&& w.spec_format() == string_opt_view(self.format)
                &&& w.spec_format_options() == string_opt_view(self.format_options)
                &&& w.spec_output_path() == path@
                &&& w.spec_max_files() == self.max_files.unwrap_or(0)
                &&& w.spec_max_size_bytes() == self.max_size_bytes.unwrap_or(0)
                &&& w.spec_max_size_time() == self.max_size_time.unwrap_or(0)
                &&& w.spec_max_overhead() == self.max_overhead.unwrap_or(DEFAULT_MAX_OVERHEAD)
                &&& w.spec_split_at_keyframe() == self.split_at_keyframe.unwrap_or(true)
                &&& w.spec_start_index() == self.start_index.unwrap_or(0)
                &&& w.spec_current_index() == self.start_index.unwrap_or(0)
                &&& w.spec_writer() is None
                &&& !w.spec_armed()
            },
            !(self.custom_location || self.max_files is Some) ==> r is Simple && {
                let w = r->Simple_0;
                &&& w.wf()
                &&& w.spec_path() == path@
                &&& w.spec_format() == string_opt_view(self.format)
                &&& w.spec_format_options() == match self.format_options {
                    Some(o) => o@,
                    None => Seq::<char>::empty(),
                }
                &&& w.spec_streams() == streams_of(self.medias@)
                &&& !w.header_written()
                &&& !w.trailer_written()
            },
    {
        let split_mode = self.custom_location || self.max_files.is_some();
        let OpenOptions {
            medias,
            format,
            format_options,
            custom_location: _,
            max_files,
            max_size_bytes,
            max_size_time,
            max_overhead,
            split_at_keyframe,
            start_index,
        } = self;
        let format = match &format {
            Some(f) => Some(f.as_str()),
            None => None,
        };
        let format_options = match &format_options {
            Some(o) => Some(o.as_str()),
            None => None,
        };
        if split_mode {
            let split_options = SplitOptions {
                output_path: Some(path.to_owned()),
                max_files,
                max_size_bytes,
                max_size_time,
                max_overhead,
                split_at_keyframe,
                start_index,
            };
            Writer::Split(SplitWriter::new(medias, format, format_options, split_options))
        } else {
            Writer::Simple(SimpleWriter::new(path, medias.as_slice(), format, format_options))
        }
    }
}

} // verus!
