use ffav::codec::{AVCodecID, AVMediaType, AVPixelFormat, AVRational, AVSampleFormat, AV_NOPTS_VALUE, AV_PKT_FLAG_KEY};
use ffav::options::{OpenOptions, Writer};
use ffav::writer::{AudioDesc, MediaDesc, SimpleWriter, VideoDesc, WriterError};

fn descs() -> Vec<MediaDesc> {
    vec![
        MediaDesc::Audio(AudioDesc::new()),
        MediaDesc::Video(VideoDesc::with_h264(352, 288, 4000, 1000000)),
    ]
}

#[test]
fn video_desc_constructors() {
    let h264 = VideoDesc::with_h264(1280, 720, 4000, 1000000);
    assert_eq!(h264.codec_id, AVCodecID::AV_CODEC_ID_H264);
    assert_eq!((h264.width, h264.height, h264.bit_rate), (1280, 720, 4000));
    assert_eq!(h264.time_base, AVRational { num: 1, den: 1000000 });
    assert_eq!(h264.gop_size, 12);
    assert_eq!(h264.pix_fmt, AVPixelFormat::AV_PIX_FMT_YUV420P);
    let hevc = VideoDesc::with_h265(640, 480, 1000, 90000);
    assert_eq!(hevc.codec_id, AVCodecID::AV_CODEC_ID_HEVC);
    assert_eq!(hevc.time_base, AVRational::with_normalize(90000));
    let blank = VideoDesc::new();
    assert_eq!(blank.codec_id, AVCodecID::AV_CODEC_ID_NONE);
    assert_eq!(AudioDesc::new().channels, 0);
    assert!(MediaDesc::Video(h264).as_video_desc().is_some());
    assert!(MediaDesc::Video(h264).as_audio_desc().is_none());
    assert_eq!(MediaDesc::Video(hevc).codec_id(), AVCodecID::AV_CODEC_ID_HEVC);
}

#[test]
fn simple_writer_opens_streams_for_video_only() {
    let w = SimpleWriter::new("/tmp/out.mp4", &descs(), None, Some("movflags=frag_keyframe"));
    assert_eq!(w.path(), "/tmp/out.mp4");
    assert_eq!(w.format(), None);
    assert_eq!(w.format_options(), "movflags=frag_keyframe");
    assert_eq!(w.streams().len(), 1);
    let s = w.streams()[0];
    assert_eq!(s.in_time_base, AVRational::new(1, 1000000));
    let par = s.stream.codecpar.unwrap();
    assert_eq!(par.codec_type, AVMediaType::AVMEDIA_TYPE_VIDEO);
    assert_eq!(par.codec_id, AVCodecID::AV_CODEC_ID_H264);
    assert_eq!((par.width, par.height), (352, 288));
    assert!(!w.is_header_written() && !w.is_trailer_written());
}

#[test]
fn simple_writer_header_and_trailer_once() {
    let mut w = SimpleWriter::new("/tmp/out.ts", &descs(), Some("mpegts"), None);
    assert_eq!(w.format(), Some("mpegts"));
    assert_eq!(w.format_options(), "");
    let mut headers = 0;
    let mut trailers = 0;
    for i in 0..5i64 {
        let plan = w.write_bytes(b"frame", i * 40000, 40000, i == 0, 0).unwrap();
        if plan.write_header {
            headers += 1;
            w.confirm_header();
        }
    }
    for _ in 0..3 {
        if w.write_trailer() {
            trailers += 1;
        }
        let c = w.close();
        if c.write_header {
            headers += 1;
        }
        if c.write_trailer {
            trailers += 1;
        }
    }
    assert_eq!(headers, 1);
    assert_eq!(trailers, 1);
}

#[test]
fn simple_writer_closed_empty_gets_header_and_trailer() {
    let mut w = SimpleWriter::new("/tmp/empty.mp4", &descs(), None, None);
    assert!(!w.write_trailer());
    let c = w.close();
    assert!(c.write_header && c.write_trailer);
    assert!(w.is_header_written() && w.is_trailer_written());
    let c2 = w.close();
    assert!(!c2.write_header && !c2.write_trailer);
}

#[test]
fn simple_writer_refuses_after_close() {
    let mut w = SimpleWriter::new("/tmp/out.mp4", &descs(), None, None);
    w.write_bytes(b"a", 0, 1, true, 0).unwrap();
    w.confirm_header();
    w.close();
    assert_eq!(w.write_bytes(b"b", 1, 1, false, 0), Err(WriterError::Closed));
}

#[test]
fn write_plan_rescales_to_output_time_base() {
    let mut w = SimpleWriter::new("/tmp/out.ts", &descs(), Some("mpegts"), None);
    let plan = w.write_bytes(b"Hello", 40000, 40000, true, 0).unwrap();
    assert!(plan.write_header);
    w.confirm_header();
    assert_eq!(plan.size, 5);
    let pkt = plan.packet(AVRational::new(1, 90000));
    assert_eq!(pkt.pts, 3600);
    assert_eq!(pkt.dts, 3600);
    assert_eq!(pkt.duration, 3600);
    assert_eq!(pkt.flags, AV_PKT_FLAG_KEY);
    assert_eq!(pkt.pos, -1);
    assert_eq!(pkt.stream_index, 0);
    let plan2 = w.write_bytes(b"x", AV_NOPTS_VALUE, 20, false, 0).unwrap();
    assert!(!plan2.write_header);
    let pkt2 = plan2.packet(AVRational::new(1, 90000));
    assert_eq!(pkt2.pts, AV_NOPTS_VALUE);
    assert_eq!(pkt2.duration, 2);
    let plan3 = w.write_bytes(b"y", i64::MAX, AV_NOPTS_VALUE, false, 0).unwrap();
    let pkt3 = plan3.packet(AVRational::new(1, 1000000));
    assert_eq!((pkt3.pts, pkt3.dts), (i64::MAX, i64::MAX));
    assert_eq!(pkt3.duration, AV_NOPTS_VALUE);
    assert_eq!(pkt2.flags, 0);
}

#[test]
fn open_options_choose_the_writer_kind() {
    let simple = OpenOptions::new()
        .media(MediaDesc::Video(VideoDesc::with_h264(352, 288, 4000, 1000000)))
        .format("mp4")
        .open("/tmp/single.mp4");
    match simple {
        Writer::Simple(w) => {
            assert_eq!(w.path(), "/tmp/single.mp4");
            assert_eq!(w.streams().len(), 1);
        },
        Writer::Split(_) => panic!("expected a single-file writer"),
    }
    let split = OpenOptions::new()
        .media(MediaDesc::Video(VideoDesc::with_h264(352, 288, 4000, 1000000)))
        .format("mpegts")
        .format_options("mpegts_copyts=1")
        .max_files(10)
        .max_size_bytes(1024 * 1024)
        .max_size_time(10_000_000_000)
        .max_overhead(5)
        .split_at_keyframe(false)
        .start_index(100)
        .open("/tmp/");
    match split {
        Writer::Split(w) => {
            assert_eq!(w.output_path(), "/tmp/");
            assert_eq!(w.current_index(), 100);
            assert_eq!(w.start_index(), 100);
            assert_eq!(w.format_location(100), "MED000100.ts");
        },
        Writer::Simple(_) => panic!("expected a segmenting writer"),
    }
    let named = OpenOptions::new().format_location().open("/tmp/");
    assert!(matches!(named, Writer::Split(_)));
}

#[test]
fn unconfirmed_header_is_asked_again() {
    let mut w = SimpleWriter::new("/tmp/out.mp4", &descs(), None, None);
    let first = w.write_bytes(b"a", 0, 1, true, 0).unwrap();
    assert!(first.write_header);
    // The engine failed to write the header: nothing is confirmed.
    let again = w.write_bytes(b"a", 0, 1, true, 0).unwrap();
    assert!(again.write_header);
    w.confirm_header();
    let later = w.write_bytes(b"b", 1, 1, false, 0).unwrap();
    assert!(!later.write_header);
}

#[test]
fn audio_descriptions_with_a_codec_open_streams() {
    let mut aac = AudioDesc::new();
    aac.codec_id = AVCodecID::AV_CODEC_ID_AAC;
    aac.sample_fmt = AVSampleFormat::AV_SAMPLE_FMT_FLTP;
    aac.bit_rate = 128000;
    aac.sample_rate = 48000;
    aac.channels = 2;
    let descs = vec![
        MediaDesc::Audio(AudioDesc::new()),
        MediaDesc::Audio(aac),
        MediaDesc::Video(VideoDesc::with_h264(352, 288, 4000, 1000000)),
    ];
    let mut w = SimpleWriter::new("/tmp/av.mp4", &descs, None, None);
    assert_eq!(w.streams().len(), 2);
    let audio = w.streams()[0];
    assert_eq!(audio.in_time_base, AVRational::new(1, 48000));
    let par = audio.stream.codecpar.unwrap();
    assert_eq!(par.codec_type, AVMediaType::AVMEDIA_TYPE_AUDIO);
    assert_eq!(par.codec_id, AVCodecID::AV_CODEC_ID_AAC);
    assert_eq!((par.sample_rate, par.channels, par.bit_rate), (48000, 2, 128000));
    assert_eq!(par.sample_fmt, AVSampleFormat::AV_SAMPLE_FMT_FLTP);
    assert_eq!(w.streams()[1].stream.codecpar.unwrap().codec_type, AVMediaType::AVMEDIA_TYPE_VIDEO);
    let plan = w.write_bytes(b"aac", 1024, 1024, true, 0).unwrap();
    w.confirm_header();
    assert_eq!(plan.packet(AVRational::new(1, 44100)).pts, 941);
}
