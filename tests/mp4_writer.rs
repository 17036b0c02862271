use ffav::codec::{AVCodecID, AVPixelFormat, AVRational};
use ffav::mp4_writer::{AudioOptions, MediaOptions, Mp4Writer, VideoOptions};

#[test]
fn test_mp4_writer() {
    let a_opts = AudioOptions::new();
    let v_opts = VideoOptions {
        codec_id: AVCodecID::AV_CODEC_ID_H264,
        bit_rate: 4000,
        width: 1280,
        height: 720,
        time_base: AVRational {
            num: 1,
            den: 1000000,
        },
        gop_size: 25,
        pix_fmt: AVPixelFormat::AV_PIX_FMT_YUV420P,
    };
    let mut writer = Mp4Writer::new(
        "example.mp4",
        &[MediaOptions::Audio(a_opts), MediaOptions::Video(v_opts)],
    );
    writer.write(b"Hello", 0, 40000, 0);
}

#[test]
fn mp4_writer_plans_header_once_and_raw_packets() {
    let v_opts = VideoOptions {
        codec_id: AVCodecID::AV_CODEC_ID_HEVC,
        bit_rate: 4000,
        width: 1280,
        height: 720,
        time_base: AVRational::new(1, 1000000),
        gop_size: 25,
        pix_fmt: AVPixelFormat::AV_PIX_FMT_YUV420P,
    };
    let mut writer = Mp4Writer::new(
        "example.mp4",
        &[MediaOptions::Audio(AudioOptions::new()), MediaOptions::Video(v_opts)],
    );
    assert_eq!(writer.path(), "example.mp4");
    assert_eq!(writer.streams().len(), 1);
    let par = writer.streams()[0].codecpar.unwrap();
    assert_eq!(par.codec_id, AVCodecID::AV_CODEC_ID_HEVC);
    assert_eq!((par.width, par.height, par.bit_rate), (1280, 720, 4000));

    let first = writer.write(b"Hello", 0, 40000, 0);
    assert!(first.write_header);
    assert_eq!(first.packet.pts, 0);
    assert_eq!(first.packet.duration, 40000);
    assert_eq!(first.packet.size, 5);
    assert_eq!(first.packet.flags, 0);
    assert_eq!(first.packet.pos, -1);
    let second = writer.write(b"World!", 40000, 40000, 0);
    assert!(!second.write_header);
    assert_eq!((second.packet.pts, second.packet.dts), (40000, 40000));
    assert_eq!(second.packet.size, 6);

    let end = writer.finish();
    assert!(!end.write_header);
    assert!(end.write_trailer);
    let again = writer.finish();
    assert!(!again.write_header && !again.write_trailer);
}

#[test]
fn mp4_writer_finished_empty_gets_header_and_trailer() {
    let mut writer = Mp4Writer::new("empty.mp4", &[]);
    let end = writer.finish();
    assert!(end.write_header && end.write_trailer);
}

#[test]
fn media_options_variants() {
    let a = MediaOptions::Audio(AudioOptions::new());
    let v = MediaOptions::Video(VideoOptions::new());
    assert!(a.is_audio() && !a.is_video());
    assert!(v.is_video() && !v.is_audio());
    assert!(a.as_audio_options().is_some() && a.as_video_options().is_none());
    assert!(v.as_video_options().is_some() && v.as_audio_options().is_none());
    assert_eq!(a.codec_id(), AVCodecID::AV_CODEC_ID_NONE);
}
