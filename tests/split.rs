use ffav::naming::{default_file_name, ext_of_format};
use ffav::split::{SplitOptions, SplitWriter};
use ffav::writer::{AudioDesc, MediaDesc, VideoDesc};

fn h264() -> MediaDesc {
    MediaDesc::Video(VideoDesc::with_h264(1280, 720, 4000, 1000000))
}

fn options(max_files: usize, max_size_bytes: u64, max_size_time: u64, start_index: usize, at_key: bool) -> SplitOptions {
    let mut o = SplitOptions::new();
    o.output_path = Some("/tmp/fragments".to_string());
    o.max_files = Some(max_files);
    o.max_size_bytes = Some(max_size_bytes);
    o.max_size_time = Some(max_size_time);
    o.start_index = Some(start_index);
    o.split_at_keyframe = Some(at_key);
    o
}

/// One write through the three steps; returns (rotated, deleted index, opened index).
fn write(w: &mut SplitWriter, key: bool, size: u64, elapsed: u64) -> (bool, Option<usize>, Option<usize>) {
    let step = w.prepare_write(key, 0, size, elapsed);
    let rotated = step.split.is_some();
    let deleted = step.split.and_then(|p| p.delete);
    if let Some(index) = step.open {
        let name = w.format_location(index);
        w.writer_opened(&name);
    }
    let plan = w.write_current(b"frame", 0, 40000, key, 0).unwrap();
    if plan.write_header {
        w.confirm_header();
    }
    (rotated, deleted, step.open)
}

#[test]
fn fragment_names() {
    assert_eq!(ext_of_format(Some("mp4")), ".mp4");
    assert_eq!(ext_of_format(Some("mpegts")), ".ts");
    assert_eq!(ext_of_format(Some("matroska")), "dat");
    assert_eq!(ext_of_format(None), "dat");
    assert_eq!(SplitWriter::ext_of_format(Some("mp4")), ".mp4");
    assert_eq!(default_file_name(100, Some("mpegts")), "MED000100.ts");
    assert_eq!(default_file_name(42, Some("mp4")), "MED000042.mp4");
    assert_eq!(default_file_name(0, None), "MED000000dat");
    assert_eq!(default_file_name(1234567, Some("mpegts")), "MED1234567.ts");
}

#[test]
fn split_writer_defaults() {
    let mut o = SplitOptions::new();
    o.output_path = Some("/tmp/fragments".to_string());
    let w = SplitWriter::new(vec![h264()], Some("mp4"), None, o);
    assert_eq!(w.current_index(), 0);
    assert_eq!(w.start_index(), 0);
    assert!(!w.is_armed() && !w.is_started());
    assert!(w.writer().is_none());
    assert_eq!(w.format_location(3), "MED000003.mp4");
}

#[test]
fn first_write_opens_the_start_fragment() {
    let mut w = SplitWriter::new(vec![h264()], Some("mpegts"), None, options(10, 0, 0, 100, true));
    let (rotated, _, opened) = write(&mut w, true, 0, 0);
    assert!(!rotated);
    assert_eq!(opened, Some(100));
    assert!(w.is_started());
    assert_eq!(w.writer().unwrap().path(), "MED000100.ts");
    let (_, _, opened) = write(&mut w, false, 5, 0);
    assert_eq!(opened, None);
}

#[test]
fn keyframe_aligned_rotation_scenario() {
    let mut w = SplitWriter::new(vec![h264()], Some("mpegts"), None, options(10, 1_048_576, 0, 100, true));
    let frame_size: u64 = 10_000;
    let mut size: u64 = 0;
    let mut opened = Vec::new();
    let mut rotations = 0;
    for _group in 0..100 {
        for f in 0..10 {
            let key = f == 0;
            let (rotated, deleted, open) = write(&mut w, key, size, 0);
            if rotated {
                assert!(key, "rotation off a keyframe");
                assert!(size >= 1_048_576, "rotation before the limit");
                assert!(deleted.is_none());
                rotations += 1;
                size = 0;
            }
            if let Some(i) = open {
                opened.push(i);
            }
            size += frame_size;
        }
    }
    assert_eq!(rotations, 9);
    assert_eq!(opened, (100..110).collect::<Vec<usize>>());
    assert_eq!(w.current_index(), 109);
}

#[test]
fn overflow_rotates_without_keyframe() {
    let mut w = SplitWriter::new(vec![h264()], None, None, options(0, 1000, 0, 0, true));
    write(&mut w, true, 0, 0);
    // Soft limit reached: armed, no rotation.
    let (rotated, _, _) = write(&mut w, false, 1000, 0);
    assert!(!rotated);
    assert!(w.is_armed());
    // Armed, no keyframe: disarmed, no rotation.
    let (rotated, _, _) = write(&mut w, false, 1050, 0);
    assert!(!rotated);
    assert!(!w.is_armed());
    // Hard limit (1000 + 10%) reached: rotation without a keyframe.
    let (rotated, _, opened) = write(&mut w, false, 1100, 0);
    assert!(rotated);
    assert_eq!(opened, Some(1));
    // The soft limit armed the writer in the same call; rotation keeps that.
    assert!(w.is_armed());
}

#[test]
fn armed_rotates_at_keyframe() {
    let mut w = SplitWriter::new(vec![h264()], None, None, options(0, 1000, 0, 0, true));
    write(&mut w, true, 0, 0);
    let (rotated, _, _) = write(&mut w, false, 1000, 0);
    assert!(!rotated && w.is_armed());
    let (rotated, _, _) = write(&mut w, true, 1010, 0);
    assert!(rotated);
    assert_eq!(w.current_index(), 1);
}

#[test]
fn time_limit_rotates() {
    let mut w = SplitWriter::new(vec![h264()], None, None, options(0, 0, 1_000_000, 0, false));
    write(&mut w, true, 0, 0);
    let (rotated, _, _) = write(&mut w, false, 10, 999_999);
    assert!(!rotated);
    let (rotated, _, opened) = write(&mut w, false, 10, 1_000_000);
    assert!(rotated);
    assert_eq!(opened, Some(1));
}

#[test]
fn no_gop_stream_rotates_immediately() {
    let audio = MediaDesc::Audio(AudioDesc::new());
    let mut w = SplitWriter::new(vec![audio, h264()], None, None, options(0, 1000, 0, 0, true));
    assert!(!w.stream_has_key_frame(0));
    assert!(w.stream_has_key_frame(1));
    let mut w2 = SplitWriter::new(vec![MediaDesc::Audio(AudioDesc::new())], None, None, options(0, 1000, 0, 0, true));
    let step = w2.prepare_write(false, 0, 0, 0);
    w2.writer_opened("a");
    assert!(step.split.is_none());
    assert!(w2.can_split_now(false, 0, 1000, 0));
    assert!(!w2.is_armed());
    w.writer_opened("b");
    assert!(!w.can_split_now(false, 1, 1000, 0));
    assert!(w.is_armed());
}

#[test]
fn disabled_limits_never_rotate() {
    let mut w = SplitWriter::new(vec![h264()], None, None, options(10, 0, 0, 0, true));
    let mut size: u64 = 0;
    for i in 0..1000u64 {
        let (rotated, _, _) = write(&mut w, i % 25 == 0, size, i * 1_000_000_000);
        assert!(!rotated);
        size += 1_000_000;
    }
    assert_eq!(w.current_index(), 0);
}

#[test]
fn retention_deletes_oldest_fragments() {
    let mut w = SplitWriter::new(vec![h264()], None, None, options(3, 1, 0, 5, false));
    write(&mut w, true, 0, 0);
    let mut deleted = Vec::new();
    for _ in 0..6 {
        let (rotated, d, _) = write(&mut w, false, 1, 0);
        assert!(rotated);
        if let Some(i) = d {
            deleted.push(i);
        }
    }
    assert_eq!(deleted, vec![5, 6, 7, 8]);
    assert_eq!(w.current_index(), 11);
}

#[test]
fn unlimited_retention_deletes_nothing() {
    let mut w = SplitWriter::new(vec![h264()], None, None, options(0, 1, 0, 0, false));
    write(&mut w, true, 0, 0);
    for _ in 0..5 {
        let (rotated, d, _) = write(&mut w, false, 1, 0);
        assert!(rotated);
        assert!(d.is_none());
    }
}

#[test]
fn split_now_reports_the_close() {
    let mut w = SplitWriter::new(vec![h264()], None, None, options(2, 0, 0, 7, true));
    let plan = w.split_now();
    assert_eq!((plan.closed_index, plan.next_index), (7, 8));
    assert!(plan.close.is_none());
    assert!(plan.delete.is_none());
    w.writer_opened("x");
    assert_eq!(w.clean_files(), Some(7));
    let plan = w.split_now();
    let close = plan.close.unwrap();
    assert!(close.write_header && close.write_trailer);
    assert_eq!(plan.delete, Some(7));
    assert!(w.close().is_none());
}

#[test]
fn failed_open_retries_the_same_index() {
    let mut w = SplitWriter::new(vec![h264()], None, None, options(0, 1, 0, 0, false));
    write(&mut w, true, 0, 0);
    let step = w.prepare_write(false, 0, 1, 0);
    assert!(step.split.is_some());
    assert_eq!(step.open, Some(1));
    let plan = step.split.unwrap();
    assert_eq!((plan.closed_index, plan.next_index), (0, 1));
    assert!(plan.close.is_some());
    // The caller could not open fragment 1: it asks again, same index,
    // whatever the size, the time and the keyframe.
    let step = w.prepare_write(true, 0, 5, u64::MAX);
    assert!(step.split.is_none());
    assert_eq!(step.open, Some(1));
    assert_eq!(w.current_index(), 1);
}

#[test]
fn split_writer_trailer_and_getters() {
    let audio = MediaDesc::Audio(AudioDesc::new());
    let mut w = SplitWriter::new(vec![audio, h264()], Some("mp4"), None, options(0, 0, 0, 0, true));
    assert_eq!(w.medias().len(), 2);
    assert_eq!(w.format(), Some("mp4"));
    assert_eq!(w.write_trailer(), None);
    w.writer_opened("MED000000.mp4");
    assert_eq!(w.writer().unwrap().format(), Some("mp4"));
    assert_eq!(w.write_trailer(), Some(false));
    let plan = w.write_current(b"x", 0, 1, true, 0).unwrap();
    assert!(plan.write_header);
    w.confirm_header();
    assert!(!w.write_current(b"x", 1, 1, true, 0).unwrap().write_header);
    assert_eq!(w.write_trailer(), Some(true));
    assert_eq!(w.write_current(b"x", 2, 1, true, 0), Err(ffav::writer::WriterError::Closed));
    assert_eq!(w.write_trailer(), Some(false));
    let close = w.close().unwrap();
    assert!(!close.write_header && !close.write_trailer);
}
