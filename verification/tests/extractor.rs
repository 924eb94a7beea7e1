use mediacodec::{MediaExtractor, MediaStatus, ReadAction, ReadEvent, SeekMode};

fn opened(handle: usize) -> MediaExtractor {
    MediaExtractor::from_url(handle, "/sdcard/movie.mp4")
        .unwrap()
        .data_source_opened(0)
        .unwrap()
}

#[test]
fn from_url_refuses_nul_in_location() {
    assert!(matches!(
        MediaExtractor::from_url(1, "/sdcard/a\0b.mp4"),
        Err(MediaStatus::ErrorInvalidParameter)
    ));
}

#[test]
fn from_url_waits_for_data_source() {
    let e = MediaExtractor::from_url(0x40, "/sdcard/movie.mp4").unwrap();
    assert_eq!(e.handle(), 0x40);
    assert!(!e.has_next());
    let e = e.data_source_opened(0).unwrap();
    assert_eq!(e.handle(), 0x40);
    assert!(e.has_next());
}

#[test]
fn data_source_errors_are_reported() {
    let e = MediaExtractor::from_url(1, "x").unwrap();
    assert!(matches!(e.data_source_opened(-10007), Err(MediaStatus::ErrorIO)));
    let e = MediaExtractor::from_url(1, "x").unwrap();
    assert!(matches!(e.data_source_opened(-5), Err(MediaStatus::ErrorUnknown)));
    let e = MediaExtractor::from_url(1, "x").unwrap();
    assert!(matches!(
        e.data_source_opened(1101),
        Err(MediaStatus::ErrorReclaimed)
    ));
    let e = MediaExtractor::from_url(1, "x").unwrap();
    assert!(e.data_source_opened(3).unwrap().has_next());
}

#[test]
fn has_track_bounds() {
    assert!(MediaExtractor::has_track(2, 0));
    assert!(MediaExtractor::has_track(2, 1));
    assert!(!MediaExtractor::has_track(2, 2));
    assert!(!MediaExtractor::has_track(0, 0));
}

#[test]
fn codec_flags_strip_encrypted_bit() {
    assert_eq!(MediaExtractor::codec_flags(0), 0);
    assert_eq!(MediaExtractor::codec_flags(1), 1);
    assert_eq!(MediaExtractor::codec_flags(2), 0);
    assert_eq!(MediaExtractor::codec_flags(3), 1);
    assert_eq!(MediaExtractor::codec_flags(4), 4);
    assert_eq!(MediaExtractor::codec_flags(8), 8);
    assert_eq!(MediaExtractor::codec_flags(0xF), 0xD);
    assert_eq!(MediaExtractor::codec_flags(0x10), 0);
    assert_eq!(MediaExtractor::codec_flags(u32::MAX), 0xD);
}

fn read_one(e: &mut MediaExtractor, count: isize, more: bool) -> ReadAction {
    assert_eq!(e.read_next(ReadEvent::Begin), ReadAction::ReadSample);
    let a = e.read_next(ReadEvent::Read(count));
    if count > 0 {
        assert_eq!(a, ReadAction::SetSizeThenQueryTime(count as usize));
        e.read_next(ReadEvent::Time(10));
        e.read_next(ReadEvent::Flags(1));
    } else if count == 0 {
        assert_eq!(a, ReadAction::SetFlagsThenAdvance(None));
    } else {
        return a;
    }
    e.read_next(ReadEvent::Advanced(more))
}

#[test]
fn read_next_full_sample() {
    let mut e = opened(7);
    assert_eq!(e.read_next(ReadEvent::Begin), ReadAction::ReadSample);
    assert_eq!(e.read_next(ReadEvent::Read(512)), ReadAction::SetSizeThenQueryTime(512));
    assert_eq!(
        e.read_next(ReadEvent::Time(33_000)),
        ReadAction::SetTimeThenQueryFlags(Some(33_000))
    );
    assert_eq!(
        e.read_next(ReadEvent::Flags(3)),
        ReadAction::SetFlagsThenAdvance(Some(1))
    );
    assert_eq!(
        e.read_next(ReadEvent::Advanced(true)),
        ReadAction::Finish { cancel: false, result: Ok(true) }
    );
    assert!(e.has_next());
    assert_eq!(e.handle(), 7);
}

#[test]
fn read_next_negative_time_is_not_recorded() {
    let mut e = opened(7);
    e.read_next(ReadEvent::Begin);
    e.read_next(ReadEvent::Read(4));
    assert_eq!(
        e.read_next(ReadEvent::Time(-1)),
        ReadAction::SetTimeThenQueryFlags(None)
    );
    let mut e = opened(7);
    e.read_next(ReadEvent::Begin);
    e.read_next(ReadEvent::Read(4));
    assert_eq!(
        e.read_next(ReadEvent::Time(0)),
        ReadAction::SetTimeThenQueryFlags(Some(0))
    );
}

#[test]
fn read_next_last_sample_exhausts() {
    let mut e = opened(7);
    assert_eq!(
        read_one(&mut e, 100, false),
        ReadAction::Finish { cancel: false, result: Ok(true) }
    );
    assert!(!e.has_next());
    assert_eq!(
        e.read_next(ReadEvent::Begin),
        ReadAction::Finish { cancel: false, result: Ok(false) }
    );
    assert!(!e.has_next());
}

#[test]
fn read_next_empty_sample() {
    let mut e = opened(7);
    assert_eq!(
        read_one(&mut e, 0, false),
        ReadAction::Finish { cancel: true, result: Ok(false) }
    );
    assert!(!e.has_next());
}

#[test]
fn read_next_error_keeps_extractor() {
    let mut e = opened(7);
    assert_eq!(
        read_one(&mut e, -10007, true),
        ReadAction::Finish { cancel: true, result: Err(MediaStatus::ErrorIO) }
    );
    assert!(e.has_next());
    assert_eq!(
        read_one(&mut e, -1, true),
        ReadAction::Finish { cancel: true, result: Err(MediaStatus::ErrorUnknown) }
    );
    assert!(e.has_next());
}

#[test]
fn unopened_extractor_reads_nothing() {
    let mut e = MediaExtractor::from_url(9, "file").unwrap();
    assert_eq!(
        e.read_next(ReadEvent::Begin),
        ReadAction::Finish { cancel: false, result: Ok(false) }
    );
}

#[test]
fn out_of_order_answers_are_refused() {
    let refused = ReadAction::Finish {
        cancel: false,
        result: Err(MediaStatus::ErrorInvalidOperation),
    };
    let mut e = opened(7);
    assert_eq!(e.read_next(ReadEvent::Advanced(true)), refused);
    assert_eq!(e.read_next(ReadEvent::Read(10)), refused);
    assert_eq!(e.read_next(ReadEvent::Flags(1)), refused);
    assert_eq!(e.read_next(ReadEvent::Begin), ReadAction::ReadSample);
    assert_eq!(e.read_next(ReadEvent::Time(5)), refused);
    assert_eq!(e.read_next(ReadEvent::Begin), ReadAction::ReadSample);
    assert_eq!(e.read_next(ReadEvent::Begin), refused);
    assert!(e.has_next());
}

#[test]
fn exhausted_extractor_stays_exhausted_until_seek() {
    let mut e = opened(7);
    read_one(&mut e, 8, false);
    assert!(!e.has_next());
    for ev in [
        ReadEvent::Advanced(true),
        ReadEvent::Begin,
        ReadEvent::Read(5),
        ReadEvent::Time(1),
        ReadEvent::Flags(1),
        ReadEvent::Advanced(true),
    ] {
        e.read_next(ev);
        assert!(!e.has_next());
    }
    e.seek_to(0, SeekMode::SeekClosestSync);
    assert!(e.has_next());
    assert_eq!(
        read_one(&mut e, 8, true),
        ReadAction::Finish { cancel: false, result: Ok(true) }
    );
}

#[test]
fn seek_to_restores_samples() {
    let mut e = opened(7);
    read_one(&mut e, 3, false);
    assert!(!e.has_next());
    assert_eq!(e.seek_to(1_000_000, SeekMode::SeekPreviousSync), (1_000_000, 2));
    assert!(e.has_next());
    assert_eq!(e.seek_to(0, SeekMode::SeekClosestSync), (0, 0));
    assert_eq!(e.seek_to(-5, SeekMode::SeekNextSync), (-5, 1));
    assert_eq!(SeekMode::SeekNextSync.code(), 1);
}
