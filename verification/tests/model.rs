use music_stream::headers::SourceHeaders;
use music_stream::model::{is_forbidden_source_header, MAX_ENCODED_CAPACITY_MS};
use music_stream::runtime::producer::{decoder_hint, source_kind_name, supports_progressive_url};
use music_stream::{
    ErrorCode, GainLevel, MediaBufferConfig, MusicStreamError, NetworkPolicy, TrackKind,
    TrackSource, VolumeLevel,
};

fn source(kind: TrackKind, seekable: Option<bool>) -> TrackSource {
    TrackSource {
        attempt_id: "attempt-a".to_owned(),
        id: "track-a".to_owned(),
        kind,
        url: Some("https://example.test/audio".to_owned()),
        path: Some("/tmp/audio.wav".to_owned()),
        format_hint: None,
        seekable,
        headers: Default::default(),
        network_policy: NetworkPolicy::Provider,
    }
}

fn refusal(source: &TrackSource) -> String {
    match source.validate() {
        Err(MusicStreamError::InvalidSource(text)) => text,
        other => panic!("expected an invalid source, got {other:?}"),
    }
}

#[test]
fn error_code_strings_are_stable_for_bindings() {
    assert_eq!(ErrorCode::InvalidSource.as_str(), "INVALID_SOURCE");
    assert_eq!(ErrorCode::SourceAuthExpired.as_str(), "SOURCE_AUTH_EXPIRED");
    assert_eq!(ErrorCode::StreamNotFound.as_str(), "STREAM_NOT_FOUND");
    assert_eq!(ErrorCode::Unsupported.as_str(), "UNSUPPORTED");
}

#[test]
fn errors_carry_their_code_and_words() {
    let cases = vec![
        (MusicStreamError::StreamNotFound("x".to_owned()), ErrorCode::StreamNotFound, "stream not found: x"),
        (MusicStreamError::StreamAlreadyExists("x".to_owned()), ErrorCode::StreamAlreadyExists, "stream already exists: x"),
        (MusicStreamError::InvalidConfig("x".to_owned()), ErrorCode::InvalidConfig, "invalid configuration: x"),
        (MusicStreamError::InvalidSource("x".to_owned()), ErrorCode::InvalidSource, "invalid source: x"),
        (MusicStreamError::DetectedLiveSource("x".to_owned()), ErrorCode::Unsupported, "detected live HTTP source: x"),
        (MusicStreamError::SourceTimeout("x".to_owned()), ErrorCode::SourceTimeout, "source timed out: x"),
        (MusicStreamError::SourceAuthExpired("x".to_owned()), ErrorCode::SourceAuthExpired, "source auth expired: x"),
        (MusicStreamError::Unsupported("x".to_owned()), ErrorCode::Unsupported, "operation is not supported: x"),
        (MusicStreamError::Busy("x".to_owned()), ErrorCode::Busy, "operation is busy: x"),
        (MusicStreamError::StreamClosed("x".to_owned()), ErrorCode::StreamClosed, "stream is closed: x"),
        (MusicStreamError::NotSeekable("x".to_owned()), ErrorCode::NotSeekable, "track is not seekable: x"),
        (MusicStreamError::DecodeError("x".to_owned()), ErrorCode::DecodeError, "decode error: x"),
        (MusicStreamError::ResampleError("x".to_owned()), ErrorCode::ResampleError, "resample error: x"),
        (MusicStreamError::EncodeError("x".to_owned()), ErrorCode::EncodeError, "encode error: x"),
        (MusicStreamError::RtpSendError("x".to_owned()), ErrorCode::RtpSendError, "rtp send error: x"),
        (MusicStreamError::Internal("x".to_owned()), ErrorCode::Internal, "internal error: x"),
    ];
    for (error, code, text) in cases {
        assert_eq!(error.code(), code);
        assert_eq!(error.message(), text);
    }
}

#[test]
fn live_tracks_are_never_seekable_even_if_input_says_otherwise() {
    assert!(!source(TrackKind::Live, None).is_seekable());
    assert!(!source(TrackKind::Live, Some(false)).is_seekable());
    assert!(!source(TrackKind::Live, Some(true)).is_seekable());
}

#[test]
fn bounded_tracks_default_to_seekable() {
    let file = source(TrackKind::File, None);
    let url = source(TrackKind::Url, None);
    let non_seekable_url = source(TrackKind::Url, Some(false));
    assert!(file.is_seekable());
    assert!(url.is_seekable());
    assert!(!non_seekable_url.is_seekable());
}

#[test]
fn source_headers_are_bounded_and_cannot_override_transport_framing() {
    let mut source = source(TrackKind::Url, None);
    source
        .headers
        .insert("referer".to_owned(), "https://example.test/".to_owned());
    source.validate().expect("referer");
    source
        .headers
        .insert("host".to_owned(), "attacker.test".to_owned());
    assert!(source.validate().is_err());
}

#[test]
fn source_validation_rejects_invalid_format_hint() {
    let mut url = source(TrackKind::Url, None);
    url.format_hint = Some("audio/mpeg".to_owned());
    assert_eq!(
        url.validate().expect_err("invalid hint").code(),
        ErrorCode::InvalidSource
    );
}

#[test]
fn media_buffer_validation_preserves_a_hard_memory_bound() {
    let error = MediaBufferConfig {
        encoded_capacity_ms: MAX_ENCODED_CAPACITY_MS + 1,
        ..MediaBufferConfig::default()
    }
    .validate()
    .expect_err("oversized encoded window");
    assert_eq!(error.code(), ErrorCode::InvalidConfig);
}

#[test]
fn hls_detection_normalizes_url_sources_to_live_semantics() {
    let mut by_extension = source(TrackKind::Url, Some(true));
    by_extension.url = Some("https://media.test/audio/index.m3u8?token=1".to_owned());
    assert!(by_extension.is_hls());
    let normalized = by_extension.with_detected_kind();
    assert_eq!(normalized.kind, TrackKind::Live);
    assert_eq!(normalized.seekable, Some(false));

    let mut by_hint = source(TrackKind::Url, None);
    by_hint.url = Some("https://media.test/opaque".to_owned());
    by_hint.format_hint = Some("M3U8".to_owned());
    assert!(by_hint.is_hls());
}

#[test]
fn hls_detection_reads_only_the_last_segment_of_the_path() {
    let at = |url: &str| {
        let mut track = source(TrackKind::Url, None);
        track.url = Some(url.to_owned());
        track.is_hls()
    };
    assert!(at("https://a.test/x.M3U8#part"));
    assert!(!at("https://a.test/x.m3u8/"));
    assert!(!at("https://a.test/x.mp3?next=y.m3u8"));
    assert!(!at("https://a.test/m3u8"));
    assert!(at("https://a.test/.m3u8"));
    let mut file = source(TrackKind::File, None);
    file.format_hint = Some("m3u8".to_owned());
    assert!(!file.is_hls());
}

#[test]
fn every_field_of_a_source_is_checked_in_order() {
    let mut track = source(TrackKind::File, None);
    assert!(track.validate().is_ok());
    track.id = " \t\u{3000}".to_owned();
    assert_eq!(refusal(&track), "track id must contain 1 to 512 bytes");
    track.id = "é".repeat(257);
    assert_eq!(refusal(&track), "track id must contain 1 to 512 bytes");
    track.id = "é".repeat(256);
    assert!(track.validate().is_ok());
    track.path = Some(String::new());
    assert_eq!(refusal(&track), "file source requires a path no longer than 16 KiB");
    track.path = None;
    assert_eq!(refusal(&track), "file source requires a path no longer than 16 KiB");
    track.path = Some("p".repeat(16_385));
    assert_eq!(refusal(&track), "file source requires a path no longer than 16 KiB");

    let mut track = source(TrackKind::Live, None);
    track.url = None;
    assert_eq!(refusal(&track), "URL and live sources require url");
    track.url = Some("ftp://example.test".to_owned());
    assert_eq!(
        refusal(&track),
        "URL and live sources require an HTTP(S) URL no longer than 16 KiB"
    );
    track.url = Some("http://example.test".to_owned());
    assert!(track.validate().is_ok());
    track.format_hint = Some(String::new());
    assert_eq!(
        refusal(&track),
        "format hint must contain 1 to 16 ASCII letters or digits"
    );
    track.format_hint = Some("a".repeat(17));
    assert!(track.validate().is_err());
    track.format_hint = Some("a".repeat(16));
    assert!(track.validate().is_ok());
}

#[test]
fn headers_are_checked_by_count_size_and_content() {
    let mut file = source(TrackKind::File, None);
    file.headers.insert("a".to_owned(), "b".to_owned());
    assert_eq!(refusal(&file), "file sources cannot contain HTTP headers");

    let mut many = source(TrackKind::Url, None);
    for index in 0..17 {
        many.headers.insert(format!("x-{index}"), "v".to_owned());
    }
    assert_eq!(many.headers.len(), 17);
    assert_eq!(refusal(&many), "source headers exceed configured limits");

    let mut large = source(TrackKind::Url, None);
    large.headers.insert("x".to_owned(), "v".repeat(16_384));
    assert_eq!(refusal(&large), "source headers exceed configured limits");
    large.headers.insert("x".to_owned(), "v".repeat(16_383));
    assert!(large.validate().is_ok());

    let with = |name: &str, value: &str| {
        let mut track = source(TrackKind::Url, None);
        track.headers.insert(name.to_owned(), value.to_owned());
        track
    };
    assert_eq!(refusal(&with("Range", "0-1")), "unsupported source header: Range");
    assert_eq!(refusal(&with("", "v")), "unsupported source header: ");
    assert_eq!(refusal(&with("a b", "v")), "unsupported source header: a b");
    assert_eq!(refusal(&with("x", "a\nb")), "unsupported source header: x");
    assert_eq!(refusal(&with("x", "a\u{7f}")), "unsupported source header: x");
    assert!(with("x-token", "a\tb é").validate().is_ok());
    assert!(with("X-Token~|`", "").validate().is_ok());

    // The first offending header in the order of names is reported.
    let mut two = with("zz z", "v");
    two.headers.insert("te".to_owned(), "v".to_owned());
    assert_eq!(refusal(&two), "unsupported source header: te");
}

#[test]
fn headers_are_ordered_by_name_and_hold_one_value_each() {
    let mut headers = SourceHeaders::new();
    assert!(headers.is_empty());
    headers.insert("b".to_owned(), "1".to_owned());
    headers.insert("a".to_owned(), "2".to_owned());
    headers.insert("b".to_owned(), "3".to_owned());
    headers.insert("ab".to_owned(), "4".to_owned());
    let copy = headers.clone();
    headers.insert("c".to_owned(), "5".to_owned());
    let names: Vec<&str> = (0..copy.len()).map(|i| copy.at(i).name.as_str()).collect();
    assert_eq!(names, vec!["a", "ab", "b"]);
    assert_eq!(copy.at(2).value, "3");
    assert_eq!(headers.len(), 4);
}

#[test]
fn transport_headers_are_forbidden_by_their_lower_case_names() {
    for name in [
        "connection",
        "content-length",
        "host",
        "proxy-authenticate",
        "proxy-authorization",
        "range",
        "te",
        "trailer",
        "transfer-encoding",
        "upgrade",
    ] {
        assert!(is_forbidden_source_header(name));
    }
    assert!(!is_forbidden_source_header("referer"));
    assert!(!is_forbidden_source_header("Host"));
}

#[test]
fn levels_accept_exactly_their_range() {
    assert_eq!(VolumeLevel::from_units(10_000).expect("full").units(), 10_000);
    assert!(VolumeLevel::from_units(0).expect("muted").is_muted());
    assert!(!VolumeLevel::from_units(1).expect("audible").is_muted());
    assert_eq!(
        VolumeLevel::from_units(10_001).expect_err("too loud").message(),
        "invalid configuration: volume units must be between 0 and 10000"
    );
    assert_eq!(VolumeLevel::default().units(), 10_000);
    assert_eq!(GainLevel::from_centibels(-6_000).expect("lowest").centibels(), -6_000);
    assert_eq!(GainLevel::from_centibels(1_200).expect("highest").centibels(), 1_200);
    assert!(GainLevel::from_centibels(-6_001).is_err());
    assert_eq!(
        GainLevel::from_centibels(1_201).expect_err("too high").message(),
        "invalid configuration: gain centibels must be between -6000 and 1200"
    );
    assert_eq!(GainLevel::default().centibels(), 0);
}

#[test]
fn media_buffer_settings_are_checked_in_order() {
    let text = |config: MediaBufferConfig| config.validate().expect_err("invalid").message();
    assert!(MediaBufferConfig::default().validate().is_ok());
    assert_eq!(
        text(MediaBufferConfig { prebuffer_ms: 0, ..MediaBufferConfig::default() }),
        "invalid configuration: media buffer durations must be greater than zero"
    );
    assert_eq!(
        text(MediaBufferConfig { decode_batch_ms: 1_001, ..MediaBufferConfig::default() }),
        "invalid configuration: decode batch must not exceed 1 second and encoded capacity must not exceed 10 seconds"
    );
    assert_eq!(
        text(MediaBufferConfig { next_prime_ms: 401, ..MediaBufferConfig::default() }),
        "invalid configuration: prebuffer, next prime, and maximum playout lateness must fit encoded capacity"
    );
}

#[test]
fn progressive_url_policy_prefers_explicit_format_hint_and_includes_mp4_candidates() {
    let source = |url: &str, format_hint: Option<&str>| TrackSource {
        attempt_id: format!("attempt-{url}"),
        id: url.to_owned(),
        kind: TrackKind::Url,
        url: Some(url.to_owned()),
        path: None,
        format_hint: format_hint.map(str::to_owned),
        seekable: Some(true),
        headers: Default::default(),
        network_policy: NetworkPolicy::Provider,
    };

    assert!(supports_progressive_url(&source(
        "https://cdn.test/audio.mp3?sig=1",
        None,
    )));
    assert!(supports_progressive_url(&source(
        "https://cdn.test/audio.flac",
        None,
    )));
    assert!(supports_progressive_url(&source(
        "https://cdn.test/audio.m4a",
        None,
    )));
    assert!(!supports_progressive_url(&source(
        "https://cdn.test/opaque",
        None,
    )));
    assert!(supports_progressive_url(&source(
        "https://cdn.test/opaque?sig=1",
        Some("MP3"),
    )));
    assert!(supports_progressive_url(&source(
        "https://cdn.test/audio.mp3",
        Some("m4a"),
    )));
}

#[test]
fn decoder_hints_are_lower_case_and_come_from_hint_or_url() {
    let mut track = source(TrackKind::Url, None);
    assert_eq!(decoder_hint(&track), None);
    track.url = Some("https://a.test/v1.2/song.FLAC?x=.y".to_owned());
    assert_eq!(decoder_hint(&track), Some("flac".to_owned()));
    track.format_hint = Some("MP3".to_owned());
    assert_eq!(decoder_hint(&track), Some("mp3".to_owned()));
    track.format_hint = None;
    track.url = Some("https://a.test/v1.2/song".to_owned());
    assert_eq!(decoder_hint(&track), None);
    track.url = Some("https://a.test/song.toolongext".to_owned());
    assert_eq!(decoder_hint(&track), None);
    assert_eq!(source_kind_name(&track), "url");
    track.format_hint = Some("m3u8".to_owned());
    assert_eq!(source_kind_name(&track), "hls");
    assert_eq!(source_kind_name(&source(TrackKind::File, None)), "file");
    assert_eq!(source_kind_name(&source(TrackKind::Live, None)), "live");
}

#[test]
fn identity_is_the_track_and_an_attempt_is_one_occurrence() {
    let first = source(TrackKind::File, None);
    let mut second = source(TrackKind::Url, None);
    assert!(first.same_identity_as(&second));
    assert!(first.same_attempt_as(&second));
    second.attempt_id = "attempt-b".to_owned();
    assert!(first.same_identity_as(&second));
    assert!(!first.same_attempt_as(&second));
    assert_eq!(second.stable_key(), "track-a");
    assert_eq!(second.attempt_key(), "attempt-b");
}
