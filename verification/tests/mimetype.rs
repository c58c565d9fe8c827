use binate::mimetype::{WellKnownMimeType, DEFAULT_MIMETYPE};

#[test]
fn unparsable_mime_type() {
    let mime: WellKnownMimeType = "unparsable".into();
    let string: &'static str = mime.into();
    assert_eq!(mime, WellKnownMimeType::UNPARSEABLE);
    assert_eq!(string, "");
}

#[test]
fn well_known_mime_types_by_name() {
    assert_eq!(WellKnownMimeType::from("application/json"), WellKnownMimeType::APPLICATION_JSON);
    assert_eq!(WellKnownMimeType::from("audio/mpeg3"), WellKnownMimeType::AUDIO_MPEG3);
    assert_eq!(WellKnownMimeType::from("audio/mpeg"), WellKnownMimeType::AUDIO_MPEG);
    assert_eq!(WellKnownMimeType::from("video/H264"), WellKnownMimeType::VIDEO_H264);
    assert_eq!(WellKnownMimeType::from("video/h264"), WellKnownMimeType::UNPARSEABLE);
    assert_eq!(
        WellKnownMimeType::from("message/x.rsocket.composite.metadata.v0"),
        WellKnownMimeType::MESSAGE_X_RSOCKET_COMPOSITE_METADATA_V0
    );
    assert_eq!(WellKnownMimeType::from(""), WellKnownMimeType::UNPARSEABLE);
    assert_eq!(WellKnownMimeType::from("application/jso"), WellKnownMimeType::UNPARSEABLE);
    assert_eq!(WellKnownMimeType::from(DEFAULT_MIMETYPE), WellKnownMimeType::UNPARSEABLE);
}

#[test]
fn well_known_mime_types_name_themselves() {
    let some = [
        WellKnownMimeType::APPLICATION_AVRO,
        WellKnownMimeType::APPLICATION_CLOUDEVENTS_JSON,
        WellKnownMimeType::IMAGE_HEIC_SEQUENCE,
        WellKnownMimeType::IMAGE_HEIC,
        WellKnownMimeType::TEXT_PLAIN,
        WellKnownMimeType::MESSAGE_X_RSOCKET_ROUTING_V0,
    ];
    for mime in some {
        assert_eq!(WellKnownMimeType::from(mime.as_str()), mime);
    }
    assert_eq!(WellKnownMimeType::TEXT_CSV.as_str(), "text/csv");
    let text: &'static str = WellKnownMimeType::APPLICATION_PDF.into();
    assert_eq!(text, "application/pdf");
    assert_eq!(DEFAULT_MIMETYPE, "application/binary");
}
