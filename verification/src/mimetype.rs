//! A list of wellknown MIME types.
use crate::text::same_text;
use vstd::prelude::*;

verus! {

/// Default mimetype for encoding metadata and data.
pub const DEFAULT_MIMETYPE: &'static str = "application/binary";

/// Well-known MIME types.
#[allow(missing_docs)]
#[allow(non_camel_case_types)]
#[non_exhaustive]
#[derive(Debug, Clone, Copy, PartialEq, Eq, Structural)]
pub enum WellKnownMimeType {
    UNPARSEABLE,
    APPLICATION_AVRO,
    APPLICATION_CBOR,
    APPLICATION_GRAPHQL,
    APPLICATION_GZIP,
    APPLICATION_JAVASCRIPT,
    APPLICATION_JSON,
    APPLICATION_OCTET_STREAM,
    APPLICATION_PDF,
    APPLICATION_VND_APACHE_THRIFT_BINARY,
    APPLICATION_VND_GOOGLE_PROTOBUF,
    APPLICATION_XML,
    APPLICATION_ZIP,
    AUDIO_AAC,
    AUDIO_MP3,
    AUDIO_MP4,
    AUDIO_MPEG3,
    AUDIO_MPEG,
    AUDIO_OGG,
    AUDIO_OPUS,
    AUDIO_VORBIS,
    IMAGE_BMP,
    IMAGE_GIF,
    IMAGE_HEIC_SEQUENCE,
    IMAGE_HEIC,
    IMAGE_HEIF_SEQUENCE,
    IMAGE_HEIF,
    IMAGE_JPEG,
    IMAGE_PNG,
    IMAGE_TIFF,
    MULTIPART_MIXED,
    TEXT_CSS,
    TEXT_CSV,
    TEXT_HTML,
    TEXT_PLAIN,
    TEXT_XML,
    VIDEO_H264,
    VIDEO_H265,
    VIDEO_VP8,
    APPLICATION_X_HESSIAN,
    APPLICATION_X_JAVA_OBJECT,
    APPLICATION_CLOUDEVENTS_JSON,
    MESSAGE_X_RSOCKET_MIME_TYPE_V0,
    MESSAGE_X_RSOCKET_ACCEPT_TIME_TYPES_V0,
    MESSAGE_X_RSOCKET_AUTHENTICATION_V0,
    MESSAGE_X_RSOCKET_TRACING_ZIPKIN_V0,
    MESSAGE_X_RSOCKET_ROUTING_V0,
    MESSAGE_X_RSOCKET_COMPOSITE_METADATA_V0,
}

impl WellKnownMimeType {
    /// The well-known MIME type that `text` names; `UNPARSEABLE` where it
    /// names none.
    pub open spec fn of_text(text: Seq<char>) -> WellKnownMimeType {
        if text == "application/avro"@ {
            WellKnownMimeType::APPLICATION_AVRO
        }         else if text == "application/cbor"@ {
            WellKnownMimeType::APPLICATION_CBOR
        }         else if text == "application/graphql"@ {
            WellKnownMimeType::APPLICATION_GRAPHQL
        }         else if text == "application/gzip"@ {
            WellKnownMimeType::APPLICATION_GZIP
        }         else if text == "application/javascript"@ {
            WellKnownMimeType::APPLICATION_JAVASCRIPT
        }         else if text == "application/json"@ {
            WellKnownMimeType::APPLICATION_JSON
        }         else if text == "application/octet-stream"@ {
            WellKnownMimeType::APPLICATION_OCTET_STREAM
        }         else if text == "application/pdf"@ {
            WellKnownMimeType::APPLICATION_PDF
        }         else if text == "application/vnd.apache.thrift.binary"@ {
            WellKnownMimeType::APPLICATION_VND_APACHE_THRIFT_BINARY
        }         else if text == "application/vnd.google.protobuf"@ {
            WellKnownMimeType::APPLICATION_VND_GOOGLE_PROTOBUF
        }         else if text == "application/xml"@ {
            WellKnownMimeType::APPLICATION_XML
        }         else if text == "application/zip"@ {
            WellKnownMimeType::APPLICATION_ZIP
        }         else if text == "audio/aac"@ {
            WellKnownMimeType::AUDIO_AAC
        }         else if text == "audio/mp3"@ {
            WellKnownMimeType::AUDIO_MP3
        }         else if text == "audio/mp4"@ {
            WellKnownMimeType::AUDIO_MP4
        }         else if text == "audio/mpeg3"@ {
            WellKnownMimeType::AUDIO_MPEG3
        }         else if text == "audio/mpeg"@ {
            WellKnownMimeType::AUDIO_MPEG
        }         else if text == "audio/ogg"@ {
            WellKnownMimeType::AUDIO_OGG
        }         else if text == "audio/opus"@ {
            WellKnownMimeType::AUDIO_OPUS
        }         else if text == "audio/vorbis"@ {
            WellKnownMimeType::AUDIO_VORBIS
        }         else if text == "image/bmp"@ {
            WellKnownMimeType::IMAGE_BMP
        }         else if text == "image/gif"@ {
            WellKnownMimeType::IMAGE_GIF
        }         else if text == "image/heic-sequence"@ {
            WellKnownMimeType::IMAGE_HEIC_SEQUENCE
        }         else if text == "image/heic"@ {
            WellKnownMimeType::IMAGE_HEIC
        }         else if text == "image/heif-sequence"@ {
            WellKnownMimeType::IMAGE_HEIF_SEQUENCE
        }         else if text == "image/heif"@ {
            WellKnownMimeType::IMAGE_HEIF
        }         else if text == "image/jpeg"@ {
            WellKnownMimeType::IMAGE_JPEG
        }         else if text == "image/png"@ {
            WellKnownMimeType::IMAGE_PNG
        }         else if text == "image/tiff"@ {
            WellKnownMimeType::IMAGE_TIFF
        }         else if text == "multipart/mixed"@ {
            WellKnownMimeType::MULTIPART_MIXED
        }         else if text == "text/css"@ {
            WellKnownMimeType::TEXT_CSS
        }         else if text == "text/csv"@ {
            WellKnownMimeType::TEXT_CSV
        }         else if text == "text/html"@ {
            WellKnownMimeType::TEXT_HTML
        }         else if text == "text/plain"@ {
            WellKnownMimeType::TEXT_PLAIN
        }         else if text == "text/xml"@ {
            WellKnownMimeType::TEXT_XML
        }         else if text == "video/H264"@ {
            WellKnownMimeType::VIDEO_H264
        }         else if text == "video/H265"@ {
            WellKnownMimeType::VIDEO_H265
        }         else if text == "video/VP8"@ {
            WellKnownMimeType::VIDEO_VP8
        }         else if text == "application/x-hessian"@ {
            WellKnownMimeType::APPLICATION_X_HESSIAN
        }         else if text == "application/x-java-object"@ {
            WellKnownMimeType::APPLICATION_X_JAVA_OBJECT
        }         else if text == "application/cloudevents+json"@ {
            WellKnownMimeType::APPLICATION_CLOUDEVENTS_JSON
        }         else if text == "message/x.rsocket.mime.type.v0"@ {
            WellKnownMimeType::MESSAGE_X_RSOCKET_MIME_TYPE_V0
        }         else if text == "message/x.rsocket.accept.time.types.v0"@ {
            WellKnownMimeType::MESSAGE_X_RSOCKET_ACCEPT_TIME_TYPES_V0
        }         else if text == "message/x.rsocket.authentication.v0"@ {
            WellKnownMimeType::MESSAGE_X_RSOCKET_AUTHENTICATION_V0
        }         else if text == "message/x.rsocket.tracing.zipkin.v0"@ {
            WellKnownMimeType::MESSAGE_X_RSOCKET_TRACING_ZIPKIN_V0
        }         else if text == "message/x.rsocket.routing.v0"@ {
            WellKnownMimeType::MESSAGE_X_RSOCKET_ROUTING_V0
        }         else if text == "message/x.rsocket.composite.metadata.v0"@ {
            WellKnownMimeType::MESSAGE_X_RSOCKET_COMPOSITE_METADATA_V0
        } else {
            WellKnownMimeType::UNPARSEABLE
        }
    }

    /// The name of the MIME type; the empty text for `UNPARSEABLE`.
    pub open spec fn name(self) -> &'static str {
        match self {
            WellKnownMimeType::UNPARSEABLE => "",
            WellKnownMimeType::APPLICATION_AVRO => "application/avro",
            WellKnownMimeType::APPLICATION_CBOR => "application/cbor",
            WellKnownMimeType::APPLICATION_GRAPHQL => "application/graphql",
            WellKnownMimeType::APPLICATION_GZIP => "application/gzip",
            WellKnownMimeType::APPLICATION_JAVASCRIPT => "application/javascript",
            WellKnownMimeType::APPLICATION_JSON => "application/json",
            WellKnownMimeType::APPLICATION_OCTET_STREAM => "application/octet-stream",
            WellKnownMimeType::APPLICATION_PDF => "application/pdf",
            WellKnownMimeType::APPLICATION_VND_APACHE_THRIFT_BINARY => "application/vnd.apache.thrift.binary",
            WellKnownMimeType::APPLICATION_VND_GOOGLE_PROTOBUF => "application/vnd.google.protobuf",
            WellKnownMimeType::APPLICATION_XML => "application/xml",
            WellKnownMimeType::APPLICATION_ZIP => "application/zip",
            WellKnownMimeType::AUDIO_AAC => "audio/aac",
            WellKnownMimeType::AUDIO_MP3 => "audio/mp3",
            WellKnownMimeType::AUDIO_MP4 => "audio/mp4",
            WellKnownMimeType::AUDIO_MPEG3 => "audio/mpeg3",
            WellKnownMimeType::AUDIO_MPEG => "audio/mpeg",
            WellKnownMimeType::AUDIO_OGG => "audio/ogg",
            WellKnownMimeType::AUDIO_OPUS => "audio/opus",
            WellKnownMimeType::AUDIO_VORBIS => "audio/vorbis",
            WellKnownMimeType::IMAGE_BMP => "image/bmp",
            WellKnownMimeType::IMAGE_GIF => "image/gif",
            WellKnownMimeType::IMAGE_HEIC_SEQUENCE => "image/heic-sequence",
            WellKnownMimeType::IMAGE_HEIC => "image/heic",
            WellKnownMimeType::IMAGE_HEIF_SEQUENCE => "image/heif-sequence",
            WellKnownMimeType::IMAGE_HEIF => "image/heif",
            WellKnownMimeType::IMAGE_JPEG => "image/jpeg",
            WellKnownMimeType::IMAGE_PNG => "image/png",
            WellKnownMimeType::IMAGE_TIFF => "image/tiff",
            WellKnownMimeType::MULTIPART_MIXED => "multipart/mixed",
            WellKnownMimeType::TEXT_CSS => "text/css",
            WellKnownMimeType::TEXT_CSV => "text/csv",
            WellKnownMimeType::TEXT_HTML => "text/html",
            WellKnownMimeType::TEXT_PLAIN => "text/plain",
            WellKnownMimeType::TEXT_XML => "text/xml",
            WellKnownMimeType::VIDEO_H264 => "video/H264",
            WellKnownMimeType::VIDEO_H265 => "video/H265",
            WellKnownMimeType::VIDEO_VP8 => "video/VP8",
            WellKnownMimeType::APPLICATION_X_HESSIAN => "application/x-hessian",
            WellKnownMimeType::APPLICATION_X_JAVA_OBJECT => "application/x-java-object",
            WellKnownMimeType::APPLICATION_CLOUDEVENTS_JSON => "application/cloudevents+json",
            WellKnownMimeType::MESSAGE_X_RSOCKET_MIME_TYPE_V0 => "message/x.rsocket.mime.type.v0",
            WellKnownMimeType::MESSAGE_X_RSOCKET_ACCEPT_TIME_TYPES_V0 => "message/x.rsocket.accept.time.types.v0",
            WellKnownMimeType::MESSAGE_X_RSOCKET_AUTHENTICATION_V0 => "message/x.rsocket.authentication.v0",
            WellKnownMimeType::MESSAGE_X_RSOCKET_TRACING_ZIPKIN_V0 => "message/x.rsocket.tracing.zipkin.v0",
            WellKnownMimeType::MESSAGE_X_RSOCKET_ROUTING_V0 => "message/x.rsocket.routing.v0",
            WellKnownMimeType::MESSAGE_X_RSOCKET_COMPOSITE_METADATA_V0 => "message/x.rsocket.composite.metadata.v0",
        }
    }

    /// The characters of the name of the MIME type.
    pub open spec fn text(self) -> Seq<char> {
        self.name()@
    }

    /// Returns the name of the MIME type; the empty text for `UNPARSEABLE`.
    pub fn as_str(self) -> (r: &'static str)
        ensures
            r == self.name(),
            r@ == self.text(),
    {
        match self {
            WellKnownMimeType::UNPARSEABLE => "",
            WellKnownMimeType::APPLICATION_AVRO => "application/avro",
            WellKnownMimeType::APPLICATION_CBOR => "application/cbor",
            WellKnownMimeType::APPLICATION_GRAPHQL => "application/graphql",
            WellKnownMimeType::APPLICATION_GZIP => "application/gzip",
            WellKnownMimeType::APPLICATION_JAVASCRIPT => "application/javascript",
            WellKnownMimeType::APPLICATION_JSON => "application/json",
            WellKnownMimeType::APPLICATION_OCTET_STREAM => "application/octet-stream",
            WellKnownMimeType::APPLICATION_PDF => "application/pdf",
            WellKnownMimeType::APPLICATION_VND_APACHE_THRIFT_BINARY => "application/vnd.apache.thrift.binary",
            WellKnownMimeType::APPLICATION_VND_GOOGLE_PROTOBUF => "application/vnd.google.protobuf",
            WellKnownMimeType::APPLICATION_XML => "application/xml",
            WellKnownMimeType::APPLICATION_ZIP => "application/zip",
            WellKnownMimeType::AUDIO_AAC => "audio/aac",
            WellKnownMimeType::AUDIO_MP3 => "audio/mp3",
            WellKnownMimeType::AUDIO_MP4 => "audio/mp4",
            WellKnownMimeType::AUDIO_MPEG3 => "audio/mpeg3",
            WellKnownMimeType::AUDIO_MPEG => "audio/mpeg",
            WellKnownMimeType::AUDIO_OGG => "audio/ogg",
            WellKnownMimeType::AUDIO_OPUS => "audio/opus",
            WellKnownMimeType::AUDIO_VORBIS => "audio/vorbis",
            WellKnownMimeType::IMAGE_BMP => "image/bmp",
            WellKnownMimeType::IMAGE_GIF => "image/gif",
            WellKnownMimeType::IMAGE_HEIC_SEQUENCE => "image/heic-sequence",
            WellKnownMimeType::IMAGE_HEIC => "image/heic",
            WellKnownMimeType::IMAGE_HEIF_SEQUENCE => "image/heif-sequence",
            WellKnownMimeType::IMAGE_HEIF => "image/heif",
            WellKnownMimeType::IMAGE_JPEG => "image/jpeg",
            WellKnownMimeType::IMAGE_PNG => "image/png",
            WellKnownMimeType::IMAGE_TIFF => "image/tiff",
            WellKnownMimeType::MULTIPART_MIXED => "multipart/mixed",
            WellKnownMimeType::TEXT_CSS => "text/css",
            WellKnownMimeType::TEXT_CSV => "text/csv",
            WellKnownMimeType::TEXT_HTML => "text/html",
            WellKnownMimeType::TEXT_PLAIN => "text/plain",
            WellKnownMimeType::TEXT_XML => "text/xml",
            WellKnownMimeType::VIDEO_H264 => "video/H264",
            WellKnownMimeType::VIDEO_H265 => "video/H265",
            WellKnownMimeType::VIDEO_VP8 => "video/VP8",
            WellKnownMimeType::APPLICATION_X_HESSIAN => "application/x-hessian",
            WellKnownMimeType::APPLICATION_X_JAVA_OBJECT => "application/x-java-object",
            WellKnownMimeType::APPLICATION_CLOUDEVENTS_JSON => "application/cloudevents+json",
            WellKnownMimeType::MESSAGE_X_RSOCKET_MIME_TYPE_V0 => "message/x.rsocket.mime.type.v0",
            WellKnownMimeType::MESSAGE_X_RSOCKET_ACCEPT_TIME_TYPES_V0 => "message/x.rsocket.accept.time.types.v0",
            WellKnownMimeType::MESSAGE_X_RSOCKET_AUTHENTICATION_V0 => "message/x.rsocket.authentication.v0",
            WellKnownMimeType::MESSAGE_X_RSOCKET_TRACING_ZIPKIN_V0 => "message/x.rsocket.tracing.zipkin.v0",
            WellKnownMimeType::MESSAGE_X_RSOCKET_ROUTING_V0 => "message/x.rsocket.routing.v0",
            WellKnownMimeType::MESSAGE_X_RSOCKET_COMPOSITE_METADATA_V0 => "message/x.rsocket.composite.metadata.v0",
        }
    }
}

impl vstd::std_specs::convert::FromSpecImpl<&str> for WellKnownMimeType {
    open spec fn obeys_from_spec() -> bool {
        true
    }

    open spec fn from_spec(v: &str) -> WellKnownMimeType {
        WellKnownMimeType::of_text(v@)
    }
}

impl From<&str> for WellKnownMimeType {
    /// The well-known MIME type that `v` names; `UNPARSEABLE` where it names none.
    fn from(v: &str) -> (r: WellKnownMimeType)
        ensures
            r == WellKnownMimeType::of_text(v@),
    {
        if same_text(v, "application/avro") {
            WellKnownMimeType::APPLICATION_AVRO
        }         else if same_text(v, "application/cbor") {
            WellKnownMimeType::APPLICATION_CBOR
        }         else if same_text(v, "application/graphql") {
            WellKnownMimeType::APPLICATION_GRAPHQL
        }         else if same_text(v, "application/gzip") {
            WellKnownMimeType::APPLICATION_GZIP
        }         else if same_text(v, "application/javascript") {
            WellKnownMimeType::APPLICATION_JAVASCRIPT
        }         else if same_text(v, "application/json") {
            WellKnownMimeType::APPLICATION_JSON
        }         else if same_text(v, "application/octet-stream") {
            WellKnownMimeType::APPLICATION_OCTET_STREAM
        }         else if same_text(v, "application/pdf") {
            WellKnownMimeType::APPLICATION_PDF
        }         else if same_text(v, "application/vnd.apache.thrift.binary") {
            WellKnownMimeType::APPLICATION_VND_APACHE_THRIFT_BINARY
        }         else if same_text(v, "application/vnd.google.protobuf") {
            WellKnownMimeType::APPLICATION_VND_GOOGLE_PROTOBUF
        }         else if same_text(v, "application/xml") {
            WellKnownMimeType::APPLICATION_XML
        }         else if same_text(v, "application/zip") {
            WellKnownMimeType::APPLICATION_ZIP
        }         else if same_text(v, "audio/aac") {
            WellKnownMimeType::AUDIO_AAC
        }         else if same_text(v, "audio/mp3") {
            WellKnownMimeType::AUDIO_MP3
        }         else if same_text(v, "audio/mp4") {
            WellKnownMimeType::AUDIO_MP4
        }         else if same_text(v, "audio/mpeg3") {
            WellKnownMimeType::AUDIO_MPEG3
        }         else if same_text(v, "audio/mpeg") {
            WellKnownMimeType::AUDIO_MPEG
        }         else if same_text(v, "audio/ogg") {
            WellKnownMimeType::AUDIO_OGG
        }         else if same_text(v, "audio/opus") {
            WellKnownMimeType::AUDIO_OPUS
        }         else if same_text(v, "audio/vorbis") {
            WellKnownMimeType::AUDIO_VORBIS
        }         else if same_text(v, "image/bmp") {
            WellKnownMimeType::IMAGE_BMP
        }         else if same_text(v, "image/gif") {
            WellKnownMimeType::IMAGE_GIF
        }         else if same_text(v, "image/heic-sequence") {
            WellKnownMimeType::IMAGE_HEIC_SEQUENCE
        }         else if same_text(v, "image/heic") {
            WellKnownMimeType::IMAGE_HEIC
        }         else if same_text(v, "image/heif-sequence") {
            WellKnownMimeType::IMAGE_HEIF_SEQUENCE
        }         else if same_text(v, "image/heif") {
            WellKnownMimeType::IMAGE_HEIF
        }         else if same_text(v, "image/jpeg") {
            WellKnownMimeType::IMAGE_JPEG
        }         else if same_text(v, "image/png") {
            WellKnownMimeType::IMAGE_PNG
        }         else if same_text(v, "image/tiff") {
            WellKnownMimeType::IMAGE_TIFF
        }         else if same_text(v, "multipart/mixed") {
            WellKnownMimeType::MULTIPART_MIXED
        }         else if same_text(v, "text/css") {
            WellKnownMimeType::TEXT_CSS
        }         else if same_text(v, "text/csv") {
            WellKnownMimeType::TEXT_CSV
        }         else if same_text(v, "text/html") {
            WellKnownMimeType::TEXT_HTML
        }         else if same_text(v, "text/plain") {
            WellKnownMimeType::TEXT_PLAIN
        }         else if same_text(v, "text/xml") {
            WellKnownMimeType::TEXT_XML
        }         else if same_text(v, "video/H264") {
            WellKnownMimeType::VIDEO_H264
        }         else if same_text(v, "video/H265") {
            WellKnownMimeType::VIDEO_H265
        }         else if same_text(v, "video/VP8") {
            WellKnownMimeType::VIDEO_VP8
        }         else if same_text(v, "application/x-hessian") {
            WellKnownMimeType::APPLICATION_X_HESSIAN
        }         else if same_text(v, "application/x-java-object") {
            WellKnownMimeType::APPLICATION_X_JAVA_OBJECT
        }         else if same_text(v, "application/cloudevents+json") {
            WellKnownMimeType::APPLICATION_CLOUDEVENTS_JSON
        }         else if same_text(v, "message/x.rsocket.mime.type.v0") {
            WellKnownMimeType::MESSAGE_X_RSOCKET_MIME_TYPE_V0
        }         else if same_text(v, "message/x.rsocket.accept.time.types.v0") {
            WellKnownMimeType::MESSAGE_X_RSOCKET_ACCEPT_TIME_TYPES_V0
        }         else if same_text(v, "message/x.rsocket.authentication.v0") {
            WellKnownMimeType::MESSAGE_X_RSOCKET_AUTHENTICATION_V0
        }         else if same_text(v, "message/x.rsocket.tracing.zipkin.v0") {
            WellKnownMimeType::MESSAGE_X_RSOCKET_TRACING_ZIPKIN_V0
        }         else if same_text(v, "message/x.rsocket.routing.v0") {
            WellKnownMimeType::MESSAGE_X_RSOCKET_ROUTING_V0
        }         else if same_text(v, "message/x.rsocket.composite.metadata.v0") {
            WellKnownMimeType::MESSAGE_X_RSOCKET_COMPOSITE_METADATA_V0
        } else {
            WellKnownMimeType::UNPARSEABLE
        }
    }
}

impl vstd::std_specs::convert::FromSpecImpl<WellKnownMimeType> for &'static str {
    open spec fn obeys_from_spec() -> bool {
        true
    }

    open spec fn from_spec(t: WellKnownMimeType) -> &'static str {
        t.name()
    }
}

impl From<WellKnownMimeType> for &'static str {
    /// The name of the MIME type; the empty text for `UNPARSEABLE`.
    fn from(t: WellKnownMimeType) -> (r: &'static str)
        ensures
            r == t.name(),
    {
        t.as_str()
    }
}

} // verus!
