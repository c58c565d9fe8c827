use binate::payload::{Payload, PayloadBuilder};
use bytes::Bytes;

#[test]
fn test_chunks() {
    let payload = Payload::builder()
        .set_metadata(Bytes::from("metadata"))
        .set_data(Bytes::from("data payload"))
        .build();

    let mut iter = payload.chunks(4);
    assert_eq!(
        iter.next(),
        Some(
            Payload::builder()
                .set_metadata(Bytes::from("meta"))
                .set_data(Bytes::from("data"))
                .build()
        )
    );
    assert_eq!(
        iter.next(),
        Some(
            Payload::builder()
                .set_metadata(Bytes::from("data"))
                .set_data(Bytes::from(" pay"))
                .build()
        )
    );
    assert_eq!(iter.next(), Some(Payload::builder().set_data(Bytes::from("load")).build()));
    assert_eq!(iter.next(), None);
    assert_eq!(iter.next(), None);
}

#[test]
fn smoke() {
    let payload = Payload::builder()
        .set_metadata(Bytes::from("metadata"))
        .set_data(Bytes::from("data payload"))
        .build();

    let mut iter = payload.chunks(4);
    assert_eq!(
        iter.next(),
        Some(
            Payload::builder()
                .set_metadata(Bytes::from("meta"))
                .set_data(Bytes::from("data"))
                .build()
        )
    );
    assert_eq!(
        iter.next(),
        Some(
            Payload::builder()
                .set_metadata(Bytes::from("data"))
                .set_data(Bytes::from(" pay"))
                .build()
        )
    );
    assert_eq!(iter.next(), Some(Payload::builder().set_data(Bytes::from("load")).build()));
    assert_eq!(iter.next(), None);
    assert_eq!(iter.next(), None);
}

#[test]
fn payload_chunks_len() {
    let payload = Payload::builder().build();
    assert_eq!(payload.chunks(1).len(), 0);

    let payload = Payload::builder()
        .set_metadata(Bytes::from("metadata"))
        .set_data(Bytes::from("data payload"))
        .build();
    assert_eq!(payload.clone().chunks(13).len(), 1);
    assert_eq!(payload.clone().chunks(12).len(), 1);
    assert_eq!(payload.clone().chunks(11).len(), 2);
    assert_eq!(payload.clone().chunks(10).len(), 2);
    assert_eq!(payload.clone().chunks(9).len(), 2);
    assert_eq!(payload.clone().chunks(8).len(), 2);
    assert_eq!(payload.clone().chunks(7).len(), 2);
    assert_eq!(payload.clone().chunks(6).len(), 2);
    assert_eq!(payload.clone().chunks(5).len(), 3);
    assert_eq!(payload.clone().chunks(4).len(), 3);
    assert_eq!(payload.clone().chunks(3).len(), 4);
    assert_eq!(payload.clone().chunks(2).len(), 6);
    assert_eq!(payload.chunks(1).len(), 12);
}

#[test]
fn payload_parts() {
    let payload = PayloadBuilder::new()
        .set_data(Bytes::from("data"))
        .set_metadata(Bytes::from("metadata"))
        .build();
    assert_eq!(payload.data().unwrap(), "data");
    assert_eq!(payload.metadata().unwrap(), "metadata");
    assert_eq!(payload.data_utf8(), Some("data"));
    assert_eq!(payload.metadata_utf8(), Some("metadata"));
    assert!(payload.has_data());
    assert!(payload.has_metadata());
    assert_eq!(payload.len(), 12);
    assert_eq!(payload.metadata_len(), 8);
    assert!(payload.exceeds(11));
    assert!(!payload.exceeds(12));
    assert!(payload.exceeds(0));
    assert!(!payload.exceeds(usize::MAX));
    assert!(!payload.is_empty());
    let (metadata, data) = payload.split();
    assert_eq!(metadata, Some(Bytes::from("metadata")));
    assert_eq!(data, Some(Bytes::from("data")));

    let empty = Payload::builder().build();
    assert!(empty.is_empty());
    assert_eq!(empty.len(), 0);
    assert!(!empty.has_data());
    assert!(!empty.has_metadata());
    assert_eq!(empty.data(), None);
    assert_eq!(empty.metadata(), None);
    assert_eq!(empty.data_utf8(), None);
    assert_eq!(empty, Payload::new(None, None));
    assert_eq!(empty, Payload::default());
}

#[test]
fn payload_that_is_no_text() {
    let payload = Payload::new(
        Some(Bytes::from_static(&[0xC3, 0x28])),
        Some(Bytes::from_static(&[0xFF])),
    );
    assert_eq!(payload.data_utf8(), None);
    assert_eq!(payload.metadata_utf8(), None);
    let text = Payload::new(None, Some(Bytes::from("h\u{e9}")));
    assert_eq!(text.data_utf8(), Some("h\u{e9}"));
}

#[test]
fn chunks_put_together_are_the_payload() {
    let metadata = "the metadata of the payload";
    let data = "and its data, which is longer than the metadata";
    for chunk_size in 1..60usize {
        let payload = Payload::builder()
            .set_metadata(Bytes::from(metadata))
            .set_data(Bytes::from(data))
            .build();
        let mut chunks = payload.chunks(chunk_size);
        let count = chunks.len();
        assert_eq!(count, (data.len() + chunk_size - 1) / chunk_size);
        assert_eq!(chunks.is_empty(), false);
        let mut joined_metadata = Vec::new();
        let mut joined_data = Vec::new();
        let mut seen = 0;
        while let Some(chunk) = chunks.next() {
            seen += 1;
            assert_eq!(chunks.len(), count - seen);
            if let Some(m) = chunk.metadata() {
                assert!(m.len() <= chunk_size);
                joined_metadata.extend_from_slice(m);
            }
            if let Some(d) = chunk.data() {
                assert!(d.len() <= chunk_size);
                joined_data.extend_from_slice(d);
            }
        }
        assert_eq!(seen, count);
        assert!(chunks.is_empty());
        assert_eq!(joined_metadata, metadata.as_bytes());
        assert_eq!(joined_data, data.as_bytes());
    }
}

#[test]
fn chunks_of_empty_parts() {
    let payload = Payload::new(Some(Bytes::new()), None);
    let mut chunks = payload.chunks(4);
    assert_eq!(chunks.len(), 0);
    assert!(chunks.is_empty());
    assert_eq!(chunks.next(), None);

    let payload = Payload::new(Some(Bytes::new()), Some(Bytes::from("abcdefgh")));
    let mut chunks = payload.chunks(4);
    assert_eq!(chunks.len(), 2);
    assert_eq!(chunks.next(), Some(Payload::new(Some(Bytes::new()), Some(Bytes::from("abcd")))));
    assert_eq!(chunks.next(), Some(Payload::new(None, Some(Bytes::from("efgh")))));
    assert_eq!(chunks.next(), None);
}
