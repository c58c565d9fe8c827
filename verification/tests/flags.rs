use binate::frame::{Flags, FrameType};

#[test]
fn from_value() {
    assert_eq!(FrameType::from_value(0x01).unwrap(), FrameType::SETUP);
    assert_eq!(FrameType::from_value(0x02).unwrap(), FrameType::LEASE);
    assert_eq!(FrameType::from_value(0x03).unwrap(), FrameType::KEEPALIVE);
    assert_eq!(FrameType::from_value(0x04).unwrap(), FrameType::REQUEST_RESPONSE);
    assert_eq!(FrameType::from_value(0x05).unwrap(), FrameType::REQUEST_FNF);
    assert_eq!(FrameType::from_value(0x06).unwrap(), FrameType::REQUEST_STREAM);
    assert_eq!(FrameType::from_value(0x07).unwrap(), FrameType::REQUEST_CHANNEL);
    assert_eq!(FrameType::from_value(0x08).unwrap(), FrameType::REQUEST_N);
    assert_eq!(FrameType::from_value(0x09).unwrap(), FrameType::CANCEL);
    assert_eq!(FrameType::from_value(0x0A).unwrap(), FrameType::PAYLOAD);
    assert_eq!(FrameType::from_value(0x0B).unwrap(), FrameType::ERROR);
    assert_eq!(FrameType::from_value(0x0C).unwrap(), FrameType::METADATA_PUSH);
    assert_eq!(FrameType::from_value(0x0D).unwrap(), FrameType::RESUME);
    assert_eq!(FrameType::from_value(0x0E).unwrap(), FrameType::RESUME_OK);
    assert_eq!(FrameType::from_value(0x3F).unwrap(), FrameType::EXT);
    assert!(FrameType::from_value(0x00).is_none());
}

#[test]
fn from_bits() {
    assert_eq!(FrameType::from_bits(0x01 << 10).unwrap(), FrameType::SETUP);
    assert_eq!(FrameType::from_bits(0x02 << 10).unwrap(), FrameType::LEASE);
    assert_eq!(FrameType::from_bits(0x03 << 10).unwrap(), FrameType::KEEPALIVE);
    assert_eq!(FrameType::from_bits(0x04 << 10).unwrap(), FrameType::REQUEST_RESPONSE);
    assert_eq!(FrameType::from_bits(0x05 << 10).unwrap(), FrameType::REQUEST_FNF);
    assert_eq!(FrameType::from_bits(0x06 << 10).unwrap(), FrameType::REQUEST_STREAM);
    assert_eq!(FrameType::from_bits(0x07 << 10).unwrap(), FrameType::REQUEST_CHANNEL);
    assert_eq!(FrameType::from_bits(0x08 << 10).unwrap(), FrameType::REQUEST_N);
    assert_eq!(FrameType::from_bits(0x09 << 10).unwrap(), FrameType::CANCEL);
    assert_eq!(FrameType::from_bits(0x0A << 10).unwrap(), FrameType::PAYLOAD);
    assert_eq!(FrameType::from_bits(0x0B << 10).unwrap(), FrameType::ERROR);
    assert_eq!(FrameType::from_bits(0x0C << 10).unwrap(), FrameType::METADATA_PUSH);
    assert_eq!(FrameType::from_bits(0x0D << 10).unwrap(), FrameType::RESUME);
    assert_eq!(FrameType::from_bits(0x0E << 10).unwrap(), FrameType::RESUME_OK);
    assert_eq!(FrameType::from_bits(0x3F << 10).unwrap(), FrameType::EXT);
    assert!(FrameType::from_bits(0x00).is_none());
}

#[test]
fn value() {
    assert_eq!(FrameType::SETUP.value(), 0x01);
}

#[test]
fn bits() {
    assert_eq!(FrameType::SETUP.bits(), 0b0000_0100_0000_0000);
}

#[test]
fn every_frame_type_is_found_again() {
    let all = [
        FrameType::SETUP,
        FrameType::LEASE,
        FrameType::KEEPALIVE,
        FrameType::REQUEST_RESPONSE,
        FrameType::REQUEST_FNF,
        FrameType::REQUEST_STREAM,
        FrameType::REQUEST_CHANNEL,
        FrameType::REQUEST_N,
        FrameType::CANCEL,
        FrameType::PAYLOAD,
        FrameType::ERROR,
        FrameType::METADATA_PUSH,
        FrameType::RESUME,
        FrameType::RESUME_OK,
        FrameType::EXT,
    ];
    for t in all {
        assert_eq!(FrameType::from_value(t.value()), Some(t));
        assert_eq!(FrameType::from_bits(t.bits()), Some(t));
        assert_eq!(FrameType::from_bits(t.bits() | 0x3FF), Some(t));
        assert_eq!(t.bits(), t.value() << 10);
    }
    for value in 0x0F..0x3Fu16 {
        assert_eq!(FrameType::from_value(value), None);
        assert_eq!(FrameType::from_bits(value << 10), None);
    }
    assert_eq!(FrameType::from_value(0x40), None);
}

#[test]
fn flag_bits() {
    assert_eq!(Flags::empty().bits(), 0);
    assert_eq!(Flags::ignore().bits(), 0b01_0000_0000);
    assert_eq!(Flags::metadata().bits(), 0b00_1000_0000);
    assert_eq!(Flags::follows().bits(), 0b00_0100_0000);
    assert_eq!(Flags::resume().bits(), 0b00_0100_0000);
    assert_eq!(Flags::respond().bits(), 0b00_0100_0000);
    assert_eq!(Flags::complete().bits(), 0b00_0010_0000);
    assert_eq!(Flags::lease().bits(), 0b00_0010_0000);
    assert_eq!(Flags::next().bits(), 0b00_0001_0000);
    assert_eq!(Flags::all().bits(), 0b01_1111_0000);
}

#[test]
fn flag_sets() {
    let flags = Flags::metadata() | Flags::next();
    assert_eq!(flags.bits(), 0x090);
    assert!(flags.is_metadata());
    assert!(flags.is_next());
    assert!(!flags.is_ignore());
    assert!(!flags.is_follows());
    assert!(!flags.is_resume());
    assert!(!flags.is_respond());
    assert!(!flags.is_complete());
    assert!(!flags.is_lease());
    assert!(flags.contains(Flags::metadata()));
    assert!(flags.contains(Flags::empty()));
    assert!(!flags.contains(Flags::metadata() | Flags::follows()));
    assert_eq!(flags & Flags::metadata(), Flags::metadata());
    assert_eq!(flags.union(Flags::ignore()).bits(), 0x190);
    assert_eq!(flags.intersection(Flags::next()).bits(), 0x010);
    let shared = Flags::follows() | Flags::complete();
    assert!(shared.is_follows() && shared.is_resume() && shared.is_respond());
    assert!(shared.is_complete() && shared.is_lease());
    assert!(Flags::ignore().is_ignore());
}

#[test]
fn from_bits_truncate_keeps_only_flags() {
    assert_eq!(Flags::from_bits_truncate(0xFFFF), Flags::all());
    assert_eq!(Flags::from_bits_truncate(0x0403), Flags::empty());
    assert_eq!(Flags::from_bits_truncate(0x0280), Flags::metadata());
}
