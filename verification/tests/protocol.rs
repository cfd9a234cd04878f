use plesio_core::apdu::class::ApduChannel;
use plesio_core::apdu::class::ApduClass;
use plesio_core::apdu::class::Iso7816Class as LegacyClass;
use plesio_core::apdu::response::ApduResponse;
use plesio_core::apdu::status::ApduStatus;
use plesio_core::apdu::status::is;
use plesio_core::iso7816::channel::Iso7816Channel;
use plesio_core::iso7816::class::Iso7816Class;
use plesio_core::iso7816::class::SecureMessaging;
use plesio_core::iso7816::status::has_more_data;
use plesio_core::iso7816::status::has_wrong_length;
use plesio_core::iso7816::status::success;
use plesio_core::iso7816::tlv::TaggedSlice;
use plesio_core::iso7816::tlv_iter::TlvIterator;

fn is_reserved_basic(b: u8) -> bool {
    (b & 0x40) == 0 && ((b & 0x20) != 0 || (b & 0x0C) == 0x04)
}

#[test]
fn class_byte_round_trip_all_accepted_bytes() {
    for b in 0u8..=0x7F {
        if is_reserved_basic(b) {
            continue;
        }
        let class = Iso7816Class::from_u8(b).expect("byte in accepted range must decode");
        assert_eq!(class.to_u8(), b);
    }
}

#[test]
fn class_byte_rejection() {
    for b in 0x80u8..=0xFF {
        assert!(Iso7816Class::from_u8(b).is_none());
    }
    for b in 0u8..=0x7F {
        if is_reserved_basic(b) {
            assert!(Iso7816Class::from_u8(b).is_none());
        }
    }
    // the reserved basic secure-messaging pattern (bits 3-2 == 01)
    assert!(Iso7816Class::from_u8(0x04).is_none());
    // bit 5 set in the basic range
    assert!(Iso7816Class::from_u8(0x20).is_none());
}

#[test]
fn class_byte_chaining_flag() {
    let class = Iso7816Class::from_u8(0x00).unwrap();
    assert!(!class.is_chaining());
    let chained = class.with_chaining();
    assert!(chained.is_chaining());
    assert_eq!(chained.to_u8(), 0x10);
    // the original value is untouched and chaining is idempotent
    assert!(!class.is_chaining());
    assert_eq!(chained.with_chaining().to_u8(), 0x10);
}

#[test]
fn class_byte_extended_range_channels() {
    // 0x4A: extended range, channel bits 0b1010 -> channel 14
    let class = Iso7816Class::from_u8(0x4A).unwrap();
    assert_eq!(class.to_u8(), 0x4A);
    // 0x6F: extended, secure messaging, channel 19
    let class = Iso7816Class::from_u8(0x6F).unwrap();
    assert_eq!(class.to_u8(), 0x6F);
}

#[test]
fn legacy_class_accepts_every_byte_below_0x80() {
    for b in 0u8..=0x7F {
        let class = LegacyClass::from_u8(b).expect("legacy codec accepts the whole low range");
        if (b & 0x40) != 0 {
            // the legacy encoder keeps chaining, secure messaging and the
            // channel nibble, but never emits the range bit itself
            assert_eq!(class.to_u8(), b & 0x3F);
        } else {
            // in the basic range only chaining, the secure-messaging bits
            // and the channel bits survive
            assert_eq!(class.to_u8(), b & 0x1F);
        }
    }
    for b in 0x80u8..=0xFF {
        assert!(LegacyClass::from_u8(b).is_none());
    }
}

#[test]
fn legacy_class_keeps_proprietary_pattern() {
    // bits 3-2 == 01 is kept as the proprietary secure-messaging value
    let class = LegacyClass::from_u8(0x04).unwrap();
    assert!(matches!(
        class,
        LegacyClass::Basic { secure_messaging: plesio_core::apdu::class::SecureMessaging::Proprietary, .. }
    ));
    assert_eq!(class.to_u8(), 0x04);
}

#[test]
fn status_word_codes() {
    let status = ApduStatus::new(0x90, 0x00);
    assert_eq!(status.code1(), 0x90);
    assert_eq!(status.code2(), 0x00);
    assert_eq!(status.as_u16(), 0x9000);
    assert_eq!(success().as_u16(), 0x9000);
}

#[test]
fn status_word_expect_and_matches_if() {
    let ok = ApduStatus::new(0x90, 0x00);
    assert!(ok.expect(is(success())).is_ok());
    let not_found = ApduStatus::new(0x6A, 0x82);
    let err = not_found.expect(is(success())).unwrap_err();
    assert_eq!(err.as_u16(), 0x6A82);
    let more = ApduStatus::new(0x61, 0x05);
    assert_eq!(more.matches_if(has_more_data).unwrap(), 5);
    let err = ok.matches_if(has_more_data).unwrap_err();
    assert_eq!(err.as_u16(), 0x9000);
}

#[test]
fn more_data_and_wrong_length_decoding() {
    assert_eq!(has_more_data(ApduStatus::new(0x61, 0x00)), Some(256));
    assert_eq!(has_more_data(ApduStatus::new(0x61, 0x05)), Some(5));
    assert_eq!(has_wrong_length(ApduStatus::new(0x6C, 0x00)), Some(256));
    assert_eq!(has_wrong_length(ApduStatus::new(0x6C, 0x10)), Some(16));
    assert_eq!(has_more_data(ApduStatus::new(0x90, 0x00)), None);
    assert_eq!(has_more_data(ApduStatus::new(0x6C, 0x05)), None);
    assert_eq!(has_wrong_length(ApduStatus::new(0x61, 0x05)), None);
    assert_eq!(has_wrong_length(ApduStatus::new(0x6A, 0x82)), None);
}

#[test]
fn response_split() {
    let raw = [1u8, 2, 3, 0x90, 0x00];
    let resp = ApduResponse::parse(&raw).expect("five bytes split into data and status");
    assert_eq!(resp.data(), &[1, 2, 3]);
    assert_eq!(resp.status().as_u16(), 0x9000);

    let raw = [0x6A, 0x82];
    let resp = ApduResponse::parse(&raw).unwrap();
    assert_eq!(resp.data().len(), 0);
    assert_eq!(resp.status().as_u16(), 0x6A82);

    assert!(ApduResponse::parse(&[0x90]).is_none());
    assert!(ApduResponse::parse(&[]).is_none());
}

#[test]
fn response_expect_status() {
    let raw = [7u8, 8, 0x90, 0x00];
    let resp = ApduResponse::parse(&raw).unwrap();
    assert_eq!(resp.expect_status(is(success())).unwrap(), vec![7, 8]);

    let raw = [7u8, 8, 0x6A, 0x82];
    let resp = ApduResponse::parse(&raw).unwrap();
    let err = resp.expect_status(is(success())).unwrap_err();
    assert_eq!(err.data(), &[7, 8]);
    assert_eq!(err.status().as_u16(), 0x6A82);
}

#[test]
fn response_empty() {
    let resp = ApduResponse::empty(ApduStatus::new(0x64, 0x00));
    assert_eq!(resp.data().len(), 0);
    assert_eq!(resp.status().as_u16(), 0x6400);
}

#[test]
fn tlv_iteration() {
    let bytes = [0x6Fu8, 2, 1, 2, 0x81, 1, 9];
    let mut iter = TlvIterator::new(&bytes);
    let first = iter.next().unwrap();
    assert_eq!(first.tag(), 0x6F);
    assert_eq!(first.value(), &[1, 2]);
    let second = iter.next().unwrap();
    assert_eq!(second.tag(), 0x81);
    assert_eq!(second.value(), &[9]);
    assert!(iter.next().is_none());
}

#[test]
fn tlv_truncated_trailing_entry_is_dropped() {
    // the second entry declares five value bytes but only one remains
    let bytes = [0x6Fu8, 2, 1, 2, 0x42, 5, 1];
    let mut iter = TlvIterator::new(&bytes);
    let first = iter.next().unwrap();
    assert_eq!(first.tag(), 0x6F);
    assert!(iter.next().is_none());

    // a lone tag byte is not an entry either
    let mut iter = TlvIterator::new(&[0x6F]);
    assert!(iter.next().is_none());
}

#[test]
fn tlv_get_finds_first_matching_tag() {
    let bytes = [0x6Fu8, 1, 10, 0x81, 1, 20, 0x81, 1, 30];
    let hit = TlvIterator::new(&bytes).get(0x81).unwrap();
    assert_eq!(hit.value(), &[20]);
    assert!(TlvIterator::new(&bytes).get(0x99).is_none());
}

#[test]
fn tagged_slice_next_and_accessors() {
    let bytes = [0x5Au8, 3, 1, 2, 3, 0xFF];
    let (entry, rest) = TaggedSlice::next(&bytes).unwrap();
    assert_eq!(entry.tag(), 0x5A);
    assert_eq!(entry.value(), &[1, 2, 3]);
    assert_eq!(rest, &[0xFF]);
    assert!(TaggedSlice::next(rest).is_none());

    let built = TaggedSlice::from(0x4F, vec![9, 9]);
    assert_eq!(built.tag(), 0x4F);
    assert_eq!(built.value(), &[9, 9]);
}

#[test]
fn channel_and_secure_messaging_defaults() {
    assert_eq!(ApduChannel::default(), ApduChannel::Basic(0));
    assert_eq!(Iso7816Channel::default(), Iso7816Channel::Basic(0));
    assert_eq!(SecureMessaging::default(), SecureMessaging::NotUsed);
    assert_eq!(Iso7816Class::default().to_u8(), 0x00);
}

#[test]
fn wrong_length_zero_means_256() {
    // both announcement families share the 0 -> 256 convention
    assert_eq!(has_wrong_length(ApduStatus::new(0x6C, 0xFF)), Some(255));
    assert_eq!(has_more_data(ApduStatus::new(0x61, 0x01)), Some(1));
}
