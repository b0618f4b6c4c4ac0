use iso7816::command::{DataSource, DataStream};
use iso7816::tlv::{get_do, take_len, take_tag, Tag, Tlv};
use iso7816::somebytes::ShortBytes;
use iso7816::{Response, Status};

fn hex(s: &str) -> Vec<u8> {
    let digits: Vec<u8> = s.bytes().filter(|c| !c.is_ascii_whitespace()).collect();
    digits
        .chunks(2)
        .map(|pair| u8::from_str_radix(std::str::from_utf8(pair).unwrap(), 16).unwrap())
        .collect()
}

#[test]
fn dos() {
    assert_eq!(
        get_do(&[0x02u16].map(Tag::from), &hex("02 02 1DB9 02 02 1DB9")),
        Some(hex("1DB9").as_slice())
    );
    assert_eq!(
        get_do(
            &[0xA6u16, 0x7F49, 0x86].map(Tag::from),
            &hex("A6 26 7F49 23 86 21 04 2525252525252525252525252525252525252525252525252525252525252525")
        ),
        Some(hex("04 2525252525252525252525252525252525252525252525252525252525252525").as_slice())
    );

    // Multiple nested
    assert_eq!(
        get_do(
            &[0xA6u16, 0x7F49, 0x86].map(Tag::from),
            &hex("A6 2A 02 02 DEAD 7F49 23 86 21 04 2525252525252525252525252525252525252525252525252525252525252525")
        ),
        Some(hex("04 2525252525252525252525252525252525252525252525252525252525252525").as_slice())
    );
}

#[test]
fn tlv_pieces() {
    assert_eq!(take_len(&[0x05, 0xAA]), Some((5, [0xAA].as_slice())));
    assert_eq!(take_len(&[0x81, 0x80, 0xAA]), Some((0x80, [0xAA].as_slice())));
    assert_eq!(take_len(&[0x82, 0x01, 0x00]), Some((0x100, [].as_slice())));
    assert_eq!(take_len(&[0x83, 0x01, 0x00]), None);
    assert_eq!(take_len(&[]), None);
    assert_eq!(take_tag(&[0x5F, 0x41, 0x05]), Some((Tag::from(0x5F41u16), [0x05].as_slice())));
    let (tag, rest) = take_tag(&[0x5F, 0xC1, 0x05]).unwrap();
    assert_eq!(tag.serialize().as_slice(), &[0x5F, 0xC1, 0x05]);
    assert!(rest.is_empty());
    assert_eq!(take_tag(&[0x1F, 0x80]), None);
    let (tag, rest) = take_tag(&[0x7F, 0x81, 0x01, 0xAA]).unwrap();
    assert_eq!(tag.serialize().as_slice(), &[0x7F, 0x81, 0x01]);
    assert_eq!(rest, &[0xAA]);
    assert_eq!(Tag::from(0x7F49u16).serialize().as_slice(), &[0x7F, 0x49, 0x00]);
    assert_eq!(Tag::from([0x00, 0x00, 0x86]).serialize().as_slice(), &[0x86, 0x00, 0x00]);
    assert_eq!(get_do(&[Tag::from(0x03u8)], &hex("02 01 AA")), None);
}

#[test]
fn status_words() {
    assert_eq!(Status::from_u16(0x9000), Status::Success);
    assert_eq!(Status::from_u16(0x6A82), Status::NotFound);
    assert_eq!(Status::from_u16(0x61FF), Status::MoreAvailable(0xFF));
    assert_eq!(Status::from_u16(0x63C3), Status::RemainingRetries(3));
    assert_eq!(Status::from_u16(0x6C10), Status::WrongLeField(0x10));
    assert_eq!(Status::from_u16(0x1234), Status::__Unknown(0x1234));
    assert_eq!(Status::from((0x69u8, 0x82u8)), Status::SecurityStatusNotSatisfied);
    assert_eq!(Status::from([0x67u8, 0x00u8]), Status::WrongLength);
    assert_eq!(Status::RemainingRetries(2).to_u16(), 0x63C2);
    assert_eq!(Status::MoreAvailable(0x10).to_u16(), 0x6110);
    assert_eq!(Status::from_u16(0x6202), Status::WarningTriggering(0x02));
    assert_eq!(Status::ErrorTriggering(0x80).to_u16(), 0x6480);
    assert_eq!(u16::from(Status::KeyReferenceNotFound), 0x6A88);
    assert_eq!(<[u8; 2]>::from(Status::Success), [0x90, 0x00]);
    for sw in [0x9000u16, 0x6982, 0x6A80, 0x6D00, 0x1234, 0x6202, 0x6280, 0x6402, 0x6480, 0x63C5, 0x61AB, 0x6C01] {
        assert_eq!(Status::from_u16(sw).to_u16(), sw);
    }
    assert_eq!(Response::<8>::default(), Response::Status(Status::Success));
}

#[test]
fn short_bytes_hold_their_slice() {
    let b = ShortBytes::from_slice(&[0x82, 0x01, 0x00]);
    assert_eq!(b.as_slice(), &[0x82, 0x01, 0x00]);
    assert_eq!(b.len(), 3);
    assert_eq!(ShortBytes::from_slice(&[]).len(), 0);
}

#[test]
fn tlv_object_is_written_whole() {
    let value = [0xAAu8; 200];
    let tlv = Tlv::new(Tag::from(0x7F49u16), value.as_slice());
    assert_eq!(tlv.len(), 3 + 2 + 200);
    let mut out: Vec<u8> = Vec::new();
    tlv.to_writer(&mut out).unwrap();
    assert_eq!(&out[..5], &[0x7F, 0x49, 0x00, 0x81, 0xC8]);
    assert_eq!(&out[5..], value.as_slice());
    assert!(!tlv.is_empty());
}

#[test]
fn tlv_value_too_long_is_refused_when_written() {
    let value = vec![0u8; 0x1_0000];
    let tlv = Tlv::new(Tag::from(0x86u8), value.as_slice());
    let mut out: Vec<u8> = Vec::new();
    assert!(tlv.to_writer(&mut out).is_err());
    assert_eq!(tlv.len(), 3 + 0x1_0000);
}
