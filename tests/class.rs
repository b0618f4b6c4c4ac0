use iso7816::class::{Chain, Class, Interindustry, Range, SecureMessaging};
use iso7816::Instruction;

#[test]
fn class_facets() {
    let c = Class::from_byte(0x00).unwrap();
    assert_eq!(c.range(), Range::Interindustry(Interindustry::First));
    assert_eq!(c.secure_messaging(), SecureMessaging::Absent);
    assert!(c.secure_messaging().none());
    assert_eq!(c.chain(), Chain::LastOrOnly);
    assert_eq!(c.channel(), Some(0));

    let c = Class::from_byte(0x0C | 0x03).unwrap();
    assert_eq!(c.secure_messaging(), SecureMessaging::Authenticated);
    assert_eq!(c.channel(), Some(3));

    let c = Class::from_byte(0x45).unwrap();
    assert_eq!(c.range(), Range::Interindustry(Interindustry::Further));
    assert_eq!(c.secure_messaging(), SecureMessaging::Standard);
    assert_eq!(c.channel(), Some((4 + 0x45) & 0b111));

    let c = Class::from_byte(0x20).unwrap();
    assert_eq!(c.range(), Range::Interindustry(Interindustry::Reserved));
    assert_eq!(c.secure_messaging(), SecureMessaging::Unknown);
    assert_eq!(c.channel(), None);

    let c = Class::from_byte(0x84).unwrap();
    assert_eq!(c.range(), Range::Proprietary);
    assert_eq!(c.channel(), None);

    assert!(Class::from_byte(0xFF).is_err());
    assert!(Range::from_cla(0xFF).is_err());
    assert_eq!(Range::try_from(0x40u8), Ok(Range::Interindustry(Interindustry::Further)));
    assert_eq!(Range::from_cla(0x7F), Ok(Range::Interindustry(Interindustry::Further)));
    assert_eq!(Class::try_from(0x10).unwrap().into_inner(), 0x10);
}

#[test]
fn class_chaining_bit() {
    for byte in 0..=0xFEu8 {
        let c = Class::from_byte(byte).unwrap();
        let once = c.as_chained();
        assert_eq!(once.as_chained(), once);
        assert!(once.chain().not_the_last());
        assert!(!once.chain().last_or_only());
        if byte != 0xEF {
            assert_ne!(once.into_inner(), 0xFF);
        }
    }
    assert_eq!(Class::from_byte(0x01).unwrap().as_chained().into_inner(), 0x11);
}

#[test]
fn instruction_bytes() {
    for byte in 0..=0xFFu8 {
        assert_eq!(u8::from(Instruction::from(byte)), byte);
    }
    assert_eq!(Instruction::from(0xA4), Instruction::Select);
    assert_eq!(Instruction::from(0x12), Instruction::Unknown(0x12));
    assert_eq!(Instruction::Unknown(0x20), Instruction::Unknown(0x20));
    assert_eq!(u8::from(Instruction::GetResponse), 0xC0);
    assert_eq!(Instruction::from(0x21) & Instruction::from(0x24), Instruction::Verify);
    assert_eq!(Instruction::from(0x04) | Instruction::from(0x20), Instruction::ChangeReferenceData);
}

#[test]
fn conversions_through_try_from() {
    let class: Class = 0x80u8.try_into().unwrap();
    assert_eq!(class.into_inner(), 0x80);
    assert!(Class::try_from(0xFFu8).is_err());
}
