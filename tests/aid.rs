use iso7816::aid::{Category, FromSliceError};
use iso7816::Aid;

fn hex(s: &str) -> Vec<u8> {
    let digits: Vec<u8> = s.bytes().filter(|c| !c.is_ascii_whitespace()).collect();
    digits
        .chunks(2)
        .map(|pair| u8::from_str_radix(std::str::from_utf8(pair).unwrap(), 16).unwrap())
        .collect()
}

#[test]
fn aid() {
    let piv = hex("A000000308 00001000 0100");
    let piv_aid_truncatable = Aid::new_truncatable(&piv, 9);
    let piv_aid = Aid::new(&piv);
    assert!(piv_aid.matches(&piv_aid_truncatable));
    assert!(piv_aid_truncatable.matches(&piv_aid));
}

#[test]
fn aid_fmt() {
    let piv = hex("A000000308 00001000 0100");
    let piv_aid = Aid::new(&piv);
    let piv_aid_truncatable = Aid::new_truncatable(&piv, 9);
    assert_eq!(piv_aid.to_debug_string(), "'A000000308 000010000100'");
    assert_eq!(piv_aid_truncatable.to_debug_string(), "'A000000308 00001000 0100'");
}

#[test]
fn aid_errors() {
    assert_eq!(Aid::try_new(&[]), Err(FromSliceError::Empty));
    assert_eq!(Aid::try_new(&[1; 17]), Err(FromSliceError::TooLong));
    assert_eq!(
        Aid::try_new_truncatable(&[1, 2, 3], 4),
        Err(FromSliceError::TruncatedLengthLargerThanLength)
    );
    assert_eq!(FromSliceError::TooLong.message(), "AID too long");
}

#[test]
fn aid_parts() {
    let piv = hex("A000000308 00001000 0100");
    let aid = Aid::new_truncatable(&piv, 9);
    assert_eq!(aid.as_bytes(), piv.as_slice());
    assert_eq!(aid.truncated(), &piv[..9]);
    assert!(aid.matches(&piv[..9]));
    assert!(!aid.matches(&piv[..8]));
    assert!(!aid.matches(&hex("A000000308 00001001")));
    assert_eq!(aid.category(), Category::Other);
    assert!(!aid.is_international() && !aid.is_national());
    assert!(!aid.is_standard() && !aid.is_proprietary());
    assert_eq!(aid.rid(), None);
    assert_eq!(aid.pix(), None);
}
