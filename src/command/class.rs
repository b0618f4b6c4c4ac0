//! The class byte (CLA) of a command APDU.
//!
//! There are four ranges:
//! - first interindustry   `0b000x_xxxx`
//! - reserved              `0b001x_xxxx`
//! - further interindustry `0b01xx_xxxx`
//! - proprietary           `0b1xxx_xxxx`
//!
//! For the interindustry ranges the class holds the chaining bit, the secure
//! messaging indication and the logical channel number.
use vstd::prelude::*;

verus! {

/// A class byte. Decoding refuses `0xFF`, the one value ISO 7816-4 rules out;
/// marking the class `0xEF` as chained sets bit 4 and gives `0xFF` all the same.
#[derive(Copy, Clone, Debug, PartialEq, Eq, Structural)]
pub struct Class {
    cla: u8,
}

#[derive(Copy, Clone, Debug, PartialEq, Eq, Structural)]
pub enum SecureMessaging {
    Absent,
    Proprietary,
    Standard,
    Authenticated,
    Unknown,
}

#[derive(Copy, Clone, Debug, PartialEq, Eq, Structural)]
pub enum Chain {
    LastOrOnly,
    NotTheLast,
    Unknown,
}

#[derive(Copy, Clone, Debug, PartialEq, Eq, Structural)]
pub enum Range {
    Interindustry(Interindustry),
    Proprietary,
}

#[derive(Copy, Clone, Debug, PartialEq, Eq, Structural)]
pub enum Interindustry {
    First,
    Further,
    Reserved,
}

/// The byte `0xFF` was given as a class.
#[derive(Copy, Clone, Debug, PartialEq, Eq, Structural)]
pub struct InvalidClass {}

/// The range a class byte falls in, from its three high bits.
pub open spec fn range_of(cla: u8) -> Range {
    let high = cla >> 5u8;
    if high == 0 {
        Range::Interindustry(Interindustry::First)
    } else if high == 2 || high == 3 {
        Range::Interindustry(Interindustry::Further)
    } else if high == 1 {
        Range::Interindustry(Interindustry::Reserved)
    } else {
        Range::Proprietary
    }
}

/// The secure messaging indication of a class byte.
pub open spec fn secure_messaging_of(cla: u8) -> SecureMessaging {
    match range_of(cla) {
        Range::Interindustry(Interindustry::First) => {
            let sm = (cla >> 2u8) & 3u8;
            if sm == 0 {
                SecureMessaging::Absent
            } else if sm == 1 {
                SecureMessaging::Proprietary
            } else if sm == 2 {
                SecureMessaging::Standard
            } else {
                SecureMessaging::Authenticated
            }
        },
        Range::Interindustry(Interindustry::Further) => {
            if cla >> 5u8 != 0 {
                SecureMessaging::Standard
            } else {
                SecureMessaging::Absent
            }
        },
        _ => SecureMessaging::Unknown,
    }
}

/// The chaining indication of a class byte: bit 4 set means more commands follow.
pub open spec fn chain_of(cla: u8) -> Chain {
    if cla & 0x10u8 != 0 {
        Chain::NotTheLast
    } else {
        Chain::LastOrOnly
    }
}

/// The logical channel a class byte addresses, for the interindustry ranges that carry one.
pub open spec fn channel_of(cla: u8) -> Option<u8> {
    match range_of(cla) {
        Range::Interindustry(Interindustry::First) => Some(cla & 3u8),
        Range::Interindustry(Interindustry::Further) => Some(((4 + cla) as u8) & 7u8),
        _ => None,
    }
}

/// The class byte with the chaining bit set.
pub open spec fn chained_byte(cla: u8) -> u8 {
    cla | 0x10u8
}

impl View for Class {
    type V = u8;

    closed spec fn view(&self) -> u8 {
        self.cla
    }
}

impl SecureMessaging {
    pub fn none(&self) -> (r: bool)
        ensures
            r == (*self is Absent),
    {
        match self {
            SecureMessaging::Absent => true,
            _ => false,
        }
    }
}

impl Chain {
    #[inline]
    pub fn last_or_only(&self) -> (r: bool)
        ensures
            r == (*self is LastOrOnly),
    {
        match self {
            Chain::LastOrOnly => true,
            _ => false,
        }
    }

    #[inline]
    pub fn not_the_last(&self) -> (r: bool)
        ensures
            r == (*self is NotTheLast),
    {
        match self {
            Chain::NotTheLast => true,
            _ => false,
        }
    }
}

impl Range {
    /// The range of `cla`, or an error for `0xFF`.
    pub fn from_cla(cla: u8) -> (r: Result<Range, InvalidClass>)
        ensures
            cla == 0xFF ==> r is Err,
            cla != 0xFF ==> r == Ok::<Range, InvalidClass>(range_of(cla)),
    {
        if cla == 0xff {
            return Err(InvalidClass {  });
        }
        let high = cla >> 5;
        let range = if high == 0 {
            Range::Interindustry(Interindustry::First)
        } else if high == 2 || high == 3 {
            Range::Interindustry(Interindustry::Further)
        } else if high == 1 {
            Range::Interindustry(Interindustry::Reserved)
        } else {
            Range::Proprietary
        };
        Ok(range)
    }
}

impl Class {
    #[inline]
    pub fn into_inner(self) -> (r: u8)
        ensures
            r == self@,
    {
        self.cla
    }

    #[inline]
    pub fn range(&self) -> (r: Range)
        ensures
            r == range_of(self@),
    {
        let high = self.cla >> 5;
        if high == 0 {
            Range::Interindustry(Interindustry::First)
        } else if high == 2 || high == 3 {
            Range::Interindustry(Interindustry::Further)
        } else if high == 1 {
            Range::Interindustry(Interindustry::Reserved)
        } else {
            Range::Proprietary
        }
    }

    #[inline]
    pub fn secure_messaging(&self) -> (r: SecureMessaging)
        ensures
            r == secure_messaging_of(self@),
    {
        match self.range() {
            Range::Interindustry(which) => match which {
                Interindustry::First => {
                    let sm = (self.cla >> 2) & 0b11;
                    if sm == 0 {
                        SecureMessaging::Absent
                    } else if sm == 1 {
                        SecureMessaging::Proprietary
                    } else if sm == 2 {
                        SecureMessaging::Standard
                    } else {
                        SecureMessaging::Authenticated
                    }
                },
                Interindustry::Further => {
                    if (self.cla >> 5) != 0 {
                        SecureMessaging::Standard
                    } else {
                        SecureMessaging::Absent
                    }
                },
                Interindustry::Reserved => SecureMessaging::Unknown,
            },
            _ => SecureMessaging::Unknown,
        }
    }

    #[inline]
    pub fn chain(&self) -> (r: Chain)
        ensures
            r == chain_of(self@),
    {
        if self.cla & 0x10 != 0 {
            Chain::NotTheLast
        } else {
            Chain::LastOrOnly
        }
    }

    /// The same class marked as "not the last command of a chain".
    pub fn as_chained(self) -> (r: Self)
        ensures
            r@ == chained_byte(self@),
    {
        Class { cla: self.cla | 0x10 }
    }

    #[inline]
    pub fn channel(&self) -> (r: Option<u8>)
        ensures
            r == channel_of(self@),
    {
        match self.range() {
            Range::Interindustry(Interindustry::First) => Some(self.cla & 0b11),
            Range::Interindustry(Interindustry::Further) => {
                let cla = self.cla;
                assert(cla >> 5u8 == 2 || cla >> 5u8 == 3 ==> cla < 128) by (bit_vector);
                Some((4 + self.cla) & 0b111)
            },
            _ => None,
        }
    }

    /// The class for byte `cla`; `0xFF` is refused.
    pub fn from_byte(cla: u8) -> (r: Result<Self, InvalidClass>)
        ensures
            cla == 0xFF ==> r is Err,
            cla != 0xFF ==> (r matches Ok(c) && c@ == cla),
    {
        match Range::from_cla(cla) {
            Ok(_) => Ok(Self { cla }),
            Err(err) => Err(err),
        }
    }

    /// Two classes with the same byte are the same class.
    pub proof fn lemma_view_injective(a: Class, b: Class)
        ensures
            a@ == b@ ==> a == b,
    {
    }
}

impl TryFrom<u8> for Class {
    type Error = InvalidClass;

    fn try_from(cla: u8) -> (r: Result<Self, InvalidClass>)
        ensures
            cla == 0xFF ==> r is Err,
            cla != 0xFF ==> (r matches Ok(c) && c@ == cla),
    {
        Self::from_byte(cla)
    }
}

impl vstd::std_specs::convert::TryFromSpecImpl<u8> for Class {
    open spec fn obeys_try_from_spec() -> bool {
        false
    }

    closed spec fn try_from_spec(cla: u8) -> Result<Class, InvalidClass> {
        if cla == 0xFF {
            Err(InvalidClass {  })
        } else {
            Ok(Class { cla })
        }
    }
}

impl TryFrom<u8> for Range {
    type Error = InvalidClass;

    fn try_from(cla: u8) -> (r: Result<Self, InvalidClass>)
        ensures
            cla == 0xFF ==> r is Err,
            cla != 0xFF ==> r == Ok::<Range, InvalidClass>(range_of(cla)),
    {
        Self::from_cla(cla)
    }
}

impl vstd::std_specs::convert::TryFromSpecImpl<u8> for Range {
    open spec fn obeys_try_from_spec() -> bool {
        false
    }

    open spec fn try_from_spec(cla: u8) -> Result<Range, InvalidClass> {
        if cla == 0xFF {
            Err(InvalidClass {  })
        } else {
            Ok(range_of(cla))
        }
    }
}

/// Marking a class as chained twice is the same as marking it once, and a class
/// other than `0xEF` never becomes the invalid byte `0xFF` by it.
pub proof fn lemma_as_chained_idempotent(cla: u8)
    ensures
        chained_byte(chained_byte(cla)) == chained_byte(cla),
        cla != 0xEF && cla != 0xFF ==> chained_byte(cla) != 0xFF,
{
    assert((cla | 0x10u8) | 0x10u8 == cla | 0x10u8) by (bit_vector);
    assert(cla != 0xEF && cla != 0xFF ==> cla | 0x10u8 != 0xFF) by (bit_vector);
}

} // verus!
