//! ISO 7816-4 application identifiers (AID).
use vstd::prelude::*;

verus! {

/// Why [`Aid::try_new`] or [`Aid::try_new_truncatable`] refused an AID.
#[derive(Clone, Copy, PartialEq, Eq, Debug, Structural)]
pub enum FromSliceError {
    Empty,
    TooLong,
    TruncatedLengthLargerThanLength,
    NationalRidTooShort,
    InternationalRidTooShort,
}

impl FromSliceError {
    /// A short description of the error.
    pub fn message(&self) -> (r: &'static str)
        ensures
            *self is Empty ==> r@ == "AID needs at least a category identifier"@,
            *self is TooLong ==> r@ == "AID too long"@,
            *self is TruncatedLengthLargerThanLength ==> r@ == "truncated length too long"@,
            *self is NationalRidTooShort ==> r@ == "National RID must have length 5"@,
            *self is InternationalRidTooShort ==> r@ == "International RID must have length 5"@,
    {
        match self {
            Self::Empty => "AID needs at least a category identifier",
            Self::TooLong => "AID too long",
            Self::TruncatedLengthLargerThanLength => "truncated length too long",
            Self::NationalRidTooShort => "National RID must have length 5",
            Self::InternationalRidTooShort => "International RID must have length 5",
        }
    }
}

const MAX_LEN: usize = 16;

/// An ISO 7816-4 application identifier of 1 to 16 bytes, with the length to
/// which it may be truncated when matching SELECT commands.
#[derive(Copy, Clone, Debug, Eq, Hash, PartialEq, PartialOrd, Ord)]
pub struct Aid {
    /// The AID, padded with zeros.
    bytes: [u8; 16],
    /// Length in bytes.
    len: u8,
    /// Length used to truncate the AID when matching SELECT requests.
    truncated_len: u8,
}

#[derive(Copy, Clone, Eq, Hash, PartialEq, Debug, Structural)]
pub enum Category {
    /// International registration of application providers according to ISO/IEC 7816-5
    International,
    /// National (ISO 3166-1) registration of application providers according to ISO/IEC 7816-5
    National,
    /// Identification of a standard by an object identifier according to ISO/IEC 8825-1
    Standard,
    /// No registration of application providers
    Proprietary,
    /// 0-9 are reserved for backwards compatibility, B-C are RFU.
    Other,
}

/// An AID in plain values: the 16 padded bytes, the length and the truncated length.
pub struct AidModel {
    pub bytes: Seq<u8>,
    pub len: nat,
    pub truncated_len: nat,
}

/// In a multi-application card, an application is identified by an AID.
pub trait App {
    fn aid(&self) -> Aid;
}

/// The category of an AID from its first byte, by comparing the high nibble
/// with the ASCII letters `A`, `D`, `E` and `F`.
pub open spec fn category_of(b0: u8) -> Category {
    let nibble = b0 / 16;
    if nibble == 0x41 {
        Category::International
    } else if nibble == 0x44 {
        Category::National
    } else if nibble == 0x45 {
        Category::Standard
    } else if nibble == 0x46 {
        Category::Proprietary
    } else {
        Category::Other
    }
}

/// The bytes of `aid` padded with zeros to 16.
pub open spec fn padded(aid: Seq<u8>) -> Seq<u8> {
    Seq::new(16, |i: int| if i < aid.len() { aid[i] } else { 0u8 })
}

/// What building an AID from `aid` and a truncated length gives.
pub open spec fn aid_spec(aid: Seq<u8>, truncated_len: nat) -> Result<AidModel, FromSliceError> {
    if aid.len() == 0 {
        Err(FromSliceError::Empty)
    } else if aid.len() > 16 {
        Err(FromSliceError::TooLong)
    } else if truncated_len > aid.len() {
        Err(FromSliceError::TruncatedLengthLargerThanLength)
    } else if category_of(aid[0]) == Category::National && aid.len() >= 5 {
        Err(FromSliceError::NationalRidTooShort)
    } else if category_of(aid[0]) == Category::International && aid.len() >= 5 {
        Err(FromSliceError::InternationalRidTooShort)
    } else {
        Ok(AidModel { bytes: padded(aid), len: aid.len(), truncated_len })
    }
}

/// Whether the categories carry a registered provider identifier and an extension.
pub open spec fn has_rid_pix_spec(b0: u8) -> bool {
    category_of(b0) == Category::National || category_of(b0) == Category::International
}

/// The ASCII upper-case hex digit of a nibble.
pub open spec fn hex_digit(n: u8) -> u8 {
    if n < 10 {
        (0x30 + n) as u8
    } else {
        (0x41 + n - 10) as u8
    }
}

/// Two hex digits for each byte.
pub open spec fn hex_of(bytes: Seq<u8>) -> Seq<u8>
    decreases bytes.len(),
{
    if bytes.len() == 0 {
        Seq::empty()
    } else {
        hex_of(bytes.drop_last()) + seq![
            hex_digit(bytes.last() / 16),
            hex_digit(bytes.last() % 16),
        ]
    }
}

/// The text form of an AID: `'RID PIX'`, with a further space at the truncated length.
pub open spec fn aid_text(m: AidModel) -> Seq<u8> {
    let quote = seq![0x27u8];
    let space = seq![0x20u8];
    if m.truncated_len >= m.len {
        quote + hex_of(m.bytes.subrange(0, 5)) + space + hex_of(m.bytes.subrange(5, m.len as int))
            + quote
    } else {
        quote + hex_of(m.bytes.subrange(0, 5)) + space + hex_of(
            m.bytes.subrange(5, m.truncated_len as int),
        ) + space + hex_of(m.bytes.subrange(m.truncated_len as int, m.len as int)) + quote
    }
}

/// Relies on `String::from_utf8`: ASCII bytes are valid UTF-8, and each byte
/// becomes the character of the same value.
#[verifier::external_body]
fn ascii_to_string(bytes: Vec<u8>) -> (r: String)
    requires
        forall|i: int| 0 <= i < bytes@.len() ==> bytes@[i] < 128,
    ensures
        r@ == bytes@.map_values(|b: u8| b as char),
{
    String::from_utf8(bytes).unwrap()
}

fn hex_digit_exec(n: u8) -> (r: u8)
    requires
        n < 16,
    ensures
        r == hex_digit(n),
        r < 128,
{
    if n < 10 {
        0x30 + n
    } else {
        0x41 + n - 10
    }
}

/// Appends two hex digits for each byte of `bytes` to `out`.
fn push_hex(out: &mut Vec<u8>, bytes: &[u8])
    requires
        forall|i: int| 0 <= i < old(out)@.len() ==> old(out)@[i] < 128,
    ensures
        final(out)@ == old(out)@ + hex_of(bytes@),
        forall|i: int| 0 <= i < final(out)@.len() ==> final(out)@[i] < 128,
{
    let mut i: usize = 0;
    while i < bytes.len()
        invariant
            i <= bytes@.len(),
            out@ == old(out)@ + hex_of(bytes@.subrange(0, i as int)),
            forall|j: int| 0 <= j < out@.len() ==> out@[j] < 128,
        decreases bytes@.len() - i,
    {
        let b = bytes[i];
        out.push(hex_digit_exec(b / 16));
        out.push(hex_digit_exec(b % 16));
        assert(bytes@.subrange(0, i + 1).drop_last() =~= bytes@.subrange(0, i as int));
        assert(out@ =~= old(out)@ + hex_of(bytes@.subrange(0, i + 1)));
        i = i + 1;
    }
    assert(bytes@.subrange(0, i as int) =~= bytes@);
}

impl core::ops::Deref for Aid {
    type Target = [u8];

    fn deref(&self) -> (r: &[u8])
        ensures
            r@ == self@.bytes.subrange(0, self@.len as int),
    {
        self.as_bytes()
    }
}

impl View for Aid {
    type V = AidModel;

    closed spec fn view(&self) -> AidModel {
        AidModel { bytes: self.bytes@, len: self.len as nat, truncated_len: self.truncated_len as nat }
    }
}

impl Aid {
    #[verifier::type_invariant]
    spec fn well_formed(self) -> bool {
        &&& 1 <= self.len <= 16
        &&& self.truncated_len <= self.len
    }

    /// The AID bytes.
    pub fn as_bytes(&self) -> (r: &[u8])
        ensures
            r@ == self@.bytes.subrange(0, self@.len as int),
    {
        proof {
            use_type_invariant(self);
        }
        let bytes = self.bytes.as_slice();
        &bytes[0..self.len as usize]
    }

    /// The AID bytes up to the truncated length.
    pub fn truncated(&self) -> (r: &[u8])
        ensures
            r@ == self@.bytes.subrange(0, self@.truncated_len as int),
    {
        proof {
            use_type_invariant(self);
        }
        let bytes = self.bytes.as_slice();
        &bytes[0..self.truncated_len as usize]
    }

    /// Whether `aid` starts with the truncated AID.
    pub fn matches(&self, aid: &[u8]) -> (r: bool)
        ensures
            r == (self@.truncated_len <= aid@.len() && aid@.subrange(0, self@.truncated_len as int)
                == self@.bytes.subrange(0, self@.truncated_len as int)),
    {
        proof {
            use_type_invariant(self);
        }
        let prefix = self.truncated();
        if prefix.len() > aid.len() {
            return false;
        }
        let mut i: usize = 0;
        while i < prefix.len()
            invariant
                i <= prefix@.len() <= aid@.len(),
                prefix@ == self@.bytes.subrange(0, self@.truncated_len as int),
                aid@.subrange(0, i as int) == prefix@.subrange(0, i as int),
            decreases prefix@.len() - i,
        {
            if aid[i] != prefix[i] {
                assert(aid@.subrange(0, prefix@.len() as int)[i as int] != prefix@[i as int]);
                return false;
            }
            assert(aid@.subrange(0, i + 1) =~= aid@.subrange(0, i as int).push(aid@[i as int]));
            assert(prefix@.subrange(0, i + 1) =~= prefix@.subrange(0, i as int).push(
                prefix@[i as int],
            ));
            i = i + 1;
        }
        assert(prefix@.subrange(0, i as int) =~= prefix@);
        true
    }

    /// Creates an AID; the AID must be valid (see [`try_new`](Aid::try_new)).
    pub fn new(aid: &[u8]) -> (r: Self)
        requires
            aid_spec(aid@, aid@.len()) is Ok,
        ensures
            aid_spec(aid@, aid@.len()) == Ok::<AidModel, FromSliceError>(r@),
    {
        Self::new_truncatable(aid, aid.len())
    }

    /// Creates an AID that may be truncated in SELECT commands; it must be valid
    /// (see [`try_new_truncatable`](Aid::try_new_truncatable)).
    pub fn new_truncatable(aid: &[u8], truncated_len: usize) -> (r: Self)
        requires
            aid_spec(aid@, truncated_len as nat) is Ok,
        ensures
            aid_spec(aid@, truncated_len as nat) == Ok::<AidModel, FromSliceError>(r@),
    {
        Self::try_new_truncatable(aid, truncated_len).unwrap()
    }

    /// Creates an AID.
    pub fn try_new(aid: &[u8]) -> (r: Result<Self, FromSliceError>)
        ensures
            aid_spec(aid@, aid@.len()) matches Ok(m) ==> (r matches Ok(a) && a@ == m),
            aid_spec(aid@, aid@.len()) matches Err(e) ==> r == Err::<Self, FromSliceError>(e),
    {
        Self::try_new_truncatable(aid, aid.len())
    }

    /// Creates an AID that may be truncated in SELECT commands.
    pub fn try_new_truncatable(aid: &[u8], truncated_len: usize) -> (r: Result<Self, FromSliceError>)
        ensures
            aid_spec(aid@, truncated_len as nat) matches Ok(m) ==> (r matches Ok(a) && a@ == m),
            aid_spec(aid@, truncated_len as nat) matches Err(e) ==> r == Err::<Self, FromSliceError>(e),
    {
        if aid.len() == 0 {
            return Err(FromSliceError::Empty);
        } else if aid.len() > MAX_LEN {
            return Err(FromSliceError::TooLong);
        } else if truncated_len > aid.len() {
            return Err(FromSliceError::TruncatedLengthLargerThanLength);
        }
        let mut s = Self { bytes: [0u8; 16], len: aid.len() as u8, truncated_len: truncated_len as u8 };
        s = s.fill(aid, 0);
        assert(s.bytes@ =~= padded(aid@));
        if s.is_national() && aid.len() >= 5 {
            return Err(FromSliceError::NationalRidTooShort);
        }
        if s.is_international() && aid.len() >= 5 {
            return Err(FromSliceError::InternationalRidTooShort);
        }
        Ok(s)
    }

    /// Copies `bytes[i..]` into the AID bytes from position `i` on.
    fn fill(self, bytes: &[u8], i: usize) -> (r: Self)
        requires
            i <= bytes@.len() <= 16,
        ensures
            r.len == self.len,
            r.truncated_len == self.truncated_len,
            forall|j: int|
                0 <= j < 16 ==> #[trigger] r.bytes@[j] == if i <= j < bytes@.len() {
                    bytes@[j]
                } else {
                    self.bytes@[j]
                },
        decreases bytes@.len() - i,
    {
        proof {
            use_type_invariant(&self);
        }
        if i == bytes.len() {
            self
        } else {
            let mut s = self;
            s.bytes[i] = bytes[i];
            s.fill(bytes, i + 1)
        }
    }

    pub fn category(&self) -> (r: Category)
        ensures
            r == category_of(self@.bytes[0]),
    {
        let b0 = self.bytes[0];
        let nibble = b0 >> 4;
        assert(nibble == b0 / 16) by (bit_vector)
            requires
                nibble == b0 >> 4u8,
        ;
        if nibble == 0x41 {
            Category::International
        } else if nibble == 0x44 {
            Category::National
        } else if nibble == 0x45 {
            Category::Standard
        } else if nibble == 0x46 {
            Category::Proprietary
        } else {
            Category::Other
        }
    }

    pub fn is_international(&self) -> (r: bool)
        ensures
            r == (category_of(self@.bytes[0]) == Category::International),
    {
        match self.category() {
            Category::International => true,
            _ => false,
        }
    }

    pub fn is_national(&self) -> (r: bool)
        ensures
            r == (category_of(self@.bytes[0]) == Category::National),
    {
        match self.category() {
            Category::National => true,
            _ => false,
        }
    }

    pub fn is_standard(&self) -> (r: bool)
        ensures
            r == (category_of(self@.bytes[0]) == Category::Standard),
    {
        match self.category() {
            Category::Standard => true,
            _ => false,
        }
    }

    pub fn is_proprietary(&self) -> (r: bool)
        ensures
            r == (category_of(self@.bytes[0]) == Category::Proprietary),
    {
        match self.category() {
            Category::Proprietary => true,
            _ => false,
        }
    }

    fn has_rid_pix(&self) -> (r: bool)
        ensures
            r == has_rid_pix_spec(self@.bytes[0]),
    {
        self.is_national() || self.is_international()
    }

    /// International or national registered application provider identifier, 5 bytes.
    pub fn rid(&self) -> (r: Option<&[u8]>)
        ensures
            r is Some == has_rid_pix_spec(self@.bytes[0]),
            r matches Some(rid) ==> rid@ == self@.bytes.subrange(0, 5),
    {
        if self.has_rid_pix() {
            let bytes = self.bytes.as_slice();
            Some(&bytes[0..5])
        } else {
            None
        }
    }

    /// Proprietary application identifier extension, up to 11 bytes.
    pub fn pix(&self) -> (r: Option<&[u8]>)
        ensures
            r is Some == has_rid_pix_spec(self@.bytes[0]),
            r matches Some(pix) ==> pix@ == self@.bytes.subrange(5, 16),
    {
        if self.has_rid_pix() {
            let bytes = self.bytes.as_slice();
            Some(&bytes[5..16])
        } else {
            None
        }
    }

    /// The text form of the AID, `'RID PIX'` in hex, with a further space at the
    /// truncated length when it is shorter than the AID.
    pub fn to_debug_string(&self) -> (r: String)
        requires
            self@.len >= 5,
            self@.truncated_len < self@.len ==> self@.truncated_len >= 5,
        ensures
            r@ == aid_text(self@).map_values(|b: u8| b as char),
    {
        proof {
            use_type_invariant(self);
        }
        let bytes = self.bytes.as_slice();
        let len = self.len as usize;
        let truncated_len = self.truncated_len as usize;
        let mut out: Vec<u8> = Vec::new();
        out.push(0x27);
        push_hex(&mut out, &bytes[0..5]);
        out.push(0x20);
        if truncated_len >= len {
            push_hex(&mut out, &bytes[5..len]);
        } else {
            push_hex(&mut out, &bytes[5..truncated_len]);
            out.push(0x20);
            push_hex(&mut out, &bytes[truncated_len..len]);
        }
        out.push(0x27);
        assert(out@ =~= aid_text(self@));
        ascii_to_string(out)
    }
}

} // verus!
