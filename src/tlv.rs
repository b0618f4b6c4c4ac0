//! BER-TLV data objects: reading tags and lengths, finding nested objects, and
//! writing objects.
use vstd::prelude::*;

use crate::command::writer::Error;
use crate::command::{DataSource, DataStream, Writer};
use crate::somebytes::{short_bytes, ShortBytes};

verus! {

/// A tag of one to three bytes, stored from its first byte on, zero padded.
#[derive(Debug, PartialEq, Eq, PartialOrd, Ord, Clone, Copy, Structural)]
pub struct Tag(u8, u8, u8);

impl View for Tag {
    type V = (u8, u8, u8);

    closed spec fn view(&self) -> (u8, u8, u8) {
        (self.0, self.1, self.2)
    }
}

impl From<u8> for Tag {
    fn from(value: u8) -> (r: Self)
        ensures
            r@ == (value, 0u8, 0u8),
    {
        Tag(value, 0, 0)
    }
}

impl vstd::std_specs::convert::FromSpecImpl<u8> for Tag {
    open spec fn obeys_from_spec() -> bool {
        false
    }

    closed spec fn from_spec(v: u8) -> Tag {
        Tag(v, 0, 0)
    }
}

impl From<[u8; 2]> for Tag {
    fn from(value: [u8; 2]) -> (r: Self)
        ensures
            r@ == if value@[0] == 0 {
                (value@[1], 0u8, 0u8)
            } else {
                (value@[0], value@[1], 0u8)
            },
    {
        let b1 = value[0];
        let b2 = value[1];
        if b1 == 0 {
            Tag(b2, 0, 0)
        } else {
            Tag(b1, b2, 0)
        }
    }
}

impl vstd::std_specs::convert::FromSpecImpl<[u8; 2]> for Tag {
    open spec fn obeys_from_spec() -> bool {
        false
    }

    closed spec fn from_spec(v: [u8; 2]) -> Tag {
        if v@[0] == 0 {
            Tag(v@[1], 0, 0)
        } else {
            Tag(v@[0], v@[1], 0)
        }
    }
}

impl From<u16> for Tag {
    fn from(value: u16) -> (r: Self)
        ensures
            r@ == if value / 256 == 0 {
                ((value % 256) as u8, 0u8, 0u8)
            } else {
                ((value / 256) as u8, (value % 256) as u8, 0u8)
            },
    {
        let bytes: [u8; 2] = [(value / 256) as u8, (value % 256) as u8];
        Tag::from(bytes)
    }
}

impl vstd::std_specs::convert::FromSpecImpl<u16> for Tag {
    open spec fn obeys_from_spec() -> bool {
        false
    }

    closed spec fn from_spec(v: u16) -> Tag {
        if v / 256 == 0 {
            Tag((v % 256) as u8, 0, 0)
        } else {
            Tag((v / 256) as u8, (v % 256) as u8, 0)
        }
    }
}

impl From<[u8; 1]> for Tag {
    fn from(value: [u8; 1]) -> (r: Self)
        ensures
            r@ == (value@[0], 0u8, 0u8),
    {
        Tag(value[0], 0, 0)
    }
}

impl vstd::std_specs::convert::FromSpecImpl<[u8; 1]> for Tag {
    open spec fn obeys_from_spec() -> bool {
        false
    }

    closed spec fn from_spec(v: [u8; 1]) -> Tag {
        Tag(v@[0], 0, 0)
    }
}

impl From<[u8; 3]> for Tag {
    fn from(value: [u8; 3]) -> (r: Self)
        ensures
            r@ == if value@[0] == 0 {
                if value@[1] == 0 {
                    (value@[2], 0u8, 0u8)
                } else {
                    (value@[1], value@[2], 0u8)
                }
            } else {
                (value@[0], value@[1], 0u8)
            },
    {
        let b1 = value[0];
        let b2 = value[1];
        let b3 = value[2];
        if b1 == 0 {
            Tag::from([b2, b3])
        } else {
            Tag(b1, b2, 0)
        }
    }
}

impl vstd::std_specs::convert::FromSpecImpl<[u8; 3]> for Tag {
    open spec fn obeys_from_spec() -> bool {
        false
    }

    closed spec fn from_spec(v: [u8; 3]) -> Tag {
        if v@[0] == 0 {
            if v@[1] == 0 {
                Tag(v@[2], 0, 0)
            } else {
                Tag(v@[1], v@[2], 0)
            }
        } else {
            Tag(v@[0], v@[1], 0)
        }
    }
}

/// The bytes a tag is written as: leading zero bytes are left out.
pub open spec fn tag_bytes(t: (u8, u8, u8)) -> Seq<u8> {
    if t.0 == 0 {
        if t.1 == 0 {
            seq![t.2]
        } else {
            seq![t.1, t.2]
        }
    } else {
        seq![t.0, t.1, t.2]
    }
}

/// The tag at the start of `data` and what follows it (EMV 4.3 Book 3, Annex B1).
pub open spec fn take_tag_spec(data: Seq<u8>) -> Option<((u8, u8, u8), Seq<u8>)> {
    if data.len() == 0 {
        None
    } else {
        let b1 = data[0];
        if b1 & 0x1fu8 == 0x1fu8 {
            if data.len() < 2 {
                None
            } else {
                let b2 = data[1];
                if b2 < 0x1E || b2 == 0x80 {
                    None
                } else if 0x81 <= b2 < 0xFF {
                    if data.len() < 3 {
                        None
                    } else {
                        let b3 = data[2];
                        if 0x81 <= b3 < 0xFF {
                            None
                        } else {
                            Some(((b1, b2, b3), data.subrange(3, data.len() as int)))
                        }
                    }
                } else {
                    Some(((b1, b2, 0u8), data.subrange(2, data.len() as int)))
                }
            }
        } else {
            Some(((b1, 0u8, 0u8), data.subrange(1, data.len() as int)))
        }
    }
}

/// The length at the start of `data` and what follows it: one byte up to 0x7F,
/// else `0x81` and one byte, or `0x82` and two big-endian bytes.
pub open spec fn take_len_spec(data: Seq<u8>) -> Option<(nat, Seq<u8>)> {
    if data.len() == 0 {
        None
    } else {
        let l1 = data[0];
        if l1 <= 0x7F {
            Some((l1 as nat, data.subrange(1, data.len() as int)))
        } else if l1 == 0x81 {
            if data.len() < 2 {
                None
            } else {
                Some((data[1] as nat, data.subrange(2, data.len() as int)))
            }
        } else if l1 != 0x82 {
            None
        } else if data.len() < 3 {
            None
        } else {
            Some((data[1] as nat * 256 + data[2] as nat, data.subrange(3, data.len() as int)))
        }
    }
}

/// The data object at the start of `data`: its tag, its value and what follows it.
pub open spec fn take_do_spec(data: Seq<u8>) -> Option<((u8, u8, u8), Seq<u8>, Seq<u8>)> {
    match take_tag_spec(data) {
        None => None,
        Some((tag, rest)) => match take_len_spec(rest) {
            None => None,
            Some((len, rest)) => if rest.len() < len {
                None
            } else {
                Some((tag, rest.subrange(0, len as int), rest.subrange(len as int, rest.len() as int)))
            },
        },
    }
}

/// The value of the first object tagged `tag` in a sequence of objects.
pub open spec fn find_do(tag: (u8, u8, u8), data: Seq<u8>) -> Option<Seq<u8>>
    decreases data.len(),
{
    match take_do_spec(data) {
        None => None,
        Some((t, value, rest)) => if t == tag {
            Some(value)
        } else if rest.len() < data.len() {
            find_do(tag, rest)
        } else {
            None
        },
    }
}

/// The value reached by following a path of tags through nested objects.
pub open spec fn get_do_spec(path: Seq<(u8, u8, u8)>, data: Seq<u8>) -> Option<Seq<u8>>
    decreases path.len(),
{
    if path.len() == 0 {
        Some(data)
    } else {
        match find_do(path[0], data) {
            None => None,
            Some(value) => get_do_spec(path.drop_first(), value),
        }
    }
}

/// The length field for a value of `len` bytes, if it has one.
pub open spec fn len_field(len: nat) -> Option<Seq<u8>> {
    if len <= 0x7f {
        Some(seq![len as u8])
    } else if len <= 0xff {
        Some(seq![0x81u8, len as u8])
    } else if len <= 0xffff {
        Some(seq![0x82u8, (len / 256) as u8, (len % 256) as u8])
    } else {
        None
    }
}

impl Tag {
    /// The bytes of the tag, without leading zero bytes.
    pub fn serialize(&self) -> (r: ShortBytes)
        ensures
            short_bytes(r) == tag_bytes(self@),
    {
        let Tag(b1, b2, b3) = *self;
        if b1 == 0 {
            if b2 == 0 {
                let bytes: [u8; 1] = [b3];
                assert(bytes@ =~= tag_bytes(self@));
                ShortBytes::from_slice(bytes.as_slice())
            } else {
                let bytes: [u8; 2] = [b2, b3];
                assert(bytes@ =~= tag_bytes(self@));
                ShortBytes::from_slice(bytes.as_slice())
            }
        } else {
            let bytes: [u8; 3] = [b1, b2, b3];
            assert(bytes@ =~= tag_bytes(self@));
            ShortBytes::from_slice(bytes.as_slice())
        }
    }
}

/// Finds the value at the end of a path of tags through nested data objects.
pub fn get_do<'input>(tag_path: &[Tag], data: &'input [u8]) -> (r: Option<&'input [u8]>)
    ensures
        r matches Some(v) ==> get_do_spec(tag_path@.map_values(|t: Tag| t@), data@) == Some(v@),
        r is None ==> get_do_spec(tag_path@.map_values(|t: Tag| t@), data@) is None,
{
    let ghost path = tag_path@.map_values(|t: Tag| t@);
    let mut to_ret = data;
    let mut i: usize = 0;
    assert(path.subrange(0, path.len() as int) =~= path);
    while i < tag_path.len()
        invariant
            i <= tag_path@.len(),
            path == tag_path@.map_values(|t: Tag| t@),
            get_do_spec(path, data@) == get_do_spec(path.subrange(i as int, path.len() as int), to_ret@),
        decreases tag_path@.len() - i,
    {
        let tag = tag_path[i];
        let ghost start = to_ret@;
        let mut remainder = to_ret;
        assert(path.subrange(i as int, path.len() as int).drop_first() =~= path.subrange(
            i + 1,
            path.len() as int,
        ));
        loop
            invariant_except_break
                find_do(tag@, start) == find_do(tag@, remainder@),
            invariant
                i < tag_path@.len(),
                path == tag_path@.map_values(|t: Tag| t@),
                tag@ == path[i as int],
                get_do_spec(path, data@) == get_do_spec(path.subrange(i as int, path.len() as int), start),
                path.subrange(i as int, path.len() as int).drop_first() == path.subrange(i + 1, path.len() as int),
            ensures
                find_do(tag@, start) == Some(to_ret@),
            decreases remainder@.len(),
        {
            let (cur_tag, cur_value, cur_remainder) = match take_do(remainder) {
                Some(found) => found,
                None => {
                    return None;
                },
            };
            if tag == cur_tag {
                to_ret = cur_value;
                break;
            }
            remainder = cur_remainder;
        }
        i = i + 1;
    }
    assert(path.subrange(i as int, path.len() as int) =~= Seq::<(u8, u8, u8)>::empty());
    Some(to_ret)
}

/// The data object at the start of `data`: tag, value and what follows.
fn take_do(data: &[u8]) -> (r: Option<(Tag, &[u8], &[u8])>)
    ensures
        r matches Some((t, v, rest)) ==> take_do_spec(data@) == Some((t@, v@, rest@))
            && rest@.len() < data@.len(),
        r is None ==> take_do_spec(data@) is None,
{
    let (tag, remainder) = match take_tag(data) {
        Some(found) => found,
        None => {
            return None;
        },
    };
    let (len, remainder) = match take_len(remainder) {
        Some(found) => found,
        None => {
            return None;
        },
    };
    if remainder.len() < len {
        None
    } else {
        let (value, remainder) = remainder.split_at(len);
        Some((tag, value, remainder))
    }
}

/// Reads the tag at the start of `data` (EMV 4.3 Book 3, Annex B1).
pub fn take_tag(data: &[u8]) -> (r: Option<(Tag, &[u8])>)
    ensures
        r matches Some((t, rest)) ==> take_tag_spec(data@) == Some((t@, rest@))
            && rest@.len() < data@.len(),
        r is None ==> take_tag_spec(data@) is None,
{
    if data.len() == 0 {
        return None;
    }
    let b1 = data[0];
    if (b1 & 0x1f) == 0x1f {
        if data.len() < 2 {
            return None;
        }
        let b2 = data[1];
        if b2 < 0x1E || b2 == 0x80 {
            return None;
        }
        if 0x81 <= b2 && b2 < 0xFF {
            if data.len() < 3 {
                return None;
            }
            let b3 = data[2];
            if 0x81 <= b3 && b3 < 0xFF {
                return None;
            }
            Some((Tag(b1, b2, b3), &data[3..data.len()]))
        } else {
            Some((Tag(b1, b2, 0), &data[2..data.len()]))
        }
    } else {
        Some((Tag(b1, 0, 0), &data[1..data.len()]))
    }
}

/// Reads the length at the start of `data`.
pub fn take_len(data: &[u8]) -> (r: Option<(usize, &[u8])>)
    ensures
        r matches Some((len, rest)) ==> take_len_spec(data@) == Some((len as nat, rest@)),
        r is None ==> take_len_spec(data@) is None,
{
    if data.len() == 0 {
        return None;
    }
    let l1 = data[0];
    if l1 <= 0x7F {
        Some((l1 as usize, &data[1..data.len()]))
    } else if l1 == 0x81 {
        if data.len() < 2 {
            return None;
        }
        Some((data[1] as usize, &data[2..data.len()]))
    } else {
        if l1 != 0x82 {
            return None;
        }
        if data.len() < 3 {
            return None;
        }
        let len = data[1] as usize * 256 + data[2] as usize;
        Some((len, &data[3..data.len()]))
    }
}

/// The length field for a value of `len` bytes.
fn serialize_len(len: usize) -> (r: Option<ShortBytes>)
    ensures
        r matches Some(v) ==> len_field(len as nat) == Some(short_bytes(v)),
        r is None ==> len_field(len as nat) is None,
{
    if len <= 0x7f {
        let bytes: [u8; 1] = [len as u8];
        assert(bytes@ =~= seq![len as u8]);
        Some(ShortBytes::from_slice(bytes.as_slice()))
    } else if len <= 0xff {
        let bytes: [u8; 2] = [0x81, len as u8];
        assert(bytes@ =~= seq![0x81u8, len as u8]);
        Some(ShortBytes::from_slice(bytes.as_slice()))
    } else if len <= 0xffff {
        let bytes: [u8; 3] = [0x82, (len / 256) as u8, (len % 256) as u8];
        assert(bytes@ =~= seq![0x82u8, (len / 256) as u8, (len % 256) as u8]);
        Some(ShortBytes::from_slice(bytes.as_slice()))
    } else {
        None
    }
}

/// The length field of a value, empty for a value too long to have one.
pub open spec fn len_field_or_empty(len: nat) -> Seq<u8> {
    match len_field(len) {
        Some(f) => f,
        None => Seq::empty(),
    }
}

/// A data object: a tag and a value. Only values of at most 0xFFFF bytes can
/// be written.
pub struct Tlv<S: DataSource> {
    tag: Tag,
    data: S,
}

impl<S: DataSource> Tlv<S> {
    #[verifier::type_invariant]
    spec fn value_len_fits(self) -> bool {
        self.data.bytes().len() <= usize::MAX
    }

    pub fn new(tag: Tag, data: S) -> (r: Self)
        requires
            data.bytes().len() <= usize::MAX,
        ensures
            r.tag_spec() == tag@,
            r.bytes() == tag_bytes(tag@) + len_field_or_empty(data.bytes().len()) + data.bytes(),
            r.serializable() == (data.bytes().len() <= 0xFFFF && data.serializable()),
    {
        Tlv { tag, data }
    }

    pub closed spec fn tag_spec(&self) -> (u8, u8, u8) {
        self.tag@
    }
}

impl<S: DataSource> DataSource for Tlv<S> {
    closed spec fn bytes(&self) -> Seq<u8> {
        tag_bytes(self.tag@) + len_field_or_empty(self.data.bytes().len()) + self.data.bytes()
    }

    closed spec fn serializable(&self) -> bool {
        self.data.bytes().len() <= 0xFFFF && self.data.serializable()
    }

    fn len(&self) -> (r: usize) {
        proof {
            use_type_invariant(self);
        }
        let tag = self.tag.serialize();
        let len = match serialize_len(self.data.len()) {
            Some(l) => l.len(),
            None => 0,
        };
        tag.len() + len + self.data.len()
    }
}

impl<W: Writer, S: DataStream<W>> DataStream<W> for Tlv<S> {
    fn to_writer(&self, writer: &mut W) -> (r: Result<(), W::Error>) {
        proof {
            use_type_invariant(self);
        }
        let tag = self.tag.serialize();
        match writer.write_all(tag.as_slice()) {
            Ok(()) => {},
            Err(e) => {
                return Err(e);
            },
        }
        let len = match serialize_len(self.data.len()) {
            Some(l) => l,
            None => {
                return Err(W::Error::failed_serialization("Data is longer than 0xFFFF bytes"));
            },
        };
        match writer.write_all(len.as_slice()) {
            Ok(()) => {},
            Err(e) => {
                return Err(e);
            },
        }
        let r = self.data.to_writer(writer);
        assert(len_field_or_empty(self.data.bytes().len()) == short_bytes(len));
        assert(old(writer).contents() + self.bytes() =~= old(writer).contents() + short_bytes(tag)
            + short_bytes(len) + self.data.bytes());
        r
    }
}

} // verus!
