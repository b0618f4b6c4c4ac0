//! Command APDUs: decoding into borrowed views and owned commands, encoding
//! through a builder, and splitting a command into a chain.
use vstd::prelude::*;

pub mod class;
pub mod instruction;
pub use instruction::Instruction;
pub mod writer;
pub use writer::{BufferFull, Writer};
mod datasource;
pub use datasource::{DataSource, DataStream};
pub mod lemmas;

use crate::somebytes::{short_bytes, ShortBytes};
use class::{chained_byte, Class, InvalidClass};
use instruction::{byte_of, instruction_of};

verus! {

const HEADER_LEN: usize = 4;

/// What a decoded command holds, in plain values.
pub struct CommandModel {
    pub class: u8,
    pub instruction: Instruction,
    pub p1: u8,
    pub p2: u8,
    pub data: Seq<u8>,
    pub le: nat,
    pub extended: bool,
}

#[derive(Copy, Clone, Debug, Eq, PartialEq, Structural)]
pub enum FromSliceError {
    TooShort,
    TooLong,
    InvalidClass,
    InvalidFirstBodyByteForExtended,
    InvalidSliceLength,
}

impl From<InvalidClass> for FromSliceError {
    fn from(err: InvalidClass) -> (r: Self)
        ensures
            r == FromSliceError::InvalidClass,
    {
        Self::InvalidClass
    }
}

impl vstd::std_specs::convert::FromSpecImpl<InvalidClass> for FromSliceError {
    open spec fn obeys_from_spec() -> bool {
        true
    }

    open spec fn from_spec(v: InvalidClass) -> FromSliceError {
        FromSliceError::InvalidClass
    }
}

// Decoding conventions for command APDUs: ISO 7816-3, 12.1.3.
/// The meaning of the length bytes of one command body.
#[derive(Copy, Clone, Debug, Eq, PartialEq, Structural)]
pub struct ParsedLengths {
    /// Length of the data field.
    pub lc: usize,
    /// Expected response length, with a zero byte already read as the maximum.
    pub le: usize,
    /// Where the data field starts in the body.
    pub offset: usize,
    /// Whether the body uses the extended length fields.
    pub extended: bool,
}

/// `value`, or `replacement` when `value` is zero.
pub open spec fn replace_zero_spec(value: nat, replacement: nat) -> nat {
    if value == 0 {
        replacement
    } else {
        value
    }
}

/// A big-endian 16-bit field.
pub open spec fn be_value(hi: u8, lo: u8) -> nat {
    hi as nat * 256 + lo as nat
}

pub open spec fn lengths(lc: nat, le: nat, offset: nat, extended: bool) -> ParsedLengths {
    ParsedLengths { lc: lc as usize, le: le as usize, offset: offset as usize, extended }
}

/// The lengths that a command body (all after the four header bytes) encodes.
///
/// Short fields take one byte, extended fields two bytes after a leading zero;
/// the two forms are never mixed, and a zero Le stands for the largest value of its form.
pub open spec fn parse_lengths_spec(body: Seq<u8>) -> Result<ParsedLengths, FromSliceError> {
    let l = body.len();
    if l == 0 {
        // ISO 7816-3 case 1
        Ok(lengths(0, 0, 0, false))
    } else {
        let b1 = body[0] as nat;
        if l == 1 {
            // ISO 7816-3 case 2S
            Ok(lengths(0, replace_zero_spec(b1, 256), 0, false))
        } else if l == 1 + b1 && b1 != 0 {
            // ISO 7816-3 case 3S
            Ok(lengths(b1, 0, 1, false))
        } else if l == 2 + b1 && b1 != 0 {
            // ISO 7816-3 case 4S
            Ok(lengths(b1, replace_zero_spec(body[l - 1] as nat, 256), 1, false))
        } else if b1 != 0 {
            Err(FromSliceError::InvalidFirstBodyByteForExtended)
        } else if l < 3 {
            Err(FromSliceError::InvalidSliceLength)
        } else if l == 3 {
            // ISO 7816-3 case 2E
            Ok(lengths(0, replace_zero_spec(be_value(body[1], body[2]), 65536), 0, true))
        } else {
            let lc = be_value(body[1], body[2]);
            if l == 3 + lc {
                // ISO 7816-3 case 3E
                Ok(lengths(lc, 0, 3, true))
            } else if l == 5 + lc {
                // ISO 7816-3 case 4E
                Ok(lengths(lc, replace_zero_spec(be_value(body[l - 2], body[l - 1]), 65536), 3, true))
            } else {
                Err(FromSliceError::InvalidSliceLength)
            }
        }
    }
}

/// What a whole command APDU decodes to.
pub open spec fn parse_command(apdu: Seq<u8>) -> Result<CommandModel, FromSliceError> {
    if apdu.len() < 4 {
        Err(FromSliceError::TooShort)
    } else if apdu[0] == 0xFF {
        Err(FromSliceError::InvalidClass)
    } else {
        let body = apdu.subrange(4, apdu.len() as int);
        match parse_lengths_spec(body) {
            Err(e) => Err(e),
            Ok(p) => Ok(
                CommandModel {
                    class: apdu[0],
                    instruction: instruction_of(apdu[1]),
                    p1: apdu[2],
                    p2: apdu[3],
                    data: body.subrange(p.offset as int, p.offset + p.lc),
                    le: p.le as nat,
                    extended: p.extended,
                },
            ),
        }
    }
}

#[inline(always)]
pub fn replace_zero(value: usize, replacement: usize) -> (r: usize)
    ensures
        r == replace_zero_spec(value as nat, replacement as nat),
{
    if value == 0 {
        replacement
    } else {
        value
    }
}

/// The value of a big-endian 16-bit field.
fn be_u16(hi: u8, lo: u8) -> (r: usize)
    ensures
        r == be_value(hi, lo),
{
    hi as usize * 256 + lo as usize
}

/// Reads the Lc and Le fields of a command body.
pub fn parse_lengths(body: &[u8]) -> (r: Result<ParsedLengths, FromSliceError>)
    ensures
        r == parse_lengths_spec(body@),
{
    let l = body.len();

    // ISO 7816-3 case 1
    if l == 0 {
        return Ok(ParsedLengths { lc: 0, le: 0, offset: 0, extended: false });
    }
    let b1 = body[0] as usize;

    // ISO 7816-3 case 2S
    if l == 1 {
        return Ok(ParsedLengths { lc: 0, le: replace_zero(b1, 256), offset: 0, extended: false });
    }

    // ISO 7816-3 case 3S: B1 encodes Lc from 1 to 255
    if l == 1 + b1 && b1 != 0 {
        return Ok(ParsedLengths { lc: b1, le: 0, offset: 1, extended: false });
    }

    // ISO 7816-3 case 4S: B1 encodes Lc from 1 to 255, the last byte Le from 1 to 256
    if l == 2 + b1 && b1 != 0 {
        let le = replace_zero(body[l - 1] as usize, 256);
        return Ok(ParsedLengths { lc: b1, le, offset: 1, extended: false });
    }

    // only extended cases are left
    if b1 != 0 {
        return Err(FromSliceError::InvalidFirstBodyByteForExtended);
    } else if l < 3 {
        return Err(FromSliceError::InvalidSliceLength);
    }

    // ISO 7816-3 case 2E (no data)
    if l == 3 {
        let le = replace_zero(be_u16(body[1], body[2]), 65_536);
        return Ok(ParsedLengths { lc: 0, le, offset: 0, extended: true });
    }
    let lc = be_u16(body[1], body[2]);

    // ISO 7816-3 case 3E
    if l == 3 + lc {
        return Ok(ParsedLengths { lc, le: 0, offset: 3, extended: true });
    }

    // ISO 7816-3 case 4E
    if l == 5 + lc {
        let le = replace_zero(be_u16(body[l - 2], body[l - 1]), 65_536);
        return Ok(ParsedLengths { lc, le, offset: 3, extended: true });
    }

    // Either the encoded Lc is wrong, or the Lc and Le fields mix the short and
    // extended forms.
    Err(FromSliceError::InvalidSliceLength)
}

/// A command that borrows its data from the bytes it was decoded from.
#[derive(Clone, Copy, Debug, PartialEq, Eq)]
pub struct CommandView<'a> {
    class: Class,
    instruction: Instruction,
    pub p1: u8,
    pub p2: u8,
    data: &'a [u8],
    le: usize,
    pub extended: bool,
}

impl<'a> View for CommandView<'a> {
    type V = CommandModel;

    closed spec fn view(&self) -> CommandModel {
        CommandModel {
            class: self.class@,
            instruction: self.instruction,
            p1: self.p1,
            p2: self.p2,
            data: self.data@,
            le: self.le as nat,
            extended: self.extended,
        }
    }
}

impl<'a> CommandView<'a> {
    pub fn class(&self) -> (r: Class)
        ensures
            r@ == self@.class,
    {
        self.class
    }

    pub fn instruction(&self) -> (r: Instruction)
        ensures
            r == self@.instruction,
    {
        self.instruction
    }

    pub fn data(&self) -> (r: &'a [u8])
        ensures
            r@ == self@.data,
    {
        self.data
    }

    pub fn expected(&self) -> (r: usize)
        ensures
            r == self@.le,
    {
        self.le
    }

    pub fn p1(&self) -> (r: u8)
        ensures
            r == self@.p1,
    {
        self.p1
    }

    pub fn p2(&self) -> (r: u8)
        ensures
            r == self@.p2,
    {
        self.p2
    }

    /// Whether the command used extended length fields.
    pub fn extended(&self) -> (r: bool)
        ensures
            r == self@.extended,
    {
        self.extended
    }

    /// Decodes a command APDU without copying its data.
    pub fn try_from(apdu: &'a [u8]) -> (r: Result<Self, FromSliceError>)
        ensures
            r is Ok == parse_command(apdu@) is Ok,
            r matches Ok(v) ==> parse_command(apdu@) == Ok::<CommandModel, FromSliceError>(v@),
            r matches Err(e) ==> parse_command(apdu@) == Err::<CommandModel, FromSliceError>(e),
    {
        if apdu.len() < 4 {
            return Err(FromSliceError::TooShort);
        }
        let (header, body) = apdu.split_at(4);
        let class = match Class::from_byte(header[0]) {
            Ok(class) => class,
            Err(_) => {
                return Err(FromSliceError::InvalidClass);
            },
        };
        let instruction = Instruction::from(header[1]);
        let p1 = header[2];
        let p2 = header[3];
        let parsed = match parse_lengths(body) {
            Ok(parsed) => parsed,
            Err(e) => {
                return Err(e);
            },
        };
        let data = &body[parsed.offset..parsed.offset + parsed.lc];
        let view = Self { class, instruction, p1, p2, le: parsed.le, data, extended: parsed.extended };
        assert(view@.data =~= apdu@.subrange(4, apdu@.len() as int).subrange(
            parsed.offset as int,
            parsed.offset + parsed.lc,
        ));
        Ok(view)
    }

    /// Copies the view into an owned command of capacity `S`.
    pub fn to_owned<const S: usize>(&self) -> (r: Result<Command<S>, FromSliceError>)
        ensures
            self@.data.len() <= S ==> (r matches Ok(c) && c@ == self@),
            self@.data.len() > S ==> r == Err::<Command<S>, FromSliceError>(FromSliceError::TooLong),
    {
        if self.data.len() > S {
            return Err(FromSliceError::TooLong);
        }
        let mut data: Vec<u8> = Vec::new();
        data.extend_from_slice(self.data);
        assert(data@ =~= self.data@);
        Ok(
            Command {
                class: self.class,
                instruction: self.instruction,
                p1: self.p1,
                p2: self.p2,
                le: self.le,
                data,
                extended: self.extended,
            },
        )
    }
}

impl<'a> TryFrom<&'a [u8]> for CommandView<'a> {
    type Error = FromSliceError;

    fn try_from(apdu: &'a [u8]) -> (r: Result<Self, FromSliceError>)
        ensures
            r is Ok == parse_command(apdu@) is Ok,
            r matches Ok(v) ==> parse_command(apdu@) == Ok::<CommandModel, FromSliceError>(v@),
            r matches Err(e) ==> parse_command(apdu@) == Err::<CommandModel, FromSliceError>(e),
    {
        CommandView::try_from(apdu)
    }
}

impl<'a> vstd::std_specs::convert::TryFromSpecImpl<&'a [u8]> for CommandView<'a> {
    open spec fn obeys_try_from_spec() -> bool {
        false
    }

    closed spec fn try_from_spec(apdu: &'a [u8]) -> Result<CommandView<'a>, FromSliceError> {
        arbitrary()
    }
}

/// Relies on `Vec::as_mut_slice`: it returns the whole vector, whose length a
/// slice cannot change, and it does not panic.
#[verifier::external_body]
fn whole_mut_slice(v: &mut Vec<u8>) -> (r: &mut [u8])
    ensures
        r@ == old(v)@,
        final(v)@ == final(r)@,
        final(r)@.len() == r@.len(),
    no_unwind
{
    v.as_mut_slice()
}

/// A command with its data held in a buffer of capacity `S`.
#[derive(Debug, PartialEq, Eq)]
pub struct Command<const S: usize> {
    class: Class,
    instruction: Instruction,
    p1: u8,
    p2: u8,
    data: Vec<u8>,
    le: usize,
    extended: bool,
}

impl<const S: usize> View for Command<S> {
    type V = CommandModel;

    closed spec fn view(&self) -> CommandModel {
        CommandModel {
            class: self.class@,
            instruction: self.instruction,
            p1: self.p1,
            p2: self.p2,
            data: self.data@,
            le: self.le as nat,
            extended: self.extended,
        }
    }
}

impl<const S: usize> TryFrom<&[u8]> for Command<S> {
    type Error = FromSliceError;

    fn try_from(apdu: &[u8]) -> (r: Result<Self, FromSliceError>)
        ensures
            parse_command(apdu@) matches Err(e) ==> r == Err::<Self, FromSliceError>(e),
            parse_command(apdu@) matches Ok(m) ==> {
                &&& m.data.len() <= S ==> (r matches Ok(c) && c@ == m)
                &&& m.data.len() > S ==> r == Err::<Self, FromSliceError>(FromSliceError::TooLong)
            },
    {
        Command::try_from(apdu)
    }
}

impl<const S: usize> vstd::std_specs::convert::TryFromSpecImpl<&[u8]> for Command<S> {
    open spec fn obeys_try_from_spec() -> bool {
        false
    }

    closed spec fn try_from_spec(apdu: &[u8]) -> Result<Command<S>, FromSliceError> {
        arbitrary()
    }
}

impl<const S: usize> Clone for Command<S> {
    fn clone(&self) -> (r: Self)
        ensures
            r@ == self@,
    {
        proof {
            use_type_invariant(self);
        }
        let mut data: Vec<u8> = Vec::new();
        data.extend_from_slice(self.data.as_slice());
        assert(data@ =~= self.data@);
        Command {
            class: self.class,
            instruction: self.instruction,
            p1: self.p1,
            p2: self.p2,
            data,
            le: self.le,
            extended: self.extended,
        }
    }
}

/// A command after the next command of its chain has been appended: the header
/// and Le come from the newer command, the data is the concatenation.
pub open spec fn extend_model(acc: CommandModel, next: CommandModel) -> CommandModel {
    CommandModel {
        class: next.class,
        instruction: next.instruction,
        p1: next.p1,
        p2: next.p2,
        data: acc.data + next.data,
        le: next.le,
        extended: true,
    }
}

impl<const S: usize> Command<S> {
    #[verifier::type_invariant]
    spec fn within_capacity(self) -> bool {
        self.data@.len() <= S
    }

    /// Decodes a command APDU into an owned command.
    pub fn try_from(apdu: &[u8]) -> (r: Result<Self, FromSliceError>)
        ensures
            parse_command(apdu@) matches Err(e) ==> r == Err::<Self, FromSliceError>(e),
            parse_command(apdu@) matches Ok(m) ==> {
                &&& m.data.len() <= S ==> (r matches Ok(c) && c@ == m)
                &&& m.data.len() > S ==> r == Err::<Self, FromSliceError>(FromSliceError::TooLong)
            },
    {
        match CommandView::try_from(apdu) {
            Ok(view) => view.to_owned(),
            Err(e) => Err(e),
        }
    }

    pub fn class(&self) -> (r: Class)
        ensures
            r@ == self@.class,
    {
        self.class
    }

    pub fn instruction(&self) -> (r: Instruction)
        ensures
            r == self@.instruction,
    {
        self.instruction
    }

    pub fn data(&self) -> (r: &Vec<u8>)
        ensures
            r@ == self@.data,
            r@.len() <= S,
    {
        proof {
            use_type_invariant(self);
        }
        &self.data
    }

    /// The data, to be changed in place; its length stays within the capacity.
    pub fn data_mut(&mut self) -> (r: &mut [u8])
        ensures
            r@ == old(self)@.data,
            final(self)@ == (CommandModel { data: final(r)@, ..old(self)@ }),
        no_unwind
    {
        proof {
            use_type_invariant(&*self);
        }
        whole_mut_slice(&mut self.data)
    }

    pub fn p1(&self) -> (r: u8)
        ensures
            r == self@.p1,
    {
        self.p1
    }

    pub fn p2(&self) -> (r: u8)
        ensures
            r == self@.p2,
    {
        self.p2
    }

    /// Whether the command was encoded, or reassembled, with extended lengths.
    pub fn extended(&self) -> (r: bool)
        ensures
            r == self@.extended,
    {
        self.extended
    }

    pub fn set_p1(&mut self, p1: u8)
        ensures
            final(self)@ == (CommandModel { p1, ..old(self)@ }),
    {
        proof {
            use_type_invariant(&*self);
        }
        self.p1 = p1;
    }

    pub fn set_p2(&mut self, p2: u8)
        ensures
            final(self)@ == (CommandModel { p2, ..old(self)@ }),
    {
        proof {
            use_type_invariant(&*self);
        }
        self.p2 = p2;
    }

    pub fn set_extended(&mut self, extended: bool)
        ensures
            final(self)@ == (CommandModel { extended, ..old(self)@ }),
    {
        proof {
            use_type_invariant(&*self);
        }
        self.extended = extended;
    }

    pub fn expected(&self) -> (r: usize)
        ensures
            r == self@.le,
    {
        self.le
    }

    pub fn as_view(&self) -> (r: CommandView<'_>)
        ensures
            r@ == self@,
    {
        CommandView {
            class: self.class,
            instruction: self.instruction,
            p1: self.p1,
            p2: self.p2,
            data: self.data.as_slice(),
            le: self.le,
            extended: self.extended,
        }
    }

    /// Appends the next command of a chain (GlobalPlatform GPC_SPE_055 3.10).
    pub fn extend_from_command<const T: usize>(&mut self, command: &Command<T>) -> (r: Result<(), ()>)
        ensures
            r is Ok == (old(self)@.data.len() + command@.data.len() <= S),
            r is Ok ==> final(self)@ == extend_model(old(self)@, command@),
            r is Err ==> final(self)@ == (CommandModel { data: old(self)@.data, ..extend_model(old(self)@, command@) }),
    {
        self.extend_from_command_view(command.as_view())
    }

    /// Appends the next command of a chain (GlobalPlatform GPC_SPE_055 3.10).
    ///
    /// The header and Le are taken from `command`, its data is appended, and the
    /// whole is marked extended. Without room for the data, the data is left as it
    /// was and `Err` is returned.
    pub fn extend_from_command_view(&mut self, command: CommandView) -> (r: Result<(), ()>)
        ensures
            r is Ok == (old(self)@.data.len() + command@.data.len() <= S),
            r is Ok ==> final(self)@ == extend_model(old(self)@, command@),
            r is Err ==> final(self)@ == (CommandModel { data: old(self)@.data, ..extend_model(old(self)@, command@) }),
    {
        proof {
            use_type_invariant(&*self);
        }
        // Always take the header from the last command; add the data to the end
        let added = command.data();
        let fits = added.len() <= S - self.data.len();
        let mut data: Vec<u8> = Vec::new();
        data.extend_from_slice(self.data.as_slice());
        if fits {
            data.extend_from_slice(added);
        }
        *self = Command {
            class: command.class(),
            instruction: command.instruction(),
            p1: command.p1(),
            p2: command.p2(),
            data,
            le: command.expected(),
            extended: true,
        };
        if fits {
            assert(self.data@ =~= old(self)@.data + command@.data);
            Ok(())
        } else {
            assert(self.data@ =~= old(self)@.data);
            Err(())
        }
    }
}

/// Whether the encoding may use extended length fields.
#[derive(Debug, PartialEq, Eq, Clone, Copy, Structural)]
pub enum ExtendedLen {
    Unsupported,
    Supported,
    Forced,
}

/// The response length a command asks for.
#[derive(Debug, PartialEq, Eq, Clone, PartialOrd, Ord, Copy, Structural)]
pub enum ExpectedLen {
    Ne(u16),
    /// 65536 bytes, which only the extended form can ask for.
    Max,
}

impl From<u16> for ExpectedLen {
    fn from(value: u16) -> (r: Self)
        ensures
            r == ExpectedLen::Ne(value),
    {
        Self::Ne(value)
    }
}

impl vstd::std_specs::convert::FromSpecImpl<u16> for ExpectedLen {
    open spec fn obeys_from_spec() -> bool {
        true
    }

    open spec fn from_spec(v: u16) -> ExpectedLen {
        ExpectedLen::Ne(v)
    }
}

/// The response length as a number: `Max` is 65536, the value a zero extended
/// Le field stands for.
pub open spec fn le_decoded(le: ExpectedLen) -> nat {
    match le {
        ExpectedLen::Ne(l) => l as nat,
        ExpectedLen::Max => 65536,
    }
}

impl From<ExpectedLen> for usize {
    fn from(value: ExpectedLen) -> (r: usize)
        ensures
            r == le_decoded(value),
    {
        match value {
            ExpectedLen::Ne(l) => l as usize,
            ExpectedLen::Max => 65536,
        }
    }
}

impl vstd::std_specs::convert::FromSpecImpl<ExpectedLen> for usize {
    open spec fn obeys_from_spec() -> bool {
        true
    }

    open spec fn from_spec(v: ExpectedLen) -> usize {
        le_decoded(v) as usize
    }
}

/// Whether a response length needs the extended Le field: above 256, or the maximum.
pub open spec fn le_needs_extended(le: ExpectedLen) -> bool {
    match le {
        ExpectedLen::Ne(l) => l >= 257,
        ExpectedLen::Max => true,
    }
}

/// The 16-bit value an extended Le field carries for `le` (zero stands for the maximum).
pub open spec fn le_bits(le: ExpectedLen) -> u16 {
    match le {
        ExpectedLen::Ne(l) => l,
        ExpectedLen::Max => 0,
    }
}

/// The response length that is encoded: without extended support, at most 256.
pub open spec fn effective_le(le: ExpectedLen, extended: ExtendedLen) -> ExpectedLen {
    if extended == ExtendedLen::Unsupported && le_needs_extended(le) {
        ExpectedLen::Ne(256)
    } else {
        le
    }
}

/// A 16-bit value as two big-endian bytes.
pub open spec fn be16(v: u16) -> Seq<u8> {
    seq![(v / 256) as u8, (v % 256) as u8]
}

/// Whether the Lc field takes the extended form: always for long data or when
/// forced, and also when Le does, since the two forms cannot be mixed.
pub open spec fn lc_extended(len: nat, le: ExpectedLen, extended: ExtendedLen) -> bool {
    len != 0 && (len > 255 || le_needs_extended(le) || extended == ExtendedLen::Forced)
}

/// The Lc field for `len` bytes of data.
pub open spec fn lc_field(len: nat, le: ExpectedLen, extended: ExtendedLen) -> Seq<u8> {
    if len == 0 {
        Seq::empty()
    } else if !lc_extended(len, le, extended) {
        seq![len as u8]
    } else {
        seq![0u8] + be16(len as u16)
    }
}

/// The Le field: one byte (zero meaning 256) in the short form, two bytes after
/// an extended Lc, three bytes when there is no data.
pub open spec fn le_field(le: ExpectedLen, lc_ext: bool, data_empty: bool, extended: ExtendedLen) -> Seq<u8> {
    if le == ExpectedLen::Ne(0) {
        Seq::empty()
    } else if !lc_ext && !le_needs_extended(le) && extended != ExtendedLen::Forced {
        seq![(le_bits(le) % 256) as u8]
    } else if data_empty {
        seq![0u8] + be16(le_bits(le))
    } else {
        be16(le_bits(le))
    }
}

/// What a builder holds, in plain values.
pub struct BuilderModel {
    pub class: u8,
    pub instruction: Instruction,
    pub p1: u8,
    pub p2: u8,
    pub data: Seq<u8>,
    pub le: ExpectedLen,
    pub extended_length: ExtendedLen,
}

/// The Lc field of a builder.
pub open spec fn lc_field_of(b: BuilderModel) -> Seq<u8> {
    let le = effective_le(b.le, b.extended_length);
    lc_field(b.data.len(), le, b.extended_length)
}

/// The Le field of a builder.
pub open spec fn le_field_of(b: BuilderModel) -> Seq<u8> {
    let le = effective_le(b.le, b.extended_length);
    le_field(
        le,
        lc_extended(b.data.len(), le, b.extended_length),
        b.data.len() == 0,
        b.extended_length,
    )
}

/// The bytes of the APDU a builder serialises to: class, instruction, p1, p2,
/// then the Lc field, the data and the Le field.
pub open spec fn encoding(b: BuilderModel) -> Seq<u8> {
    seq![b.class, byte_of(b.instruction), b.p1, b.p2] + lc_field_of(b) + b.data + le_field_of(b)
}

/// A builder and a decoded command agree on header, data and response length;
/// the encoding policy is not compared.
pub open spec fn builder_matches(b: BuilderModel, v: CommandModel) -> bool {
    &&& b.class == v.class
    &&& b.instruction == v.instruction
    &&& b.p1 == v.p1
    &&& b.p2 == v.p2
    &&& b.data == v.data
    &&& le_decoded(b.le) == v.le
}

/// A command to be serialised: header, data source, expected response length and
/// extended length policy.
#[derive(Debug, PartialEq, Eq)]
pub struct CommandBuilder<D: DataSource> {
    class: Class,
    instruction: Instruction,
    p1: u8,
    p2: u8,
    data: D,
    le: ExpectedLen,
    extended_length: ExtendedLen,
}

impl<D: DataSource> View for CommandBuilder<D> {
    type V = BuilderModel;

    closed spec fn view(&self) -> BuilderModel {
        BuilderModel {
            class: self.class@,
            instruction: self.instruction,
            p1: self.p1,
            p2: self.p2,
            data: self.data.bytes(),
            le: self.le,
            extended_length: self.extended_length,
        }
    }
}

impl<D: DataSource + Copy> Clone for CommandBuilder<D> {
    fn clone(&self) -> (r: Self)
        ensures
            r@ == self@,
            r.source() == self.source(),
    {
        proof {
            use_type_invariant(self);
        }
        Self {
            class: self.class,
            instruction: self.instruction,
            p1: self.p1,
            p2: self.p2,
            data: self.data,
            le: self.le,
            extended_length: self.extended_length,
        }
    }
}

struct BuildingHeaderData {
    le: ExpectedLen,
    data_len: ShortBytes,
    expected_data_len: ShortBytes,
}

/// The Lc field for `len` bytes, and whether it is extended.
fn serialize_data_len(len: u16, expected_len: ExpectedLen, extended: ExtendedLen) -> (r: (
    ShortBytes,
    bool,
))
    ensures
        short_bytes(r.0) == lc_field(len as nat, expected_len, extended),
        r.1 == lc_extended(len as nat, expected_len, extended),
{
    let expected_is_extended = match expected_len {
        ExpectedLen::Ne(l) => l >= 257,
        ExpectedLen::Max => true,
    };
    if len == 0 {
        let field: [u8; 0] = [];
        assert(field@ =~= Seq::<u8>::empty());
        (ShortBytes::from_slice(field.as_slice()), false)
    } else if len <= 255 && !expected_is_extended && extended != ExtendedLen::Forced {
        let field: [u8; 1] = [len as u8];
        assert(field@ =~= seq![len as u8]);
        (ShortBytes::from_slice(field.as_slice()), false)
    } else {
        let field: [u8; 3] = [0, (len / 256) as u8, (len % 256) as u8];
        assert(field@ =~= seq![0u8] + be16(len));
        (ShortBytes::from_slice(field.as_slice()), true)
    }
}

/// The Le field.
fn serialize_expected_len(
    len: ExpectedLen,
    lc_extended: bool,
    data_is_empty: bool,
    extended: ExtendedLen,
) -> (r: ShortBytes)
    ensures
        short_bytes(r) == le_field(len, lc_extended, data_is_empty, extended),
{
    let bits: u16 = match len {
        ExpectedLen::Ne(l) => l,
        ExpectedLen::Max => 0,
    };
    let needs_extended = match len {
        ExpectedLen::Ne(l) => l >= 257,
        ExpectedLen::Max => true,
    };
    if len == ExpectedLen::Ne(0) {
        let field: [u8; 0] = [];
        assert(field@ =~= Seq::<u8>::empty());
        ShortBytes::from_slice(field.as_slice())
    } else if !lc_extended && !needs_extended && extended != ExtendedLen::Forced {
        let field: [u8; 1] = [(bits % 256) as u8];
        assert(field@ =~= seq![(bits % 256) as u8]);
        ShortBytes::from_slice(field.as_slice())
    } else if data_is_empty {
        let field: [u8; 3] = [0, (bits / 256) as u8, (bits % 256) as u8];
        assert(field@ =~= seq![0u8] + be16(bits));
        ShortBytes::from_slice(field.as_slice())
    } else {
        let field: [u8; 2] = [(bits / 256) as u8, (bits % 256) as u8];
        assert(field@ =~= be16(bits));
        ShortBytes::from_slice(field.as_slice())
    }
}

impl<D: DataSource> CommandBuilder<D> {
    #[verifier::type_invariant]
    spec fn payload_fits(self) -> bool {
        &&& self.data.bytes().len() <= 0xFFFF
        &&& self.data.serializable()
    }

    /// A builder that may use extended length fields.
    pub fn new(class: Class, instruction: Instruction, p1: u8, p2: u8, data: D, le: ExpectedLen) -> (r: Self)
        requires
            data.bytes().len() <= 0xFFFF,
            data.serializable(),
        ensures
            r@ == (BuilderModel {
                class: class@,
                instruction,
                p1,
                p2,
                data: data.bytes(),
                le,
                extended_length: ExtendedLen::Supported,
            }),
            r.source() == data,
    {
        Self { class, instruction, p1, p2, data, le, extended_length: ExtendedLen::Supported }
    }

    /// Forces the extended encoding of the length fields, even where the short one would do.
    pub fn force_extended(self) -> (r: Self)
        requires
            self@.extended_length != ExtendedLen::Unsupported,
        ensures
            r@ == (BuilderModel { extended_length: ExtendedLen::Forced, ..self@ }),
            r.source() == self.source(),
    {
        proof {
            use_type_invariant(&self);
        }
        let mut s = self;
        s.extended_length = ExtendedLen::Forced;
        s
    }

    /// The data source the builder was made with.
    pub closed spec fn source(&self) -> D {
        self.data
    }

    pub fn data(&self) -> (r: D)
        where
            D: Copy,
        ensures
            r == self.source(),
            r.bytes() == self@.data,
    {
        self.data
    }

    pub fn p1(&self) -> (r: u8)
        ensures
            r == self@.p1,
    {
        self.p1
    }

    pub fn p2(&self) -> (r: u8)
        ensures
            r == self@.p2,
    {
        self.p2
    }

    fn header_data(&self) -> (r: BuildingHeaderData)
        ensures
            r.le == effective_le(self@.le, self@.extended_length),
            short_bytes(r.data_len) == lc_field_of(self@),
            short_bytes(r.expected_data_len) == le_field_of(self@),
            self@.data.len() <= 0xFFFF,
    {
        proof {
            use_type_invariant(self);
        }
        let needs_extended = match self.le {
            ExpectedLen::Ne(l) => l >= 257,
            ExpectedLen::Max => true,
        };
        let le = if self.extended_length == ExtendedLen::Unsupported && needs_extended {
            ExpectedLen::Ne(256)
        } else {
            self.le
        };
        let len = self.data.len();
        let (data_len, lc_extended) = serialize_data_len(len as u16, le, self.extended_length);
        let expected_data_len = serialize_expected_len(
            le,
            lc_extended,
            self.data.is_empty(),
            self.extended_length,
        );
        BuildingHeaderData { le, data_len, expected_data_len }
    }

    /// The length of the serialised command, for sizing a buffer.
    pub fn required_len(&self) -> (r: usize)
        ensures
            r == encoding(self@).len(),
    {
        let header_data = self.header_data();
        let length_len = header_data.data_len.len() + header_data.expected_data_len.len();
        HEADER_LEN + length_len + self.data.len()
    }

    /// Writes the command into `writer`, which should have room for it (see
    /// [`should_split`](Self::should_split)).
    pub fn serialize_into<W: Writer>(&self, writer: &mut W) -> (r: Result<(), W::Error>)
        where
            D: DataStream<W>,
        ensures
            r is Ok ==> final(writer).contents() == old(writer).contents() + encoding(self@),
            r matches Err(e) ==> W::write_error(e),
            encoding(self@).len() <= old(writer).room() ==> {
                &&& r is Ok
                &&& final(writer).room() + encoding(self@).len() >= old(writer).room()
            },
    {
        proof {
            use_type_invariant(self);
        }
        let header_data = self.header_data();
        let header: [u8; 4] = [self.class.into_inner(), self.instruction.into(), self.p1, self.p2];
        assert(header@ =~= seq![self@.class, byte_of(self@.instruction), self@.p1, self@.p2]);
        match writer.write_all(header.as_slice()) {
            Ok(()) => {},
            Err(e) => {
                return Err(e);
            },
        }
        match writer.write_all(header_data.data_len.as_slice()) {
            Ok(()) => {},
            Err(e) => {
                return Err(e);
            },
        }
        match self.data.to_writer(writer) {
            Ok(()) => {},
            Err(e) => {
                return Err(e);
            },
        }
        let r = writer.write_all(header_data.expected_data_len.as_slice());
        assert(old(writer).contents() + encoding(self@) =~= old(writer).contents() + header@
            + lc_field_of(self@) + self@.data + le_field_of(self@));
        r
    }

    /// Serialises the command into a new vector.
    pub fn serialize_to_vec(self) -> (r: Vec<u8>)
        where
            D: DataStream<Vec<u8>>,
        ensures
            r@ == encoding(self@),
    {
        let required_len = self.required_len();
        let mut buffer = Vec::with_capacity(required_len);
        let r = self.serialize_into(&mut buffer);
        match r {
            Ok(()) => {},
            Err(_) => {
                assert(false);
            },
        }
        assert(buffer@ =~= encoding(self@));
        buffer
    }
}

/// The most data one command carries under a policy.
pub open spec fn max_payload(extended: ExtendedLen) -> nat {
    if extended == ExtendedLen::Unsupported {
        255
    } else {
        0xFFFF
    }
}

/// How much data fits beside the header and length fields of `b` in
/// `available_len` bytes, capped at what one command can carry.
pub open spec fn available_data_len(b: BuilderModel, available_len: nat) -> nat {
    let fields = lc_field_of(b).len() + le_field_of(b).len();
    let room: nat = if available_len >= 4 + fields {
        (available_len - 4 - fields) as nat
    } else {
        0
    };
    if room < max_payload(b.extended_length) {
        room
    } else {
        max_payload(b.extended_length)
    }
}

/// Whether splitting `b` for a buffer of `available_len` bytes is possible: the
/// buffer holds a header, and holds at least one byte of data if there is any.
pub open spec fn split_ok(b: BuilderModel, available_len: nat) -> bool {
    available_len >= 4 && (available_data_len(b, available_len) > 0 || b.data.len() == 0)
}

/// The first `k` bytes of `b`, to be sent now: chained class, no Le.
pub open spec fn split_first(b: BuilderModel, k: nat) -> BuilderModel {
    BuilderModel {
        class: chained_byte(b.class),
        data: b.data.subrange(0, k as int),
        le: ExpectedLen::Ne(0),
        ..b
    }
}

/// The rest of `b` after its first `k` bytes: its own class and its Le.
pub open spec fn split_rest(b: BuilderModel, k: nat) -> BuilderModel {
    BuilderModel {
        data: b.data.subrange(k as int, b.data.len() as int),
        le: effective_le(b.le, b.extended_length),
        ..b
    }
}

/// The commands a chain sends for `b` with buffers of `available_len` bytes, in order.
pub open spec fn chain_fragments(b: BuilderModel, available_len: nat) -> Seq<BuilderModel>
    decreases b.data.len(),
{
    let k = available_data_len(b, available_len);
    if k >= b.data.len() || k == 0 {
        seq![b]
    } else {
        seq![split_first(b, k)] + chain_fragments(split_rest(b, k), available_len)
    }
}

/// After one split the rest can be split again: its length fields are no longer
/// than those of the whole.
pub proof fn lemma_split_rest_ok(b: BuilderModel, available_len: nat)
    requires
        split_ok(b, available_len),
        available_data_len(b, available_len) < b.data.len(),
    ensures
        split_ok(split_rest(b, available_data_len(b, available_len)), available_len),
        available_data_len(split_rest(b, available_data_len(b, available_len)), available_len)
            >= available_data_len(b, available_len),
{
    let k = available_data_len(b, available_len);
    let r = split_rest(b, k);
    let le = effective_le(b.le, b.extended_length);
    assert(effective_le(r.le, r.extended_length) == le);
    assert(r.data.len() == b.data.len() - k);
    assert(lc_field_of(r).len() <= lc_field_of(b).len());
    assert(le_field_of(r).len() <= le_field_of(b).len());
}

impl<'a> CommandBuilder<&'a [u8]> {
    /// An iterator over the commands of a chain that sends this command without
    /// extended length fields, each in at most `buffer_len` bytes (by default
    /// 261: a header, an Lc byte, 255 bytes of data and an Le byte). Every command
    /// of the chain uses the short length fields, and the last keeps the class and
    /// asks for at most 256 response bytes.
    pub fn new_non_extended(
        class: Class,
        instruction: Instruction,
        p1: u8,
        p2: u8,
        data: &'a [u8],
        le: u16,
        buffer_len: Option<usize>,
    ) -> (r: ChainedCommandIterator<'a>)
        requires
            data@.len() <= 0xFFFF,
            split_ok(
                BuilderModel {
                    class: class@,
                    instruction,
                    p1,
                    p2,
                    data: data@,
                    le: ExpectedLen::Ne(le),
                    extended_length: ExtendedLen::Unsupported,
                },
                match buffer_len {
                    Some(l) => l as nat,
                    None => 261,
                },
            ),
        ensures
            r@ == chain_fragments(
                BuilderModel {
                    class: class@,
                    instruction,
                    p1,
                    p2,
                    data: data@,
                    le: ExpectedLen::Ne(le),
                    extended_length: ExtendedLen::Unsupported,
                },
                match buffer_len {
                    Some(l) => l as nat,
                    None => 261,
                },
            ),
            match buffer_len {
                Some(l) => l >= 9,
                None => true,
            } && class@ != 0xFF && (r@.len() > 1 ==> class@ != 0xEF) ==> {
                &&& forall|i: int|
                    0 <= i < r@.len() ==> (parse_command(encoding(#[trigger] r@[i])) matches Ok(v)
                        && !v.extended)
                &&& parse_command(encoding(r@.last())) matches Ok(v) && v.class == class@ && v.le
                    == if le <= 256 {
                    le as nat
                } else {
                    256
                }
            },
    {
        let ghost model = BuilderModel {
            class: class@,
            instruction,
            p1,
            p2,
            data: data@,
            le: ExpectedLen::Ne(le),
            extended_length: ExtendedLen::Unsupported,
        };
        let ghost avail: nat = match buffer_len {
            Some(l) => l as nat,
            None => 261,
        };
        proof {
            if avail >= 9 && class@ != 0xFF && (chain_fragments(model, avail).len() > 1
                ==> class@ != 0xEF) {
                lemmas::lemma_non_extended_chain(model, avail);
            }
        }
        let command = Self {
            class,
            instruction,
            p1,
            p2,
            data,
            le: ExpectedLen::Ne(le),
            extended_length: ExtendedLen::Unsupported,
        };
        let available_len = match buffer_len {
            Some(l) => l,
            None => 255 + 5 + 1,
        };
        ChainedCommandIterator { command: Some(command), available_len }
    }

    /// Splits the command in two for a buffer of `available_len` bytes.
    ///
    /// `None` means that the command fits as it is. `Some((now, later))` means
    /// that `now` fits and is marked as chained, and that `later` holds the rest;
    /// `later` may need splitting again.
    pub fn should_split(&self, available_len: usize) -> (r: Option<(Self, Self)>)
        requires
            split_ok(self@, available_len as nat),
        ensures
            available_data_len(self@, available_len as nat) >= self@.data.len() ==> r is None,
            available_data_len(self@, available_len as nat) < self@.data.len() ==> (r matches Some(
                (now, later),
            ) && now@ == split_first(self@, available_data_len(self@, available_len as nat))
                && later@ == split_rest(self@, available_data_len(self@, available_len as nat))),
    {
        proof {
            use_type_invariant(self);
        }
        let header_data = self.header_data();
        let max_data_len: usize = if self.extended_length == ExtendedLen::Unsupported {
            255
        } else {
            0xFFFF
        };
        let fields = header_data.data_len.len() + header_data.expected_data_len.len();
        let room = if available_len - HEADER_LEN >= fields {
            available_len - HEADER_LEN - fields
        } else {
            0
        };
        let available_data_len = if room < max_data_len {
            room
        } else {
            max_data_len
        };
        if available_data_len >= self.data.len() {
            // splitting is not needed
            return None;
        }
        let (send_now, send_later) = self.data.split_at(available_data_len);

        let send_now = Self {
            class: self.class.as_chained(),
            instruction: self.instruction,
            p1: self.p1,
            p2: self.p2,
            data: send_now,
            le: ExpectedLen::Ne(0),
            extended_length: self.extended_length,
        };
        let send_later = Self {
            class: self.class,
            instruction: self.instruction,
            p1: self.p1,
            p2: self.p2,
            data: send_later,
            le: header_data.le,
            extended_length: self.extended_length,
        };
        Some((send_now, send_later))
    }
}

/// The commands of a chain, produced one by one by splitting the rest again.
#[derive(Debug)]
pub struct ChainedCommandIterator<'a> {
    command: Option<CommandBuilder<&'a [u8]>>,
    available_len: usize,
}

impl<'a> View for ChainedCommandIterator<'a> {
    type V = Seq<BuilderModel>;

    closed spec fn view(&self) -> Seq<BuilderModel> {
        match self.command {
            Some(c) => chain_fragments(c@, self.available_len as nat),
            None => Seq::empty(),
        }
    }
}

impl<'a> ChainedCommandIterator<'a> {
    #[verifier::type_invariant]
    spec fn splittable(self) -> bool {
        self.command matches Some(c) ==> split_ok(c@, self.available_len as nat)
    }

    /// The next command of the chain.
    pub fn next(&mut self) -> (r: Option<CommandBuilder<&'a [u8]>>)
        ensures
            old(self)@.len() == 0 ==> r is None && final(self)@.len() == 0,
            old(self)@.len() > 0 ==> {
                &&& r matches Some(c) && c@ == old(self)@[0]
                &&& final(self)@ == old(self)@.drop_first()
            },
    {
        proof {
            use_type_invariant(&*self);
        }
        let available_len = self.available_len;
        let (rest, cur) = match &self.command {
            None => {
                return None;
            },
            Some(next) => match next.should_split(available_len) {
                Some((cur, rest)) => {
                    proof {
                        lemma_split_rest_ok(next@, available_len as nat);
                        assert(old(self)@ =~= seq![cur@] + chain_fragments(
                            rest@,
                            available_len as nat,
                        ));
                    }
                    (Some(rest), cur)
                },
                None => {
                    assert(old(self)@ =~= seq![next@]);
                    (None, next.clone())
                },
            },
        };
        self.command = rest;
        assert(self@ =~= old(self)@.drop_first());
        Some(cur)
    }
}

impl<D: DataSource> DataSource for CommandBuilder<D> {
    open spec fn bytes(&self) -> Seq<u8> {
        encoding(self@)
    }

    fn len(&self) -> (r: usize) {
        self.required_len()
    }

    fn is_empty(&self) -> (r: bool) {
        false
    }
}

impl<W: Writer, D: DataStream<W>> DataStream<W> for CommandBuilder<D> {
    fn to_writer(&self, writer: &mut W) -> (r: Result<(), W::Error>) {
        self.serialize_into(writer)
    }
}

/// Whether two byte strings are equal.
fn bytes_equal(a: &[u8], b: &[u8]) -> (r: bool)
    ensures
        r == (a@ == b@),
{
    if a.len() != b.len() {
        return false;
    }
    let mut i: usize = 0;
    while i < a.len()
        invariant
            i <= a@.len(),
            a@.len() == b@.len(),
            a@.subrange(0, i as int) == b@.subrange(0, i as int),
        decreases a@.len() - i,
    {
        if a[i] != b[i] {
            assert(a@.subrange(0, i + 1)[i as int] != b@.subrange(0, i + 1)[i as int]);
            return false;
        }
        assert(a@.subrange(0, i + 1) =~= a@.subrange(0, i as int).push(a@[i as int]));
        assert(b@.subrange(0, i + 1) =~= b@.subrange(0, i as int).push(b@[i as int]));
        i = i + 1;
    }
    assert(a@ =~= a@.subrange(0, i as int));
    assert(b@ =~= b@.subrange(0, i as int));
    true
}

/// Compares a builder with a decoded command, ignoring the encoding policy.
impl<'a, D: DataStream<Vec<u8>>> PartialEq<CommandView<'a>> for CommandBuilder<D> {
    fn eq(&self, other: &CommandView<'a>) -> (r: bool)
        ensures
            r == builder_matches(self@, other@),
    {
        proof {
            use_type_invariant(self);
        }
        let mut data: Vec<u8> = Vec::new();
        match self.data.to_writer(&mut data) {
            Ok(()) => {},
            Err(_) => {
                assert(false);
                return false;
            },
        }
        assert(data@ =~= self@.data);
        proof {
            Class::lemma_view_injective(self.class, other.class);
        }
        let le = usize::from(self.le);
        self.class == other.class && self.instruction == other.instruction && self.p1 == other.p1
            && self.p2 == other.p2 && bytes_equal(data.as_slice(), other.data) && le == other.le
    }
}

impl<'a, D: DataStream<Vec<u8>>> vstd::std_specs::cmp::PartialEqSpecImpl<CommandView<'a>> for CommandBuilder<D> {
    open spec fn obeys_eq_spec() -> bool {
        true
    }

    open spec fn eq_spec(&self, other: &CommandView<'a>) -> bool {
        builder_matches(self@, other@)
    }
}

/// Compares a decoded command with a builder, ignoring the encoding policy.
impl<'a, D: DataStream<Vec<u8>>> PartialEq<CommandBuilder<D>> for CommandView<'a> {
    fn eq(&self, other: &CommandBuilder<D>) -> (r: bool)
        ensures
            r == builder_matches(other@, self@),
    {
        other.eq(self)
    }
}

impl<'a, D: DataStream<Vec<u8>>> vstd::std_specs::cmp::PartialEqSpecImpl<CommandBuilder<D>> for CommandView<'a> {
    open spec fn obeys_eq_spec() -> bool {
        true
    }

    open spec fn eq_spec(&self, other: &CommandBuilder<D>) -> bool {
        builder_matches(other@, self@)
    }
}

} // verus!
