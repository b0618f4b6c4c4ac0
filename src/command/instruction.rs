//! The instruction byte (INS) of a command APDU.
use vstd::prelude::*;

use core::ops::{BitAnd, BitOr};

verus! {

#[derive(Copy, Clone, Debug, Eq, PartialEq, Structural)]
pub enum Instruction {
    Select,
    GetData,
    Verify,
    ChangeReferenceData,
    ResetRetryCounter,
    GeneralAuthenticate,
    PutData,
    GenerateAsymmetricKeyPair,
    GetResponse,
    ReadBinary,
    WriteBinary,
    Unknown(u8),
}

pub struct UnknownInstruction {}

/// The instruction a byte names; bytes without a name are kept as `Unknown`.
pub open spec fn instruction_of(ins: u8) -> Instruction {
    if ins == 0x20 {
        Instruction::Verify
    } else if ins == 0x24 {
        Instruction::ChangeReferenceData
    } else if ins == 0x2c {
        Instruction::ResetRetryCounter
    } else if ins == 0x47 {
        Instruction::GenerateAsymmetricKeyPair
    } else if ins == 0x87 {
        Instruction::GeneralAuthenticate
    } else if ins == 0xa4 {
        Instruction::Select
    } else if ins == 0xc0 {
        Instruction::GetResponse
    } else if ins == 0xcb {
        Instruction::GetData
    } else if ins == 0xdb {
        Instruction::PutData
    } else if ins == 0xb0 {
        Instruction::ReadBinary
    } else if ins == 0xd0 {
        Instruction::WriteBinary
    } else {
        Instruction::Unknown(ins)
    }
}

/// The byte that encodes an instruction.
pub open spec fn byte_of(instruction: Instruction) -> u8 {
    match instruction {
        Instruction::Verify => 0x20,
        Instruction::ChangeReferenceData => 0x24,
        Instruction::ResetRetryCounter => 0x2c,
        Instruction::GenerateAsymmetricKeyPair => 0x47,
        Instruction::GeneralAuthenticate => 0x87,
        Instruction::Select => 0xa4,
        Instruction::GetResponse => 0xc0,
        Instruction::GetData => 0xcb,
        Instruction::PutData => 0xdb,
        Instruction::ReadBinary => 0xb0,
        Instruction::WriteBinary => 0xd0,
        Instruction::Unknown(ins) => ins,
    }
}

/// Decoding a byte as an instruction and encoding it again gives the byte back.
pub proof fn lemma_byte_round_trip(ins: u8)
    ensures
        byte_of(instruction_of(ins)) == ins,
{
}

impl From<u8> for Instruction {
    fn from(ins: u8) -> (r: Self)
        ensures
            r == instruction_of(ins),
    {
        match ins {
            0x20 => Instruction::Verify,
            0x24 => Instruction::ChangeReferenceData,
            0x2c => Instruction::ResetRetryCounter,
            0x47 => Instruction::GenerateAsymmetricKeyPair,
            0x87 => Instruction::GeneralAuthenticate,
            0xa4 => Instruction::Select,
            0xc0 => Instruction::GetResponse,
            0xcb => Instruction::GetData,
            0xdb => Instruction::PutData,
            0xb0 => Instruction::ReadBinary,
            0xd0 => Instruction::WriteBinary,
            ins => Instruction::Unknown(ins),
        }
    }
}

impl vstd::std_specs::convert::FromSpecImpl<u8> for Instruction {
    open spec fn obeys_from_spec() -> bool {
        true
    }

    open spec fn from_spec(v: u8) -> Instruction {
        instruction_of(v)
    }
}

impl From<Instruction> for u8 {
    fn from(instruction: Instruction) -> (r: u8)
        ensures
            r == byte_of(instruction),
    {
        match instruction {
            Instruction::Verify => 0x20,
            Instruction::ChangeReferenceData => 0x24,
            Instruction::ResetRetryCounter => 0x2c,
            Instruction::GenerateAsymmetricKeyPair => 0x47,
            Instruction::GeneralAuthenticate => 0x87,
            Instruction::Select => 0xa4,
            Instruction::GetResponse => 0xc0,
            Instruction::GetData => 0xcb,
            Instruction::PutData => 0xdb,
            Instruction::ReadBinary => 0xb0,
            Instruction::WriteBinary => 0xd0,
            Instruction::Unknown(ins) => ins,
        }
    }
}

impl vstd::std_specs::convert::FromSpecImpl<Instruction> for u8 {
    open spec fn obeys_from_spec() -> bool {
        true
    }

    open spec fn from_spec(v: Instruction) -> u8 {
        byte_of(v)
    }
}

impl BitAnd for Instruction {
    type Output = Self;

    fn bitand(self, rhs: Self) -> (r: Self::Output)
        ensures
            r == instruction_of(byte_of(self) & byte_of(rhs)),
    {
        let rhs: u8 = rhs.into();
        let this: u8 = self.into();
        (this & rhs).into()
    }
}

impl vstd::std_specs::ops::BitAndSpecImpl for Instruction {
    open spec fn obeys_bitand_spec() -> bool {
        true
    }

    open spec fn bitand_req(self, rhs: Instruction) -> bool {
        true
    }

    open spec fn bitand_spec(self, rhs: Instruction) -> Instruction {
        instruction_of(byte_of(self) & byte_of(rhs))
    }
}

impl BitOr for Instruction {
    type Output = Self;

    fn bitor(self, rhs: Self) -> (r: Self::Output)
        ensures
            r == instruction_of(byte_of(self) | byte_of(rhs)),
    {
        let rhs: u8 = rhs.into();
        let this: u8 = self.into();
        (this | rhs).into()
    }
}

impl vstd::std_specs::ops::BitOrSpecImpl for Instruction {
    open spec fn obeys_bitor_spec() -> bool {
        true
    }

    open spec fn bitor_req(self, rhs: Instruction) -> bool {
        true
    }

    open spec fn bitor_spec(self, rhs: Instruction) -> Instruction {
        instruction_of(byte_of(self) | byte_of(rhs))
    }
}

} // verus!
