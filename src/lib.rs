//! Command and response APDUs of ISO 7816-4: decoding, encoding and chaining.
use vstd::prelude::*;

pub mod aid;
pub mod command;
pub mod response;
pub mod somebytes;
pub mod tlv;

pub use aid::{Aid, App};
pub use command::class;
pub use command::{Command, Instruction};
pub use response::{Response, Status};

verus! {

/// The result of handling a command: a status word on failure.
pub type Result<T = ()> = core::result::Result<T, Status>;

/// The physical interface a command arrived on.
#[derive(Copy, Clone, PartialEq, Eq, Debug, Structural)]
pub enum Interface {
    Contact,
    Contactless,
}

} // verus!
