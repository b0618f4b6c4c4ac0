//! Response APDUs.
use vstd::prelude::*;

mod status;
pub use status::{code_of, status_of, Status};

verus! {

/// A response: data of at most `S` bytes, or a status word.
#[derive(Clone, Debug, Eq, PartialEq)]
pub enum Response<const S: usize> {
    Data(Vec<u8>),
    Status(Status),
}

impl<const S: usize> Default for Response<S> {
    fn default() -> (r: Self)
        ensures
            r == Response::<S>::Status(Status::Success),
    {
        Self::Status(Status::Success)
    }
}

} // verus!
