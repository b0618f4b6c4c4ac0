//! Sinks that serialised commands are written into.
use vstd::prelude::*;

verus! {

/// An error reported by a writer.
pub trait Error: Sized {
    fn failed_serialization(cause: &'static str) -> Self;
}

/// The error of a writer with a fixed capacity.
#[derive(Debug)]
pub enum BufferFull {
    BufferFull,
    Serialization(&'static str),
}

impl Error for BufferFull {
    fn failed_serialization(cause: &'static str) -> Self {
        BufferFull::Serialization(cause)
    }
}

impl BufferFull {
    /// A short description of the error.
    pub fn message(&self) -> (r: &'static str)
        ensures
            self matches BufferFull::BufferFull ==> r@ == "Buffer is full"@,
            self matches BufferFull::Serialization(cause) ==> r == cause,
    {
        match self {
            BufferFull::BufferFull => "Buffer is full",
            BufferFull::Serialization(cause) => cause,
        }
    }
}

/// A byte sink.
///
/// `contents` is what has been written so far, `room` how many more bytes the
/// writer promises to take without an error, and `write_error` holds of the
/// errors `write` reports. A writer that keeps the defaults records nothing and
/// promises no room.
pub trait Writer: Sized {
    type Error: Error;

    open spec fn contents(&self) -> Seq<u8> {
        Seq::empty()
    }

    open spec fn room(&self) -> nat {
        0
    }

    /// Whether `e` is an error that `write` reports.
    open spec fn write_error(e: Self::Error) -> bool {
        true
    }

    /// Writes a prefix of `data`, at least one byte when `data` is not empty,
    /// and returns its length.
    fn write(&mut self, data: &[u8]) -> (r: Result<usize, Self::Error>)
        ensures
            r matches Ok(n) ==> {
                &&& n <= data@.len()
                &&& data@.len() > 0 ==> n > 0
                &&& final(self).contents() == old(self).contents() + data@.subrange(0, n as int)
                &&& final(self).room() + n >= old(self).room()
            },
            r matches Err(e) ==> Self::write_error(e),
            data@.len() <= old(self).room() ==> (r matches Ok(n) && n == data@.len()),
    ;

    /// Writes all of `data`, or fails with the writer's error.
    fn write_all(&mut self, data: &[u8]) -> (r: Result<(), Self::Error>)
        ensures
            r is Ok ==> final(self).contents() == old(self).contents() + data@,
            r matches Err(e) ==> Self::write_error(e),
            data@.len() <= old(self).room() ==> {
                &&& r is Ok
                &&& final(self).room() + data@.len() >= old(self).room()
            },
    {
        let mut offset: usize = 0;
        while offset < data.len()
            invariant
                offset <= data@.len(),
                self.contents() == old(self).contents() + data@.subrange(0, offset as int),
                data@.len() <= old(self).room() ==> self.room() + offset >= old(self).room(),
            decreases data@.len() - offset,
        {
            let rest = &data[offset..data.len()];
            match self.write(rest) {
                Ok(n) => {
                    assert(data@.subrange(0, offset + n) =~= data@.subrange(0, offset as int)
                        + rest@.subrange(0, n as int));
                    offset = offset + n;
                },
                Err(e) => {
                    return Err(e);
                },
            }
        }
        assert(data@.subrange(0, data@.len() as int) =~= data@);
        Ok(())
    }
}

/// The error of a writer that grows as needed.
#[derive(Debug)]
pub struct SerializationError(&'static str);

impl Error for SerializationError {
    fn failed_serialization(cause: &'static str) -> Self {
        Self(cause)
    }
}

impl Writer for Vec<u8> {
    type Error = SerializationError;

    open spec fn contents(&self) -> Seq<u8> {
        self@
    }

    open spec fn room(&self) -> nat {
        if self@.len() <= usize::MAX {
            (usize::MAX - self@.len()) as nat
        } else {
            0
        }
    }

    fn write(&mut self, data: &[u8]) -> (r: Result<usize, SerializationError>)
        ensures
            r matches Ok(n) && n == data@.len(),
    {
        self.extend_from_slice(data);
        assert(self@ =~= old(self)@ + data@.subrange(0, data@.len() as int));
        Ok(data.len())
    }
}

/// A value that can be turned into a writer with room for a given number of bytes.
pub trait IntoWriter: Sized {
    type Writer: Writer;

    fn into_writer(self, to_write: usize) -> Result<Self::Writer, <Self::Writer as Writer>::Error>;
}

impl IntoWriter for Vec<u8> {
    type Writer = Self;

    fn into_writer(self, to_write: usize) -> (r: Result<Self, SerializationError>)
        ensures
            r matches Ok(w) && w@ == self@,
    {
        Ok(self)
    }
}

} // verus!
