//! Payloads of commands: anything with a serialised length that can stream itself into a writer.
use vstd::prelude::*;

use super::writer::Writer;

verus! {

/// A payload of known length.
///
/// `bytes` is what the payload serialises to, and `serializable` whether it can
/// be written at all; a source that keeps the defaults serialises to nothing.
pub trait DataSource {
    open spec fn bytes(&self) -> Seq<u8> {
        Seq::empty()
    }

    open spec fn serializable(&self) -> bool {
        true
    }

    /// Length of the serialised data.
    fn len(&self) -> (r: usize)
        requires
            self.bytes().len() <= usize::MAX,
        ensures
            r == self.bytes().len(),
    ;

    fn is_empty(&self) -> (r: bool)
        requires
            self.bytes().len() <= usize::MAX,
        ensures
            r == (self.bytes().len() == 0),
    {
        self.len() == 0
    }
}

/// A payload that can be written into `W`.
pub trait DataStream<W: Writer>: DataSource {
    /// Writes exactly the bytes of the payload; an error is the writer's, unless
    /// the payload cannot be serialised.
    fn to_writer(&self, writer: &mut W) -> (r: Result<(), W::Error>)
        ensures
            r is Ok ==> final(writer).contents() == old(writer).contents() + self.bytes(),
            r matches Err(e) ==> W::write_error(e) || !self.serializable(),
            self.serializable() && self.bytes().len() <= old(writer).room() ==> {
                &&& r is Ok
                &&& final(writer).room() + self.bytes().len() >= old(writer).room()
            },
    ;
}

impl<const N: usize> DataSource for [u8; N] {
    open spec fn bytes(&self) -> Seq<u8> {
        self@
    }

    fn len(&self) -> (r: usize) {
        N
    }

    fn is_empty(&self) -> (r: bool) {
        N == 0
    }
}

impl<W: Writer, const N: usize> DataStream<W> for [u8; N] {
    fn to_writer(&self, writer: &mut W) -> (r: Result<(), W::Error>) {
        writer.write_all(self.as_slice())
    }
}

impl DataSource for [u8] {
    open spec fn bytes(&self) -> Seq<u8> {
        self@
    }

    fn len(&self) -> (r: usize) {
        <[u8]>::len(self)
    }

    fn is_empty(&self) -> (r: bool) {
        <[u8]>::is_empty(self)
    }
}

impl<W: Writer> DataStream<W> for [u8] {
    fn to_writer(&self, writer: &mut W) -> (r: Result<(), W::Error>) {
        writer.write_all(self)
    }
}

impl<I: DataSource> DataSource for Option<I> {
    open spec fn bytes(&self) -> Seq<u8> {
        match self {
            Some(inner) => inner.bytes(),
            None => Seq::empty(),
        }
    }

    open spec fn serializable(&self) -> bool {
        match self {
            Some(inner) => inner.serializable(),
            None => true,
        }
    }

    fn len(&self) -> (r: usize) {
        match self {
            Some(inner) => inner.len(),
            None => 0,
        }
    }

    fn is_empty(&self) -> (r: bool) {
        match self {
            Some(inner) => inner.is_empty(),
            None => true,
        }
    }
}

impl<W: Writer, I: DataStream<W>> DataStream<W> for Option<I> {
    fn to_writer(&self, writer: &mut W) -> (r: Result<(), W::Error>) {
        match self {
            Some(inner) => inner.to_writer(writer),
            None => {
                assert(old(writer).contents() + Seq::<u8>::empty() =~= old(writer).contents());
                Ok(())
            },
        }
    }
}

impl DataSource for () {
    open spec fn bytes(&self) -> Seq<u8> {
        Seq::empty()
    }

    fn len(&self) -> (r: usize) {
        0
    }

    fn is_empty(&self) -> (r: bool) {
        true
    }
}

impl<W: Writer> DataStream<W> for () {
    fn to_writer(&self, writer: &mut W) -> (r: Result<(), W::Error>) {
        assert(old(writer).contents() + Seq::<u8>::empty() =~= old(writer).contents());
        Ok(())
    }
}

impl<T: DataSource + ?Sized> DataSource for &T {
    open spec fn bytes(&self) -> Seq<u8> {
        (**self).bytes()
    }

    open spec fn serializable(&self) -> bool {
        (**self).serializable()
    }

    fn len(&self) -> (r: usize) {
        T::len(&**self)
    }

    fn is_empty(&self) -> (r: bool) {
        T::is_empty(&**self)
    }
}

impl<W: Writer, T: DataStream<W> + ?Sized> DataStream<W> for &T {
    fn to_writer(&self, writer: &mut W) -> (r: Result<(), W::Error>) {
        T::to_writer(&**self, writer)
    }
}

/// Two payloads one after the other.
impl<A: DataSource, B: DataSource> DataSource for (A, B) {
    open spec fn bytes(&self) -> Seq<u8> {
        self.0.bytes() + self.1.bytes()
    }

    open spec fn serializable(&self) -> bool {
        self.0.serializable() && self.1.serializable()
    }

    fn len(&self) -> (r: usize) {
        self.0.len() + self.1.len()
    }

    fn is_empty(&self) -> (r: bool) {
        self.0.is_empty() && self.1.is_empty()
    }
}

impl<W: Writer, A: DataStream<W>, B: DataStream<W>> DataStream<W> for (A, B) {
    fn to_writer(&self, writer: &mut W) -> (r: Result<(), W::Error>) {
        match self.0.to_writer(writer) {
            Ok(()) => {},
            Err(e) => {
                return Err(e);
            },
        }
        let r = self.1.to_writer(writer);
        assert(old(writer).contents() + self.bytes() =~= old(writer).contents() + self.0.bytes()
            + self.1.bytes());
        r
    }
}

/// Three payloads one after the other.
impl<A: DataSource, B: DataSource, C: DataSource> DataSource for (A, B, C) {
    open spec fn bytes(&self) -> Seq<u8> {
        self.0.bytes() + self.1.bytes() + self.2.bytes()
    }

    open spec fn serializable(&self) -> bool {
        self.0.serializable() && self.1.serializable() && self.2.serializable()
    }

    fn len(&self) -> (r: usize) {
        self.0.len() + self.1.len() + self.2.len()
    }

    fn is_empty(&self) -> (r: bool) {
        self.0.is_empty() && self.1.is_empty() && self.2.is_empty()
    }
}

impl<W: Writer, A: DataStream<W>, B: DataStream<W>, C: DataStream<W>> DataStream<W> for (A, B, C) {
    fn to_writer(&self, writer: &mut W) -> (r: Result<(), W::Error>) {
        match self.0.to_writer(writer) {
            Ok(()) => {},
            Err(e) => {
                return Err(e);
            },
        }
        match self.1.to_writer(writer) {
            Ok(()) => {},
            Err(e) => {
                return Err(e);
            },
        }
        let r = self.2.to_writer(writer);
        assert(old(writer).contents() + self.bytes() =~= old(writer).contents() + self.0.bytes()
            + self.1.bytes() + self.2.bytes());
        r
    }
}

} // verus!
