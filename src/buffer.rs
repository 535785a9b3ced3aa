//! Shared-memory segments: descriptor, lifecycle and bounds-checked views.
use vstd::prelude::*;

verus! {

/// Conventional capacity of a segment: 100 MiB.
pub const DEFAULT_CAPACITY: usize = 104857600;

/// Which way the bulk bytes of a segment flow.
#[derive(Clone, Copy, Debug, PartialEq, Eq, Structural)]
pub enum Role {
    Input,
    Output,
}

/// Where a segment stands in its lifecycle, as seen by this process.
#[derive(Clone, Copy, Debug, PartialEq, Eq, Structural)]
pub enum Mapping {
    Attached,
    Detached,
    Destroyed,
}

#[derive(Clone, Copy, Debug, PartialEq, Eq, Structural)]
pub enum BufferError {
    /// A length beyond the segment's capacity.
    OutOfBounds,
    /// The segment is not mapped into this process.
    NotAttached,
    /// Only the owner may destroy a segment.
    NotOwner,
    /// A segment is destroyed only once every local mapping is gone.
    StillAttached,
    /// The segment was destroyed already.
    AlreadyDestroyed,
}

/// One shared-memory segment as this process knows it.
#[derive(Clone, Copy, Debug)]
pub struct ExternalBuffer {
    pub role: Role,
    pub key: u32,
    pub capacity: usize,
    pub owner: bool,
    pub mapping: Mapping,
}

/// The outcome of `view`: the checked length, or why there is no view.
pub open spec fn view_outcome(b: ExternalBuffer, length: usize) -> Result<usize, BufferError> {
    if length > b.capacity {
        Err(BufferError::OutOfBounds)
    } else if b.mapping != Mapping::Attached {
        Err(BufferError::NotAttached)
    } else {
        Ok(length)
    }
}

impl ExternalBuffer {
    /// A segment that was just mapped into this process.
    pub fn attached(key: u32, role: Role, capacity: usize, owner: bool) -> (r: Self)
        ensures
            r.key == key,
            r.role == role,
            r.capacity == capacity,
            r.owner == owner,
            r.mapping == Mapping::Attached,
    {
        ExternalBuffer { role, key, capacity, owner, mapping: Mapping::Attached }
    }

    /// Checks a view of `length` bytes from the start of the segment; a
    /// length beyond the capacity never yields a view.
    pub fn view(&self, length: usize) -> (r: Result<usize, BufferError>)
        ensures
            r == view_outcome(*self, length),
            length > self.capacity ==> r == Err::<usize, BufferError>(BufferError::OutOfBounds),
    {
        if length > self.capacity {
            Err(BufferError::OutOfBounds)
        } else if !matches!(self.mapping, Mapping::Attached) {
            Err(BufferError::NotAttached)
        } else {
            Ok(length)
        }
    }

    /// Releases the local mapping. Returns whether there was one to release;
    /// a second call changes nothing.
    pub fn detach(&mut self) -> (r: bool)
        ensures
            r == (old(self).mapping == Mapping::Attached),
            final(self).mapping == (if r { Mapping::Detached } else { old(self).mapping }),
            final(self).role == old(self).role,
            final(self).key == old(self).key,
            final(self).capacity == old(self).capacity,
            final(self).owner == old(self).owner,
    {
        if matches!(self.mapping, Mapping::Attached) {
            self.mapping = Mapping::Detached;
            true
        } else {
            false
        }
    }

    /// Marks the segment removed. Only the owner may do so, once, and only
    /// after its own mapping is released.
    pub fn destroy(&mut self) -> (r: Result<(), BufferError>)
        ensures
            !old(self).owner ==> r == Err::<(), BufferError>(BufferError::NotOwner),
            old(self).owner && old(self).mapping == Mapping::Attached ==> r == Err::<(), BufferError>(
                BufferError::StillAttached,
            ),
            old(self).owner && old(self).mapping == Mapping::Destroyed ==> r == Err::<(), BufferError>(
                BufferError::AlreadyDestroyed,
            ),
            r is Ok <==> old(self).owner && old(self).mapping == Mapping::Detached,
            final(self).mapping == (if r is Ok { Mapping::Destroyed } else { old(self).mapping }),
            final(self).role == old(self).role,
            final(self).key == old(self).key,
            final(self).capacity == old(self).capacity,
            final(self).owner == old(self).owner,
    {
        if !self.owner {
            Err(BufferError::NotOwner)
        } else {
            match self.mapping {
                Mapping::Attached => Err(BufferError::StillAttached),
                Mapping::Destroyed => Err(BufferError::AlreadyDestroyed),
                Mapping::Detached => {
                    self.mapping = Mapping::Destroyed;
                    Ok(())
                },
            }
        }
    }
}

/// The bytes of a segment after `src` is written at its start.
pub open spec fn written(data: Seq<u8>, src: Seq<u8>) -> Seq<u8> {
    src + data.subrange(src.len() as int, data.len() as int)
}

/// A segment's bytes held in this process: a fixed capacity, every access
/// bounds-checked against it.
pub struct Segment {
    data: Vec<u8>,
}

impl View for Segment {
    type V = Seq<u8>;

    closed spec fn view(&self) -> Seq<u8> {
        self.data@
    }
}

impl Segment {
    /// A zero-filled segment of `capacity` bytes.
    pub fn new(capacity: usize) -> (r: Self)
        ensures
            r@ == Seq::new(capacity as nat, |i: int| 0u8),
    {
        let mut data: Vec<u8> = Vec::new();
        let mut i: usize = 0;
        while i < capacity
            invariant
                i <= capacity,
                data@ == Seq::new(i as nat, |j: int| 0u8),
            decreases capacity - i,
        {
            data.push(0u8);
            i = i + 1;
            assert(data@ =~= Seq::new(i as nat, |j: int| 0u8));
        }
        Segment { data }
    }

    pub fn capacity(&self) -> (r: usize)
        ensures
            r == self@.len(),
    {
        self.data.len()
    }

    /// Writes `src` at the start of the segment.
    pub fn write(&mut self, src: &[u8]) -> (r: Result<(), BufferError>)
        ensures
            r is Ok <==> src@.len() <= old(self)@.len(),
            r is Err ==> r == Err::<(), BufferError>(BufferError::OutOfBounds) && final(self)@ == old(
                self,
            )@,
            r is Ok ==> final(self)@ == written(old(self)@, src@),
    {
        if src.len() > self.data.len() {
            return Err(BufferError::OutOfBounds);
        }
        let mut i: usize = 0;
        while i < src.len()
            invariant
                i <= src@.len() <= self.data@.len(),
                self.data@.len() == old(self)@.len(),
                forall|j: int| 0 <= j < i ==> self.data@[j] == src@[j],
                forall|j: int| i <= j < self.data@.len() ==> self.data@[j] == old(self)@[j],
            decreases src@.len() - i,
        {
            self.data.set(i, src[i]);
            i = i + 1;
        }
        assert(self.data@ =~= written(old(self)@, src@));
        Ok(())
    }

    /// Reads the first `length` bytes of the segment.
    pub fn read(&self, length: usize) -> (r: Result<Vec<u8>, BufferError>)
        ensures
            r is Ok <==> length <= self@.len(),
            r is Err ==> r == Err::<Vec<u8>, BufferError>(BufferError::OutOfBounds),
            r matches Ok(v) ==> v@ == self@.subrange(0, length as int),
    {
        if length > self.data.len() {
            return Err(BufferError::OutOfBounds);
        }
        let mut out: Vec<u8> = Vec::new();
        let mut i: usize = 0;
        while i < length
            invariant
                i <= length <= self.data@.len(),
                out@ == self.data@.subrange(0, i as int),
            decreases length - i,
        {
            out.push(self.data[i]);
            i = i + 1;
            assert(out@ =~= self.data@.subrange(0, i as int));
        }
        Ok(out)
    }
}

/// Bytes written at the start of a segment and read back with their own
/// length are the bytes that were written, for any length up to the capacity.
pub proof fn lemma_write_read_round_trip(data: Seq<u8>, src: Seq<u8>)
    requires
        src.len() <= data.len(),
    ensures
        written(data, src).len() == data.len(),
        written(data, src).subrange(0, src.len() as int) == src,
{
    assert(written(data, src).subrange(0, src.len() as int) =~= src);
}

/// A length beyond the capacity never gives a view, whatever the segment's state.
pub proof fn lemma_view_beyond_capacity(b: ExternalBuffer, length: usize)
    requires
        length > b.capacity,
    ensures
        view_outcome(b, length) == Err::<usize, BufferError>(BufferError::OutOfBounds),
{
}

} // verus!
