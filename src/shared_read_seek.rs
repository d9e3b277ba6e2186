use vstd::prelude::*;

verus! {

/// The input streams of one conversion, each held once. Handles into it
/// (`SharedReadSeek`) can be copied freely, and all copies of a handle
/// drive the same stream and therefore the same cursor.
pub struct SourceArena<R> {
    streams: Vec<R>,
}

impl<R> View for SourceArena<R> {
    type V = Seq<R>;

    closed spec fn view(&self) -> Seq<R> {
        self.streams@
    }
}

impl<R> SourceArena<R> {
    pub fn new() -> (r: Self)
        ensures
            r@ == Seq::<R>::empty(),
    {
        SourceArena { streams: Vec::new() }
    }

    pub fn len(&self) -> (r: usize)
        ensures
            r == self@.len(),
    {
        self.streams.len()
    }

    /// The stream behind a handle, to read from or reposition.
    pub fn stream_mut(&mut self, handle: SharedReadSeek) -> (r: &mut R)
        requires
            handle.index() < old(self)@.len(),
        ensures
            *r == old(self)@[handle.index() as int],
            final(self)@ == old(self)@.update(handle.index() as int, *final(r)),
    {
        &mut self.streams[handle.index]
    }
}

/// A handle on one stream of a `SourceArena`: copies share the stream's cursor,
/// so a stream classified once can be read again from its start.
#[derive(Debug, Clone, Copy, PartialEq, Eq, Structural)]
pub struct SharedReadSeek {
    index: usize,
}

impl SharedReadSeek {
    pub closed spec fn index(&self) -> usize {
        self.index
    }

    fn new(index: usize) -> (r: Self)
        ensures
            r.index() == index,
    {
        Self { index }
    }

    /// Hands a stream over to the arena and returns the handle on it.
    pub fn from_read_seek<R>(arena: &mut SourceArena<R>, reader: R) -> (r: Self)
        ensures
            final(arena)@ == old(arena)@.push(reader),
            r.index() == old(arena)@.len(),
    {
        let index = arena.streams.len();
        arena.streams.push(reader);
        Self::new(index)
    }

    /// Where the handle's stream sits in its arena.
    pub fn slot(&self) -> (r: usize)
        ensures
            r == self.index(),
    {
        self.index
    }
}

} // verus!
