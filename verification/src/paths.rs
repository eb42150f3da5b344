//! The route from the root of an instance to the value under validation.

use vstd::prelude::*;

verus! {

/// One step of a route: a position in an array or the name of an object member.
#[derive(Debug, PartialEq, Eq)]
pub enum PathChunk {
    Index(usize),
    Name(String),
}

/// The mathematical value of a [`PathChunk`].
pub enum PathChunkView {
    Index(int),
    Name(Seq<char>),
}

impl View for PathChunk {
    type V = PathChunkView;

    open spec fn view(&self) -> PathChunkView {
        match self {
            PathChunk::Index(index) => PathChunkView::Index(*index as int),
            PathChunk::Name(name) => PathChunkView::Name(name@),
        }
    }
}

impl Clone for PathChunk {
    fn clone(&self) -> (copy: Self)
        ensures
            copy@ == self@,
    {
        match self {
            PathChunk::Index(index) => PathChunk::Index(*index),
            PathChunk::Name(name) => PathChunk::Name(name.clone()),
        }
    }
}

/// The route that a sequence of chunks describes.
pub open spec fn route(chunks: Seq<PathChunk>) -> Seq<PathChunkView> {
    Seq::new(chunks.len(), |i: int| chunks[i]@)
}

/// A stack of chunks that validators push to before they descend into a child
/// value and pop from when they come back.
#[derive(Debug)]
pub struct InstancePath {
    chunks: Vec<PathChunk>,
}

impl View for InstancePath {
    type V = Seq<PathChunkView>;

    closed spec fn view(&self) -> Seq<PathChunkView> {
        route(self.chunks@)
    }
}

impl InstancePath {
    /// The route to the root of an instance.
    pub fn new() -> (path: InstancePath)
        ensures
            path@ == Seq::<PathChunkView>::empty(),
    {
        InstancePath { chunks: Vec::new() }
    }

    /// The number of chunks on the stack.
    pub fn len(&self) -> (len: usize)
        ensures
            len == self@.len(),
    {
        self.chunks.len()
    }

    /// Descends by one step.
    pub fn push(&mut self, chunk: PathChunk)
        ensures
            final(self)@ == old(self)@.push(chunk@),
    {
        self.chunks.push(chunk);
        assert(route(self.chunks@) =~= route(old(self).chunks@).push(chunk@));
    }

    /// Takes the last step back. At the root there is nothing to take back.
    pub fn pop(&mut self)
        ensures
            old(self)@.len() > 0 ==> final(self)@ == old(self)@.drop_last(),
            old(self)@.len() == 0 ==> final(self)@ == old(self)@,
    {
        let _ = self.chunks.pop();
        let ghost before = route(old(self).chunks@);
        assert(before.len() > 0 ==> route(self.chunks@) =~= before.drop_last());
        assert(before.len() == 0 ==> route(self.chunks@) =~= before);
    }

    /// A copy of the route as it is now.
    pub fn to_vec(&self) -> (chunks: Vec<PathChunk>)
        ensures
            route(chunks@) == self@,
    {
        let mut chunks: Vec<PathChunk> = Vec::with_capacity(self.chunks.len());
        let mut i: usize = 0;
        while i < self.chunks.len()
            invariant
                i <= self.chunks.len(),
                chunks.len() == i,
                forall|k: int| 0 <= k < i ==> chunks[k]@ == self.chunks[k]@,
            decreases self.chunks.len() - i,
        {
            chunks.push(self.chunks[i].clone());
            i += 1;
        }
        assert(route(chunks@) =~= route(self.chunks@));
        chunks
    }
}

} // verus!
