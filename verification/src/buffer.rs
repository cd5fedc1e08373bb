//! An append-only byte buffer that copies its source on the first write.

use vstd::prelude::*;
use crate::cow::CowValue;

verus! {

/// Bytes that start out borrowed and are copied when first appended to.
pub struct LazyBuffer<'a> {
    data: CowValue<'a, [u8]>,
}

impl<'a> View for LazyBuffer<'a> {
    type V = Seq<u8>;

    /// The bytes the buffer holds, in order.
    open spec fn view(&self) -> Seq<u8> {
        self.storage()@
    }
}

/// What a buffer that held `content` holds once each of `chunks` has been
/// appended to it in turn.
pub open spec fn appended_all(content: Seq<u8>, chunks: Seq<Seq<u8>>) -> Seq<u8>
    decreases chunks.len(),
{
    if chunks.len() == 0 {
        content
    } else {
        appended_all(content + chunks.first(), chunks.drop_first())
    }
}

/// Appending chunk after chunk gives the first content followed by all the
/// chunks, concatenated in the order in which they were appended.
pub proof fn lemma_appends_concatenate(content: Seq<u8>, chunks: Seq<Seq<u8>>)
    ensures
        appended_all(content, chunks) == content + chunks.flatten(),
    decreases chunks.len(),
{
    if chunks.len() == 0 {
        assert(content + chunks.flatten() =~= content);
    } else {
        lemma_appends_concatenate(content + chunks.first(), chunks.drop_first());
        assert((content + chunks.first()) + chunks.drop_first().flatten() =~= content
            + chunks.flatten());
    }
}

impl<'a> LazyBuffer<'a> {
    /// The container behind the buffer: borrowed until the first append,
    /// owned from then on.
    pub closed spec fn storage(&self) -> CowValue<'a, [u8]> {
        self.data
    }

    /// A buffer over `data`, which is borrowed, not copied.
    pub fn new(data: &'a [u8]) -> (buffer: Self)
        ensures
            buffer.storage() == CowValue::<'a, [u8]>::Borrowed(data),
    {
        Self { data: CowValue::Borrowed(data) }
    }

    /// The current content. Until the first append this is the very slice the
    /// buffer was made from.
    pub fn data(&self) -> (bytes: &[u8])
        ensures
            bytes@ == self@,
            self.storage() matches CowValue::Borrowed(source) ==> bytes == source,
    {
        self.data.as_ref()
    }

    /// Adds `data` at the end. The first append copies the borrowed source;
    /// every later one extends that copy in place.
    pub fn append(&mut self, data: &[u8])
        ensures
            final(self)@ == old(self)@ + data@,
            final(self).storage() is Owned,
    {
        self.data.to_mut().extend_from_slice(data);
    }
}

} // verus!
