//! Explicit models of the two access rules the scenarios demonstrate:
//! single ownership with moved-from invalidation, and the exclusivity of
//! mutable borrows.

use vstd::prelude::*;

verus! {

/// A binding for an owned text value. Transferring the value marks the
/// source binding as moved, and every read demands a binding that is still
/// valid, so use after a transfer is ruled out by contract.
pub enum TextBinding {
    /// The binding currently owns its text.
    Owned(String),
    /// Ownership was transferred away; the binding may no longer be read.
    Moved,
}

impl TextBinding {
    /// Whether the binding still owns its text.
    pub open spec fn valid(&self) -> bool {
        self is Owned
    }

    /// The owned text; meaningful only while the binding is valid.
    pub open spec fn content(&self) -> Seq<char>
        recommends
            self.valid(),
    {
        match self {
            TextBinding::Owned(s) => s@,
            TextBinding::Moved => Seq::<char>::empty(),
        }
    }

    /// A fresh binding owning `text`.
    pub fn new(text: String) -> (r: TextBinding)
        ensures
            r.valid(),
            r.content() == text@,
    {
        TextBinding::Owned(text)
    }

    /// Whether the binding may still be used.
    pub fn is_valid(&self) -> (r: bool)
        ensures
            r == self.valid(),
    {
        match self {
            TextBinding::Owned(_) => true,
            TextBinding::Moved => false,
        }
    }

    /// A second, independently owned binding with equal text; the source
    /// binding is only borrowed and so remains valid beside the clone.
    pub fn duplicate(&self) -> (r: TextBinding)
        requires
            self.valid(),
        ensures
            r.valid(),
            r.content() == self.content(),
    {
        TextBinding::Owned(self.read().clone())
    }

    /// Moves the text into a fresh binding; the source binding is
    /// invalidated and only the returned binding may be used afterwards.
    pub fn transfer(&mut self) -> (r: TextBinding)
        requires
            old(self).valid(),
        ensures
            !final(self).valid(),
            r.valid(),
            r.content() == old(self).content(),
    {
        let mut taken = TextBinding::Moved;
        core::mem::swap(self, &mut taken);
        taken
    }

    /// Read access to the owned text; ruled out once the text has been
    /// transferred away.
    pub fn read(&self) -> (r: &String)
        requires
            self.valid(),
        ensures
            r@ == self.content(),
    {
        match self {
            TextBinding::Owned(s) => s,
            TextBinding::Moved => unreached(),
        }
    }
}

/// Tracks access to one value: either any number of concurrent readers or a
/// single writer, never both at once.
pub struct BorrowState {
    readers: usize,
    writer: bool,
}

impl BorrowState {
    /// How many shared borrows are live.
    pub closed spec fn reader_count(&self) -> nat {
        self.readers as nat
    }

    /// Whether an exclusive borrow is live.
    pub closed spec fn writer_active(&self) -> bool {
        self.writer
    }

    /// An exclusive borrow never coexists with a shared one.
    pub open spec fn wf(&self) -> bool {
        self.writer_active() ==> self.reader_count() == 0
    }

    /// A tracker with no borrow live.
    pub fn new() -> (r: BorrowState)
        ensures
            r.wf(),
            r.reader_count() == 0,
            !r.writer_active(),
    {
        BorrowState { readers: 0, writer: false }
    }

    /// The number of live shared borrows.
    pub fn live_readers(&self) -> (r: usize)
        ensures
            r as nat == self.reader_count(),
    {
        self.readers
    }

    /// Whether the exclusive borrow is live.
    pub fn has_writer(&self) -> (r: bool)
        ensures
            r == self.writer_active(),
    {
        self.writer
    }

    /// Takes a shared borrow; demands that no exclusive borrow is live.
    pub fn begin_shared(&mut self)
        requires
            old(self).wf(),
            !old(self).writer_active(),
            old(self).reader_count() < usize::MAX,
        ensures
            final(self).wf(),
            final(self).reader_count() == old(self).reader_count() + 1,
            !final(self).writer_active(),
    {
        self.readers = self.readers + 1;
    }

    /// Releases one shared borrow.
    pub fn end_shared(&mut self)
        requires
            old(self).wf(),
            old(self).reader_count() > 0,
        ensures
            final(self).wf(),
            final(self).reader_count() == old(self).reader_count() - 1,
            !final(self).writer_active(),
    {
        self.readers = self.readers - 1;
    }

    /// Takes the exclusive borrow; demands that no borrow of either kind is
    /// live.
    pub fn begin_exclusive(&mut self)
        requires
            old(self).wf(),
            !old(self).writer_active(),
            old(self).reader_count() == 0,
        ensures
            final(self).wf(),
            final(self).writer_active(),
            final(self).reader_count() == 0,
    {
        self.writer = true;
    }

    /// Releases the exclusive borrow.
    pub fn end_exclusive(&mut self)
        requires
            old(self).wf(),
            old(self).writer_active(),
        ensures
            final(self).wf(),
            !final(self).writer_active(),
            final(self).reader_count() == 0,
    {
        self.writer = false;
    }
}

} // verus!
