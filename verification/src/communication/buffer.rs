//! A bounded buffer that forgets its oldest item.

use std::collections::VecDeque;
use vstd::prelude::*;

verus! {

/// The items of a buffer of `capacity` places after `item` was pushed: a
/// full buffer first forgets its oldest item.
pub open spec fn pushed<T>(items: Seq<T>, capacity: usize, item: T) -> Seq<T> {
    if items.len() == capacity && items.len() > 0 {
        items.drop_first().push(item)
    } else {
        items.push(item)
    }
}

/// A buffer as a plain value: what `CircularBuffer` stands for.
pub struct CircularBufferView<T> {
    /// The items, the oldest first.
    pub items: Seq<T>,
    /// The number of items at which the buffer is full.
    pub capacity: usize,
}

/// A buffer of the latest items pushed into it, up to its capacity. A
/// buffer of capacity zero is never full: it keeps every item.
pub struct CircularBuffer<T: Copy> {
    buffer: VecDeque<T>,
    capacity: usize,
}

impl<T: Copy> View for CircularBuffer<T> {
    type V = CircularBufferView<T>;

    closed spec fn view(&self) -> CircularBufferView<T> {
        CircularBufferView { items: self.buffer@, capacity: self.capacity }
    }
}

/// `VecDeque::make_contiguous` of the standard library: it rearranges the
/// storage so that the items lie in one slice, and returns that slice. The
/// items and their order do not change, and the slice holds them in that
/// order.
#[verifier::external_body]
fn make_contiguous<T>(buffer: &mut VecDeque<T>) -> (slice: &[T])
    ensures
        slice@ == old(buffer)@,
        final(buffer)@ == old(buffer)@,
{
    buffer.make_contiguous()
}

impl<T: Copy> CircularBuffer<T> {
    /// An empty buffer that is full at `capacity` items.
    pub fn new(capacity: usize) -> (buffer: CircularBuffer<T>)
        ensures
            buffer@.items.len() == 0,
            buffer@.capacity == capacity,
    {
        CircularBuffer { buffer: VecDeque::<T>::with_capacity(capacity), capacity }
    }

    /// Appends `item`. A full buffer forgets its oldest item for it.
    pub fn push(&mut self, item: T)
        ensures
            final(self)@.items == pushed(old(self)@.items, old(self)@.capacity, item),
            final(self)@.capacity == old(self)@.capacity,
            0 < old(self)@.capacity && old(self)@.items.len() <= old(self)@.capacity
                ==> final(self)@.items.len() <= old(self)@.capacity,
    {
        if self.buffer.len() == self.capacity {
            self.buffer.pop_front();
        }
        self.buffer.push_back(item);
        assert(self.buffer@ =~= pushed(old(self)@.items, old(self)@.capacity, item));
    }

    /// The items, the oldest first.
    pub fn as_slice(&mut self) -> (slice: &[T])
        ensures
            slice@ == old(self)@.items,
            final(self)@ == old(self)@,
    {
        make_contiguous(&mut self.buffer)
    }

    /// The number of items.
    pub fn len(&self) -> (len: usize)
        ensures
            len == self@.items.len(),
    {
        self.buffer.len()
    }
}

} // verus!
