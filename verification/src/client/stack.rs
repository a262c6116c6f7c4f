//! An (optionally) fixed size stack.

use vstd::prelude::*;

verus! {

/// An (optionally) fixed size stack of elements
#[derive(Clone, Debug)]
pub struct FixedSizeStack<T> {
    size: Option<usize>,
    stack: Vec<T>,
}

impl<T> FixedSizeStack<T> {
    /// The elements, bottom first.
    pub closed spec fn items(&self) -> Seq<T> {
        self.stack@
    }

    /// The most elements the stack keeps, if it is bounded.
    pub closed spec fn capacity(&self) -> Option<usize> {
        self.size
    }

    /// Well-formedness: a bounded stack holds no more than its capacity.
    pub open spec fn wf(&self) -> bool {
        self.capacity() matches Some(n) ==> self.items().len() <= n
    }

    /// Whether a push must first drop the oldest element.
    pub open spec fn is_full(&self) -> bool {
        self.capacity() matches Some(n) && self.items().len() == n
    }

    /// An empty stack bounded by `size`, or unbounded for `None`.
    pub fn new(size: Option<usize>) -> (res: Self)
        ensures
            res.wf(),
            res.items() == Seq::<T>::empty(),
            res.capacity() == size,
    {
        Self { size, stack: Vec::new() }
    }

    /// Push an item onto the stack
    ///
    /// If the stack is full, the oldest item is removed
    pub fn push(&mut self, item: T)
        requires
            old(self).wf(),
            old(self).capacity() != Some(0usize),
        ensures
            final(self).wf(),
            final(self).capacity() == old(self).capacity(),
            final(self).items() == if old(self).is_full() {
                old(self).items().drop_first().push(item)
            } else {
                old(self).items().push(item)
            },
    {
        match self.size {
            Some(size) => {
                if self.stack.len() == size {
                    self.stack.remove(0);
                }
            },
            None => {},
        }
        self.stack.push(item);
    }

    /// Pop the top element from the stack
    pub fn pop(&mut self) -> (res: Option<T>)
        requires
            old(self).wf(),
        ensures
            final(self).wf(),
            final(self).capacity() == old(self).capacity(),
            old(self).items().len() == 0 ==> res is None && final(self).items() == old(self).items(),
            old(self).items().len() > 0 ==> res == Some(old(self).items().last())
                && final(self).items() == old(self).items().drop_last(),
    {
        self.stack.pop()
    }

    /// Get the top element of the stack
    pub fn top(&self) -> (res: Option<&T>)
        ensures
            self.items().len() == 0 ==> res is None,
            self.items().len() > 0 ==> res == Some(&self.items().last()),
    {
        if self.stack.len() == 0 {
            None
        } else {
            Some(&self.stack[self.stack.len() - 1])
        }
    }

    /// Get the current depth of the stack
    /// (same as the number of elements in the stack)
    pub fn depth(&self) -> (res: usize)
        ensures
            res == self.items().len(),
    {
        self.stack.len()
    }
}

/// Pushing onto a stack that is not full and popping gives the item back
/// and the stack as it was.
pub proof fn lemma_push_pop<T>(before: Seq<T>, item: T)
    ensures
        before.push(item).last() == item,
        before.push(item).drop_last() == before,
{
    assert(before.push(item).drop_last() =~= before);
}

/// Pushing onto a full stack keeps its depth and drops only the oldest
/// item.
pub proof fn lemma_push_full_keeps_depth<T>(before: Seq<T>, item: T)
    requires
        before.len() > 0,
    ensures
        before.drop_first().push(item).len() == before.len(),
        forall|i: int| 0 <= i < before.len() - 1 ==> before.drop_first().push(item)[i] == before[i + 1],
        before.drop_first().push(item).last() == item,
{
}

} // verus!
