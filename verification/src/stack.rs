//! Mutual-exclusion-protected LIFO stack. The list is intrusive in the
//! original sense — each node owns the exclusive link to the node below it —
//! and the head is touched only between a claim and a release of the binary
//! semaphore guard. Push and pop carry exact last-in-first-out contracts over
//! the stack's sequence view; teardown walks the chain iteratively, so its
//! cost stays bounded for arbitrarily long chains.

use crate::semaphore::Semaphore;
use vstd::prelude::*;

verus! {

/// One node of the stack: owns one payload value and the exclusive link to
/// the node below it.
struct StackNode<T> {
    data: T,
    next: Option<Box<StackNode<T>>>,
}

/// The values held by a chain of nodes, bottom of the stack first.
spec fn chain_view<T>(chain: Option<Box<StackNode<T>>>) -> Seq<T>
    decreases chain,
{
    match chain {
        Option::None => Seq::empty(),
        Option::Some(node) => chain_view(node.next).push(node.data),
    }
}

/// A LIFO stack whose head is mutated only while its binary semaphore guard
/// is held. Its view is the sequence of values, bottom first: the last
/// element of the view is the top of the stack.
pub struct Stack<T> {
    head: Option<Box<StackNode<T>>>,
    sem: Semaphore,
}

impl<T> View for Stack<T> {
    type V = Seq<T>;

    closed spec fn view(&self) -> Seq<T> {
        chain_view(self.head)
    }
}

impl<T> Stack<T> {
    /// A fresh empty stack; its guard is a binary semaphore, initially free.
    pub fn new() -> (s: Self)
        ensures
            s@ == Seq::<T>::empty(),
    {
        Stack { head: Option::None, sem: Semaphore::init_with(1, 1) }
    }

    /// Links a new node holding `val` in as the head, between a claim and a
    /// release of the guard: the new value becomes the top of the stack.
    pub fn push(&mut self, val: T)
        ensures
            final(self)@ == old(self)@.push(val),
    {
        let _claimed = self.sem.wait();
        let next = self.head.take();
        self.head = Option::Some(Box::new(StackNode { data: val, next }));
        let _added = self.sem.signal();
    }

    /// Unlinks the head node under the guard and hands its value out; an
    /// empty stack yields `None` and is left as found. The unlinked node is
    /// freed after the guard is released — it is no longer reachable.
    pub fn pop(&mut self) -> (r: Option<T>)
        ensures
            old(self)@.len() == 0 ==> r is None && *final(self) == *old(self),
            old(self)@.len() > 0 ==> r == Some(old(self)@.last()) && final(self)@ == old(
                self,
            )@.drop_last(),
    {
        let _claimed = self.sem.wait();
        let top = self.head.take();
        match top {
            Option::None => {
                let _added = self.sem.signal();
                Option::None
            },
            Option::Some(node) => {
                let unlinked = *node;
                self.head = unlinked.next;
                let _added = self.sem.signal();
                proof {
                    assert(old(self)@.drop_last() =~= final(self)@);
                }
                Option::Some(unlinked.data)
            },
        }
    }

    /// Empties the stack, walking and freeing the chain iteratively — never
    /// by recursive destruction — so teardown is safe for arbitrarily long
    /// chains.
    pub fn clear(&mut self)
        ensures
            final(self)@ == Seq::<T>::empty(),
    {
        let mut cur = self.head.take();
        loop
            invariant
                self.head is None,
            decreases chain_view(cur).len(),
        {
            match cur {
                Option::None => {
                    return ;
                },
                Option::Some(node) => {
                    let unlinked = *node;
                    cur = unlinked.next;
                },
            }
        }
    }
}

} // verus!
