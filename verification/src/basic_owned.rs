//! A stack (LIFO list) built from a hand-rolled tagged link: each link
//! either is empty or exclusively owns the next node on the heap.

use vstd::prelude::*;

verus! {

/// A singly-linked LIFO list of `i32` values; the list exclusively owns
/// its whole chain of nodes.
pub struct List {
    head: Link,
}

/// Either nothing, or exclusive ownership of one heap-allocated node.
enum Link {
    Empty,
    More(Box<Node>),
}

struct Node {
    elem: i32,
    next: Link,
}

impl Link {
    /// The elements reachable from this link, front first.
    spec fn elems(self) -> Seq<i32>
        decreases self,
    {
        match self {
            Link::Empty => Seq::empty(),
            Link::More(node) => seq![node.elem] + node.next.elems(),
        }
    }
}

impl View for List {
    type V = Seq<i32>;

    /// A list is viewed as the sequence of its elements, front first.
    closed spec fn view(&self) -> Seq<i32> {
        self.head.elems()
    }
}

/// Moves the link out of `link`, leaving `Empty` behind as a placeholder.
fn take_link(link: &mut Link) -> (taken: Link)
    ensures
        taken == *old(link),
        *final(link) is Empty,
    opens_invariants none
    no_unwind
{
    let mut taken = Link::Empty;
    core::mem::swap(link, &mut taken);
    taken
}

impl List {
    /// Returns the empty list.
    pub fn new() -> (list: Self)
        ensures
            list@ == Seq::<i32>::empty(),
    {
        List { head: Link::Empty }
    }

    /// Pushes `elem` onto the front of the list. The new node takes
    /// ownership of the previous head chain.
    pub fn push(&mut self, elem: i32)
        ensures
            final(self)@ == seq![elem] + old(self)@,
    {
        let next = take_link(&mut self.head);
        let new_node = Box::new(Node { elem, next });
        self.head = Link::More(new_node);
    }

    /// Removes the front element, if any, and returns it.
    pub fn pop(&mut self) -> (popped: Option<i32>)
        ensures
            old(self)@.len() == 0 ==> popped is None && final(self)@ == old(self)@,
            old(self)@.len() > 0 ==> popped == Some(old(self)@[0])
                && final(self)@ == old(self)@.drop_first(),
    {
        match self.pop_node() {
            Link::Empty => None,
            Link::More(node) => Some(node.elem),
        }
    }

    /// Detaches the head node and returns it with its `next` link
    /// severed to `Empty`, so that dropping the returned link never
    /// recurses into the rest of the chain. The node's old `next`
    /// becomes the new head. The list is left in a valid state at
    /// every step: the head is first replaced by `Empty`, then
    /// re-parented to the detached node's successor.
    fn pop_node(&mut self) -> (detached: Link)
        ensures
            old(self)@.len() == 0 ==> detached is Empty
                && final(self)@ == Seq::<i32>::empty(),
            old(self)@.len() > 0 ==> (detached matches Link::More(node)
                && node.elem == old(self)@[0]
                && node.next is Empty
                && final(self)@ == old(self)@.drop_first()),
        opens_invariants none
        no_unwind
    {
        let link = take_link(&mut self.head);
        match link {
            Link::Empty => Link::Empty,
            Link::More(mut node) => {
                self.head = take_link(&mut node.next);
                Link::More(node)
            }
        }
    }
}

impl Drop for List {
    /// Tears the chain down iteratively: each detached node has its
    /// `next` already severed, so no drop recurses deeper than one
    /// node, however long the list is.
    fn drop(&mut self)
        ensures
            final(self)@ == Seq::<i32>::empty(),
        opens_invariants none
        no_unwind
    {
        loop
            ensures
                self@ == Seq::<i32>::empty(),
            decreases self@.len(),
        {
            match self.pop_node() {
                Link::Empty => { break; }
                Link::More(_) => {}
            }
        }
    }
}

} // verus!
