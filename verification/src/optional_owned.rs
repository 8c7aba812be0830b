//! The same LIFO list as `basic_owned`, with the link modelled as an
//! optional owning pointer instead of a hand-rolled tag.

use vstd::prelude::*;

verus! {

/// A singly-linked LIFO list of `i32` values; the link is an optional
/// owning pointer to the next node.
pub struct List {
    head: Link,
}

type Link = Option<Box<Node>>;

struct Node {
    elem: i32,
    next: Link,
}

/// The elements reachable from a link, front first.
spec fn elems(link: Link) -> Seq<i32>
    decreases link,
{
    match link {
        None => Seq::empty(),
        Some(node) => seq![node.elem] + elems(node.next),
    }
}

impl View for List {
    type V = Seq<i32>;

    /// A list is viewed as the sequence of its elements, front first.
    closed spec fn view(&self) -> Seq<i32> {
        elems(self.head)
    }
}

/// Moves the link out of `link`, leaving `None` behind as a placeholder.
fn take_link(link: &mut Link) -> (taken: Link)
    ensures
        taken == *old(link),
        *final(link) is None,
    opens_invariants none
    no_unwind
{
    let mut taken: Link = None;
    core::mem::swap(link, &mut taken);
    taken
}

impl List {
    /// Returns the empty list.
    pub fn new() -> (list: Self)
        ensures
            list@ == Seq::<i32>::empty(),
    {
        List { head: None }
    }

    /// Pushes `elem` onto the front of the list. The new node takes
    /// ownership of the previous head chain.
    pub fn push(&mut self, elem: i32)
        ensures
            final(self)@ == seq![elem] + old(self)@,
    {
        let next = take_link(&mut self.head);
        let new_node = Box::new(Node { elem, next });
        self.head = Some(new_node);
    }

    /// Removes the front element, if any, and returns it: the detached
    /// head node, if present, is transformed into its element.
    pub fn pop(&mut self) -> (popped: Option<i32>)
        ensures
            old(self)@.len() == 0 ==> popped is None && final(self)@ == old(self)@,
            old(self)@.len() > 0 ==> popped == Some(old(self)@[0])
                && final(self)@ == old(self)@.drop_first(),
    {
        match self.pop_node() {
            None => None,
            Some(node) => Some(node.elem),
        }
    }

    /// Detaches the head node and returns it with its `next` link
    /// severed to `None`, so that dropping the returned node never
    /// recurses into the rest of the chain. The node's old `next`
    /// becomes the new head.
    fn pop_node(&mut self) -> (detached: Link)
        ensures
            old(self)@.len() == 0 ==> detached is None
                && final(self)@ == Seq::<i32>::empty(),
            old(self)@.len() > 0 ==> (detached matches Some(node)
                && node.elem == old(self)@[0]
                && node.next is None
                && final(self)@ == old(self)@.drop_first()),
        opens_invariants none
        no_unwind
    {
        match take_link(&mut self.head) {
            None => None,
            Some(mut node) => {
                self.head = take_link(&mut node.next);
                Some(node)
            }
        }
    }
}

impl Drop for List {
    /// Tears the chain down iteratively: each detached node has its
    /// `next` already severed, so no drop recurses deeper than one
    /// node, however long the list is.
    fn drop(&mut self)
        ensures
            final(self)@ == Seq::<i32>::empty(),
        opens_invariants none
        no_unwind
    {
        loop
            ensures
                self@ == Seq::<i32>::empty(),
            decreases self@.len(),
        {
            match self.pop_node() {
                None => { break; }
                Some(_) => {}
            }
        }
    }
}

} // verus!
