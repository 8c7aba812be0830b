//! A persistent (immutable) singly-linked list: every operation returns
//! a new list and shares the unchanged suffix of nodes through
//! reference-counted pointers. Nodes are never mutated once created,
//! which is what makes the sharing safe.

use std::rc::Rc;
use vstd::prelude::*;

verus! {

/// An immutable singly-linked list; the tail of a list may be shared
/// by many lists at once.
pub struct List<T> {
    head: Link<T>,
}

type Link<T> = Option<Rc<Node<T>>>;

struct Node<T> {
    elem: T,
    next: Link<T>,
}

/// The elements reachable from a link, front first.
spec fn elems<T>(link: Link<T>) -> Seq<T>
    decreases link,
{
    match link {
        None => Seq::empty(),
        Some(node) => seq![node.elem] + elems(node.next),
    }
}

impl<T> View for List<T> {
    type V = Seq<T>;

    /// A list is viewed as the sequence of its elements, front first.
    closed spec fn view(&self) -> Seq<T> {
        elems(self.head)
    }
}

/// Moves the link out of `link`, leaving `None` behind as a placeholder.
fn take_link<T>(link: &mut Link<T>) -> (taken: Link<T>)
    ensures
        taken == *old(link),
        *final(link) is None,
    opens_invariants none
    no_unwind
{
    let mut taken: Link<T> = None;
    core::mem::swap(link, &mut taken);
    taken
}

impl<T> List<T> {
    /// Returns the empty list.
    pub fn new() -> (list: Self)
        ensures
            list@ == Seq::<T>::empty(),
    {
        List { head: None }
    }

    /// Returns a new list with `elem` in front of this list's elements.
    /// The receiver is unchanged; the new head node shares the
    /// receiver's whole chain rather than copying any node, so this
    /// costs one allocation however long the list is.
    pub fn append(&self, elem: T) -> (list: Self)
        ensures
            list@ == seq![elem] + self@,
    {
        let next: Link<T> = match &self.head {
            None => None,
            Some(rc) => Some(rc.clone()),
        };
        List { head: Some(Rc::new(Node { elem, next })) }
    }

    /// Returns a reference to the front element, if any. The reference
    /// borrows from this list and is valid as long as the list is.
    pub fn head(&self) -> (front: Option<&T>)
        ensures
            self@.len() == 0 ==> front is None,
            self@.len() > 0 ==> (front matches Some(e) && *e == self@[0]),
    {
        match &self.head {
            None => None,
            Some(rc) => Some(&rc.elem),
        }
    }

    /// Returns the list of all elements but the front one; on an empty
    /// list, the empty list again. The result shares the receiver's
    /// nodes; nothing is allocated or copied.
    pub fn tail(&self) -> (rest: Self)
        ensures
            self@.len() == 0 ==> rest@ == Seq::<T>::empty(),
            self@.len() > 0 ==> rest@ == self@.drop_first(),
    {
        let head: Link<T> = match &self.head {
            None => None,
            Some(rc) => {
                match &rc.next {
                    None => None,
                    Some(next_rc) => Some(next_rc.clone()),
                }
            }
        };
        List { head }
    }
}

/// Relies on std::rc::Rc::try_unwrap: it returns the inner value when
/// the argument is the only reference to it, otherwise it hands the
/// same shared reference back, and it never panics.
#[verifier::external_body]
fn rc_take_node<T>(rc: Rc<Node<T>>) -> (taken: Result<Node<T>, Rc<Node<T>>>)
    ensures
        taken matches Ok(node) ==> node == rc,
        taken matches Err(same) ==> same == rc,
    opens_invariants none
    no_unwind
{
    Rc::try_unwrap(rc)
}

impl<T> Drop for List<T> {
    /// Walks the chain iteratively for as long as this list is the last
    /// owner of each node, so that no drop recurses deeper than one
    /// node, however long the list is. The walk stops at the first node
    /// still shared with another list; that node and its suffix stay
    /// alive, untouched.
    fn drop(&mut self)
        ensures
            final(self)@ == Seq::<T>::empty(),
        opens_invariants none
        no_unwind
    {
        let mut cur = take_link(&mut self.head);
        loop
            decreases elems(cur).len(),
        {
            match cur {
                None => { break; }
                Some(rc) => {
                    match rc_take_node(rc) {
                        Ok(mut node) => {
                            cur = take_link(&mut node.next);
                        }
                        Err(_) => {
                            cur = None;
                        }
                    }
                }
            }
        }
    }
}

/// The observable side of structural sharing. Branch `l2` off a
/// non-empty list `l1` by `tail`, and `l3` off `l2` by `append(x)`:
/// the contracts promise `l2`'s view is `l1`'s without its first
/// element, and `l3`'s view is `x` in front of `l2`'s. This states
/// that `l3`'s head is `x`, that `l3`'s tail views the same elements
/// as `l2` (the shared suffix), and that `l2`'s head is still `l1`'s
/// second element. Lists are values here, so no operation on one
/// list — its destruction included — can change another list's view.
pub proof fn lemma_branch_shares_tail<T>(l1: Seq<T>, x: T)
    requires
        l1.len() > 0,
    ensures
        (seq![x] + l1.drop_first())[0] == x,
        (seq![x] + l1.drop_first()).drop_first() == l1.drop_first(),
        l1.len() > 1 ==> (seq![x] + l1.drop_first()).drop_first()[0] == l1[1],
{
    assert((seq![x] + l1.drop_first()).drop_first() =~= l1.drop_first());
}

/// Law relating `append`, `head` and `tail`: `append` promises to turn
/// a list viewed as `s` into `seq![e] + s`; on that list, `head`
/// promises the view's first element and `tail` promises the rest.
/// This states that the first element is `e` and the rest is the list
/// that was appended to.
pub proof fn lemma_append_head_tail<T>(s: Seq<T>, e: T)
    ensures
        (seq![e] + s).len() > 0,
        (seq![e] + s)[0] == e,
        (seq![e] + s).drop_first() == s,
{
    assert((seq![e] + s).drop_first() =~= s);
}

} // verus!
