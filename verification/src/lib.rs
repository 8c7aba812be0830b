//! Three singly-linked list designs under Rust's ownership model:
//! an owned list with a hand-rolled tagged link, the same list using
//! an optional owning pointer, and a persistent list with
//! reference-counted structural sharing.

pub mod basic_owned;
pub mod optional_owned;
pub mod persistent;

use vstd::prelude::*;

verus! {

/// LIFO law for the two mutable lists. `push` promises to turn a list
/// viewed as `s` into `seq![e] + s`; `pop` promises, on a non-empty
/// list, to return the view's first element and leave the rest. This
/// states that the element coming back out is the one just pushed and
/// that the list is then the one from before the push.
pub proof fn lemma_push_then_pop_lifo(s: Seq<i32>, e: i32)
    ensures
        (seq![e] + s).len() > 0,
        (seq![e] + s)[0] == e,
        (seq![e] + s).drop_first() == s,
{
    assert((seq![e] + s).drop_first() =~= s);
}

} // verus!
