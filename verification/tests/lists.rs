use linked_lists::basic_owned;
use linked_lists::optional_owned;
use linked_lists::persistent;

#[test]
fn first_basics() {
    let mut list = basic_owned::List::new();

    list.push(1);
    list.push(2);
    list.push(3);

    // normal removal...
    assert_eq!(list.pop(), Some(3));
    assert_eq!(list.pop(), Some(2));

    list.push(4);
    list.push(5);

    // some more normal removal...
    assert_eq!(list.pop(), Some(5));
    assert_eq!(list.pop(), Some(4));

    // and exhaustion...
    assert_eq!(list.pop(), Some(1));
    assert_eq!(list.pop(), None);
}

#[test]
fn first_improved_basics() {
    let mut list = optional_owned::List::new();

    list.push(1);
    list.push(2);
    list.push(3);

    // normal removal...
    assert_eq!(list.pop(), Some(3));
    assert_eq!(list.pop(), Some(2));

    list.push(4);
    list.push(5);

    // some more normal removal...
    assert_eq!(list.pop(), Some(5));
    assert_eq!(list.pop(), Some(4));

    // and exhaustion...
    assert_eq!(list.pop(), Some(1));
    assert_eq!(list.pop(), None);
}

#[test]
fn third_basics() {
    let list = persistent::List::new().append(3).append(2).append(1);

    assert_eq!(list.head(), Some(&1));
    assert_eq!(list.tail().head(), Some(&2));
    assert_eq!(list.tail().tail().head(), Some(&3));
    assert_eq!(list.tail().tail().tail().head(), None);
}

#[test]
fn iter() {
    // Walk the list front to back through repeated head/tail.
    let list = persistent::List::new().append(3).append(2).append(1);

    let mut seen: Vec<i32> = Vec::new();
    let mut cur = list;
    while let Some(&elem) = cur.head() {
        seen.push(elem);
        cur = cur.tail();
    }

    assert_eq!(seen, vec![1, 2, 3]);
}

#[test]
fn empty_pop_is_none() {
    assert_eq!(basic_owned::List::new().pop(), None);
    assert_eq!(optional_owned::List::new().pop(), None);
}

#[test]
fn long_chain_drop_basic() {
    let mut list = basic_owned::List::new();
    for i in 0..100_000 {
        list.push(i);
    }
    assert_eq!(list.pop(), Some(99_999));
    // The remaining 99_999 nodes are torn down here without deep recursion.
}

#[test]
fn long_chain_drop_optional() {
    let mut list = optional_owned::List::new();
    for i in 0..100_000 {
        list.push(i);
    }
    assert_eq!(list.pop(), Some(99_999));
}

#[test]
fn long_chain_drop_persistent() {
    let mut list = persistent::List::new();
    for i in 0..100_000 {
        list = list.append(i);
    }
    assert_eq!(list.head(), Some(&99_999));
    // The unshared 100_000-node chain is torn down here without deep
    // recursion.
}

#[test]
fn persistent_structural_sharing() {
    let list1 = persistent::List::new().append(3).append(2).append(1);
    let list2 = list1.tail();
    let list3 = list2.append(99);

    assert_eq!(list1.head(), Some(&1));
    assert_eq!(list2.head(), Some(&2));
    assert_eq!(list3.head(), Some(&99));
    assert_eq!(list3.tail().head(), Some(&2));
    assert_eq!(list3.tail().head(), list2.head());

    // Destroying one list leaves the others' values intact.
    drop(list1);
    assert_eq!(list2.head(), Some(&2));
    assert_eq!(list3.head(), Some(&99));
    drop(list2);
    assert_eq!(list3.head(), Some(&99));
    assert_eq!(list3.tail().head(), Some(&2));
    assert_eq!(list3.tail().tail().head(), Some(&3));
}

#[test]
fn persistent_tail_past_end() {
    let list = persistent::List::new().append(1);

    let mut cur = list.tail();
    for _ in 0..5 {
        assert_eq!(cur.head(), None);
        cur = cur.tail();
    }
    assert_eq!(cur.head(), None);
}

#[test]
fn persistent_append_after_branch() {
    // Appending onto a shared suffix never disturbs the lists that
    // already use it.
    let base = persistent::List::new().append(10).append(20);
    let left = base.append(1);
    let right = base.append(2);

    assert_eq!(left.head(), Some(&1));
    assert_eq!(right.head(), Some(&2));
    assert_eq!(base.head(), Some(&20));
    assert_eq!(left.tail().head(), Some(&20));
    assert_eq!(right.tail().head(), Some(&20));
}

