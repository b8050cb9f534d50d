//! Finding an item by its name in an ordered list.

use vstd::prelude::*;

verus! {

/// Something that is found by its name.
pub trait Named {
    /// The item's name.
    spec fn spec_name(&self) -> Seq<char>;

    /// The item's name.
    fn name(&self) -> (name: &String)
        ensures
            name@ == self.spec_name(),
    ;
}

impl Named for String {
    open spec fn spec_name(&self) -> Seq<char> {
        self@
    }

    fn name(&self) -> (name: &String) {
        self
    }
}

/// The names of a list of items, in order.
pub open spec fn names<T: Named>(items: Seq<T>) -> Seq<Seq<char>> {
    Seq::new(items.len(), |i: int| items[i].spec_name())
}

/// `i` is the first place in `names` where `name` stands.
pub open spec fn first_at(names: Seq<Seq<char>>, name: Seq<char>, i: int) -> bool {
    &&& 0 <= i < names.len()
    &&& names[i] == name
    &&& forall|j: int| 0 <= j < i ==> names[j] != name
}

/// `name` stands nowhere in `names`.
pub open spec fn absent(names: Seq<Seq<char>>, name: Seq<char>) -> bool {
    forall|j: int| 0 <= j < names.len() ==> names[j] != name
}

/// The name at place `i` stands earlier in the list too.
pub open spec fn repeated_at(names: Seq<Seq<char>>, i: int) -> bool {
    0 <= i < names.len() && !first_at(names, names[i], i)
}

/// The first place in `names` where `name` stands, where it stands at all.
pub open spec fn index_of(names: Seq<Seq<char>>, name: Seq<char>) -> int {
    choose|i: int| first_at(names, name, i)
}

/// A name has one first place at most, and `index_of` is that place.
pub proof fn lemma_first_is_index(names: Seq<Seq<char>>, name: Seq<char>, i: int)
    requires
        first_at(names, name, i),
    ensures
        index_of(names, name) == i,
        !absent(names, name),
{
    let k = index_of(names, name);
    assert(first_at(names, name, k));
    if k < i {
        assert(names[k] == name);
    } else if i < k {
        assert(names[i] == name);
    }
}

/// Looks `name` up in `items`: the index of the first item of that name, or
/// `None` where no item has it.
pub fn position<T: Named>(items: &Vec<T>, name: &String) -> (found: Option<usize>)
    ensures
        match found {
            Some(i) => first_at(names(items@), name@, i as int),
            None => absent(names(items@), name@),
        },
        found matches Some(i) ==> index_of(names(items@), name@) == i,
{
    let mut i: usize = 0;
    while i < items.len()
        invariant
            i <= items.len(),
            forall|j: int| 0 <= j < i ==> names(items@)[j] != name@,
        decreases items.len() - i,
    {
        if *items[i].name() == *name {
            proof {
                lemma_first_is_index(names(items@), name@, i as int);
            }
            return Some(i);
        }
        i += 1;
    }
    None
}

/// The index of the first item whose name an earlier item has too, or `None`
/// where all names differ.
pub fn first_repeated<T: Named>(items: &Vec<T>) -> (found: Option<usize>)
    ensures
        match found {
            Some(i) => repeated_at(names(items@), i as int) && forall|j: int|
                0 <= j < i ==> !repeated_at(names(items@), j),
            None => forall|j: int| !repeated_at(names(items@), j),
        },
{
    let ghost list = names(items@);
    let mut i: usize = 0;
    while i < items.len()
        invariant
            i <= items.len(),
            list == names(items@),
            forall|j: int| 0 <= j < i ==> !repeated_at(list, j),
        decreases items.len() - i,
    {
        let first = position(items, items[i].name());
        let again = match first {
            Some(p) => p != i,
            None => true,
        };
        if again {
            proof {
                assert(list[i as int] == items@[i as int].spec_name());
                if first_at(list, list[i as int], i as int) {
                    lemma_first_is_index(list, list[i as int], i as int);
                }
            }
            return Some(i);
        }
        i += 1;
    }
    None
}

} // verus!
