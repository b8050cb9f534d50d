//! Tables filled with function pointers, and the resolution of a virtual call
//! through an object handle.
//!
//! Resolving a call decides which function is entered and with what; entering
//! it is left to the caller, who owns the foreign memory. The table is read
//! from the store, at the handle's table pointer, each time a call is
//! resolved.

use vstd::prelude::*;
use crate::abi::CallConv;
use crate::decl::texts;
use crate::lookup::{absent, first_at, index_of, lemma_first_is_index, names, position, Named};
use crate::object::{TableStore, VtObject, VtObjectPtr, VtObjectView};

verus! {

/// One slot of a table: a named pointer to a function.
#[derive(Clone, Debug, PartialEq, Eq)]
pub struct Slot {
    /// Annotations the slot was written with (documentation, conditional
    /// inclusion).
    pub attrs: Vec<String>,
    /// The name of the virtual method.
    pub name: String,
    /// The calling convention of the function.
    pub conv: CallConv,
    /// The address of the function's code.
    pub target: usize,
}

/// What a slot says.
pub struct SlotSpec {
    pub attrs: Seq<Seq<char>>,
    pub name: Seq<char>,
    pub conv: CallConv,
    pub target: usize,
}

impl View for Slot {
    type V = SlotSpec;

    open spec fn view(&self) -> SlotSpec {
        SlotSpec {
            attrs: texts(self.attrs@),
            name: self.name@,
            conv: self.conv,
            target: self.target,
        }
    }
}

impl Named for Slot {
    open spec fn spec_name(&self) -> Seq<char> {
        self.name@
    }

    fn name(&self) -> (name: &String) {
        &self.name
    }
}

/// A virtual function table: its slots in the order of the class's header.
#[derive(Clone, Debug, PartialEq, Eq)]
pub struct Vtable {
    /// The name of the aggregate type.
    pub name: String,
    /// The slots, in layout order.
    pub slots: Vec<Slot>,
}

/// What a table says.
pub struct VtableSpec {
    pub name: Seq<char>,
    pub slots: Seq<SlotSpec>,
}

impl View for Vtable {
    type V = VtableSpec;

    open spec fn view(&self) -> VtableSpec {
        VtableSpec {
            name: self.name@,
            slots: Seq::new(self.slots@.len(), |i: int| self.slots@[i]@),
        }
    }
}

impl Vtable {
    /// Reads the slot named `name`: the first slot of that name, or `None`
    /// where the table has no such slot.
    pub fn slot(&self, name: &str) -> (found: Option<&Slot>)
        ensures
            found is None <==> absent(names(self.slots@), name@),
            found matches Some(slot) ==> *slot == self.slots@[index_of(names(self.slots@), name@)],
            found matches Some(slot) ==> slot.name@ == name@,
    {
        let wanted = name.to_owned();
        match position(&self.slots, &wanted) {
            Some(i) => Some(&self.slots[i]),
            None => None,
        }
    }
}

/// A call that is ready to be made: which function, under which convention,
/// on which object, with which further arguments.
#[derive(Debug, PartialEq, Eq)]
pub struct Invocation<A> {
    /// The address of the function to enter.
    pub target: usize,
    /// The convention under which it is entered.
    pub conv: CallConv,
    /// The object pointer, which goes first.
    pub this: VtObjectPtr,
    /// The arguments after the object pointer, in order.
    pub args: Vec<A>,
}

/// The call that a caller would make by hand: read the handle's table
/// pointer, read the table that stands there, read the slot named `name`, and
/// call it with the handle's own pointer in front of `args`. There is no such
/// call where the table has no slot of that name.
pub open spec fn manual_call<A>(
    obj: VtObjectView,
    tables: Map<usize, Vtable>,
    name: Seq<char>,
    args: Vec<A>,
) -> Option<Invocation<A>> {
    let slots = tables[obj.vtable_ptr.spec_addr()].slots@;
    if absent(names(slots), name) {
        None
    } else {
        let slot = slots[index_of(names(slots), name)];
        Some(Invocation { target: slot.target, conv: slot.conv, this: obj.this, args })
    }
}

/// Where the slot named `name` is slot `i` of the handle's table, the call
/// made by hand enters that slot's function under that slot's convention,
/// with the handle's own pointer first and `args` unchanged after it.
pub proof fn lemma_manual_call_reads_slot<A>(
    obj: VtObjectView,
    tables: Map<usize, Vtable>,
    name: Seq<char>,
    args: Vec<A>,
    i: int,
)
    requires
        first_at(names(tables[obj.vtable_ptr.spec_addr()].slots@), name, i),
    ensures
        manual_call(obj, tables, name, args) == Some(
            Invocation {
                target: tables[obj.vtable_ptr.spec_addr()].slots@[i].target,
                conv: tables[obj.vtable_ptr.spec_addr()].slots@[i].conv,
                this: obj.this,
                args,
            },
        ),
{
    lemma_first_is_index(names(tables[obj.vtable_ptr.spec_addr()].slots@), name, i);
}

/// Resolves the virtual method `name` on `obj`: the function in the slot of
/// that name in the table that stands in `store` at the object's table
/// pointer, to be entered with the object's pointer first and `args` after
/// it. An object whose table pointer leads nowhere is not valid, and is not
/// asked; nothing else of the object or its table is checked.
pub fn virtual_call<A>(
    obj: &VtObject<Vtable>,
    store: &TableStore<Vtable>,
    name: &str,
    args: Vec<A>,
) -> (call: Option<Invocation<A>>)
    requires
        store.tables().contains_key(obj@.vtable_ptr.spec_addr()),
    ensures
        call == manual_call(obj@, store.tables(), name@, args),
        call is None <==> absent(
            names(store.tables()[obj@.vtable_ptr.spec_addr()].slots@),
            name@,
        ),
        call matches Some(c) ==> c.this == obj@.this && c.args == args,
{
    match obj.vtable(store).slot(name) {
        Some(slot) => Some(
            Invocation { target: slot.target, conv: slot.conv, this: obj.as_ptr(), args },
        ),
        None => None,
    }
}

} // verus!
