//! Handles to foreign objects that begin with a pointer to their virtual
//! function table.
//!
//! A pointer is held as its address. A handle holds the object's address and
//! the table pointer in the object's first word. The tables themselves live
//! in a store, once per address: every handle with the same table pointer
//! reads, and writes, the same table.

use core::marker::PhantomData;
use vstd::prelude::*;

verus! {

/// The address of a virtual function table. It is never null.
#[derive(Clone, Copy, Debug, PartialEq, Eq, Structural)]
pub struct VTablePtr {
    addr: usize,
}

impl VTablePtr {
    #[verifier::type_invariant]
    spec fn non_null(self) -> bool {
        self.addr != 0
    }

    /// The address as a number.
    pub closed spec fn spec_addr(self) -> usize {
        self.addr
    }

    /// A table pointer to `addr`, unless `addr` is null.
    pub fn new(addr: usize) -> (ptr: Option<VTablePtr>)
        ensures
            addr == 0 <==> ptr.is_none(),
            ptr matches Some(p) ==> p.spec_addr() == addr,
    {
        if addr == 0 {
            None
        } else {
            Some(VTablePtr { addr })
        }
    }

    /// The address, for handing to foreign code.
    pub fn addr(&self) -> (addr: usize)
        ensures
            addr == self.spec_addr(),
            addr != 0,
    {
        proof {
            use_type_invariant(self);
        }
        self.addr
    }
}

/// The address of a foreign object whose first word is a table pointer. It is
/// never null.
#[derive(Clone, Copy, Debug, PartialEq, Eq, Structural)]
pub struct VtObjectPtr {
    addr: usize,
}

impl VtObjectPtr {
    #[verifier::type_invariant]
    spec fn non_null(self) -> bool {
        self.addr != 0
    }

    /// The address as a number.
    pub closed spec fn spec_addr(self) -> usize {
        self.addr
    }

    /// An object pointer to `addr`, unless `addr` is null.
    pub fn new(addr: usize) -> (ptr: Option<VtObjectPtr>)
        ensures
            addr == 0 <==> ptr.is_none(),
            ptr matches Some(p) ==> p.spec_addr() == addr,
    {
        if addr == 0 {
            None
        } else {
            Some(VtObjectPtr { addr })
        }
    }

    /// The address, for handing to foreign code.
    pub fn addr(&self) -> (addr: usize)
        ensures
            addr == self.spec_addr(),
            addr != 0,
    {
        proof {
            use_type_invariant(self);
        }
        self.addr
    }
}

/// A table and the address it stands at.
struct Entry<VTable> {
    addr: usize,
    table: VTable,
}

/// `i` is the first entry that stands at `addr`.
spec fn first_entry_at<VTable>(entries: Seq<Entry<VTable>>, addr: usize, i: int) -> bool {
    &&& 0 <= i < entries.len()
    &&& entries[i].addr == addr
    &&& forall|j: int| 0 <= j < i ==> entries[j].addr != addr
}

/// The tables of a list of entries by address: where an address stands more
/// than once, its first entry counts.
spec fn tables_of<VTable>(entries: Seq<Entry<VTable>>) -> Map<usize, VTable> {
    Map::new(
        |addr: usize| exists|i: int| first_entry_at(entries, addr, i),
        |addr: usize| entries[choose|i: int| first_entry_at(entries, addr, i)].table,
    )
}

/// An address has one first entry at most, and the table found under the
/// address is that entry's.
proof fn lemma_first_entry<VTable>(entries: Seq<Entry<VTable>>, addr: usize, i: int)
    requires
        first_entry_at(entries, addr, i),
    ensures
        tables_of(entries).contains_key(addr),
        tables_of(entries)[addr] == entries[i].table,
{
    let k = choose|k: int| first_entry_at(entries, addr, k);
    if k < i {
        assert(entries[k].addr == addr);
    } else if i < k {
        assert(entries[i].addr == addr);
    }
}

/// An address that stands nowhere has no table.
proof fn lemma_no_entry<VTable>(entries: Seq<Entry<VTable>>, addr: usize)
    requires
        forall|j: int| 0 <= j < entries.len() ==> entries[j].addr != addr,
    ensures
        !tables_of(entries).contains_key(addr),
{
}

/// Changing the table of the first entry of an address, and nothing else,
/// changes the table under that address, and nothing else.
proof fn lemma_entry_changed<VTable>(
    before: Seq<Entry<VTable>>,
    after: Seq<Entry<VTable>>,
    i: int,
)
    requires
        first_entry_at(before, before[i].addr, i),
        after.len() == before.len(),
        after[i].addr == before[i].addr,
        forall|j: int| 0 <= j < before.len() && j != i ==> after[j] == before[j],
    ensures
        tables_of(after) == tables_of(before).insert(before[i].addr, after[i].table),
{
    let addr = before[i].addr;
    assert forall|a: usize, k: int| first_entry_at(before, a, k) == first_entry_at(after, a, k) by {
        if first_entry_at(before, a, k) {
            assert(after[k].addr == before[k].addr);
            assert forall|j: int| 0 <= j < k implies after[j].addr != a by {
                assert(after[j].addr == before[j].addr);
            }
        }
        if first_entry_at(after, a, k) {
            assert(after[k].addr == before[k].addr);
            assert forall|j: int| 0 <= j < k implies before[j].addr != a by {
                assert(after[j].addr == before[j].addr);
            }
        }
    }
    assert(first_entry_at(after, addr, i));
    lemma_first_entry(after, addr, i);
    assert forall|a: usize|
        tables_of(after).contains_key(a) && a != addr implies #[trigger] tables_of(after)[a]
        == tables_of(before)[a] by {
        let k = choose|k: int| first_entry_at(after, a, k);
        assert(first_entry_at(before, a, k));
        lemma_first_entry(before, a, k);
        lemma_first_entry(after, a, k);
    }
    assert forall|a: usize| tables_of(after).contains_key(a) == tables_of(before).insert(
        addr,
        after[i].table,
    ).contains_key(a) by {
        if tables_of(after).contains_key(a) {
            let k = choose|k: int| first_entry_at(after, a, k);
            assert(first_entry_at(before, a, k));
        }
        if tables_of(before).contains_key(a) {
            let k = choose|k: int| first_entry_at(before, a, k);
            assert(first_entry_at(after, a, k));
        }
    }
    assert(tables_of(after) =~= tables_of(before).insert(addr, after[i].table));
}

/// Adding an entry at an address that stood nowhere adds its table under
/// that address, and changes nothing else.
proof fn lemma_entry_added<VTable>(before: Seq<Entry<VTable>>, after: Seq<Entry<VTable>>)
    requires
        after.len() == before.len() + 1,
        forall|j: int| 0 <= j < before.len() ==> after[j] == before[j],
        forall|j: int| 0 <= j < before.len() ==> before[j].addr != after[before.len() as int].addr,
    ensures
        tables_of(after) == tables_of(before).insert(
            after[before.len() as int].addr,
            after[before.len() as int].table,
        ),
{
    let last = before.len() as int;
    let addr = after[last].addr;
    let want = tables_of(before).insert(addr, after[last].table);
    assert(first_entry_at(after, addr, last)) by {
        assert forall|j: int| 0 <= j < last implies after[j].addr != addr by {
            assert(after[j] == before[j]);
        }
    }
    lemma_first_entry(after, addr, last);
    assert forall|a: usize, k: int| a != addr implies first_entry_at(before, a, k)
        == first_entry_at(after, a, k) by {
        if first_entry_at(before, a, k) {
            assert(after[k] == before[k]);
            assert forall|j: int| 0 <= j < k implies after[j].addr != a by {
                assert(after[j] == before[j]);
            }
        }
        if first_entry_at(after, a, k) {
            assert(k != last);
            assert(after[k] == before[k]);
            assert forall|j: int| 0 <= j < k implies before[j].addr != a by {
                assert(after[j] == before[j]);
            }
        }
    }
    assert forall|a: usize| tables_of(after).contains_key(a) == want.contains_key(a) by {
        if a != addr {
            if tables_of(after).contains_key(a) {
                let k = choose|k: int| first_entry_at(after, a, k);
                assert(first_entry_at(before, a, k));
            }
            if tables_of(before).contains_key(a) {
                let k = choose|k: int| first_entry_at(before, a, k);
                assert(first_entry_at(after, a, k));
            }
        }
    }
    assert forall|a: usize| tables_of(after).contains_key(a) implies tables_of(after)[a]
        == want[a] by {
        if a != addr {
            let k = choose|k: int| first_entry_at(after, a, k);
            assert(first_entry_at(before, a, k));
            lemma_first_entry(before, a, k);
            lemma_first_entry(after, a, k);
        }
    }
    assert(tables_of(after) =~= want);
}

/// The virtual function tables that the foreign side keeps, each at its
/// address. A table stands once, however many objects point to it.
pub struct TableStore<VTable> {
    entries: Vec<Entry<VTable>>,
}

impl<VTable> TableStore<VTable> {
    /// The tables by address.
    pub closed spec fn tables(&self) -> Map<usize, VTable> {
        tables_of(self.entries@)
    }

    /// A store with no table in it.
    pub fn new() -> (store: Self)
        ensures
            store.tables() == Map::<usize, VTable>::empty(),
    {
        let store = TableStore { entries: Vec::new() };
        assert(store.tables() =~= Map::<usize, VTable>::empty());
        store
    }

    /// The place of the first entry at `addr`.
    fn find(&self, addr: usize) -> (found: Option<usize>)
        ensures
            match found {
                Some(i) => first_entry_at(self.entries@, addr, i as int),
                None => forall|j: int| 0 <= j < self.entries@.len() ==> self.entries@[j].addr != addr,
            },
    {
        let mut i: usize = 0;
        while i < self.entries.len()
            invariant
                i <= self.entries.len(),
                forall|j: int| 0 <= j < i ==> self.entries@[j].addr != addr,
            decreases self.entries.len() - i,
        {
            if self.entries[i].addr == addr {
                return Some(i);
            }
            i += 1;
        }
        None
    }

    /// Whether a table stands at `ptr`.
    pub fn contains(&self, ptr: VTablePtr) -> (held: bool)
        ensures
            held == self.tables().contains_key(ptr.spec_addr()),
    {
        match self.find(ptr.addr) {
            Some(i) => {
                proof {
                    lemma_first_entry(self.entries@, ptr.addr, i as int);
                }
                true
            },
            None => {
                proof {
                    lemma_no_entry(self.entries@, ptr.addr);
                }
                false
            },
        }
    }

    /// Puts `table` at `ptr`, in place of the table that stood there, if one
    /// did. Every other table stays.
    pub fn insert(&mut self, ptr: VTablePtr, table: VTable)
        ensures
            final(self).tables() == old(self).tables().insert(ptr.spec_addr(), table),
    {
        let ghost before = self.entries@;
        match self.find(ptr.addr) {
            Some(i) => {
                self.entries[i].table = table;
                proof {
                    lemma_entry_changed(before, self.entries@, i as int);
                }
            },
            None => {
                self.entries.push(Entry { addr: ptr.addr, table });
                proof {
                    lemma_entry_added(before, self.entries@);
                }
            },
        }
    }
}

/// What a handle stands for.
pub struct VtObjectView {
    /// Where the object lives.
    pub this: VtObjectPtr,
    /// The object's first word.
    pub vtable_ptr: VTablePtr,
    /// No other view of the object exists while this one is in use.
    pub exclusive: bool,
}

/// A foreign object with a virtual function table of type `VTable`, seen
/// through its address.
///
/// The handle owns neither the object nor the table: both live as long as the
/// foreign side keeps them, and the table is read from the store that stands
/// for the foreign side's memory.
#[derive(Debug)]
pub struct VtObject<VTable> {
    this: VtObjectPtr,
    vtable: VTablePtr,
    exclusive: bool,
    table_type: PhantomData<VTable>,
}

impl<VTable> View for VtObject<VTable> {
    type V = VtObjectView;

    closed spec fn view(&self) -> VtObjectView {
        VtObjectView { this: self.this, vtable_ptr: self.vtable, exclusive: self.exclusive }
    }
}

impl<VTable> VtObject<VTable> {
    /// A shared view of the object at `ptr`, whose first word is
    /// `vtable_ptr`. That `ptr` is valid while the view is in use is the
    /// caller's to know.
    pub fn from_ptr_const(ptr: VtObjectPtr, vtable_ptr: VTablePtr) -> (obj: Self)
        ensures
            obj@ == (VtObjectView { this: ptr, vtable_ptr, exclusive: false }),
    {
        VtObject { this: ptr, vtable: vtable_ptr, exclusive: false, table_type: PhantomData }
    }

    /// An exclusive view of the object at `ptr`, whose first word is
    /// `vtable_ptr`. That `ptr` is valid and that no other view of the object
    /// is in use is the caller's to know.
    pub fn from_ptr_mut(ptr: VtObjectPtr, vtable_ptr: VTablePtr) -> (obj: Self)
        ensures
            obj@ == (VtObjectView { this: ptr, vtable_ptr, exclusive: true }),
    {
        VtObject { this: ptr, vtable: vtable_ptr, exclusive: true, table_type: PhantomData }
    }

    /// The pointer to hand back to the foreign side: the object's address.
    pub fn as_ptr(&self) -> (ptr: VtObjectPtr)
        ensures
            ptr == self@.this,
    {
        self.this
    }

    /// The pointer to the object's table: its first word.
    pub fn vtable_ptr(&self) -> (ptr: VTablePtr)
        ensures
            ptr == self@.vtable_ptr,
    {
        self.vtable
    }

    /// Whether the view was made as the only one of its object.
    pub fn is_exclusive(&self) -> (exclusive: bool)
        ensures
            exclusive == self@.exclusive,
    {
        self.exclusive
    }

    /// The object's table: the one that stands in `store` at the object's
    /// table pointer. An object whose table pointer leads nowhere is not
    /// valid, and is not asked.
    pub fn vtable<'a>(&self, store: &'a TableStore<VTable>) -> (table: &'a VTable)
        requires
            store.tables().contains_key(self@.vtable_ptr.spec_addr()),
        ensures
            *table == store.tables()[self@.vtable_ptr.spec_addr()],
    {
        let found = store.find(self.vtable.addr);
        proof {
            if found is None {
                lemma_no_entry(store.entries@, self.vtable.addr);
            }
        }
        let i = found.unwrap();
        proof {
            lemma_first_entry(store.entries@, self.vtable.addr, i as int);
        }
        &store.entries[i].table
    }

    /// The object's table, to be changed in place in `store`. A table is
    /// shared by every object of its class, so this is asked for only through
    /// an exclusive view. Whatever the caller leaves in the table is what
    /// stands at the table pointer afterwards, for every view that reads it;
    /// no other table changes, and the view itself does not change.
    pub fn vtable_mut<'a>(&mut self, store: &'a mut TableStore<VTable>) -> (table: &'a mut VTable)
        requires
            old(self)@.exclusive,
            old(store).tables().contains_key(old(self)@.vtable_ptr.spec_addr()),
        ensures
            *table == old(store).tables()[old(self)@.vtable_ptr.spec_addr()],
            final(store).tables() == old(store).tables().insert(
                old(self)@.vtable_ptr.spec_addr(),
                *final(table),
            ),
            final(self)@ == old(self)@,
    {
        let ghost before = store.entries@;
        let found = store.find(self.vtable.addr);
        proof {
            if found is None {
                lemma_no_entry(before, self.vtable.addr);
            }
        }
        let i = found.unwrap();
        proof {
            lemma_first_entry(before, self.vtable.addr, i as int);
            assert forall|after: Seq<Entry<VTable>>|
                after.len() == before.len() && after[i as int].addr == before[i as int].addr && (
                forall|j: int| 0 <= j < before.len() && j != i ==> after[j] == before[j])
                implies #[trigger] tables_of(after) == tables_of(before).insert(
                before[i as int].addr,
                after[i as int].table,
            ) by {
                lemma_entry_changed(before, after, i as int);
            }
        }
        &mut store.entries[i].table
    }
}

/// Making a view from a pointer and asking the view for its pointer gives the
/// pointer back, address for address, whichever kind of view was made.
pub proof fn lemma_pointer_round_trip<VTable>(
    obj: VtObject<VTable>,
    ptr: VtObjectPtr,
    vtable_ptr: VTablePtr,
    exclusive: bool,
)
    requires
        obj@ == (VtObjectView { this: ptr, vtable_ptr, exclusive }),
    ensures
        obj@.this == ptr,
        obj@.this.spec_addr() == ptr.spec_addr(),
        obj@.vtable_ptr == vtable_ptr,
{
}

/// Two views with the same table pointer read the same table from a store,
/// whatever objects they are views of.
pub proof fn lemma_same_pointer_same_table<VTable>(
    store: TableStore<VTable>,
    one: VtObject<VTable>,
    other: VtObject<VTable>,
)
    requires
        one@.vtable_ptr == other@.vtable_ptr,
    ensures
        store.tables()[one@.vtable_ptr.spec_addr()] == store.tables()[other@.vtable_ptr.spec_addr()],
{
}

/// A table written through one view is the table that every view with the
/// same table pointer reads afterwards, and the tables at other addresses
/// are as they were.
pub proof fn lemma_write_is_shared<VTable>(
    before: Map<usize, VTable>,
    after: Map<usize, VTable>,
    writer: VtObjectView,
    reader: VtObjectView,
    written: VTable,
    elsewhere: usize,
)
    requires
        after == before.insert(writer.vtable_ptr.spec_addr(), written),
        reader.vtable_ptr == writer.vtable_ptr,
        elsewhere != writer.vtable_ptr.spec_addr(),
        before.contains_key(elsewhere),
    ensures
        after[reader.vtable_ptr.spec_addr()] == written,
        after[writer.vtable_ptr.spec_addr()] == written,
        after.contains_key(elsewhere) && after[elsewhere] == before[elsewhere],
{
}

} // verus!
