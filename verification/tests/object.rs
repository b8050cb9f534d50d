use cppdvt::object::{TableStore, VTablePtr, VtObject, VtObjectPtr};

#[test]
fn null_is_no_pointer() {
    assert!(VtObjectPtr::new(0).is_none());
    assert!(VTablePtr::new(0).is_none());
}

#[test]
fn pointers_keep_their_address() {
    assert_eq!(VtObjectPtr::new(0x1000).unwrap().addr(), 0x1000);
    assert_eq!(VTablePtr::new(usize::MAX).unwrap().addr(), usize::MAX);
    assert_eq!(VtObjectPtr::new(1).unwrap().addr(), 1);
}

#[test]
fn pointer_round_trips_through_a_shared_view() {
    let ptr = VtObjectPtr::new(0xdead_beef).unwrap();
    let vt = VTablePtr::new(0x4000).unwrap();
    let obj: VtObject<u32> = VtObject::from_ptr_const(ptr, vt);
    assert_eq!(obj.as_ptr(), ptr);
    assert_eq!(obj.as_ptr().addr(), 0xdead_beef);
    assert!(!obj.is_exclusive());
}

#[test]
fn pointer_round_trips_through_an_exclusive_view() {
    let ptr = VtObjectPtr::new(0x10).unwrap();
    let vt = VTablePtr::new(0x20).unwrap();
    let obj: VtObject<u32> = VtObject::from_ptr_mut(ptr, vt);
    assert_eq!(obj.as_ptr(), ptr);
    assert_eq!(obj.as_ptr().addr(), 0x10);
    assert!(obj.is_exclusive());
}

#[test]
fn store_holds_what_was_put_in_it() {
    let vt = VTablePtr::new(0x20).unwrap();
    let other = VTablePtr::new(0x30).unwrap();
    let mut store: TableStore<u8> = TableStore::new();
    assert!(!store.contains(vt));
    store.insert(vt, 1);
    assert!(store.contains(vt));
    assert!(!store.contains(other));
    store.insert(other, 2);
    store.insert(vt, 3);
    let at_vt: VtObject<u8> = VtObject::from_ptr_const(VtObjectPtr::new(0x100).unwrap(), vt);
    let at_other: VtObject<u8> = VtObject::from_ptr_const(VtObjectPtr::new(0x200).unwrap(), other);
    assert_eq!(*at_vt.vtable(&store), 3);
    assert_eq!(*at_other.vtable(&store), 2);
}

#[test]
fn view_gives_the_table_pointer_and_the_table_that_stands_there() {
    let ptr = VtObjectPtr::new(0x10).unwrap();
    let vt = VTablePtr::new(0x20).unwrap();
    let mut store = TableStore::new();
    store.insert(VTablePtr::new(0x28).unwrap(), [9u8, 9, 9]);
    store.insert(vt, [1u8, 2, 3]);
    let obj = VtObject::from_ptr_const(ptr, vt);
    assert_eq!(obj.vtable_ptr(), vt);
    assert_eq!(obj.vtable_ptr().addr(), 0x20);
    assert_eq!(*obj.vtable(&store), [1u8, 2, 3]);
}

#[test]
fn table_changes_through_an_exclusive_view_only_touch_the_table() {
    let ptr = VtObjectPtr::new(0x10).unwrap();
    let vt = VTablePtr::new(0x20).unwrap();
    let other = VTablePtr::new(0x30).unwrap();
    let mut store = TableStore::new();
    store.insert(vt, 5u64);
    store.insert(other, 6u64);
    let mut obj = VtObject::from_ptr_mut(ptr, vt);
    assert_eq!(*obj.vtable_mut(&mut store), 5);
    *obj.vtable_mut(&mut store) = 9;
    assert_eq!(*obj.vtable(&store), 9);
    assert_eq!(obj.as_ptr(), ptr);
    assert_eq!(obj.vtable_ptr(), vt);
    assert!(obj.is_exclusive());
    let bystander: VtObject<u64> = VtObject::from_ptr_const(VtObjectPtr::new(0x40).unwrap(), other);
    assert_eq!(*bystander.vtable(&store), 6);
}

#[test]
fn a_write_through_one_view_is_seen_through_every_view_of_the_table() {
    let vt = VTablePtr::new(0x6000).unwrap();
    let mut store = TableStore::new();
    store.insert(vt, 5u64);
    let mut writer = VtObject::from_ptr_mut(VtObjectPtr::new(8192).unwrap(), vt);
    let reader: VtObject<u64> = VtObject::from_ptr_const(VtObjectPtr::new(8448).unwrap(), vt);
    assert_eq!(*reader.vtable(&store), 5);
    *writer.vtable_mut(&mut store) = 9;
    assert_eq!(*writer.vtable(&store), 9);
    assert_eq!(*reader.vtable(&store), 9);
    assert_eq!(writer.vtable_ptr(), reader.vtable_ptr());
    assert_eq!(writer.as_ptr().addr(), 8192);
    assert_eq!(reader.as_ptr().addr(), 8448);
}
