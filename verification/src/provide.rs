//! Tables built from a host type's own methods, for objects that are called
//! from the foreign side.
//!
//! The table is written as a literal that lists the aggregate's fields by
//! name, each with the annotations it is to carry; each listed field is
//! filled with the implementing type's method of the same name. A literal
//! that does not fit the aggregate is an error, as it is for any aggregate
//! literal.

use vstd::prelude::*;
use crate::abi::CallConv;
use crate::decl::{copy_texts, texts, FieldDef, VtableDef};
use crate::dispatch::{
    lemma_manual_call_reads_slot, manual_call, Invocation, Slot, SlotSpec, Vtable, VtableSpec,
};
use crate::object::VtObjectView;
use crate::lookup::{
    absent, first_at, first_repeated, index_of, lemma_first_is_index, names, position, repeated_at,
    Named,
};

verus! {

impl Named for FieldDef {
    open spec fn spec_name(&self) -> Seq<char> {
        self.name@
    }

    fn name(&self) -> (name: &String) {
        &self.name
    }
}

/// One entry of a table literal: a field's name, and the annotations
/// (documentation, conditional inclusion) written on the entry.
#[derive(Clone, Debug, PartialEq, Eq)]
pub struct FieldInit {
    /// Annotations on the entry.
    pub attrs: Vec<String>,
    /// The name of the field, which is the name of the method too.
    pub name: String,
}

impl Named for FieldInit {
    open spec fn spec_name(&self) -> Seq<char> {
        self.name@
    }

    fn name(&self) -> (name: &String) {
        &self.name
    }
}

/// A method that a host type provides: its name, the convention it is
/// entered under, and where its code stands. The types in its signature are
/// text to this library and are not compared.
#[derive(Clone, Debug, PartialEq, Eq)]
pub struct Method {
    /// The method's name.
    pub name: String,
    /// The calling convention the method is declared with.
    pub conv: CallConv,
    /// The address of the method's code.
    pub addr: usize,
}

impl Named for Method {
    open spec fn spec_name(&self) -> Seq<char> {
        self.name@
    }

    fn name(&self) -> (name: &String) {
        &self.name
    }
}

/// A type of the host language and the methods it provides.
#[derive(Clone, Debug, PartialEq, Eq)]
pub struct HostType {
    /// The type's name.
    pub name: String,
    /// The methods the type provides.
    pub methods: Vec<Method>,
}

/// Why a table literal does not fit its aggregate. Each variant gives the
/// place of the first offender.
#[derive(Clone, Copy, Debug, PartialEq, Eq, Structural)]
pub enum ShapeError {
    /// The literal lists a name, at this place, that is no field of the
    /// aggregate.
    UnknownField(usize),
    /// The literal lists a name, at this place, that it has listed before.
    DuplicateField(usize),
    /// The aggregate's field at this place is not listed.
    MissingField(usize),
    /// The implementing type has no method for the aggregate's field at this
    /// place.
    MissingMethod(usize),
    /// The implementing type's method for the aggregate's field at this place
    /// is declared with another calling convention than the field.
    WrongConvention(usize),
}

/// The name listed at place `i` is no field.
pub open spec fn unknown_at(fields: Seq<Seq<char>>, listed: Seq<Seq<char>>, i: int) -> bool {
    0 <= i < listed.len() && absent(fields, listed[i])
}

/// The field at place `k` is not listed.
pub open spec fn missing_at(fields: Seq<Seq<char>>, listed: Seq<Seq<char>>, k: int) -> bool {
    0 <= k < fields.len() && absent(listed, fields[k])
}

/// No method has the name of the field at place `k`.
pub open spec fn unprovided_at(fields: Seq<Seq<char>>, methods: Seq<Seq<char>>, k: int) -> bool {
    0 <= k < fields.len() && absent(methods, fields[k])
}

/// The host's method for the field at place `k` has another calling
/// convention than the field.
pub open spec fn misfit_at(def: VtableDef, host: HostType, k: int) -> bool {
    &&& 0 <= k < def.fields@.len()
    &&& !absent(names(host.methods@), def.fields@[k].name@)
    &&& host.methods@[index_of(names(host.methods@), def.fields@[k].name@)].conv
        != def.fields@[k].conv
}

/// The field at place `k` can be filled: it is listed, and the host has a
/// method for it with the field's calling convention.
pub open spec fn fillable_at(
    def: VtableDef,
    host: HostType,
    listed: Seq<Seq<char>>,
    k: int,
) -> bool {
    &&& !missing_at(names(def.fields@), listed, k)
    &&& !unprovided_at(names(def.fields@), names(host.methods@), k)
    &&& !misfit_at(def, host, k)
}

/// The literal lists no name that is no field, and no name twice.
pub open spec fn literal_is_sound(fields: Seq<Seq<char>>, listed: Seq<Seq<char>>) -> bool {
    &&& forall|i: int| !unknown_at(fields, listed, i)
    &&& forall|i: int| !repeated_at(listed, i)
}

/// The type whose methods fill the table: the alternate type where one is
/// named, the current type otherwise.
pub open spec fn provider(this: &HostType, alternate: Option<&HostType>) -> HostType {
    match alternate {
        Some(other) => *other,
        None => *this,
    }
}

/// The slot that `host` fills for `field`: the field's name and convention,
/// the annotations of the literal's entry for the field, and the address of
/// the host's method of the field's name.
pub open spec fn self_slot(field: FieldDef, host: HostType, listed: Seq<FieldInit>) -> SlotSpec {
    SlotSpec {
        attrs: texts(listed[index_of(names(listed), field.name@)].attrs@),
        name: field.name@,
        conv: field.conv,
        target: host.methods@[index_of(names(host.methods@), field.name@)].addr,
    }
}

/// The table of `host` for the aggregate `def`, as the literal `listed`
/// writes it: one slot per field, in the aggregate's order.
pub open spec fn self_vtable(def: VtableDef, host: HostType, listed: Seq<FieldInit>) -> VtableSpec {
    VtableSpec {
        name: def.name@,
        slots: Seq::new(def.fields@.len(), |k: int| self_slot(def.fields@[k], host, listed)),
    }
}

/// The slot that holds `target` for `field`, under the field's own
/// annotations.
pub open spec fn filled_slot(field: FieldDef, target: usize) -> SlotSpec {
    SlotSpec { attrs: texts(field.attrs@), name: field.name@, conv: field.conv, target }
}

/// The table that gives each field of `def` the function at the same place
/// in `targets`.
pub open spec fn filled(def: VtableDef, targets: Seq<usize>) -> VtableSpec {
    VtableSpec {
        name: def.name@,
        slots: Seq::new(def.fields@.len(), |k: int| filled_slot(def.fields@[k], targets[k])),
    }
}

/// Builds a value of the aggregate `def` from one function address per
/// field, in the aggregate's order. There is no such value unless every
/// field gets exactly one address.
pub fn new_vtable(def: &VtableDef, targets: &Vec<usize>) -> (made: Option<Vtable>)
    ensures
        made is Some <==> targets@.len() == def.fields@.len(),
        made matches Some(table) ==> table@ == filled(*def, targets@) && table.slots@.len()
            == def.fields@.len(),
{
    if targets.len() != def.fields.len() {
        return None;
    }
    let mut slots: Vec<Slot> = Vec::new();
    let mut k: usize = 0;
    while k < def.fields.len()
        invariant
            k <= def.fields.len(),
            targets@.len() == def.fields@.len(),
            slots@.len() == k,
            forall|j: int| 0 <= j < k ==> slots@[j]@ == filled_slot(def.fields@[j], targets@[j]),
        decreases def.fields.len() - k,
    {
        let field = &def.fields[k];
        slots.push(
            Slot {
                attrs: copy_texts(&field.attrs),
                name: field.name.clone(),
                conv: field.conv,
                target: targets[k],
            },
        );
        k += 1;
    }
    let table = Vtable { name: def.name.clone(), slots };
    assert(table@.slots =~= filled(*def, targets@).slots);
    Some(table)
}

/// Builds the table that presents a host type as an implementor of `def`.
/// `listed` holds the entries of the literal, in any order; the methods are
/// those of `alternate` where it is given, of `this` otherwise. The slots
/// come out in the aggregate's order, each with the annotations of its entry.
///
/// The literal is refused for a listed name that is no field; else for a
/// name listed twice; else for the first field that is not listed, or for
/// which the implementing type has no method, or has one with another
/// calling convention.
pub fn new_vtable_self(
    def: &VtableDef,
    this: &HostType,
    alternate: Option<&HostType>,
    listed: &Vec<FieldInit>,
) -> (made: Result<Vtable, ShapeError>)
    ensures
        match made {
            Ok(table) => {
                &&& literal_is_sound(names(def.fields@), names(listed@))
                &&& forall|k: int|
                    fillable_at(*def, provider(this, alternate), names(listed@), k)
                &&& table@ == self_vtable(*def, provider(this, alternate), listed@)
                &&& table.slots@.len() == def.fields@.len()
            },
            Err(ShapeError::UnknownField(i)) => {
                &&& unknown_at(names(def.fields@), names(listed@), i as int)
                &&& forall|j: int| 0 <= j < i ==> !unknown_at(names(def.fields@), names(listed@), j)
            },
            Err(ShapeError::DuplicateField(i)) => {
                &&& forall|j: int| !unknown_at(names(def.fields@), names(listed@), j)
                &&& repeated_at(names(listed@), i as int)
                &&& forall|j: int| 0 <= j < i ==> !repeated_at(names(listed@), j)
            },
            Err(ShapeError::MissingField(k)) => {
                &&& literal_is_sound(names(def.fields@), names(listed@))
                &&& missing_at(names(def.fields@), names(listed@), k as int)
                &&& forall|j: int|
                    0 <= j < k ==> fillable_at(
                        *def,
                        provider(this, alternate),
                        names(listed@),
                        j,
                    )
            },
            Err(ShapeError::MissingMethod(k)) => {
                &&& literal_is_sound(names(def.fields@), names(listed@))
                &&& !missing_at(names(def.fields@), names(listed@), k as int)
                &&& unprovided_at(
                    names(def.fields@),
                    names(provider(this, alternate).methods@),
                    k as int,
                )
                &&& forall|j: int|
                    0 <= j < k ==> fillable_at(
                        *def,
                        provider(this, alternate),
                        names(listed@),
                        j,
                    )
            },
            Err(ShapeError::WrongConvention(k)) => {
                &&& literal_is_sound(names(def.fields@), names(listed@))
                &&& !missing_at(names(def.fields@), names(listed@), k as int)
                &&& misfit_at(*def, provider(this, alternate), k as int)
                &&& forall|j: int|
                    0 <= j < k ==> fillable_at(
                        *def,
                        provider(this, alternate),
                        names(listed@),
                        j,
                    )
            },
        },
{
    let host: &HostType = match alternate {
        Some(other) => other,
        None => this,
    };
    let ghost fields = names(def.fields@);
    let ghost list = names(listed@);
    let ghost methods = names(host.methods@);
    assert(*host == provider(this, alternate));

    let mut i: usize = 0;
    while i < listed.len()
        invariant
            i <= listed.len(),
            fields == names(def.fields@),
            list == names(listed@),
            forall|j: int| 0 <= j < i ==> !unknown_at(fields, list, j),
        decreases listed.len() - i,
    {
        if position(&def.fields, &listed[i].name).is_none() {
            return Err(ShapeError::UnknownField(i));
        }
        i += 1;
    }
    assert(forall|j: int| !unknown_at(fields, list, j));

    match first_repeated(listed) {
        Some(i) => {
            return Err(ShapeError::DuplicateField(i));
        },
        None => {},
    }
    assert(literal_is_sound(fields, list));

    let mut slots: Vec<Slot> = Vec::new();
    let mut k: usize = 0;
    while k < def.fields.len()
        invariant
            k <= def.fields.len(),
            fields == names(def.fields@),
            list == names(listed@),
            methods == names(host.methods@),
            *host == provider(this, alternate),
            literal_is_sound(fields, list),
            slots@.len() == k,
            forall|j: int| 0 <= j < k ==> fillable_at(*def, *host, list, j),
            forall|j: int| 0 <= j < k ==> slots@[j]@ == self_slot(def.fields@[j], *host, listed@),
        decreases def.fields.len() - k,
    {
        let field = &def.fields[k];
        assert(fields[k as int] == field.name@);
        let entry = match position(listed, &field.name) {
            Some(e) => e,
            None => {
                return Err(ShapeError::MissingField(k));
            },
        };
        let method = match position(&host.methods, &field.name) {
            Some(m) => m,
            None => {
                return Err(ShapeError::MissingMethod(k));
            },
        };
        if host.methods[method].conv != field.conv {
            return Err(ShapeError::WrongConvention(k));
        }
        slots.push(
            Slot {
                attrs: copy_texts(&listed[entry].attrs),
                name: field.name.clone(),
                conv: field.conv,
                target: host.methods[method].addr,
            },
        );
        k += 1;
    }
    let table = Vtable { name: def.name.clone(), slots };
    assert(table@.slots =~= self_vtable(*def, *host, listed@).slots);
    Ok(table)
}

/// In the table built for a host type, the slot of each field points to the
/// host's method of the field's name, keeps the field's convention and
/// place, and carries the annotations of the literal's entry for the field.
pub proof fn lemma_self_vtable_points_to_methods(
    def: VtableDef,
    host: HostType,
    listed: Seq<FieldInit>,
    k: int,
    m: int,
    e: int,
)
    requires
        0 <= k < def.fields@.len(),
        first_at(names(host.methods@), def.fields@[k].name@, m),
        first_at(names(listed), def.fields@[k].name@, e),
    ensures
        self_vtable(def, host, listed).slots.len() == def.fields@.len(),
        self_vtable(def, host, listed).slots[k].name == def.fields@[k].name@,
        self_vtable(def, host, listed).slots[k].conv == def.fields@[k].conv,
        self_vtable(def, host, listed).slots[k].target == host.methods@[m].addr,
        self_vtable(def, host, listed).slots[k].attrs == texts(listed[e].attrs@),
{
    lemma_first_is_index(names(host.methods@), def.fields@[k].name@, m);
    lemma_first_is_index(names(listed), def.fields@[k].name@, e);
}

/// Where an alternate implementing type is named, the table is that type's:
/// the current type's methods play no part. Where none is named, the table
/// is the current type's.
pub proof fn lemma_alternate_provides(
    def: VtableDef,
    this: &HostType,
    other: &HostType,
    listed: Seq<FieldInit>,
)
    ensures
        self_vtable(def, provider(this, Some(other)), listed) == self_vtable(def, *other, listed),
        self_vtable(def, provider(this, None), listed) == self_vtable(def, *this, listed),
{
}

/// A virtual call through a handle whose table was built for a host type
/// enters the host's own method: for a field that no earlier field shares its
/// name with, the call resolved by name is the call to the host's method of
/// that name, under the field's convention, with the handle's pointer first.
pub proof fn lemma_dispatch_reaches_host_method<A>(
    def: VtableDef,
    host: HostType,
    listed: Seq<FieldInit>,
    obj: VtObjectView,
    tables: Map<usize, Vtable>,
    args: Vec<A>,
    k: int,
    m: int,
)
    requires
        tables[obj.vtable_ptr.spec_addr()]@ == self_vtable(def, host, listed),
        0 <= k < def.fields@.len(),
        !repeated_at(names(def.fields@), k),
        first_at(names(host.methods@), def.fields@[k].name@, m),
    ensures
        manual_call(obj, tables, def.fields@[k].name@, args) == Some(
            Invocation {
                target: host.methods@[m].addr,
                conv: def.fields@[k].conv,
                this: obj.this,
                args,
            },
        ),
{
    let table = tables[obj.vtable_ptr.spec_addr()];
    let slots = table.slots@;
    assert(table@.slots.len() == slots.len());
    assert(self_vtable(def, host, listed).slots.len() == def.fields@.len());
    assert(table@.slots == self_vtable(def, host, listed).slots);
    assert(names(slots) =~= names(def.fields@)) by {
        assert forall|j: int| 0 <= j < slots.len() implies names(slots)[j] == names(
            def.fields@,
        )[j] by {
            assert(table@.slots[j] == self_slot(def.fields@[j], host, listed));
        }
    }
    assert(table@.slots[k] == self_slot(def.fields@[k], host, listed));
    lemma_first_is_index(names(host.methods@), def.fields@[k].name@, m);
    lemma_manual_call_reads_slot(obj, tables, def.fields@[k].name@, args, k);
}

} // verus!
