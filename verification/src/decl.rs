//! The notation that declares a virtual function table, and the aggregate
//! type it stands for.
//!
//! A declaration lists the virtual methods of a class in the order its header
//! declares them. Its expansion is an aggregate with one function-pointer
//! field per method, in that order; each field takes the object pointer as
//! its first parameter and uses the calling convention of the build target.

use vstd::prelude::*;
use crate::abi::{CallConv, Target};
use crate::lookup::{first_repeated, names, repeated_at, Named};

verus! {

/// The texts of a list of strings, in order.
pub open spec fn texts(v: Seq<String>) -> Seq<Seq<char>> {
    Seq::new(v.len(), |i: int| v[i]@)
}

/// The text of a string that may be absent.
pub open spec fn text_of(s: Option<String>) -> Option<Seq<char>> {
    match s {
        Some(t) => Some(t@),
        None => None,
    }
}

/// One virtual method as declared. Parameters are kept as written: the
/// notation does not look inside them.
#[derive(Clone, Debug, PartialEq, Eq)]
pub struct MethodDecl {
    /// Annotations on the method (documentation, conditional inclusion).
    pub attrs: Vec<String>,
    /// Visibility of the generated field; empty for private.
    pub vis: String,
    /// The method's name.
    pub name: String,
    /// The declared parameters, without the object pointer.
    pub params: String,
    /// The declared return type, if one is written.
    pub ret: Option<String>,
}

/// What a method declaration says.
pub struct MethodSpec {
    pub attrs: Seq<Seq<char>>,
    pub vis: Seq<char>,
    pub name: Seq<char>,
    pub params: Seq<char>,
    pub ret: Option<Seq<char>>,
}

impl View for MethodDecl {
    type V = MethodSpec;

    open spec fn view(&self) -> MethodSpec {
        MethodSpec {
            attrs: texts(self.attrs@),
            vis: self.vis@,
            name: self.name@,
            params: self.params@,
            ret: text_of(self.ret),
        }
    }
}

impl Named for MethodDecl {
    open spec fn spec_name(&self) -> Seq<char> {
        self.name@
    }

    fn name(&self) -> (name: &String) {
        &self.name
    }
}

/// A declared table: a name, and the methods in declaration order.
#[derive(Clone, Debug, PartialEq, Eq)]
pub struct VtableDecl {
    /// Annotations on the aggregate as a whole.
    pub attrs: Vec<String>,
    /// Visibility of the aggregate; empty for private.
    pub vis: String,
    /// The aggregate's name.
    pub name: String,
    /// The type of the object pointer, where it is not the library's own
    /// handle to an object with this table.
    pub this_type: Option<String>,
    /// The virtual methods, in the order of the class's header.
    pub methods: Vec<MethodDecl>,
}

/// What a table declaration says.
pub struct DeclSpec {
    pub attrs: Seq<Seq<char>>,
    pub vis: Seq<char>,
    pub name: Seq<char>,
    pub this_type: Option<Seq<char>>,
    pub methods: Seq<MethodSpec>,
}

impl View for VtableDecl {
    type V = DeclSpec;

    open spec fn view(&self) -> DeclSpec {
        DeclSpec {
            attrs: texts(self.attrs@),
            vis: self.vis@,
            name: self.name@,
            this_type: text_of(self.this_type),
            methods: Seq::new(self.methods@.len(), |i: int| self.methods@[i]@),
        }
    }
}

/// The type of the object pointer that every generated field takes first.
#[derive(Clone, Debug, PartialEq, Eq)]
pub enum ThisType {
    /// The library's pointer to an object whose table is the named aggregate.
    ObjectHandle(String),
    /// A pointer type that the declaration names itself.
    Named(String),
}

/// What an object-pointer type says.
pub enum ThisSpec {
    ObjectHandle(Seq<char>),
    Named(Seq<char>),
}

impl View for ThisType {
    type V = ThisSpec;

    open spec fn view(&self) -> ThisSpec {
        match self {
            ThisType::ObjectHandle(n) => ThisSpec::ObjectHandle(n@),
            ThisType::Named(t) => ThisSpec::Named(t@),
        }
    }
}

/// One generated field: a pointer to a function that takes the object
/// pointer, then the declared parameters.
#[derive(Clone, Debug, PartialEq, Eq)]
pub struct FieldDef {
    /// The method's annotations, carried over.
    pub attrs: Vec<String>,
    /// The method's visibility.
    pub vis: String,
    /// The method's name.
    pub name: String,
    /// The calling convention of the function pointed to.
    pub conv: CallConv,
    /// The type of the first parameter.
    pub this: ThisType,
    /// The parameters after the first, as declared.
    pub params: String,
    /// The return type, as declared.
    pub ret: Option<String>,
}

/// What a generated field says.
pub struct FieldSpec {
    pub attrs: Seq<Seq<char>>,
    pub vis: Seq<char>,
    pub name: Seq<char>,
    pub conv: CallConv,
    pub this: ThisSpec,
    pub params: Seq<char>,
    pub ret: Option<Seq<char>>,
}

impl View for FieldDef {
    type V = FieldSpec;

    open spec fn view(&self) -> FieldSpec {
        FieldSpec {
            attrs: texts(self.attrs@),
            vis: self.vis@,
            name: self.name@,
            conv: self.conv,
            this: self.this@,
            params: self.params@,
            ret: text_of(self.ret),
        }
    }
}

/// The generated aggregate: fields laid out in order, as C lays out a struct.
#[derive(Clone, Debug, PartialEq, Eq)]
pub struct VtableDef {
    /// The declaration's annotations, carried over.
    pub attrs: Vec<String>,
    /// The declaration's visibility.
    pub vis: String,
    /// The declaration's name.
    pub name: String,
    /// One field per declared method, in declaration order.
    pub fields: Vec<FieldDef>,
}

/// What a generated aggregate says.
pub struct DefSpec {
    pub attrs: Seq<Seq<char>>,
    pub vis: Seq<char>,
    pub name: Seq<char>,
    pub fields: Seq<FieldSpec>,
}

impl View for VtableDef {
    type V = DefSpec;

    open spec fn view(&self) -> DefSpec {
        DefSpec {
            attrs: texts(self.attrs@),
            vis: self.vis@,
            name: self.name@,
            fields: Seq::new(self.fields@.len(), |i: int| self.fields@[i]@),
        }
    }
}

/// Why a declaration has no aggregate.
#[derive(Clone, Copy, Debug, PartialEq, Eq, Structural)]
pub enum DeclError {
    /// The method at this place is declared under a name that an earlier
    /// method has.
    RepeatedMethod(usize),
}

/// The object-pointer type a declaration configures: the one it names, or
/// else the library's handle to an object with the declared table.
pub open spec fn this_of(decl: DeclSpec) -> ThisSpec {
    match decl.this_type {
        Some(t) => ThisSpec::Named(t),
        None => ThisSpec::ObjectHandle(decl.name),
    }
}

/// The field generated for one method.
pub open spec fn field_of(method: MethodSpec, this: ThisSpec, conv: CallConv) -> FieldSpec {
    FieldSpec {
        attrs: method.attrs,
        vis: method.vis,
        name: method.name,
        conv,
        this,
        params: method.params,
        ret: method.ret,
    }
}

/// The aggregate a declaration stands for on a target.
pub open spec fn expansion(decl: DeclSpec, target: Target) -> DefSpec {
    DefSpec {
        attrs: decl.attrs,
        vis: decl.vis,
        name: decl.name,
        fields: Seq::new(
            decl.methods.len(),
            |i: int| field_of(decl.methods[i], this_of(decl), target.spec_call_conv()),
        ),
    }
}

/// A copy of a list of strings.
pub(crate) fn copy_texts(v: &Vec<String>) -> (r: Vec<String>)
    ensures
        texts(r@) == texts(v@),
{
    let mut r: Vec<String> = Vec::new();
    let mut i: usize = 0;
    while i < v.len()
        invariant
            i <= v.len(),
            r@.len() == i,
            forall|j: int| 0 <= j < i ==> r@[j]@ == v@[j]@,
        decreases v.len() - i,
    {
        r.push(v[i].clone());
        i += 1;
    }
    assert(texts(r@) =~= texts(v@));
    r
}

/// A copy of a string that may be absent.
fn copy_text(s: &Option<String>) -> (r: Option<String>)
    ensures
        text_of(r) == text_of(*s),
{
    match s {
        Some(t) => Some(t.clone()),
        None => None,
    }
}

impl ThisType {
    /// A copy of this type.
    fn copy(&self) -> (r: ThisType)
        ensures
            r@ == self@,
    {
        match self {
            ThisType::ObjectHandle(n) => ThisType::ObjectHandle(n.clone()),
            ThisType::Named(t) => ThisType::Named(t.clone()),
        }
    }
}

impl MethodDecl {
    /// The field generated for this method, with `this` as its first
    /// parameter's type and `conv` as its convention. Name, visibility,
    /// annotations, parameters and return type are carried over as written.
    pub fn to_field(&self, this: &ThisType, conv: CallConv) -> (field: FieldDef)
        ensures
            field@ == field_of(self@, this@, conv),
    {
        FieldDef {
            attrs: copy_texts(&self.attrs),
            vis: self.vis.clone(),
            name: self.name.clone(),
            conv,
            this: this.copy(),
            params: self.params.clone(),
            ret: copy_text(&self.ret),
        }
    }
}

impl VtableDecl {
    /// The type of the object pointer that this declaration configures.
    pub fn this_type(&self) -> (this: ThisType)
        ensures
            this@ == this_of(self@),
    {
        match &self.this_type {
            Some(t) => ThisType::Named(t.clone()),
            None => ThisType::ObjectHandle(self.name.clone()),
        }
    }

    /// The index of the first method that is declared under a name already
    /// taken, or `None` where all names differ. This only reports:
    /// `expand_checked` is what refuses such a declaration.
    pub fn repeated_method(&self) -> (found: Option<usize>)
        ensures
            match found {
                Some(i) => repeated_at(names(self.methods@), i as int) && forall|j: int|
                    0 <= j < i ==> !repeated_at(names(self.methods@), j),
                None => forall|j: int| !repeated_at(names(self.methods@), j),
            },
    {
        first_repeated(&self.methods)
    }

    /// Generates the aggregate for `target`, unless two methods share a name:
    /// an aggregate cannot have two fields of one name, so such a declaration
    /// is refused, with the place of the first method whose name is taken.
    pub fn expand_checked(&self, target: &Target) -> (made: Result<VtableDef, DeclError>)
        ensures
            match made {
                Ok(def) => {
                    &&& forall|j: int| !repeated_at(names(self.methods@), j)
                    &&& def@ == expansion(self@, *target)
                    &&& def.fields@.len() == self.methods@.len()
                },
                Err(DeclError::RepeatedMethod(i)) => {
                    &&& repeated_at(names(self.methods@), i as int)
                    &&& forall|j: int| 0 <= j < i ==> !repeated_at(names(self.methods@), j)
                },
            },
    {
        match self.repeated_method() {
            Some(i) => Err(DeclError::RepeatedMethod(i)),
            None => Ok(self.expand(target)),
        }
    }

    /// Generates the aggregate for `target` without looking at the names:
    /// one field per method, in declaration order, each with the configured
    /// object pointer first and the target's calling convention.
    pub fn expand(&self, target: &Target) -> (def: VtableDef)
        ensures
            def@ == expansion(self@, *target),
            def.fields@.len() == self.methods@.len(),
    {
        let this = self.this_type();
        let conv = target.call_conv();
        let mut fields: Vec<FieldDef> = Vec::new();
        let mut i: usize = 0;
        while i < self.methods.len()
            invariant
                i <= self.methods.len(),
                fields@.len() == i,
                this@ == this_of(self@),
                conv == target.spec_call_conv(),
                forall|j: int|
                    0 <= j < i ==> fields@[j]@ == field_of(self.methods@[j]@, this@, conv),
            decreases self.methods.len() - i,
        {
            fields.push(self.methods[i].to_field(&this, conv));
            i += 1;
        }
        let def = VtableDef {
            attrs: copy_texts(&self.attrs),
            vis: self.vis.clone(),
            name: self.name.clone(),
            fields,
        };
        assert(def@.fields =~= expansion(self@, *target).fields);
        def
    }
}

/// The generated aggregate has exactly as many fields as the declaration has
/// methods, in declaration order. Each field takes the configured object
/// pointer first, and carries its method's name, visibility, annotations,
/// parameters and return type unchanged.
pub proof fn lemma_expansion_shape(decl: DeclSpec, target: Target, i: int)
    requires
        0 <= i < decl.methods.len(),
    ensures
        expansion(decl, target).fields.len() == decl.methods.len(),
        expansion(decl, target).fields[i].name == decl.methods[i].name,
        expansion(decl, target).fields[i].this == this_of(decl),
        expansion(decl, target).fields[i].params == decl.methods[i].params,
        expansion(decl, target).fields[i].ret == decl.methods[i].ret,
        expansion(decl, target).fields[i].attrs == decl.methods[i].attrs,
        expansion(decl, target).fields[i].vis == decl.methods[i].vis,
{
}

/// The declaration that names no object-pointer type configures the
/// library's handle to its own table; one that names a type configures that
/// type.
pub proof fn lemma_configured_this(decl: DeclSpec)
    ensures
        decl.this_type is None ==> this_of(decl) == ThisSpec::ObjectHandle(decl.name),
        decl.this_type matches Some(t) ==> this_of(decl) == ThisSpec::Named(t),
{
}

/// Every generated field uses the per-register convention on 32-bit Windows
/// and the standard convention on every other target. The target alone
/// decides: the declaration has no say.
pub proof fn lemma_expansion_convention(decl: DeclSpec, target: Target, i: int)
    requires
        0 <= i < decl.methods.len(),
    ensures
        target.windows && target.x86 ==> expansion(decl, target).fields[i].conv
            == CallConv::Thiscall,
        !(target.windows && target.x86) ==> expansion(decl, target).fields[i].conv == CallConv::C,
{
}

} // verus!
