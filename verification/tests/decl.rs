use cppdvt::abi::{CallConv, Target};
use cppdvt::decl::{DeclError, FieldDef, MethodDecl, ThisType, VtableDecl, VtableDef};

fn method(attrs: &[&str], vis: &str, name: &str, params: &str, ret: Option<&str>) -> MethodDecl {
    MethodDecl {
        attrs: attrs.iter().map(|a| a.to_string()).collect(),
        vis: vis.to_string(),
        name: name.to_string(),
        params: params.to_string(),
        ret: ret.map(|r| r.to_string()),
    }
}

fn pet(this_type: Option<&str>) -> VtableDecl {
    VtableDecl {
        attrs: vec!["doc = \"VTable for `Pet`.\"".to_string(), "derive(Debug)".to_string()],
        vis: "pub".to_string(),
        name: "PetVt".to_string(),
        this_type: this_type.map(|t| t.to_string()),
        methods: vec![
            method(&["doc = \"Make the Pet speak.\""], "pub", "speak", "", Some("()")),
            method(&[], "pub", "kind", "", Some("PetKind")),
            method(&["cfg(not(windows))"], "", "curl", "outer_radius: u32", None),
        ],
    }
}

const LINUX: Target = Target { windows: false, x86: false };
const WIN32: Target = Target { windows: true, x86: true };

#[test]
fn expansion_has_one_field_per_method_in_order() {
    let decl = pet(None);
    let def = decl.expand(&LINUX);
    assert_eq!(def.fields.len(), 3);
    let names: Vec<&str> = def.fields.iter().map(|f| f.name.as_str()).collect();
    assert_eq!(names, vec!["speak", "kind", "curl"]);
}

#[test]
fn expansion_of_no_methods_has_no_fields() {
    let mut decl = pet(None);
    decl.methods.clear();
    let def = decl.expand(&LINUX);
    assert_eq!(def.fields.len(), 0);
    assert_eq!(def.name, "PetVt");
}

#[test]
fn expansion_is_exact() {
    let def = pet(None).expand(&LINUX);
    let this = ThisType::ObjectHandle("PetVt".to_string());
    let expected = VtableDef {
        attrs: vec!["doc = \"VTable for `Pet`.\"".to_string(), "derive(Debug)".to_string()],
        vis: "pub".to_string(),
        name: "PetVt".to_string(),
        fields: vec![
            FieldDef {
                attrs: vec!["doc = \"Make the Pet speak.\"".to_string()],
                vis: "pub".to_string(),
                name: "speak".to_string(),
                conv: CallConv::C,
                this: this.clone(),
                params: String::new(),
                ret: Some("()".to_string()),
            },
            FieldDef {
                attrs: vec![],
                vis: "pub".to_string(),
                name: "kind".to_string(),
                conv: CallConv::C,
                this: this.clone(),
                params: String::new(),
                ret: Some("PetKind".to_string()),
            },
            FieldDef {
                attrs: vec!["cfg(not(windows))".to_string()],
                vis: String::new(),
                name: "curl".to_string(),
                conv: CallConv::C,
                this: this.clone(),
                params: "outer_radius: u32".to_string(),
                ret: None,
            },
        ],
    };
    assert_eq!(def, expected);
}

#[test]
fn default_object_pointer_is_the_handle_to_the_declared_table() {
    let decl = pet(None);
    assert_eq!(decl.this_type(), ThisType::ObjectHandle("PetVt".to_string()));
    for field in decl.expand(&LINUX).fields {
        assert_eq!(field.this, ThisType::ObjectHandle("PetVt".to_string()));
    }
}

#[test]
fn named_object_pointer_is_used_in_every_field() {
    let decl = pet(Some("NonNull<Lizard>"));
    assert_eq!(decl.this_type(), ThisType::Named("NonNull<Lizard>".to_string()));
    for field in decl.expand(&LINUX).fields {
        assert_eq!(field.this, ThisType::Named("NonNull<Lizard>".to_string()));
    }
}

#[test]
fn fields_use_thiscall_on_32_bit_windows_only() {
    let decl = pet(None);
    for field in decl.expand(&WIN32).fields {
        assert_eq!(field.conv, CallConv::Thiscall);
    }
    for target in [
        LINUX,
        Target { windows: true, x86: false },
        Target { windows: false, x86: true },
    ] {
        for field in decl.expand(&target).fields {
            assert_eq!(field.conv, CallConv::C);
        }
    }
}

#[test]
fn method_annotations_reach_the_field() {
    let def = pet(None).expand(&WIN32);
    assert_eq!(def.fields[2].attrs, vec!["cfg(not(windows))".to_string()]);
    assert_eq!(def.fields[1].attrs, Vec::<String>::new());
}

#[test]
fn to_field_puts_the_object_pointer_first() {
    let m = method(&["inline"], "pub(crate)", "name", "buf: *mut u8, len: usize", Some("usize"));
    let field = m.to_field(&ThisType::Named("*mut Pet".to_string()), CallConv::Thiscall);
    assert_eq!(field.this, ThisType::Named("*mut Pet".to_string()));
    assert_eq!(field.conv, CallConv::Thiscall);
    assert_eq!(field.params, "buf: *mut u8, len: usize");
    assert_eq!(field.ret, Some("usize".to_string()));
    assert_eq!(field.vis, "pub(crate)");
    assert_eq!(field.name, "name");
    assert_eq!(field.attrs, vec!["inline".to_string()]);
}

#[test]
fn distinct_methods_are_not_repeated() {
    assert_eq!(pet(None).repeated_method(), None);
}

#[test]
fn second_use_of_a_name_is_reported() {
    let mut decl = pet(None);
    decl.methods.push(method(&[], "pub", "kind", "x: u8", None));
    decl.methods.push(method(&[], "pub", "speak", "", None));
    assert_eq!(decl.repeated_method(), Some(3));
}

#[test]
fn checked_expansion_refuses_a_repeated_method() {
    let mut decl = pet(None);
    decl.methods.push(method(&[], "pub", "kind", "x: u8", None));
    assert_eq!(decl.expand_checked(&LINUX), Err(DeclError::RepeatedMethod(3)));
    assert_eq!(decl.expand(&LINUX).fields.len(), 4);
}

#[test]
fn checked_expansion_of_distinct_methods_is_the_expansion() {
    let decl = pet(Some("NonNull<Lizard>"));
    assert_eq!(decl.expand_checked(&WIN32), Ok(decl.expand(&WIN32)));
    assert_eq!(decl.expand_checked(&WIN32).unwrap().fields.len(), 3);
}
