use rtti_derive::emit::impl_rtti;
use rtti_derive::extract::{extract, metadata, Records, ShapeError, TyDesc, TypeMeta};
use rtti_derive::layout::FieldLayout;
use rtti_derive::model::{
    Attr, AttrLit, AttrMeta, AttrNested, DeclVis, EnumVariant, NamedField, Shape, TypeDecl,
    UnnamedField, VariantField,
};
use rtti_derive::visibility::VisSentinel;

fn rtti_list(items: Vec<AttrNested>) -> Attr {
    Attr {
        path: vec!["rtti".to_string()],
        meta: Some(AttrMeta::List("rtti".to_string(), items)),
    }
}

fn hint_item(t: &str) -> AttrNested {
    AttrNested::Meta(AttrMeta::NameValue("hint".to_string(), AttrLit::Str(t.to_string())))
}

fn ignore_item() -> AttrNested {
    AttrNested::Meta(AttrMeta::Word("ignore".to_string()))
}

fn named_field(name: &str, vis: DeclVis, ty: &str, attrs: Vec<Attr>) -> NamedField {
    NamedField { name: name.to_string(), vis, ty: ty.to_string(), attrs }
}

fn decl(name: &str, vis: DeclVis, shape: Shape) -> TypeDecl {
    TypeDecl {
        name: name.to_string(),
        vis,
        impl_generics: String::new(),
        ty_generics: String::new(),
        where_clause: String::new(),
        shape,
    }
}

#[test]
fn test_record_count_and_order() {
    let shape = Shape::NamedStruct(vec![
        named_field("a", DeclVis::Public, "u8", vec![]),
        named_field("b", DeclVis::Inherited, "u16", vec![]),
        named_field("c", DeclVis::Crate, "u32", vec![]),
    ]);
    let d = decl("Three", DeclVis::Public, shape);
    let recs = match extract(&d) {
        Ok(Records::Struct(rs)) => rs,
        other => panic!("expected struct records, got {:?}", other),
    };
    assert_eq!(recs.len(), 3);
    assert_eq!(recs[0].name, Some("a".to_string()));
    assert_eq!(recs[1].name, Some("b".to_string()));
    assert_eq!(recs[2].name, Some("c".to_string()));
    assert_eq!(recs[1].vis, VisSentinel::Inherited);
    assert_eq!(recs[2].vis, VisSentinel::Crate);
}

#[test]
fn test_ignored_field_sentinel() {
    let shape = Shape::NamedStruct(vec![
        named_field("kept", DeclVis::Public, "i32", vec![]),
        named_field("hidden", DeclVis::Public, "NoCapability", vec![rtti_list(vec![
            ignore_item(),
        ])]),
    ]);
    let d = decl("Mixed", DeclVis::Public, shape);
    let recs = match extract(&d) {
        Ok(Records::Struct(rs)) => rs,
        other => panic!("expected struct records, got {:?}", other),
    };
    assert_eq!(recs[0].ty, TyDesc::Declared("i32".to_string()));
    assert_eq!(recs[1].ty, TyDesc::Ignored);
    // The declared type is still carried for layout purposes.
    assert_eq!(recs[1].decl_ty, "NoCapability".to_string());
}

#[test]
fn test_point_metadata() {
    // struct Point { pub x: i32, y: i32 } on a platform with 4-byte-aligned
    // 32-bit integers.
    let shape = Shape::NamedStruct(vec![
        named_field("x", DeclVis::Public, "i32", vec![]),
        named_field("y", DeclVis::Inherited, "i32", vec![]),
    ]);
    let d = decl("Point", DeclVis::Public, shape);
    let layouts = vec![FieldLayout { size: 4, align: 4 }, FieldLayout { size: 4, align: 4 }];
    let m = match metadata(&d, &layouts) {
        Ok(TypeMeta::Struct(m)) => m,
        other => panic!("expected struct metadata, got {:?}", other),
    };
    assert_eq!(m.name, "Point".to_string());
    assert_eq!(m.vis, VisSentinel::Public);
    assert_eq!(m.size, 8);
    assert_eq!(m.fields.len(), 2);
    assert_eq!(m.fields[0].name, Some("x".to_string()));
    assert_eq!(m.fields[0].vis, VisSentinel::Public);
    assert_eq!(m.fields[0].offset, 0);
    assert_eq!(m.fields[0].ty, TyDesc::Declared("i32".to_string()));
    assert_eq!(m.fields[1].name, Some("y".to_string()));
    assert_eq!(m.fields[1].vis, VisSentinel::Inherited);
    assert_eq!(m.fields[1].offset, 4);
    assert_eq!(m.fields[1].ty, TyDesc::Declared("i32".to_string()));
}

#[test]
fn test_tuple_metadata() {
    let shape = Shape::TupleStruct(vec![
        UnnamedField { index: 0, vis: DeclVis::Public, ty: "u8".to_string(), attrs: vec![] },
        UnnamedField { index: 1, vis: DeclVis::Inherited, ty: "u32".to_string(), attrs: vec![] },
    ]);
    let d = decl("Pair", DeclVis::Inherited, shape);
    let layouts = vec![FieldLayout { size: 1, align: 1 }, FieldLayout { size: 4, align: 4 }];
    let m = match metadata(&d, &layouts) {
        Ok(TypeMeta::Tuple(m)) => m,
        other => panic!("expected tuple metadata, got {:?}", other),
    };
    assert_eq!(m.vis, VisSentinel::Inherited);
    assert_eq!(m.size, 8);
    assert_eq!(m.fields[0].name, None);
    assert_eq!(m.fields[0].offset, 0);
    assert_eq!(m.fields[1].offset, 4);
}

#[test]
fn test_enum_variants() {
    // enum E { A, B(i32) }
    let shape = Shape::Enum(vec![
        EnumVariant { name: "A".to_string(), attrs: vec![], fields: vec![] },
        EnumVariant {
            name: "B".to_string(),
            attrs: vec![],
            fields: vec![VariantField { ty: "i32".to_string(), attrs: vec![] }],
        },
    ]);
    let d = decl("E", DeclVis::Public, shape);
    let m = match metadata(&d, &Vec::new()) {
        Ok(TypeMeta::Enum(m)) => m,
        other => panic!("expected enum metadata, got {:?}", other),
    };
    assert_eq!(m.name, "E".to_string());
    assert_eq!(m.variants.len(), 2);
    assert_eq!(m.variants[0].name, "A".to_string());
    assert!(m.variants[0].fields.is_empty());
    assert_eq!(m.variants[1].name, "B".to_string());
    assert_eq!(m.variants[1].fields.len(), 1);
    assert_eq!(m.variants[1].fields[0].name, None);
    assert_eq!(m.variants[1].fields[0].vis, VisSentinel::Public);
    assert_eq!(m.variants[1].fields[0].offset, 0);
    assert_eq!(m.variants[1].fields[0].ty, TyDesc::Declared("i32".to_string()));
}

#[test]
fn test_variant_hints_extracted() {
    let shape = Shape::Enum(vec![EnumVariant {
        name: "Tagged".to_string(),
        attrs: vec![rtti_list(vec![hint_item("variant-level")])],
        fields: vec![VariantField {
            ty: "u8".to_string(),
            attrs: vec![rtti_list(vec![hint_item("field-level")])],
        }],
    }]);
    let d = decl("Only", DeclVis::Public, shape);
    let recs = match extract(&d) {
        Ok(Records::Enum(vs)) => vs,
        other => panic!("expected enum records, got {:?}", other),
    };
    assert_eq!(recs[0].hints, vec!["variant-level".to_string()]);
    assert_eq!(recs[0].fields[0].hints, vec!["field-level".to_string()]);
}

#[test]
fn test_unit_struct_unsupported() {
    let d = decl("Unit", DeclVis::Public, Shape::UnitStruct);
    assert_eq!(extract(&d).unwrap_err(), ShapeError::UnitStruct);
    assert_eq!(impl_rtti(&d).unwrap_err(), ShapeError::UnitStruct);
    assert_eq!(metadata(&d, &Vec::new()).unwrap_err(), ShapeError::UnitStruct);
}

#[test]
fn test_union_unsupported() {
    let d = decl("U", DeclVis::Public, Shape::Union);
    assert_eq!(extract(&d).unwrap_err(), ShapeError::Union);
    assert_eq!(impl_rtti(&d).unwrap_err(), ShapeError::Union);
    assert_eq!(metadata(&d, &Vec::new()).unwrap_err(), ShapeError::Union);
}

#[test]
fn test_empty_named_struct_supported() {
    // `struct S {}` has named fields — zero of them — and is not a unit
    // struct: it generates an empty field list.
    let d = decl("S", DeclVis::Public, Shape::NamedStruct(vec![]));
    let recs = match extract(&d) {
        Ok(Records::Struct(rs)) => rs,
        other => panic!("expected struct records, got {:?}", other),
    };
    assert!(recs.is_empty());
    assert!(impl_rtti(&d).is_ok());
}

#[test]
fn test_empty_enum_supported() {
    let d = decl("Never", DeclVis::Public, Shape::Enum(vec![]));
    let m = match metadata(&d, &Vec::new()) {
        Ok(TypeMeta::Enum(m)) => m,
        other => panic!("expected enum metadata, got {:?}", other),
    };
    assert!(m.variants.is_empty());
}

#[test]
fn test_generation_idempotent() {
    let mk = || {
        decl(
            "Same",
            DeclVis::Public,
            Shape::NamedStruct(vec![named_field("f", DeclVis::Public, "u64", vec![rtti_list(
                vec![hint_item("h")],
            )])]),
        )
    };
    let first = impl_rtti(&mk()).unwrap();
    let second = impl_rtti(&mk()).unwrap();
    assert_eq!(first, second);
}

#[test]
fn test_generated_text_exact() {
    let shape = Shape::NamedStruct(vec![named_field("x", DeclVis::Public, "u8", vec![])]);
    let d = decl("P", DeclVis::Public, shape);
    let out = impl_rtti(&d).unwrap();
    let expected = [
        "#[allow(non_upper_case_globals, unused_mut)] const _IMPL_RTTI_FOR_P: () = { impl  rtti::RTTI for P   { fn rtti() -> rtti::Type { ",
        "rtti::Type::Struct(rtti::Struct { name: \"P\", vis: rtti::Visibility::Public, size: ::std::mem::size_of::<P >(), fields: { let mut fields = Vec::new(); let mut offset: usize = 0; ",
        "fields.push((\"x\", rtti::Field { vis: rtti::Visibility::Public, offset: { offset = (offset + ::std::mem::align_of::<u8>() - 1) / ::std::mem::align_of::<u8>() * ::std::mem::align_of::<u8>(); let o = offset; offset = offset + ::std::mem::size_of::<u8>(); o }, ty: <u8 as rtti::RTTI>::rtti(), hints: { let mut hints = Vec::new(); hints } })); ",
        "fields } })",
        " } } };",
    ]
    .concat();
    assert_eq!(out, expected);
}

#[test]
fn test_generated_text_ignored_field() {
    let shape = Shape::NamedStruct(vec![named_field(
        "secretive",
        DeclVis::Inherited,
        "NoCapability",
        vec![rtti_list(vec![ignore_item()])],
    )]);
    let d = decl("Holder", DeclVis::Public, shape);
    let out = impl_rtti(&d).unwrap();
    // The metadata query goes to the sentinel, never to the real type...
    assert!(out.contains("ty: <rtti::Ignored as rtti::RTTI>::rtti()"));
    // ...while the layout expression still measures the real declared type.
    assert!(out.contains("::std::mem::size_of::<NoCapability>()"));
}

#[test]
fn test_generated_text_escapes_hints() {
    let tricky = "a\"b\\";
    let shape = Shape::NamedStruct(vec![named_field("f", DeclVis::Public, "u8", vec![
        rtti_list(vec![hint_item(tricky)]),
    ])]);
    let d = decl("Esc", DeclVis::Public, shape);
    let out = impl_rtti(&d).unwrap();
    assert!(out.contains("hints.push(\"a\\\"b\\\\\"); "));
}

#[test]
fn test_generated_text_generics_preserved() {
    let shape = Shape::NamedStruct(vec![named_field("inner", DeclVis::Public, "T", vec![])]);
    let d = TypeDecl {
        name: "Wrap".to_string(),
        vis: DeclVis::Public,
        impl_generics: "<T: Clone>".to_string(),
        ty_generics: "<T>".to_string(),
        where_clause: "where T: Send".to_string(),
        shape,
    };
    let out = impl_rtti(&d).unwrap();
    assert!(out.contains("impl <T: Clone> rtti::RTTI for Wrap <T> where T: Send {"));
    assert!(out.contains("::std::mem::size_of::<Wrap <T>>()"));
}

#[test]
fn test_generated_enum_text() {
    let shape = Shape::Enum(vec![
        EnumVariant { name: "A".to_string(), attrs: vec![], fields: vec![] },
        EnumVariant {
            name: "B".to_string(),
            attrs: vec![],
            fields: vec![VariantField { ty: "i32".to_string(), attrs: vec![] }],
        },
    ]);
    let d = decl("E", DeclVis::Public, shape);
    let out = impl_rtti(&d).unwrap();
    assert!(out.contains("rtti::Type::Enum(rtti::Enum { name: \"E\""));
    assert!(out.contains("variants.push((\"A\", rtti::Variant {"));
    assert!(out.contains("variants.push((\"B\", rtti::Variant {"));
    assert!(out.contains(
        "fields.push(rtti::Field { vis: rtti::Visibility::Public, offset: 0, ty: <i32 as rtti::RTTI>::rtti()"
    ));
}

#[test]
fn test_generated_text_tokenizes() {
    let shape = Shape::NamedStruct(vec![
        named_field("x", DeclVis::Public, "i32", vec![]),
        named_field("y", DeclVis::Inherited, "i32", vec![rtti_list(vec![hint_item("why")])]),
    ]);
    let d = decl("Point", DeclVis::Public, shape);
    let out = impl_rtti(&d).unwrap();
    let parsed: Result<proc_macro2::TokenStream, _> = out.parse();
    assert!(parsed.is_ok());
}
