use rtti_derive::attrs::{filter_attr_rtti, parse_attr_hint, parse_attr_ignore, parse_lit};
use rtti_derive::layout::{compute_offsets, FieldLayout};
use rtti_derive::model::{Attr, AttrLit, AttrMeta, AttrNested, DeclVis};
use rtti_derive::visibility::{translate_visibility, VisSentinel};

fn rtti_list(items: Vec<AttrNested>) -> Attr {
    Attr {
        path: vec!["rtti".to_string()],
        meta: Some(AttrMeta::List("rtti".to_string(), items)),
    }
}

fn hint_item(t: &str) -> AttrNested {
    AttrNested::Meta(AttrMeta::NameValue("hint".to_string(), AttrLit::Str(t.to_string())))
}

fn ignore_item() -> AttrNested {
    AttrNested::Meta(AttrMeta::Word("ignore".to_string()))
}

#[test]
fn test_visibility_translation() {
    assert_eq!(translate_visibility(&DeclVis::Public), VisSentinel::Public);
    assert_eq!(translate_visibility(&DeclVis::Crate), VisSentinel::Crate);
    assert_eq!(translate_visibility(&DeclVis::Restricted), VisSentinel::Restricted);
    assert_eq!(translate_visibility(&DeclVis::Inherited), VisSentinel::Inherited);
    assert_eq!(translate_visibility(&DeclVis::Unrecognized), VisSentinel::Unknown);
}

#[test]
fn test_hint_order() {
    let attrs = vec![rtti_list(vec![hint_item("a"), hint_item("b")])];
    assert_eq!(parse_attr_hint(&attrs), vec!["a".to_string(), "b".to_string()]);
}

#[test]
fn test_hint_duplicates_preserved() {
    let attrs = vec![rtti_list(vec![hint_item("a"), hint_item("a")])];
    assert_eq!(parse_attr_hint(&attrs), vec!["a".to_string(), "a".to_string()]);
}

#[test]
fn test_hints_accumulate_across_attributes() {
    let attrs = vec![
        rtti_list(vec![hint_item("first")]),
        rtti_list(vec![ignore_item(), hint_item("second")]),
    ];
    assert_eq!(parse_attr_hint(&attrs), vec!["first".to_string(), "second".to_string()]);
}

#[test]
fn test_foreign_namespace_not_inspected() {
    let foreign = Attr {
        path: vec!["serde".to_string()],
        meta: Some(AttrMeta::List("serde".to_string(), vec![hint_item("x"), ignore_item()])),
    };
    let attrs = vec![foreign];
    assert_eq!(parse_attr_hint(&attrs), Vec::<String>::new());
    assert!(!parse_attr_ignore(&attrs));
}

#[test]
fn test_non_list_namespace_attr_dropped() {
    // `#[rtti = "x"]` and a malformed `#[rtti ...]` are silently dropped.
    let name_value = Attr {
        path: vec!["rtti".to_string()],
        meta: Some(AttrMeta::NameValue("rtti".to_string(), AttrLit::Str("x".to_string()))),
    };
    let malformed = Attr { path: vec!["rtti".to_string()], meta: None };
    let attrs = vec![name_value, malformed];
    assert_eq!(parse_attr_hint(&attrs), Vec::<String>::new());
    assert!(!parse_attr_ignore(&attrs));
}

#[test]
fn test_ignore_flag() {
    assert!(parse_attr_ignore(&vec![rtti_list(vec![ignore_item()])]));
    assert!(parse_attr_ignore(&vec![rtti_list(vec![ignore_item(), ignore_item()])]));
    assert!(!parse_attr_ignore(&vec![rtti_list(vec![hint_item("a")])]));
    assert!(!parse_attr_ignore(&Vec::new()));
}

#[test]
fn test_unrecognized_item_shape_ignored() {
    // A bare word other than `ignore`, and a bare literal, are extension
    // points: silently ignored.
    let attrs = vec![rtti_list(vec![
        AttrNested::Meta(AttrMeta::Word("future".to_string())),
        AttrNested::Lit(AttrLit::Str("loose".to_string())),
        hint_item("kept"),
    ])];
    assert_eq!(parse_attr_hint(&attrs), vec!["kept".to_string()]);
    assert!(!parse_attr_ignore(&attrs));
}

#[test]
fn test_filter_attr_rtti() {
    let a = rtti_list(vec![hint_item("a")]);
    assert_eq!(filter_attr_rtti(&a).map(|v| v.len()), Some(1));
    let other = Attr {
        path: vec!["derive".to_string()],
        meta: Some(AttrMeta::List("derive".to_string(), vec![])),
    };
    assert!(filter_attr_rtti(&other).is_none());
    let two_segments = Attr {
        path: vec!["rtti".to_string(), "extra".to_string()],
        meta: Some(AttrMeta::List("rtti".to_string(), vec![])),
    };
    assert!(filter_attr_rtti(&two_segments).is_none());
    let malformed = Attr { path: vec!["rtti".to_string()], meta: None };
    assert!(filter_attr_rtti(&malformed).is_none());
}

#[test]
fn test_parse_lit() {
    assert_eq!(parse_lit(&AttrLit::Str("s".to_string())), Some(&"s".to_string()));
    assert_eq!(parse_lit(&AttrLit::Other), None);
}

#[test]
fn test_offsets_cumulative() {
    let ls = vec![
        FieldLayout { size: 1, align: 1 },
        FieldLayout { size: 4, align: 4 },
        FieldLayout { size: 2, align: 2 },
    ];
    let (offs, total) = compute_offsets(&ls);
    assert_eq!(offs, vec![0, 4, 8]);
    assert_eq!(total, 12);
    for i in 1..offs.len() {
        assert!(offs[i - 1] <= offs[i]);
    }
    for i in 0..offs.len() {
        assert!(offs[i] + ls[i].size <= total);
        assert!(offs[i] < total);
        assert_eq!(offs[i] % ls[i].align, 0);
    }
}

#[test]
fn test_offsets_empty_layout() {
    let ls: Vec<FieldLayout> = Vec::new();
    let (offs, total) = compute_offsets(&ls);
    assert!(offs.is_empty());
    assert_eq!(total, 0);
}

#[test]
fn test_offsets_with_padding_and_tail_rounding() {
    // u8 then u32: the second field is pushed to its alignment; the total is
    // rounded up to the largest alignment.
    let ls = vec![FieldLayout { size: 1, align: 1 }, FieldLayout { size: 4, align: 4 }];
    let (offs, total) = compute_offsets(&ls);
    assert_eq!(offs, vec![0, 4]);
    assert_eq!(total, 8);
}
