use get_set::errors::ErrorKind;
use get_set::field::{Attr, FieldDesc, RecordDesc};
use get_set::generate::{Method, MethodBody, TypeRef};
use get_set::get_set;
use get_set::tokens::Tok;

fn w(s: &str) -> Tok {
    Tok::Word(s.to_string())
}

fn field(name: &str, ty: &str, attrs: Vec<Attr>) -> FieldDesc {
    FieldDesc { name: name.to_string(), ty: ty.to_string(), vis: "pub".to_string(), attrs }
}

fn get_attr(toks: Vec<Tok>) -> Attr {
    Attr { name: "get".to_string(), args: Some(toks) }
}

fn set_attr() -> Attr {
    Attr { name: "set".to_string(), args: None }
}

fn record(fields: Vec<FieldDesc>) -> RecordDesc {
    RecordDesc { name: "Widget".to_string(), fields }
}

#[test]
fn copy_accessor_is_plain_read() {
    let r = record(vec![field("count", "i64", vec![get_attr(vec![w("copy")])])]);
    let out = get_set(r).unwrap();
    assert_eq!(out.name, "Widget");
    assert_eq!(out.methods.len(), 1);
    let m = &out.methods[0];
    assert_eq!(m.name, "get_count");
    assert_eq!(m.vis, "pub");
    assert!(!m.mut_receiver);
    assert_eq!(m.param, None);
    assert_eq!(m.ret, Some(TypeRef::Named("i64".to_string())));
    assert_eq!(m.body, MethodBody::ReadField("count".to_string()));
}

#[test]
fn clone_accessor_duplicates() {
    let r = record(vec![field("label", "String", vec![get_attr(vec![w("clone")])])]);
    let out = get_set(r).unwrap();
    assert_eq!(out.methods.len(), 1);
    let m = &out.methods[0];
    assert_eq!(m.name, "get_label");
    assert_eq!(m.ret, Some(TypeRef::Named("String".to_string())));
    assert_eq!(m.body, MethodBody::CloneField("label".to_string()));
}

#[test]
fn copy_clone_conflict_both_orders() {
    let r1 = record(vec![field("x", "u8", vec![get_attr(vec![w("copy"), Tok::Comma, w("clone")])])]);
    let e1 = get_set(r1).unwrap_err();
    assert_eq!(e1.kind, ErrorKind::CopyCloneConflict);
    assert_eq!(e1.field, 0);
    let r2 = record(vec![field("x", "u8", vec![get_attr(vec![w("clone"), Tok::Comma, w("copy")])])]);
    let e2 = get_set(r2).unwrap_err();
    assert_eq!(e2.kind, ErrorKind::CopyCloneConflict);
    assert_eq!(
        e2.message(),
        "`copy` and `clone` can not be used simultaneously"
    );
}

#[test]
fn im_ref_repetition_rejected() {
    let toks = vec![
        w("im_ref"),
        Tok::Group(vec![w("T")]),
        Tok::Comma,
        w("im_ref"),
        Tok::Group(vec![w("U")]),
    ];
    let e = get_set(record(vec![field("x", "V", vec![get_attr(toks)])])).unwrap_err();
    assert_eq!(e.kind, ErrorKind::Repetition);
    assert_eq!(
        e.message(),
        "only `funky` can be present more than once, rest all attribute helpers can be present at most once"
    );
}

#[test]
fn funky_repetition_allowed() {
    let toks = vec![
        w("funky"),
        Tok::Group(vec![w("a"), Tok::PathSep, w("self"), Tok::RArrow, w("A")]),
        Tok::Comma,
        w("funky"),
        Tok::Group(vec![w("b"), Tok::PathSep, w("self"), Tok::RArrow, w("B")]),
    ];
    let out = get_set(record(vec![field("x", "V", vec![get_attr(toks)])])).unwrap();
    assert_eq!(out.methods.len(), 2);
    assert_eq!(out.methods[0].name, "get_a");
    assert_eq!(out.methods[1].name, "get_b");
    assert_eq!(out.methods[0].ret, Some(TypeRef::Toks(vec![w("A")])));
    assert_eq!(out.methods[1].ret, Some(TypeRef::Toks(vec![w("B")])));
}

#[test]
fn empty_directive_list_rejected() {
    let e = get_set(record(vec![field("x", "u8", vec![get_attr(vec![])])])).unwrap_err();
    assert_eq!(e.kind, ErrorKind::EmptyDirectiveList);
    assert_eq!(
        e.message(),
        "must specify a way to get the value from this field: `#[get(copy)]`, `#[get(clone)]`, `#[get(im_ref(..))]`, `#[get(mut_ref(..))]`, `#[get(funky(..))]`"
    );
}

#[test]
fn double_get_is_cardinality_error_before_parsing() {
    let f = field(
        "x",
        "u8",
        vec![
            get_attr(vec![w("this"), w("is"), w("nonsense")]),
            get_attr(vec![w("copy")]),
        ],
    );
    let e = get_set(record(vec![f])).unwrap_err();
    assert_eq!(e.kind, ErrorKind::GetSetCardinality);
    assert_eq!(e.message(), "`#[get]` and `#[set]` are allowed atmost once");
}

#[test]
fn double_set_is_cardinality_error() {
    let f = field("x", "u8", vec![set_attr(), set_attr()]);
    let e = get_set(record(vec![f])).unwrap_err();
    assert_eq!(e.kind, ErrorKind::GetSetCardinality);
}

#[test]
fn set_with_arguments_rejected() {
    let f = field(
        "x",
        "u8",
        vec![Attr { name: "set".to_string(), args: Some(vec![w("anything")]) }],
    );
    let e = get_set(record(vec![f])).unwrap_err();
    assert_eq!(e.kind, ErrorKind::SetArgument);
    assert_eq!(e.message(), "only `#[set]` supported");
}

#[test]
fn set_with_empty_arguments_rejected() {
    let f = field("x", "u8", vec![Attr { name: "set".to_string(), args: Some(vec![]) }]);
    let e = get_set(record(vec![f])).unwrap_err();
    assert_eq!(e.kind, ErrorKind::SetArgument);
}

#[test]
fn bare_set_yields_one_mutator() {
    let out = get_set(record(vec![field("x", "u8", vec![set_attr()])])).unwrap();
    assert_eq!(out.methods.len(), 1);
    let m = &out.methods[0];
    assert_eq!(m.name, "set_x");
    assert!(m.mut_receiver);
    assert_eq!(m.param, Some("u8".to_string()));
    assert_eq!(m.ret, None);
    assert_eq!(m.body, MethodBody::AssignField("x".to_string()));
}

#[test]
fn round_trip_count_field() {
    let f = field("count", "i64", vec![get_attr(vec![w("copy")]), set_attr()]);
    let out = get_set(record(vec![f])).unwrap();
    assert_eq!(out.methods.len(), 2);
    let getter = &out.methods[0];
    assert_eq!(getter.name, "get_count");
    assert!(!getter.mut_receiver);
    assert_eq!(getter.param, None);
    assert_eq!(getter.ret, Some(TypeRef::Named("i64".to_string())));
    assert_eq!(getter.body, MethodBody::ReadField("count".to_string()));
    let setter = &out.methods[1];
    assert_eq!(setter.name, "set_count");
    assert!(setter.mut_receiver);
    assert_eq!(setter.param, Some("i64".to_string()));
    assert_eq!(setter.ret, None);
    assert_eq!(setter.body, MethodBody::AssignField("count".to_string()));
}

#[test]
fn funky_first_item_accessor() {
    let inner = vec![
        w("first_item"),
        Tok::PathSep,
        w("self"),
        Tok::Other(".".to_string()),
        w("first"),
        Tok::Group(vec![]),
        Tok::Other(".".to_string()),
        w("copied"),
        Tok::Group(vec![]),
        Tok::RArrow,
        w("Option"),
        Tok::Other("<".to_string()),
        w("i32"),
        Tok::Other(">".to_string()),
    ];
    let f = field(
        "items",
        "Vec<i32>",
        vec![get_attr(vec![w("funky"), Tok::Group(inner)])],
    );
    let out = get_set(record(vec![f])).unwrap();
    assert_eq!(out.methods.len(), 1);
    let m = &out.methods[0];
    assert_eq!(m.name, "get_first_item");
    assert!(!m.mut_receiver);
    assert_eq!(
        m.ret,
        Some(TypeRef::Toks(vec![
            w("Option"),
            Tok::Other("<".to_string()),
            w("i32"),
            Tok::Other(">".to_string()),
        ]))
    );
    let expected_expr = vec![
        w("self"),
        Tok::Other(".".to_string()),
        w("first"),
        Tok::Group(vec![]),
        Tok::Other(".".to_string()),
        w("copied"),
        Tok::Group(vec![]),
    ];
    assert_eq!(
        m.body,
        MethodBody::FunkyEval {
            field: "items".to_string(),
            mutable: false,
            expr: expected_expr,
        }
    );
}

#[test]
fn methods_keep_field_order() {
    let fa = field("a", "u8", vec![get_attr(vec![w("copy")]), set_attr()]);
    let fb = field("b", "u16", vec![get_attr(vec![w("clone")]), set_attr()]);
    let out = get_set(record(vec![fa, fb])).unwrap();
    let names: Vec<&str> = out.methods.iter().map(|m: &Method| m.name.as_str()).collect();
    assert_eq!(names, vec!["get_a", "set_a", "get_b", "set_b"]);
}

#[test]
fn error_carries_index_of_offending_field() {
    let ok = field("a", "u8", vec![get_attr(vec![w("copy")])]);
    let bad = field("b", "u8", vec![get_attr(vec![])]);
    let e = get_set(record(vec![ok, bad])).unwrap_err();
    assert_eq!(e.kind, ErrorKind::EmptyDirectiveList);
    assert_eq!(e.field, 1);
}

#[test]
fn record_without_annotations_yields_nothing() {
    let out = get_set(record(vec![field("a", "u8", vec![]), field("b", "u8", vec![])])).unwrap();
    assert_eq!(out.methods.len(), 0);
    assert_eq!(out.name, "Widget");
}

#[test]
fn bare_get_annotation_rejected() {
    let f = field("x", "u8", vec![Attr { name: "get".to_string(), args: None }]);
    let e = get_set(record(vec![f])).unwrap_err();
    assert_eq!(e.kind, ErrorKind::GetMissingArgs);
}

#[test]
fn other_annotations_are_ignored() {
    let f = field(
        "x",
        "u8",
        vec![
            Attr { name: "serde".to_string(), args: Some(vec![w("skip")]) },
            get_attr(vec![w("copy")]),
        ],
    );
    let out = get_set(record(vec![f])).unwrap();
    assert_eq!(out.methods.len(), 1);
    assert_eq!(out.methods[0].name, "get_x");
}

#[test]
fn ref_accessors_take_annotation_types() {
    let toks = vec![
        w("im_ref"),
        Tok::Group(vec![Tok::Other("&".to_string()), w("str")]),
        Tok::Comma,
        w("mut_ref"),
        Tok::Group(vec![
            Tok::Other("&".to_string()),
            w("mut"),
            w("String"),
        ]),
    ];
    let out = get_set(record(vec![field("text", "String", vec![get_attr(toks)])])).unwrap();
    assert_eq!(out.methods.len(), 2);
    let r = &out.methods[0];
    assert_eq!(r.name, "get_text_ref");
    assert!(!r.mut_receiver);
    assert_eq!(
        r.ret,
        Some(TypeRef::Toks(vec![Tok::Other("&".to_string()), w("str")]))
    );
    assert_eq!(r.body, MethodBody::RefField("text".to_string()));
    let m = &out.methods[1];
    assert_eq!(m.name, "get_text_ref_mut");
    assert!(m.mut_receiver);
    assert_eq!(
        m.ret,
        Some(TypeRef::Toks(vec![
            Tok::Other("&".to_string()),
            w("mut"),
            w("String"),
        ]))
    );
    assert_eq!(m.body, MethodBody::MutRefField("text".to_string()));
}

#[test]
fn mut_funky_takes_mutable_receiver() {
    let inner = vec![
        w("bump"),
        Tok::PathSep,
        w("mut"),
        Tok::Other("*".to_string()),
        w("x"),
        Tok::RArrow,
        w("u8"),
    ];
    let f = field("x", "u8", vec![get_attr(vec![w("funky"), Tok::Group(inner)])]);
    let out = get_set(record(vec![f])).unwrap();
    let m = &out.methods[0];
    assert_eq!(m.name, "get_bump");
    assert!(m.mut_receiver);
    assert_eq!(
        m.body,
        MethodBody::FunkyEval {
            field: "x".to_string(),
            mutable: true,
            expr: vec![Tok::Other("*".to_string()), w("x")],
        }
    );
}

#[test]
fn unknown_directive_error_surfaces_through_pipeline() {
    let f = field("x", "u8", vec![get_attr(vec![w("borrow")])]);
    let e = get_set(record(vec![f])).unwrap_err();
    assert_eq!(e.kind, ErrorKind::UnknownDirective);
    assert_eq!(
        e.message(),
        "expected one of: `copy`, `clone`, `im_ref`, `mut_ref`, `funky`"
    );
}
