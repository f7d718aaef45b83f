use get_set::args::arg_types::GetArgs;
use get_set::args::funky::GetFunky;
use get_set::errors::ErrorKind;
use get_set::tokens::Tok;
use get_set::validate::validate_get_args;

fn word(s: &str) -> Tok {
    Tok::Word(s.to_string())
}

#[test]
fn parses_copy_and_clone() {
    let args = GetArgs::parse(vec![word("copy")]).unwrap();
    assert_eq!(args, vec![GetArgs::ByCopy]);
    let args = GetArgs::parse(vec![word("clone")]).unwrap();
    assert_eq!(args, vec![GetArgs::ByClone]);
}

#[test]
fn parses_empty_list() {
    let args = GetArgs::parse(vec![]).unwrap();
    assert_eq!(args, vec![]);
}

#[test]
fn parses_trailing_comma() {
    let args = GetArgs::parse(vec![word("copy"), Tok::Comma]).unwrap();
    assert_eq!(args, vec![GetArgs::ByCopy]);
}

#[test]
fn parses_ref_directives() {
    let toks = vec![
        word("im_ref"),
        Tok::Group(vec![Tok::Other("&".to_string()), word("str")]),
        Tok::Comma,
        word("mut_ref"),
        Tok::Group(vec![Tok::Other("&".to_string()), word("mut"), word("str")]),
    ];
    let args = GetArgs::parse(toks).unwrap();
    assert_eq!(
        args,
        vec![
            GetArgs::ImRef(vec![Tok::Other("&".to_string()), word("str")]),
            GetArgs::MutRef(vec![Tok::Other("&".to_string()), word("mut"), word("str")]),
        ]
    );
}

#[test]
fn unknown_directive_rejected() {
    let e = GetArgs::parse(vec![word("borrow")]).unwrap_err();
    assert_eq!(e, ErrorKind::UnknownDirective);
    let e = GetArgs::parse(vec![Tok::Comma]).unwrap_err();
    assert_eq!(e, ErrorKind::UnknownDirective);
}

#[test]
fn missing_parentheses_rejected() {
    let e = GetArgs::parse(vec![word("im_ref")]).unwrap_err();
    assert_eq!(e, ErrorKind::MissingParenArg);
    let e = GetArgs::parse(vec![word("mut_ref"), word("T")]).unwrap_err();
    assert_eq!(e, ErrorKind::MissingParenArg);
    let e = GetArgs::parse(vec![word("funky")]).unwrap_err();
    assert_eq!(e, ErrorKind::MissingParenArg);
}

#[test]
fn empty_type_argument_rejected() {
    let e = GetArgs::parse(vec![word("im_ref"), Tok::Group(vec![])]).unwrap_err();
    assert_eq!(e, ErrorKind::EmptyTypeArg);
}

#[test]
fn missing_comma_rejected() {
    let e = GetArgs::parse(vec![word("copy"), word("clone")]).unwrap_err();
    assert_eq!(e, ErrorKind::ExpectedComma);
}

#[test]
fn funky_happy_path() {
    let f = GetFunky::parse(vec![
        word("len"),
        Tok::PathSep,
        word("self"),
        Tok::Other(".".to_string()),
        word("len"),
        Tok::Group(vec![]),
        Tok::RArrow,
        word("usize"),
    ])
    .unwrap();
    assert_eq!(f.method_name, "len");
    assert!(!f.mut_get);
    assert_eq!(
        f.from,
        vec![
            word("self"),
            Tok::Other(".".to_string()),
            word("len"),
            Tok::Group(vec![]),
        ]
    );
    assert_eq!(f.ret_type, vec![word("usize")]);
}

#[test]
fn funky_mut_marker_sets_mutability() {
    let f = GetFunky::parse(vec![
        word("bump"),
        Tok::PathSep,
        word("mut"),
        word("self"),
        Tok::RArrow,
        word("u8"),
    ])
    .unwrap();
    assert!(f.mut_get);
    assert_eq!(f.from, vec![word("self")]);
}

#[test]
fn funky_arrow_inside_group_is_opaque() {
    let f = GetFunky::parse(vec![
        word("sel"),
        Tok::PathSep,
        word("f"),
        Tok::Group(vec![Tok::RArrow]),
        Tok::RArrow,
        word("T"),
    ])
    .unwrap();
    assert_eq!(f.from, vec![word("f"), Tok::Group(vec![Tok::RArrow])]);
    assert_eq!(f.ret_type, vec![word("T")]);
}

#[test]
fn funky_grammar_errors() {
    let e = GetFunky::parse(vec![]).unwrap_err();
    assert_eq!(e, ErrorKind::FunkyExpectedName);
    let e = GetFunky::parse(vec![Tok::PathSep]).unwrap_err();
    assert_eq!(e, ErrorKind::FunkyExpectedName);
    let e = GetFunky::parse(vec![word("a")]).unwrap_err();
    assert_eq!(e, ErrorKind::FunkyExpectedSeparator);
    let e = GetFunky::parse(vec![word("a"), word("b")]).unwrap_err();
    assert_eq!(e, ErrorKind::FunkyExpectedSeparator);
    let e = GetFunky::parse(vec![word("a"), Tok::PathSep]).unwrap_err();
    assert_eq!(e, ErrorKind::FunkyEmptyExpr);
    let e = GetFunky::parse(vec![word("a"), Tok::PathSep, Tok::RArrow, word("T")]).unwrap_err();
    assert_eq!(e, ErrorKind::FunkyEmptyExpr);
    let e = GetFunky::parse(vec![word("a"), Tok::PathSep, word("x")]).unwrap_err();
    assert_eq!(e, ErrorKind::FunkyExpectedArrow);
    let e =
        GetFunky::parse(vec![word("a"), Tok::PathSep, word("x"), Tok::RArrow]).unwrap_err();
    assert_eq!(e, ErrorKind::FunkyEmptyReturnType);
    let e = GetFunky::parse(vec![word("a"), Tok::PathSep, word("mut"), Tok::RArrow, word("T")])
        .unwrap_err();
    assert_eq!(e, ErrorKind::FunkyEmptyExpr);
}

#[test]
fn validator_counts_plain_kinds() {
    let none = validate_get_args(&vec![GetArgs::ByCopy]);
    assert_eq!(none, None);
    let e = validate_get_args(&vec![GetArgs::ByCopy, GetArgs::ByCopy]);
    assert_eq!(e, Some(ErrorKind::Repetition));
    let e = validate_get_args(&vec![GetArgs::ByCopy, GetArgs::ByClone]);
    assert_eq!(e, Some(ErrorKind::CopyCloneConflict));
    let e = validate_get_args(&vec![
        GetArgs::ByCopy,
        GetArgs::ImRef(vec![word("T")]),
        GetArgs::ByClone,
    ]);
    assert_eq!(e, Some(ErrorKind::CopyCloneConflict));
    let e = validate_get_args(&vec![]);
    assert_eq!(e, Some(ErrorKind::EmptyDirectiveList));
    let ok = validate_get_args(&vec![
        GetArgs::ByCopy,
        GetArgs::ImRef(vec![word("T")]),
        GetArgs::MutRef(vec![word("U")]),
    ]);
    assert_eq!(ok, None);
}

#[test]
fn copy_thrice_is_repetition_not_conflict() {
    let e = validate_get_args(&vec![GetArgs::ByCopy, GetArgs::ByCopy, GetArgs::ByCopy]);
    assert_eq!(e, Some(ErrorKind::Repetition));
}

#[test]
fn lone_comma_is_not_a_type() {
    let e = GetArgs::parse(vec![word("im_ref"), Tok::Group(vec![Tok::Comma])]).unwrap_err();
    assert_eq!(e, ErrorKind::UnexpectedToken);
}

#[test]
fn two_types_in_one_im_ref_rejected() {
    let e = GetArgs::parse(vec![
        word("im_ref"),
        Tok::Group(vec![word("Foo"), Tok::Comma, word("Bar")]),
    ])
    .unwrap_err();
    assert_eq!(e, ErrorKind::UnexpectedToken);
    let e = GetArgs::parse(vec![
        word("mut_ref"),
        Tok::Group(vec![word("Foo"), Tok::Comma, word("Bar")]),
    ])
    .unwrap_err();
    assert_eq!(e, ErrorKind::UnexpectedToken);
}

#[test]
fn generic_arguments_keep_their_commas() {
    let payload = || {
        vec![
            word("HashMap"),
            Tok::Other("<".to_string()),
            word("K"),
            Tok::Comma,
            word("V"),
            Tok::Other(">".to_string()),
        ]
    };
    let args = GetArgs::parse(vec![word("im_ref"), Tok::Group(payload())]).unwrap();
    assert_eq!(args, vec![GetArgs::ImRef(payload())]);
}

#[test]
fn funky_return_type_must_be_one_type() {
    let e = GetFunky::parse(vec![
        word("a"),
        Tok::PathSep,
        word("x"),
        Tok::RArrow,
        word("T"),
        Tok::Comma,
        word("U"),
    ])
    .unwrap_err();
    assert_eq!(e, ErrorKind::UnexpectedToken);
    let f = GetFunky::parse(vec![
        word("a"),
        Tok::PathSep,
        word("x"),
        Tok::RArrow,
        word("Result"),
        Tok::Other("<".to_string()),
        word("A"),
        Tok::Comma,
        word("B"),
        Tok::Other(">".to_string()),
    ])
    .unwrap();
    assert_eq!(f.ret_type.len(), 6);
}
