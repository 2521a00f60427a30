use case_iterable::ast::{Expr, Ident, Path, Token, Type};

#[test]
fn identifier_keeps_its_text() {
    let id = Ident::new("Widget");
    assert_eq!(id.name, "Widget");
    let copy = id.clone();
    assert_eq!(copy.name, "Widget");
}

#[test]
fn paths_grow_segment_by_segment() {
    let mut path = Path::new();
    assert_eq!(path.segments.len(), 0);
    path.push(Ident::new("first"));
    path.push(Ident::new("second"));
    assert_eq!(path.segments.len(), 2);
    assert_eq!(path.segments[0].ident.name, "first");
    assert!(path.segments[0].generic.is_none());
    assert_eq!(path.segments[1].ident.name, "second");
    assert!(path.segments[1].generic.is_none());
}

#[test]
fn generic_segment_carries_its_argument() {
    let mut path = Path::new();
    path.push_generic(Ident::new("Wrapper"), Type::path_from_ident(Ident::new("Inner")));
    assert_eq!(path.segments.len(), 1);
    assert_eq!(path.segments[0].ident.name, "Wrapper");
    match &path.segments[0].generic {
        Some(ty) => {
            assert_eq!(ty.path.segments.len(), 1);
            assert_eq!(ty.path.segments[0].ident.name, "Inner");
        },
        None => panic!("the segment should carry its generic argument"),
    }
}

#[test]
fn into_option_wraps_in_the_standard_optional_type() {
    let wrapped = Type::path_from_ident(Ident::new("Thing")).into_option();
    let segs = &wrapped.path.segments;
    assert_eq!(segs.len(), 3);
    assert_eq!(segs[0].ident.name, "std");
    assert_eq!(segs[1].ident.name, "option");
    assert_eq!(segs[2].ident.name, "Option");
    match &segs[2].generic {
        Some(inner) => assert_eq!(inner.path.segments[0].ident.name, "Thing"),
        None => panic!("the optional type should carry its argument"),
    }
}

#[test]
fn expressions_are_built_from_parts() {
    let path_expr = Expr::path(Path::with_ident(Ident::new("value")));
    match &path_expr {
        Expr::Path(p) => assert_eq!(p.segments[0].ident.name, "value"),
        _ => panic!("a path expression was requested"),
    }

    let reference = Expr::reference(path_expr);
    match &reference {
        Expr::Reference(inner) => match inner.as_ref() {
            Expr::Path(p) => assert_eq!(p.segments[0].ident.name, "value"),
            _ => panic!("the reference should wrap the path expression"),
        },
        _ => panic!("a reference expression was requested"),
    }

    let tokens = Expr::tokens(vec![Token::Name(Ident::new("None"))]);
    match &tokens {
        Expr::Tokens(ts) => {
            assert_eq!(ts.len(), 1);
            match &ts[0] {
                Token::Name(id) => assert_eq!(id.name, "None"),
                _ => panic!("the one token should be a name"),
            }
        },
        _ => panic!("a token expression was requested"),
    }
}
