use case_iterable::ast::Ident;
use case_iterable::cases::VariantList;
use case_iterable::input::{analyze, Data, DeriveInput, Fields, Variant};

fn unit_variant(name: &str) -> Variant {
    Variant { ident: Ident::new(name), fields: Fields::Unit }
}

fn collect_all(list: &VariantList) -> Vec<String> {
    let mut seq = list.all_cases();
    let mut collected: Vec<String> = Vec::new();
    while let Some(i) = seq.advance() {
        collected.push(list.name(i).name.clone());
    }
    collected
}

#[test]
fn test_expand() {
    let input = DeriveInput {
        ident: Ident::new("TestEnum"),
        data: Data::Enum(vec![unit_variant("A"), unit_variant("B"), unit_variant("C")]),
    };
    let list = match analyze(&input) {
        Ok(list) => list,
        Err(_) => panic!("accepted input was rejected"),
    };

    match list.successor(0) {
        Some(id) => assert_eq!(id.name, "B"),
        None => panic!("successor of A should be present"),
    }
    match list.successor(1) {
        Some(id) => assert_eq!(id.name, "C"),
        None => panic!("successor of B should be present"),
    }
    assert!(list.successor(2).is_none());

    let cases = collect_all(&list);
    assert_eq!(cases.len(), 3);
    assert_eq!(cases[0], "A");
    assert_eq!(cases[1], "B");
    assert_eq!(cases[2], "C");
}
