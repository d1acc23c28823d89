use onionpack::model::{Annotation, ArgToken, ErrorLocus, Field, StructDef, StructShape};
use onionpack::onion::onionpack_impl;

fn ident(s: &str) -> ArgToken {
    ArgToken::Ident(s.to_string())
}

fn ann(name: &str, args: Vec<ArgToken>) -> Annotation {
    Annotation { name: name.to_string(), args }
}

fn field(name: &str, ty: &str, attrs: Vec<Annotation>) -> Field {
    Field { name: name.to_string(), ty: ty.to_string(), attrs }
}

fn sdef(name: &str, shape: StructShape, fields: Vec<Field>, attrs: Vec<Annotation>) -> StructDef {
    StructDef { name: name.to_string(), shape, fields, attrs }
}

fn field_names(fields: &[Field]) -> Vec<String> {
    fields.iter().map(|f| f.name.clone()).collect()
}

#[test]
fn plain_struct_generates_three_full_variants() {
    let input = sdef(
        "User",
        StructShape::Named,
        vec![
            field("name", "String", vec![]),
            field("password_hash", "String", vec![]),
            field("hidden_value", "u64", vec![]),
        ],
        vec![],
    );
    let (scheme, dto, entity) = onionpack_impl(&input).unwrap();
    assert_eq!(scheme.name, "UserScheme");
    assert_eq!(dto.name, "UserDto");
    assert_eq!(entity.name, "UserEntity");
    let expected = vec!["name", "password_hash", "hidden_value"];
    assert_eq!(field_names(&scheme.fields), expected);
    assert_eq!(field_names(&dto.fields), expected);
    assert_eq!(field_names(&entity.fields), expected);
    assert!(scheme.derives.is_empty());
    assert!(dto.derives.is_empty());
    assert!(entity.derives.is_empty());
}

#[test]
fn annotated_struct_distributes_fields_and_derives() {
    let derive_cfg = ann(
        "onion_derive",
        vec![
            ident("all"),
            ArgToken::LParen,
            ident("Debug"),
            ArgToken::RParen,
            ArgToken::Comma,
            ident("dto"),
            ArgToken::LParen,
            ident("PartialEq"),
            ArgToken::Comma,
            ident("Eq"),
            ArgToken::RParen,
            ArgToken::Comma,
            ident("entity"),
            ArgToken::LParen,
            ident("Clone"),
            ArgToken::RParen,
        ],
    );
    let input = sdef(
        "User",
        StructShape::Named,
        vec![
            field("name", "String", vec![]),
            field(
                "password_hash",
                "String",
                vec![ann("onion_dist", vec![ident("dto"), ArgToken::Comma, ident("entity")])],
            ),
            field("hidden_value", "u64", vec![ann("onion_dist", vec![ident("none")])]),
        ],
        vec![derive_cfg],
    );
    let (scheme, dto, entity) = onionpack_impl(&input).unwrap();
    assert_eq!(field_names(&scheme.fields), vec!["name"]);
    assert_eq!(field_names(&dto.fields), vec!["name", "password_hash"]);
    assert_eq!(field_names(&entity.fields), vec!["name", "password_hash"]);
    assert_eq!(scheme.derives, vec!["Debug"]);
    assert_eq!(dto.derives, vec!["Debug", "PartialEq", "Eq"]);
    assert_eq!(entity.derives, vec!["Debug", "Clone"]);
    // The clones in dto and entity carry no distribution annotation.
    assert!(dto.fields[1].attrs.is_empty());
    assert!(entity.fields[1].attrs.is_empty());
    // The unannotated field is passed through untouched.
    assert!(dto.fields[0].attrs.is_empty());
}

#[test]
fn unknown_derive_group_is_fatal_and_cites_the_name() {
    let input = sdef(
        "Anything",
        StructShape::Named,
        vec![field("x", "i32", vec![])],
        vec![ann(
            "onion_derive",
            vec![ident("foo"), ArgToken::LParen, ident("Debug"), ArgToken::RParen],
        )],
    );
    let err = onionpack_impl(&input).unwrap_err();
    assert_eq!(err.message, "Unknown field: foo");
    assert_eq!(err.locus, ErrorLocus::DeriveAnnotation);
}

#[test]
fn tuple_struct_is_rejected() {
    let input = sdef("Pair", StructShape::Tuple, vec![], vec![]);
    let err = onionpack_impl(&input).unwrap_err();
    assert_eq!(err.message, "`OnionPack` works only with structs.");
    assert_eq!(err.locus, ErrorLocus::StructName);
}

#[test]
fn enum_is_rejected() {
    let input = sdef("Choice", StructShape::Enumeration, vec![], vec![]);
    let err = onionpack_impl(&input).unwrap_err();
    assert_eq!(err.message, "`OnionPack` works only with structs.");
    assert_eq!(err.locus, ErrorLocus::StructName);
}

#[test]
fn unit_struct_and_union_are_rejected() {
    for shape in [StructShape::Unit, StructShape::Union] {
        let input = sdef("Odd", shape, vec![], vec![]);
        let err = onionpack_impl(&input).unwrap_err();
        assert_eq!(err.message, "`OnionPack` works only with structs.");
    }
}

#[test]
fn none_marked_field_appears_nowhere() {
    let input = sdef(
        "Secret",
        StructShape::Named,
        vec![
            field("a", "i32", vec![]),
            field("b", "i32", vec![ann("onion_dist", vec![ident("none")])]),
            field("c", "i32", vec![]),
        ],
        vec![],
    );
    let (scheme, dto, entity) = onionpack_impl(&input).unwrap();
    assert_eq!(field_names(&scheme.fields), vec!["a", "c"]);
    assert_eq!(field_names(&dto.fields), vec!["a", "c"]);
    assert_eq!(field_names(&entity.fields), vec!["a", "c"]);
}

#[test]
fn none_anywhere_in_the_list_excludes_the_field() {
    let input = sdef(
        "Secret",
        StructShape::Named,
        vec![field(
            "b",
            "i32",
            vec![ann("onion_dist", vec![ident("dto"), ArgToken::Comma, ident("none")])],
        )],
        vec![],
    );
    let (scheme, dto, entity) = onionpack_impl(&input).unwrap();
    assert!(scheme.fields.is_empty());
    assert!(dto.fields.is_empty());
    assert!(entity.fields.is_empty());
}

#[test]
fn unknown_distribution_group_is_silently_ignored() {
    let input = sdef(
        "Typo",
        StructShape::Named,
        vec![field("a", "i32", vec![ann("onion_dist", vec![ident("dtoo")])])],
        vec![],
    );
    let (scheme, dto, entity) = onionpack_impl(&input).unwrap();
    assert!(scheme.fields.is_empty());
    assert!(dto.fields.is_empty());
    assert!(entity.fields.is_empty());
}

#[test]
fn malformed_distribution_annotation_drops_the_field_silently() {
    let input = sdef(
        "Odd",
        StructShape::Named,
        vec![
            field("a", "i32", vec![ann("onion_dist", vec![ArgToken::Other])]),
            field("b", "i32", vec![]),
        ],
        vec![],
    );
    let (scheme, dto, entity) = onionpack_impl(&input).unwrap();
    assert_eq!(field_names(&scheme.fields), vec!["b"]);
    assert_eq!(field_names(&dto.fields), vec!["b"]);
    assert_eq!(field_names(&entity.fields), vec!["b"]);
}

#[test]
fn malformed_derive_annotation_is_fatal() {
    let input = sdef(
        "Odd",
        StructShape::Named,
        vec![field("a", "i32", vec![])],
        vec![ann("onion_derive", vec![ArgToken::Other])],
    );
    let err = onionpack_impl(&input).unwrap_err();
    assert_eq!(err.message, "malformed onion_derive arguments");
    assert_eq!(err.locus, ErrorLocus::DeriveAnnotation);
}

#[test]
fn repeated_distribution_group_duplicates_the_field() {
    let input = sdef(
        "Twice",
        StructShape::Named,
        vec![field(
            "a",
            "i32",
            vec![ann("onion_dist", vec![ident("dto"), ArgToken::Comma, ident("dto")])],
        )],
        vec![],
    );
    let (scheme, dto, entity) = onionpack_impl(&input).unwrap();
    assert!(scheme.fields.is_empty());
    assert_eq!(field_names(&dto.fields), vec!["a", "a"]);
    assert!(entity.fields.is_empty());
}

#[test]
fn derive_lists_accumulate_and_keep_duplicates() {
    let input = sdef(
        "Dup",
        StructShape::Named,
        vec![field("a", "i32", vec![])],
        vec![ann(
            "onion_derive",
            vec![
                ident("all"),
                ArgToken::LParen,
                ident("Debug"),
                ArgToken::RParen,
                ArgToken::Comma,
                ident("scheme"),
                ArgToken::LParen,
                ident("Debug"),
                ArgToken::RParen,
                ArgToken::Comma,
                ident("scheme"),
                ArgToken::LParen,
                ident("Hash"),
                ArgToken::RParen,
            ],
        )],
    );
    let (scheme, dto, entity) = onionpack_impl(&input).unwrap();
    assert_eq!(scheme.derives, vec!["Debug", "Debug", "Hash"]);
    assert_eq!(dto.derives, vec!["Debug"]);
    assert_eq!(entity.derives, vec!["Debug"]);
}

#[test]
fn other_annotations_survive_on_distributed_fields() {
    let keepme = ann("serde", vec![ident("skip")]);
    let input = sdef(
        "Keep",
        StructShape::Named,
        vec![field(
            "a",
            "i32",
            vec![keepme, ann("onion_dist", vec![ident("scheme")])],
        )],
        vec![],
    );
    let (scheme, dto, entity) = onionpack_impl(&input).unwrap();
    assert_eq!(scheme.fields.len(), 1);
    assert_eq!(scheme.fields[0].attrs.len(), 1);
    assert_eq!(scheme.fields[0].attrs[0].name, "serde");
    assert!(dto.fields.is_empty());
    assert!(entity.fields.is_empty());
}

#[test]
fn type_descriptor_is_passed_through_unchanged() {
    let input = sdef(
        "Holder",
        StructShape::Named,
        vec![field("xs", "Vec<Option<u8>>", vec![])],
        vec![],
    );
    let (scheme, _, _) = onionpack_impl(&input).unwrap();
    assert_eq!(scheme.fields[0].ty, "Vec<Option<u8>>");
}

#[test]
fn empty_struct_generates_three_empty_variants() {
    let input = sdef("Nothing", StructShape::Named, vec![], vec![]);
    let (scheme, dto, entity) = onionpack_impl(&input).unwrap();
    assert_eq!(scheme.name, "NothingScheme");
    assert!(scheme.fields.is_empty() && scheme.derives.is_empty());
    assert!(dto.fields.is_empty() && dto.derives.is_empty());
    assert!(entity.fields.is_empty() && entity.derives.is_empty());
}

#[test]
fn rerunning_on_identical_input_gives_identical_output() {
    let build = || {
        sdef(
            "User",
            StructShape::Named,
            vec![field(
                "password_hash",
                "String",
                vec![ann("onion_dist", vec![ident("dto")])],
            )],
            vec![ann(
                "onion_derive",
                vec![ident("all"), ArgToken::LParen, ident("Debug"), ArgToken::RParen],
            )],
        )
    };
    let first = onionpack_impl(&build()).unwrap();
    let second = onionpack_impl(&build()).unwrap();
    assert_eq!(first, second);
}
