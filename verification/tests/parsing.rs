use onionpack::args::parse_meta_args;
use onionpack::model::{Annotation, ArgToken, ErrorLocus, Field, GroupKey, MetaArg};
use onionpack::onion::{args_contain_none, find_attribute, generate_error, strip_dist,
    unpack_fields};
use onionpack::utils::{acc_get, generate_acc, merge_vals_to_vec, str_eq, unpack_derives};

fn ident(s: &str) -> ArgToken {
    ArgToken::Ident(s.to_string())
}

fn path(s: &str) -> MetaArg {
    MetaArg::Path(s.to_string())
}

fn group(s: &str, inner: &[&str]) -> MetaArg {
    MetaArg::Group(s.to_string(), inner.iter().map(|t| t.to_string()).collect())
}

#[test]
fn parses_empty_argument_list() {
    assert_eq!(parse_meta_args(&vec![]), Some(vec![]));
}

#[test]
fn parses_single_identifier() {
    assert_eq!(parse_meta_args(&vec![ident("none")]), Some(vec![path("none")]));
}

#[test]
fn parses_identifier_list_with_trailing_comma() {
    let toks = vec![ident("dto"), ArgToken::Comma, ident("entity"), ArgToken::Comma];
    assert_eq!(parse_meta_args(&toks), Some(vec![path("dto"), path("entity")]));
}

#[test]
fn parses_groups_and_paths_mixed() {
    let toks = vec![
        ident("all"),
        ArgToken::LParen,
        ident("Debug"),
        ArgToken::Comma,
        ident("Clone"),
        ArgToken::RParen,
        ArgToken::Comma,
        ident("extra"),
    ];
    assert_eq!(
        parse_meta_args(&toks),
        Some(vec![group("all", &["Debug", "Clone"]), path("extra")])
    );
}

#[test]
fn parses_empty_group() {
    let toks = vec![ident("dto"), ArgToken::LParen, ArgToken::RParen];
    assert_eq!(parse_meta_args(&toks), Some(vec![group("dto", &[])]));
}

#[test]
fn rejects_missing_separator() {
    let toks = vec![ident("dto"), ident("entity")];
    assert_eq!(parse_meta_args(&toks), None);
}

#[test]
fn rejects_unclosed_group() {
    let toks = vec![ident("dto"), ArgToken::LParen, ident("Debug")];
    assert_eq!(parse_meta_args(&toks), None);
}

#[test]
fn rejects_leading_comma_and_stray_tokens() {
    assert_eq!(parse_meta_args(&vec![ArgToken::Comma]), None);
    assert_eq!(parse_meta_args(&vec![ArgToken::Other]), None);
    assert_eq!(parse_meta_args(&vec![ident("a"), ArgToken::Other]), None);
    assert_eq!(parse_meta_args(&vec![ArgToken::LParen, ArgToken::RParen]), None);
}

#[test]
fn rejects_nested_group() {
    let toks = vec![
        ident("a"),
        ArgToken::LParen,
        ident("b"),
        ArgToken::LParen,
        ArgToken::RParen,
        ArgToken::RParen,
    ];
    assert_eq!(parse_meta_args(&toks), None);
}

#[test]
fn str_eq_compares_by_contents() {
    assert!(str_eq("scheme", "scheme"));
    assert!(!str_eq("scheme", "schema"));
    assert!(!str_eq("dto", "dtox"));
    assert!(str_eq("", ""));
}

#[test]
fn generate_acc_seeds_keys_in_order_with_empty_lists() {
    let acc: Vec<(GroupKey, Vec<String>)> =
        generate_acc(&vec![GroupKey::All, GroupKey::Dto]);
    assert_eq!(acc.len(), 2);
    assert_eq!(acc[0].0, GroupKey::All);
    assert_eq!(acc[1].0, GroupKey::Dto);
    assert!(acc[0].1.is_empty());
    assert!(acc[1].1.is_empty());
}

#[test]
fn acc_get_finds_first_entry_or_nothing() {
    let mut acc: Vec<(GroupKey, Vec<String>)> = generate_acc(&vec![GroupKey::Scheme]);
    acc[0].1.push("Debug".to_string());
    assert_eq!(acc_get(&acc, GroupKey::Scheme), Some(&vec!["Debug".to_string()]));
    assert_eq!(acc_get(&acc, GroupKey::Entity), None);
}

#[test]
fn merge_vals_to_vec_concatenates_in_order() {
    let acc: Vec<(GroupKey, Vec<String>)> = vec![
        (GroupKey::All, vec!["PartialEq".to_string(), "Eq".to_string()]),
        (GroupKey::Dto, vec!["Debug".to_string()]),
    ];
    let merged = merge_vals_to_vec(&acc, GroupKey::All, GroupKey::Dto);
    assert_eq!(merged, vec!["PartialEq", "Eq", "Debug"]);
    // A missing key contributes nothing.
    let only_all = merge_vals_to_vec(&acc, GroupKey::All, GroupKey::Scheme);
    assert_eq!(only_all, vec!["PartialEq", "Eq"]);
}

#[test]
fn unpack_derives_merges_all_into_each_variant() {
    let acc: Vec<(GroupKey, Vec<String>)> = vec![
        (GroupKey::All, vec!["Debug".to_string()]),
        (GroupKey::Scheme, vec!["Hash".to_string()]),
        (GroupKey::Dto, vec![]),
        (GroupKey::Entity, vec!["Clone".to_string()]),
    ];
    let (scheme, dto, entity) = unpack_derives(&acc);
    assert_eq!(scheme, vec!["Debug", "Hash"]);
    assert_eq!(dto, vec!["Debug"]);
    assert_eq!(entity, vec!["Debug", "Clone"]);
}

#[test]
fn find_attribute_returns_the_first_match_only() {
    let attrs = vec![
        Annotation { name: "serde".to_string(), args: vec![] },
        Annotation { name: "onion_dist".to_string(), args: vec![ident("dto")] },
        Annotation { name: "onion_dist".to_string(), args: vec![ident("none")] },
    ];
    let found = find_attribute("onion_dist", &attrs).unwrap();
    assert_eq!(found.args, vec![ident("dto")]);
    assert!(find_attribute("onion_derive", &attrs).is_none());
}

#[test]
fn args_contain_none_looks_at_head_names() {
    assert!(args_contain_none(&vec![path("dto"), path("none")]));
    assert!(!args_contain_none(&vec![path("dto"), path("entity")]));
    // A grouped item's head counts too.
    assert!(args_contain_none(&vec![group("none", &["x"])]));
}

#[test]
fn strip_dist_removes_every_distribution_annotation() {
    let f = Field {
        name: "a".to_string(),
        ty: "i32".to_string(),
        attrs: vec![
            Annotation { name: "onion_dist".to_string(), args: vec![ident("dto")] },
            Annotation { name: "serde".to_string(), args: vec![] },
            Annotation { name: "onion_dist".to_string(), args: vec![ident("none")] },
        ],
    };
    let stripped = strip_dist(&f);
    assert_eq!(stripped.name, "a");
    assert_eq!(stripped.ty, "i32");
    assert_eq!(stripped.attrs.len(), 1);
    assert_eq!(stripped.attrs[0].name, "serde");
}

#[test]
fn unpack_fields_returns_the_three_groups_in_order() {
    let fields = vec![
        Field { name: "a".to_string(), ty: "i32".to_string(), attrs: vec![] },
        Field {
            name: "b".to_string(),
            ty: "i32".to_string(),
            attrs: vec![Annotation { name: "onion_dist".to_string(), args: vec![ident("scheme")] }],
        },
    ];
    let acc = unpack_fields(&fields);
    assert_eq!(acc.len(), 3);
    assert_eq!(acc[0].0, GroupKey::Scheme);
    assert_eq!(acc[1].0, GroupKey::Dto);
    assert_eq!(acc[2].0, GroupKey::Entity);
    let names: Vec<&str> = acc[0].1.iter().map(|f| f.name.as_str()).collect();
    assert_eq!(names, vec!["a", "b"]);
    let dto_names: Vec<&str> = acc[1].1.iter().map(|f| f.name.as_str()).collect();
    assert_eq!(dto_names, vec!["a"]);
}

#[test]
fn generate_error_carries_message_and_locus() {
    let e = generate_error(ErrorLocus::StructName, "`OnionPack` works only with structs.");
    assert_eq!(e.message, "`OnionPack` works only with structs.");
    assert_eq!(e.locus, ErrorLocus::StructName);
}
