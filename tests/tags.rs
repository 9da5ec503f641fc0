use viewit::error::Error;
use viewit::info::{string_literal, struct_kind, tags_tokens, InfoField, InfoStruct};
use viewit::meta::{Lit, Meta, MetaPath, NestedMeta};
use viewit::reflect::{FieldInfo, StructInfo, Tags};
use viewit::tag_map::{decimal_text, literal_text, TagMap};

fn path(name: &str) -> MetaPath {
    MetaPath { text: name.to_string(), ident: Some(name.to_string()) }
}

fn pair(k: &str, v: Lit) -> NestedMeta {
    NestedMeta::Meta(Meta::NameValue(path(k), v))
}

fn pairs_of(t: &TagMap) -> Vec<(String, String)> {
    t.pairs()
}

fn owned(v: &[(&str, &str)]) -> Vec<(String, String)> {
    v.iter().map(|(a, b)| (a.to_string(), b.to_string())).collect()
}

#[test]
fn tags_keep_order_and_replace_in_place() {
    let items = vec![
        pair("a", Lit::Str("1".to_string())),
        NestedMeta::Meta(Meta::Path(path("flag"))),
        pair("b", Lit::Int("42".to_string())),
        pair("a", Lit::Str("2".to_string())),
    ];
    let t = TagMap::from_list(&items).unwrap();
    assert_eq!(pairs_of(&t), owned(&[("a", "2"), ("flag", "flag"), ("b", "42")]));
}

#[test]
fn nested_tags_become_json() {
    let inner = vec![pair("x", Lit::Str("q\"t".to_string())), pair("y", Lit::Bool(false))];
    let items = vec![NestedMeta::Meta(Meta::List(path("meta"), inner))];
    let t = TagMap::from_list(&items).unwrap();
    assert_eq!(pairs_of(&t), owned(&[("meta", "{\"x\":\"q\\\"t\",\"y\":\"false\"}")]));
}

#[test]
fn tag_errors() {
    let lit = vec![NestedMeta::Lit(Lit::Str("a".to_string()))];
    assert_eq!(TagMap::from_list(&lit).err(), Some(Error::UnsupportedLiteral));
    let p = MetaPath { text: "a::b".to_string(), ident: None };
    let not_ident = vec![pair("ok", Lit::Bool(true)), NestedMeta::Meta(Meta::Path(p))];
    assert_eq!(TagMap::from_list(&not_ident).err(), Some(Error::MissingIdent));
    let nested = vec![NestedMeta::Meta(Meta::List(path("m"), vec![NestedMeta::Lit(Lit::Byte(1))]))];
    assert_eq!(TagMap::from_list(&nested).err(), Some(Error::UnsupportedLiteral));
}

#[test]
fn literal_texts() {
    assert_eq!(literal_text(&Lit::Byte(0)), "0");
    assert_eq!(literal_text(&Lit::Byte(7)), "7");
    assert_eq!(literal_text(&Lit::Byte(42)), "42");
    assert_eq!(literal_text(&Lit::Byte(255)), "255");
    assert_eq!(literal_text(&Lit::Char('z')), "z");
    assert_eq!(literal_text(&Lit::Bool(true)), "true");
    assert_eq!(literal_text(&Lit::ByteStr(vec![104, 105, 0xff])), "hi\u{fffd}");
    assert_eq!(literal_text(&Lit::Float("1.5".to_string())), "1.5");
    assert_eq!(decimal_text(1203), "1203");
}

#[test]
fn empty_tag_map() {
    let t = TagMap::new();
    assert!(t.pairs().is_empty());
    assert_eq!(t.to_json(), Ok("{}".to_string()));
    assert_eq!(tags_tokens(&t), "");
}

#[test]
fn tags_as_tokens() {
    let items = vec![pair("k", Lit::Str("v\"".to_string())), pair("n", Lit::Int("1".to_string()))];
    let t = TagMap::from_list(&items).unwrap();
    assert_eq!(tags_tokens(&t), "(\"k\", \"v\\\"\"), (\"n\", \"1\")");
}

fn info_field(ident: Option<&str>, ty: &str) -> InfoField {
    InfoField { ident: ident.map(|s| s.to_string()), ty: ty.to_string(), vis: "pub".to_string(), tags: TagMap::new() }
}

#[test]
fn struct_metadata_text() {
    let st = InfoStruct {
        name: "P".to_string(),
        vis: "pub".to_string(),
        tags: TagMap::new(),
        impl_generics: String::new(),
        ty_generics: String::new(),
        where_clause: String::new(),
        fields: vec![info_field(None, "u8"), info_field(None, "bool")],
    };
    let want = "impl P  { pub const INFO: ::infoit::StructInfo = ::infoit::StructInfo { name: \"P\", fields: &[\
::infoit::FieldInfo { name: \"0\", ty: \"u8\", tags: ::infoit::Tags { tags: &[] }, vis: \"pub\", size: ::core::mem::size_of::<u8>(), }, \
::infoit::FieldInfo { name: \"1\", ty: \"bool\", tags: ::infoit::Tags { tags: &[] }, vis: \"pub\", size: ::core::mem::size_of::<bool>(), }\
], size: ::core::mem::size_of::<Self>(), tags: ::infoit::Tags { tags: &[] }, vis: \"pub\", ty: \"tuple\", }; }";
    assert_eq!(st.to_tokens(), want);
}

#[test]
fn struct_kinds() {
    assert_eq!(struct_kind(&vec![]), "unit");
    assert_eq!(struct_kind(&vec![info_field(Some("a"), "u8")]), "struct");
    assert_eq!(struct_kind(&vec![info_field(None, "u8")]), "tuple");
}

const PAIRS: &[(&str, &str)] = &[("a", "1"), ("b", "2"), ("a", "3")];

#[test]
fn runtime_tags() {
    let t = Tags::new(PAIRS);
    assert_eq!(t.get("a"), Some("1"));
    assert_eq!(t.get("b"), Some("2"));
    assert_eq!(t.get("c"), None);
    assert_eq!(t.keys(), vec!["a", "b", "a"]);
    assert_eq!(t.values(), vec!["1", "2", "3"]);
    assert_eq!(t.iter(), PAIRS.to_vec());
}

const FIELDS: &[FieldInfo] = &[FieldInfo { name: "x", ty: "u8", vis: "pub", tags: Tags { tags: &[] }, size: 1 }];

#[test]
fn runtime_info_getters() {
    let f = FIELDS[0];
    assert_eq!((f.name(), f.ty(), f.vis(), f.size()), ("x", "u8", "pub", 1));
    let s = StructInfo { name: "S", vis: "pub", fields: FIELDS, ty: "struct", size: 1, tags: f.tags() };
    assert_eq!((s.name(), s.vis(), s.ty(), s.size()), ("S", "pub", "struct", 1));
    assert_eq!(s.fields().len(), 1);
    assert!(s.tags().keys().is_empty());
}

#[test]
fn string_literals() {
    assert_eq!(string_literal("ab"), "\"ab\"");
    assert_eq!(string_literal(""), "\"\"");
    assert_eq!(string_literal("a\"b\\c"), "\"a\\\"b\\\\c\"");
    assert_eq!(string_literal("x\ny\0z\u{7f}\u{1f}"), "\"x\\u{a}y\\u{0}z\\u{7f}\\u{1f}\"");
    assert_eq!(string_literal("\u{e9}\u{2713}"), "\"\u{e9}\u{2713}\"");
}

#[test]
fn nested_tags_escape_control_characters() {
    let inner = vec![pair("k", Lit::Str("a\tb\u{1}\\".to_string()))];
    let items = vec![NestedMeta::Meta(Meta::List(path("m"), inner))];
    let t = TagMap::from_list(&items).unwrap();
    assert_eq!(pairs_of(&t), owned(&[("m", "{\"k\":\"a\\tb\\u0001\\\\\"}")]));
}
