use iter_tuple::attr::AliasType;
use iter_tuple::attr::AttrToken;
use iter_tuple::attr::DeriveError;
use iter_tuple::attr::LeafToken;
use iter_tuple::attr::TypeAlias;
use iter_tuple::expand::struct_derive;
use iter_tuple::expand::tuple_derive;
use iter_tuple::expand::tuple_sqlite3;

fn word(s: &str) -> LeafToken {
    LeafToken::Word(String::from(s))
}

fn tok(s: &str) -> AttrToken {
    AttrToken::Word(String::from(s))
}

fn tuple_alias(name: &str, n: usize) -> TypeAlias {
    TypeAlias { ident: String::from(name), ty: AliasType::Tuple(n) }
}

fn pair_attr() -> Vec<AttrToken> {
    vec![
        AttrToken::Group(vec![word("a"), LeafToken::Sep, word("b")]),
        AttrToken::Sep,
        AttrToken::Group(vec![word("Utf8"), LeafToken::Sep, word("Int64")]),
    ]
}

#[test]
fn test_iter_tuple() {
    assert_eq!(true, true);
}

#[test]
fn struct_derive_pair() {
    let generated = struct_derive(&pair_attr(), &tuple_alias("Tpl", 2)).unwrap();
    let expected = format!(
        "{}{}{}",
        "#[doc = \"\"] pub struct StTpl<'a> { #[doc = \"\"] pub a: &'a str, \
         #[doc = \"\"] pub b: i64, } #[doc = \"\"] impl<'a> StTpl<'a> { \
         #[doc = \"\"] pub fn members() -> Vec<&'a str> { vec![stringify!(a), stringify!(b), ] } \
         #[doc = \"\"] pub fn types() -> Vec<DataType> { vec![DataType::Utf8, DataType::Int64, ] } \
         #[doc = \"\"] pub fn to_tpl(&self) -> Tpl<'_> { (self.a, self.b, ) } } ",
        "#[doc = \"\"] impl<'a> IntoAnyValueVec<'a> for StTpl<'a> { \
         #[doc = \"\"] fn into_vec(self) -> Vec<AnyValue<'a>> { \
         RecTpl::from((self.a, self.b, )).v } } \
         #[doc = \"\"] impl<'a> ToSqlite3ValueVec for StTpl<'a> { \
         #[doc = \"\"] fn to_sqlite3_vec(&self) -> Vec<(&'_ str, sqlite::Value)> { \
         vec![(stringify!(\":a\"), self.a.into()), (stringify!(\":b\"), self.b.into()), ] } } ",
        "#[doc = \"\"] impl<'a> From<Tpl<'a>> for StTpl<'a> { \
         #[doc = \"\"] fn from(t: Tpl<'a>) -> StTpl<'_> { \
         StTpl { a: t.0, b: t.1, } } } \
         #[doc = \"\"] impl<'a> From<&'a sqlite::Row> for StTpl<'a> { \
         #[doc = \"\"] fn from(row: &'a sqlite::Row) -> StTpl<'_> { StTpl::from(to_tpl(row)) } }"
    );
    assert_eq!(generated, expected);
}

#[test]
fn struct_derive_refuses_unequal_groups() {
    let attr = vec![
        AttrToken::Group(vec![word("a"), LeafToken::Sep, word("b")]),
        AttrToken::Group(vec![word("Utf8")]),
    ];
    assert_eq!(struct_derive(&attr, &tuple_alias("Tpl", 2)), Err(DeriveError::LengthMismatch));
}

#[test]
fn struct_derive_refuses_non_tuple() {
    let alias = TypeAlias { ident: String::from("Tpl"), ty: AliasType::Other };
    assert_eq!(struct_derive(&pair_attr(), &alias), Err(DeriveError::NotTuple));
}

#[test]
fn struct_derive_refuses_wrong_arity() {
    assert_eq!(struct_derive(&pair_attr(), &tuple_alias("Tpl", 3)), Err(DeriveError::ArityMismatch));
}

#[test]
fn tuple_sqlite3_pair() {
    let attr = vec![tok("Utf8"), AttrToken::Sep, tok("Int64")];
    let generated = tuple_sqlite3(&attr, &tuple_alias("Tpl", 2)).unwrap();
    let expected = "#[doc = \"\"] pub fn to_tpl<'a>(row: &'a sqlite::Row) -> Tpl<'_> { \
                    (row.read::<&'a str, _>(0), row.read::<i64, _>(1), ) } \
                    #[doc = \"\"] impl<'a> From<&'a sqlite::Row> for RecTpl<'a> { \
                    #[doc = \"\"] fn from(row: &'a sqlite::Row) -> RecTpl<'_> { \
                    RecTpl::from(to_tpl(row)) } }";
    assert_eq!(generated, expected);
}

#[test]
fn tuple_sqlite3_refuses_wrong_arity() {
    let attr = vec![tok("Utf8"), AttrToken::Sep, tok("Int64")];
    assert_eq!(tuple_sqlite3(&attr, &tuple_alias("Tpl", 3)), Err(DeriveError::ArityMismatch));
}

#[test]
fn tuple_sqlite3_refuses_non_tuple() {
    let attr = vec![tok("Utf8")];
    let alias = TypeAlias { ident: String::from("Tpl"), ty: AliasType::Other };
    assert_eq!(tuple_sqlite3(&attr, &alias), Err(DeriveError::NotTuple));
}

#[test]
fn tuple_derive_pair() {
    let attr = vec![tok("Utf8"), AttrToken::Sep, tok("Int64")];
    let generated = tuple_derive(&attr, &tuple_alias("Tpl", 2)).unwrap();
    let expected = format!(
        "{}{}",
        "#[doc = \"\"] pub struct RecTpl<'a> { #[doc = \"\"] pub v: Vec<AnyValue<'a>> } \
         #[doc = \"\"] impl<'a> IntoIterator for RecTpl<'a> { \
         #[doc = \"\"] type Item = AnyValue<'a>; \
         #[doc = \"\"] type IntoIter = std::vec::IntoIter<Self::Item>; \
         #[doc = \"\"] fn into_iter(self) -> Self::IntoIter { self.v.into_iter() } } ",
        "#[doc = \"\"] impl<'a> From<Tpl<'a>> for RecTpl<'a> { \
         #[doc = \"\"] fn from(t: Tpl<'a>) -> RecTpl<'_> { \
         let v = vec![to_any!(t.0, DataType::Utf8), to_any!(t.1, DataType::Int64), ]; \
         RecTpl { v } } } \
         #[doc = \"\"] impl<'a> RecTpl<'a> { #[doc = \"\"] pub fn types() -> Vec<DataType> { \
         vec![DataType::Utf8, DataType::Int64, ] } \
         #[doc = \"\"] pub fn into_iter(t: Tpl<'a>) -> std::vec::IntoIter<AnyValue<'_>> { \
         RecTpl::from(t).into_iter() } }"
    );
    assert_eq!(generated, expected);
}

#[test]
fn tuple_derive_refuses_wrong_arity() {
    let attr = vec![tok("Utf8")];
    assert_eq!(tuple_derive(&attr, &tuple_alias("Tpl", 2)), Err(DeriveError::ArityMismatch));
}

#[test]
fn tuple_derive_binary_column() {
    let attr = vec![tok("Binary")];
    let generated = tuple_derive(&attr, &tuple_alias("Bin", 1)).unwrap();
    assert!(generated.contains("let v = vec![to_any!(t.0, DataType::BinaryOwned), ];"));
    assert!(generated.contains("#[doc = \"\"] pub struct RecBin<'a>"));
}
