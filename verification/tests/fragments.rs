use iter_tuple::attr::AttrToken;
use iter_tuple::dtype::ast_dtype;
use iter_tuple::dtype::ast_dtype_sqlite3_col;
use iter_tuple::dtype::ast_dtype_sqlite3_vec;
use iter_tuple::members::from_tuple_members;
use iter_tuple::members::list_members;
use iter_tuple::members::sqlite3_cols;
use iter_tuple::members::sqlite3_vec;
use iter_tuple::members::str_members;
use iter_tuple::members::to_tuple_members;
use iter_tuple::members::type_cols;
use iter_tuple::members::type_members;
use iter_tuple::members::vec_cols;

fn names(ss: &[&str]) -> Vec<String> {
    ss.iter().map(|s| String::from(*s)).collect()
}

fn tok(s: &str) -> AttrToken {
    AttrToken::Word(String::from(s))
}

#[test]
fn dtype_primitives() {
    assert_eq!(ast_dtype("Int64"), "i64");
    assert_eq!(ast_dtype("Int32"), "i32");
    assert_eq!(ast_dtype("Int16"), "i16");
    assert_eq!(ast_dtype("Int8"), "i8");
    assert_eq!(ast_dtype("UInt64"), "u64");
    assert_eq!(ast_dtype("UInt32"), "u32");
    assert_eq!(ast_dtype("UInt16"), "u16");
    assert_eq!(ast_dtype("UInt8"), "u8");
    assert_eq!(ast_dtype("Float64"), "f64");
    assert_eq!(ast_dtype("Float32"), "f32");
    assert_eq!(ast_dtype("Utf8"), "&'a str");
    assert_eq!(ast_dtype("String"), "&'a str");
    assert_eq!(ast_dtype("Boolean"), "bool");
    assert_eq!(ast_dtype("Binary"), "Vec<u8>");
    assert_eq!(ast_dtype("Null"), "i64");
    assert_eq!(ast_dtype("Unknown"), "i64");
    assert_eq!(ast_dtype("Whatever"), "i64");
}

#[test]
fn dtype_sqlite3_values() {
    let m = String::from("x");
    assert_eq!(ast_dtype_sqlite3_vec("Int64", &m), "self.x");
    assert_eq!(ast_dtype_sqlite3_vec("Int32", &m), "(self.x as i64)");
    assert_eq!(ast_dtype_sqlite3_vec("UInt8", &m), "(self.x as i64)");
    assert_eq!(ast_dtype_sqlite3_vec("Float64", &m), "self.x");
    assert_eq!(ast_dtype_sqlite3_vec("Float32", &m), "(self.x as f64)");
    assert_eq!(ast_dtype_sqlite3_vec("Utf8", &m), "self.x");
    assert_eq!(ast_dtype_sqlite3_vec("Boolean", &m), "(if self.x {\"T\"} else {\"F\"})");
    assert_eq!(ast_dtype_sqlite3_vec("Binary", &m), "(&self.x[..])");
    assert_eq!(ast_dtype_sqlite3_vec("Null", &m), "self.x");
}

#[test]
fn dtype_sqlite3_columns() {
    assert_eq!(ast_dtype_sqlite3_col("Int64"), ("i64".to_string(), "".to_string()));
    assert_eq!(ast_dtype_sqlite3_col("Int16"), ("i64".to_string(), " as i16".to_string()));
    assert_eq!(ast_dtype_sqlite3_col("UInt64"), ("i64".to_string(), " as u64".to_string()));
    assert_eq!(ast_dtype_sqlite3_col("Float32"), ("f64".to_string(), " as f32".to_string()));
    assert_eq!(ast_dtype_sqlite3_col("Utf8"), ("&'a str".to_string(), "".to_string()));
    assert_eq!(ast_dtype_sqlite3_col("Boolean"), ("&'a str".to_string(), " == \"T\"".to_string()));
    assert_eq!(ast_dtype_sqlite3_col("Binary"), ("&[u8]".to_string(), ".to_vec()".to_string()));
    assert_eq!(ast_dtype_sqlite3_col("Unknown"), ("i64".to_string(), "".to_string()));
}

#[test]
fn member_vectors() {
    let mns = names(&["a", "b"]);
    let dts = names(&["Utf8", "Int64"]);
    assert_eq!(type_members(&dts), "vec![DataType::Utf8, DataType::Int64, ]");
    assert_eq!(str_members(&mns), "vec![stringify!(a), stringify!(b), ]");
    assert_eq!(
        list_members(&mns, &dts),
        "#[doc = \"\"] pub a: &'a str, #[doc = \"\"] pub b: i64, "
    );
    assert_eq!(from_tuple_members(&mns), "a: t.0, b: t.1, ");
    assert_eq!(to_tuple_members(&mns, &dts), "(self.a, self.b, )");
}

#[test]
fn extra_types_are_ignored() {
    let mns = names(&["a"]);
    let dts = names(&["Utf8", "Int64", "Boolean"]);
    assert_eq!(list_members(&mns, &dts), "#[doc = \"\"] pub a: &'a str, ");
    assert_eq!(to_tuple_members(&mns, &dts), "(self.a, )");
    assert_eq!(sqlite3_vec(&mns, &dts), "vec![(stringify!(\":a\"), self.a.into()), ]");
}

#[test]
fn member_vectors_empty() {
    let none: Vec<String> = vec![];
    assert_eq!(type_members(&none), "vec![]");
    assert_eq!(str_members(&none), "vec![]");
    assert_eq!(from_tuple_members(&none), "");
    assert_eq!(to_tuple_members(&none, &none), "()");
}

#[test]
fn binary_members_are_cloned() {
    let mns = names(&["a", "blob"]);
    let dts = names(&["Int64", "Binary"]);
    assert_eq!(to_tuple_members(&mns, &dts), "(self.a, self.blob.clone(), )");
}

#[test]
fn sqlite3_value_pairs() {
    let mns = names(&["a", "ok"]);
    let dts = names(&["Utf8", "Boolean"]);
    assert_eq!(
        sqlite3_vec(&mns, &dts),
        "vec![(stringify!(\":a\"), self.a.into()), (stringify!(\":ok\"), (if self.ok {\"T\"} else {\"F\"}).into()), ]"
    );
}

#[test]
fn flat_type_columns() {
    let attr = vec![tok("Utf8"), AttrToken::Sep, tok("Int64")];
    assert_eq!(type_cols(&attr), "vec![DataType::Utf8, DataType::Int64, ]");
}

#[test]
fn flat_value_columns() {
    let attr = vec![tok("Utf8"), AttrToken::Sep, tok("Binary"), AttrToken::Sep, tok("Int64")];
    let (text, n) = vec_cols(&attr);
    assert_eq!(n, 3);
    assert_eq!(
        text,
        "let v = vec![to_any!(t.0, DataType::Utf8), to_any!(t.1, DataType::BinaryOwned), to_any!(t.2, DataType::Int64), ];"
    );
}

#[test]
fn flat_row_columns() {
    let attr = vec![tok("Utf8"), AttrToken::Sep, tok("Boolean"), AttrToken::Sep, tok("UInt32")];
    let (text, n) = sqlite3_cols(&attr);
    assert_eq!(n, 3);
    assert_eq!(
        text,
        "(row.read::<&'a str, _>(0), row.read::<&'a str, _>(1) == \"T\", row.read::<i64, _>(2) as u32, )"
    );
}
