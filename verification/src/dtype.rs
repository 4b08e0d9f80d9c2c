//! Mapping from column data type names of the dataframe vocabulary
//! (`Int64`, `Utf8`, `Boolean`, ...) to the source text that generated code
//! uses for them: primitive field types, SQL row value expressions, and SQL
//! row read types.

use vstd::prelude::*;
use crate::text::str_eq;

verus! {

/// The primitive field type written for a column data type name.
/// Names outside the known vocabulary fall back to `i64`.
pub open spec fn dtype_text(dt: Seq<char>) -> Seq<char> {
    if dt == "Int64"@ {
        "i64"@
    } else if dt == "Int32"@ {
        "i32"@
    } else if dt == "Int16"@ {
        "i16"@
    } else if dt == "Int8"@ {
        "i8"@
    } else if dt == "UInt64"@ {
        "u64"@
    } else if dt == "UInt32"@ {
        "u32"@
    } else if dt == "UInt16"@ {
        "u16"@
    } else if dt == "UInt8"@ {
        "u8"@
    } else if dt == "Float64"@ {
        "f64"@
    } else if dt == "Float32"@ {
        "f32"@
    } else if dt == "Utf8"@ {
        "&'a str"@
    } else if dt == "String"@ {
        "&'a str"@
    } else if dt == "Boolean"@ {
        "bool"@
    } else if dt == "Binary"@ {
        "Vec<u8>"@
    } else {
        "i64"@
    }
}

/// Writes the primitive field type for a column data type name,
/// as [`dtype_text`] says.
pub fn ast_dtype(dt: &str) -> (r: String)
    ensures
        r@ == dtype_text(dt@),
{
    if str_eq(dt, "Int64") {
        "i64".to_owned()
    } else if str_eq(dt, "Int32") {
        "i32".to_owned()
    } else if str_eq(dt, "Int16") {
        "i16".to_owned()
    } else if str_eq(dt, "Int8") {
        "i8".to_owned()
    } else if str_eq(dt, "UInt64") {
        "u64".to_owned()
    } else if str_eq(dt, "UInt32") {
        "u32".to_owned()
    } else if str_eq(dt, "UInt16") {
        "u16".to_owned()
    } else if str_eq(dt, "UInt8") {
        "u8".to_owned()
    } else if str_eq(dt, "Float64") {
        "f64".to_owned()
    } else if str_eq(dt, "Float32") {
        "f32".to_owned()
    } else if str_eq(dt, "Utf8") {
        "&'a str".to_owned()
    } else if str_eq(dt, "String") {
        "&'a str".to_owned()
    } else if str_eq(dt, "Boolean") {
        "bool".to_owned()
    } else if str_eq(dt, "Binary") {
        "Vec<u8>".to_owned()
    } else {
        "i64".to_owned()
    }
}

/// The expression written for one member when a record is turned into a
/// vector of SQL values: the member itself, widened to `i64` or `f64` for
/// the narrower numeric columns, spelled as a `"T"` / `"F"` text for a
/// boolean column, and borrowed as a byte slice for a binary column.
pub open spec fn sqlite3_value_text(dt: Seq<char>, id: Seq<char>) -> Seq<char> {
    let fld = "self."@ + id;
    if dt == "Int32"@ || dt == "Int16"@ || dt == "Int8"@ || dt == "UInt64"@ || dt == "UInt32"@
        || dt == "UInt16"@ || dt == "UInt8"@ {
        "("@ + fld + " as i64)"@
    } else if dt == "Float32"@ {
        "("@ + fld + " as f64)"@
    } else if dt == "Boolean"@ {
        "(if "@ + fld + " {\"T\"} else {\"F\"})"@
    } else if dt == "Binary"@ {
        "(&"@ + fld + "[..])"@
    } else {
        fld
    }
}

/// Writes the SQL value expression for one member, as
/// [`sqlite3_value_text`] says.
pub fn ast_dtype_sqlite3_vec(dt: &str, id: &String) -> (r: String)
    ensures
        r@ == sqlite3_value_text(dt@, id@),
{
    let mut fld = "self.".to_owned();
    fld.append(id.as_str());
    if str_eq(dt, "Int32") || str_eq(dt, "Int16") || str_eq(dt, "Int8") || str_eq(dt, "UInt64")
        || str_eq(dt, "UInt32") || str_eq(dt, "UInt16") || str_eq(dt, "UInt8") {
        let mut r = "(".to_owned();
        r.append(fld.as_str());
        r.append(" as i64)");
        r
    } else if str_eq(dt, "Float32") {
        let mut r = "(".to_owned();
        r.append(fld.as_str());
        r.append(" as f64)");
        r
    } else if str_eq(dt, "Boolean") {
        let mut r = "(if ".to_owned();
        r.append(fld.as_str());
        r.append(" {\"T\"} else {\"F\"})");
        r
    } else if str_eq(dt, "Binary") {
        let mut r = "(&".to_owned();
        r.append(fld.as_str());
        r.append("[..])");
        r
    } else {
        fld
    }
}

/// The type a column is read back as from an SQL row, together with the
/// text appended to the read call to reach the member's own type: a cast
/// for the narrower numeric columns, a comparison with `"T"` for a boolean
/// column, and an owning copy for a binary column.
pub open spec fn sqlite3_col_text(dt: Seq<char>) -> (Seq<char>, Seq<char>) {
    if dt == "Int32"@ {
        ("i64"@, " as i32"@)
    } else if dt == "Int16"@ {
        ("i64"@, " as i16"@)
    } else if dt == "Int8"@ {
        ("i64"@, " as i8"@)
    } else if dt == "UInt64"@ {
        ("i64"@, " as u64"@)
    } else if dt == "UInt32"@ {
        ("i64"@, " as u32"@)
    } else if dt == "UInt16"@ {
        ("i64"@, " as u16"@)
    } else if dt == "UInt8"@ {
        ("i64"@, " as u8"@)
    } else if dt == "Float64"@ {
        ("f64"@, ""@)
    } else if dt == "Float32"@ {
        ("f64"@, " as f32"@)
    } else if dt == "Utf8"@ || dt == "String"@ {
        ("&'a str"@, ""@)
    } else if dt == "Boolean"@ {
        ("&'a str"@, " == \"T\""@)
    } else if dt == "Binary"@ {
        ("&[u8]"@, ".to_vec()"@)
    } else {
        ("i64"@, ""@)
    }
}

/// Writes the SQL row read type and conversion text for a column data type
/// name, as [`sqlite3_col_text`] says.
pub fn ast_dtype_sqlite3_col(dt: &str) -> (r: (String, String))
    ensures
        r.0@ == sqlite3_col_text(dt@).0,
        r.1@ == sqlite3_col_text(dt@).1,
{
    if str_eq(dt, "Int32") {
        ("i64".to_owned(), " as i32".to_owned())
    } else if str_eq(dt, "Int16") {
        ("i64".to_owned(), " as i16".to_owned())
    } else if str_eq(dt, "Int8") {
        ("i64".to_owned(), " as i8".to_owned())
    } else if str_eq(dt, "UInt64") {
        ("i64".to_owned(), " as u64".to_owned())
    } else if str_eq(dt, "UInt32") {
        ("i64".to_owned(), " as u32".to_owned())
    } else if str_eq(dt, "UInt16") {
        ("i64".to_owned(), " as u16".to_owned())
    } else if str_eq(dt, "UInt8") {
        ("i64".to_owned(), " as u8".to_owned())
    } else if str_eq(dt, "Float64") {
        ("f64".to_owned(), "".to_owned())
    } else if str_eq(dt, "Float32") {
        ("f64".to_owned(), " as f32".to_owned())
    } else if str_eq(dt, "Utf8") || str_eq(dt, "String") {
        ("&'a str".to_owned(), "".to_owned())
    } else if str_eq(dt, "Boolean") {
        ("&'a str".to_owned(), " == \"T\"".to_owned())
    } else if str_eq(dt, "Binary") {
        ("&[u8]".to_owned(), ".to_vec()".to_owned())
    } else {
        ("i64".to_owned(), "".to_owned())
    }
}

} // verus!
