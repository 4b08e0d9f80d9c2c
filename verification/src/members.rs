//! The member-list fragments of the generated code: field declarations,
//! name and type vectors, tuple conversions, and SQL row readers and
//! writers, each built by walking the parsed member names and column data
//! type names.

use vstd::prelude::*;
use crate::attr::AttrToken;
use crate::dtype::ast_dtype;
use crate::dtype::ast_dtype_sqlite3_col;
use crate::dtype::ast_dtype_sqlite3_vec;
use crate::dtype::dtype_text;
use crate::dtype::sqlite3_col_text;
use crate::dtype::sqlite3_value_text;
use crate::text::decimal;
use crate::text::pre_ast_literal;
use crate::text::pre_ast_usize;
use crate::text::quoted;
use crate::text::str_eq;

verus! {

/// How many of the first `k` top-level tokens are identifier words.
pub open spec fn word_count(ts: Seq<AttrToken>, k: int) -> int
    decreases k,
{
    if k <= 0 {
        0
    } else {
        word_count(ts, k - 1) + (if ts[k - 1] is Word {
            1int
        } else {
            0int
        })
    }
}

/// The elements of the generated `DataType` vector, one per column data
/// type name.
pub open spec fn type_members_items(dts: Seq<String>, k: int) -> Seq<char>
    decreases k,
{
    if k <= 0 {
        Seq::empty()
    } else {
        type_members_items(dts, k - 1) + "DataType::"@ + dts[k - 1]@ + ", "@
    }
}

/// The generated `DataType` vector for the column data type names.
pub open spec fn type_members_text(dts: Seq<String>) -> Seq<char> {
    "vec!["@ + type_members_items(dts, dts.len() as int) + "]"@
}

/// Writes the vector of `DataType` values for the columns, as
/// [`type_members_text`] says.
pub fn type_members(dts: &Vec<String>) -> (r: String)
    ensures
        r@ == type_members_text(dts@),
{
    let mut items = String::new();
    let mut i: usize = 0;
    while i < dts.len()
        invariant
            i <= dts@.len(),
            items@ == type_members_items(dts@, i as int),
        decreases dts@.len() - i,
    {
        let dt = &dts[i];
        items.append("DataType::");
        items.append(dt.as_str());
        items.append(", ");
        i += 1;
    }
    let mut r = "vec![".to_owned();
    r.append(items.as_str());
    r.append("]");
    r
}

/// The elements of the generated member name vector, each member name
/// under `stringify!`.
pub open spec fn str_members_items(mns: Seq<String>, k: int) -> Seq<char>
    decreases k,
{
    if k <= 0 {
        Seq::empty()
    } else {
        str_members_items(mns, k - 1) + "stringify!("@ + mns[k - 1]@ + "), "@
    }
}

/// The generated member name vector.
pub open spec fn str_members_text(mns: Seq<String>) -> Seq<char> {
    "vec!["@ + str_members_items(mns, mns.len() as int) + "]"@
}

/// Writes the vector of member names, as [`str_members_text`] says.
pub fn str_members(mns: &Vec<String>) -> (r: String)
    ensures
        r@ == str_members_text(mns@),
{
    let mut items = String::new();
    let mut i: usize = 0;
    while i < mns.len()
        invariant
            i <= mns@.len(),
            items@ == str_members_items(mns@, i as int),
        decreases mns@.len() - i,
    {
        let m = &mns[i];
        items.append("stringify!(");
        items.append(m.as_str());
        items.append("), ");
        i += 1;
    }
    let mut r = "vec![".to_owned();
    r.append(items.as_str());
    r.append("]");
    r
}

/// The field declarations of the generated record struct: one public field
/// per member, typed as [`dtype_text`] maps its column data type.
pub open spec fn list_members_text(mns: Seq<String>, dts: Seq<String>, k: int) -> Seq<char>
    decreases k,
{
    if k <= 0 {
        Seq::empty()
    } else {
        list_members_text(mns, dts, k - 1) + "#[doc = \"\"] pub "@ + mns[k - 1]@ + ": "@
            + dtype_text(dts[k - 1]@) + ", "@
    }
}

/// Writes the record struct's field declarations, as [`list_members_text`]
/// says; column data types beyond the member names are ignored.
pub fn list_members(mns: &Vec<String>, dts: &Vec<String>) -> (r: String)
    requires
        mns@.len() <= dts@.len(),
    ensures
        r@ == list_members_text(mns@, dts@, mns@.len() as int),
{
    let mut items = String::new();
    let mut i: usize = 0;
    while i < mns.len()
        invariant
            i <= mns@.len(),
            mns@.len() <= dts@.len(),
            items@ == list_members_text(mns@, dts@, i as int),
        decreases mns@.len() - i,
    {
        let m = &mns[i];
        let dt = &dts[i];
        let ty = ast_dtype(dt.as_str());
        items.append("#[doc = \"\"] pub ");
        items.append(m.as_str());
        items.append(": ");
        items.append(ty.as_str());
        items.append(", ");
        i += 1;
    }
    items
}

/// The elements of the tuple a record is turned back into: each member
/// itself, a binary member cloned.
pub open spec fn to_tuple_items(mns: Seq<String>, dts: Seq<String>, k: int) -> Seq<char>
    decreases k,
{
    if k <= 0 {
        Seq::empty()
    } else if dts[k - 1]@ == "Binary"@ {
        to_tuple_items(mns, dts, k - 1) + "self."@ + mns[k - 1]@ + ".clone(), "@
    } else {
        to_tuple_items(mns, dts, k - 1) + "self."@ + mns[k - 1]@ + ", "@
    }
}

/// The generated tuple expression that reads a record's members back.
pub open spec fn to_tuple_text(mns: Seq<String>, dts: Seq<String>) -> Seq<char> {
    "("@ + to_tuple_items(mns, dts, mns.len() as int) + ")"@
}

/// Writes the tuple of a record's members, as [`to_tuple_text`] says;
/// column data types beyond the member names are ignored.
pub fn to_tuple_members(mns: &Vec<String>, dts: &Vec<String>) -> (r: String)
    requires
        mns@.len() <= dts@.len(),
    ensures
        r@ == to_tuple_text(mns@, dts@),
{
    let mut items = String::new();
    let mut i: usize = 0;
    while i < mns.len()
        invariant
            i <= mns@.len(),
            mns@.len() <= dts@.len(),
            items@ == to_tuple_items(mns@, dts@, i as int),
        decreases mns@.len() - i,
    {
        let m = &mns[i];
        let dt = &dts[i];
        items.append("self.");
        items.append(m.as_str());
        if str_eq(dt.as_str(), "Binary") {
            items.append(".clone(), ");
        } else {
            items.append(", ");
        }
        i += 1;
    }
    let mut r = "(".to_owned();
    r.append(items.as_str());
    r.append(")");
    r
}

/// The field initialisers of a record built from a tuple: each member
/// named, taken from the tuple field at its own position.
pub open spec fn from_tuple_items(mns: Seq<String>, k: int) -> Seq<char>
    decreases k,
{
    if k <= 0 {
        Seq::empty()
    } else {
        from_tuple_items(mns, k - 1) + mns[k - 1]@ + ": t."@ + decimal(k - 1) + ", "@
    }
}

/// Writes the record's field initialisers from a tuple `t`, as
/// [`from_tuple_items`] says.
pub fn from_tuple_members(mns: &Vec<String>) -> (r: String)
    ensures
        r@ == from_tuple_items(mns@, mns@.len() as int),
{
    let mut items = String::new();
    let mut i: usize = 0;
    while i < mns.len()
        invariant
            i <= mns@.len(),
            items@ == from_tuple_items(mns@, i as int),
        decreases mns@.len() - i,
    {
        let m = &mns[i];
        let idx = pre_ast_usize(i);
        items.append(m.as_str());
        items.append(": t.");
        items.append(idx.as_str());
        items.append(", ");
        i += 1;
    }
    items
}

/// The elements of the generated SQL value vector: for each member a pair
/// of its tag (the member name behind a colon, as a string literal under
/// `stringify!`) and its value expression as [`sqlite3_value_text`] maps
/// it.
pub open spec fn sqlite3_vec_items(mns: Seq<String>, dts: Seq<String>, k: int) -> Seq<char>
    decreases k,
{
    if k <= 0 {
        Seq::empty()
    } else {
        sqlite3_vec_items(mns, dts, k - 1) + "(stringify!("@ + quoted(":"@ + mns[k - 1]@) + "), "@
            + sqlite3_value_text(dts[k - 1]@, mns[k - 1]@) + ".into()), "@
    }
}

/// The generated SQL value vector for a record.
pub open spec fn sqlite3_vec_text(mns: Seq<String>, dts: Seq<String>) -> Seq<char> {
    "vec!["@ + sqlite3_vec_items(mns, dts, mns.len() as int) + "]"@
}

/// Writes the vector of tag and SQL value pairs for a record, as
/// [`sqlite3_vec_text`] says; column data types beyond the member names
/// are ignored.
pub fn sqlite3_vec(mns: &Vec<String>, dts: &Vec<String>) -> (r: String)
    requires
        mns@.len() <= dts@.len(),
    ensures
        r@ == sqlite3_vec_text(mns@, dts@),
{
    let mut items = String::new();
    let mut i: usize = 0;
    while i < mns.len()
        invariant
            i <= mns@.len(),
            mns@.len() <= dts@.len(),
            items@ == sqlite3_vec_items(mns@, dts@, i as int),
        decreases mns@.len() - i,
    {
        let m = &mns[i];
        let dt = &dts[i];
        let lit = pre_ast_literal(":", m, "", true);
        proof {
            reveal_strlit("");
            assert((":"@ + m@) + ""@ =~= ":"@ + m@);
        }
        let val = ast_dtype_sqlite3_vec(dt.as_str(), m);
        items.append("(stringify!(");
        items.append(lit.as_str());
        items.append("), ");
        items.append(val.as_str());
        items.append(".into()), ");
        i += 1;
    }
    let mut r = "vec![".to_owned();
    r.append(items.as_str());
    r.append("]");
    r
}

/// The elements of the generated `DataType` vector taken from a flat
/// attribute list: one per identifier word, every other token skipped.
pub open spec fn type_cols_items(ts: Seq<AttrToken>, k: int) -> Seq<char>
    decreases k,
{
    if k <= 0 {
        Seq::empty()
    } else {
        match ts[k - 1] {
            AttrToken::Word(w) => type_cols_items(ts, k - 1) + "DataType::"@ + w@ + ", "@,
            _ => type_cols_items(ts, k - 1),
        }
    }
}

/// The generated `DataType` vector for a flat attribute list.
pub open spec fn type_cols_text(ts: Seq<AttrToken>) -> Seq<char> {
    "vec!["@ + type_cols_items(ts, ts.len() as int) + "]"@
}

/// Writes the vector of `DataType` values for a flat attribute list, as
/// [`type_cols_text`] says.
pub fn type_cols(attr: &Vec<AttrToken>) -> (r: String)
    ensures
        r@ == type_cols_text(attr@),
{
    let mut items = String::new();
    let mut i: usize = 0;
    while i < attr.len()
        invariant
            i <= attr@.len(),
            items@ == type_cols_items(attr@, i as int),
        decreases attr@.len() - i,
    {
        match &attr[i] {
            AttrToken::Word(w) => {
                items.append("DataType::");
                items.append(w.as_str());
                items.append(", ");
            },
            _ => {},
        }
        i += 1;
    }
    let mut r = "vec![".to_owned();
    r.append(items.as_str());
    r.append("]");
    r
}

/// The elements of the generated value vector that a record is filled
/// from: for the word at column position `c`, the tuple field at `c`
/// wrapped for its column data type, a binary column wrapped as owned
/// binary data.
pub open spec fn vec_cols_items(ts: Seq<AttrToken>, k: int) -> Seq<char>
    decreases k,
{
    if k <= 0 {
        Seq::empty()
    } else {
        match ts[k - 1] {
            AttrToken::Word(w) => {
                let idx = decimal(word_count(ts, k - 1));
                if w@ == "Binary"@ {
                    vec_cols_items(ts, k - 1) + "to_any!(t."@ + idx + ", DataType::BinaryOwned), "@
                } else {
                    vec_cols_items(ts, k - 1) + "to_any!(t."@ + idx + ", DataType::"@ + w@ + "), "@
                }
            },
            _ => vec_cols_items(ts, k - 1),
        }
    }
}

/// The generated statement that binds the value vector `v`.
pub open spec fn vec_cols_text(ts: Seq<AttrToken>) -> Seq<char> {
    "let v = vec!["@ + vec_cols_items(ts, ts.len() as int) + "];"@
}

/// Writes the statement that fills the value vector from a tuple `t`, as
/// [`vec_cols_text`] says, and the number of identifier words it walked.
pub fn vec_cols(attr: &Vec<AttrToken>) -> (r: (String, usize))
    ensures
        r.0@ == vec_cols_text(attr@),
        r.1 == word_count(attr@, attr@.len() as int),
{
    let mut items = String::new();
    let mut n: usize = 0;
    let mut i: usize = 0;
    while i < attr.len()
        invariant
            i <= attr@.len(),
            n as int == word_count(attr@, i as int),
            n <= i,
            items@ == vec_cols_items(attr@, i as int),
        decreases attr@.len() - i,
    {
        match &attr[i] {
            AttrToken::Word(w) => {
                let idx = pre_ast_usize(n);
                items.append("to_any!(t.");
                items.append(idx.as_str());
                if str_eq(w.as_str(), "Binary") {
                    items.append(", DataType::BinaryOwned), ");
                } else {
                    items.append(", DataType::");
                    items.append(w.as_str());
                    items.append("), ");
                }
                n += 1;
            },
            _ => {},
        }
        i += 1;
    }
    let mut r = "let v = vec![".to_owned();
    r.append(items.as_str());
    r.append("];");
    (r, n)
}

/// The elements of the generated row tuple: for the word at column
/// position `c`, a read of column `c` at the type [`sqlite3_col_text`]
/// gives, followed by its conversion text.
pub open spec fn sqlite3_cols_items(ts: Seq<AttrToken>, k: int) -> Seq<char>
    decreases k,
{
    if k <= 0 {
        Seq::empty()
    } else {
        match ts[k - 1] {
            AttrToken::Word(w) => {
                let idx = decimal(word_count(ts, k - 1));
                let col = sqlite3_col_text(w@);
                sqlite3_cols_items(ts, k - 1) + "row.read::<"@ + col.0 + ", _>("@ + idx + ")"@
                    + col.1 + ", "@
            },
            _ => sqlite3_cols_items(ts, k - 1),
        }
    }
}

/// The generated tuple expression that reads every column of an SQL row.
pub open spec fn sqlite3_cols_text(ts: Seq<AttrToken>) -> Seq<char> {
    "("@ + sqlite3_cols_items(ts, ts.len() as int) + ")"@
}

/// Writes the tuple that reads a row's columns, as [`sqlite3_cols_text`]
/// says, and the number of identifier words it walked.
pub fn sqlite3_cols(attr: &Vec<AttrToken>) -> (r: (String, usize))
    ensures
        r.0@ == sqlite3_cols_text(attr@),
        r.1 == word_count(attr@, attr@.len() as int),
{
    let mut items = String::new();
    let mut n: usize = 0;
    let mut i: usize = 0;
    while i < attr.len()
        invariant
            i <= attr@.len(),
            n as int == word_count(attr@, i as int),
            n <= i,
            items@ == sqlite3_cols_items(attr@, i as int),
        decreases attr@.len() - i,
    {
        match &attr[i] {
            AttrToken::Word(w) => {
                let idx = pre_ast_usize(n);
                let (t, p) = ast_dtype_sqlite3_col(w.as_str());
                items.append("row.read::<");
                items.append(t.as_str());
                items.append(", _>(");
                items.append(idx.as_str());
                items.append(")");
                items.append(p.as_str());
                items.append(", ");
                n += 1;
            },
            _ => {},
        }
        i += 1;
    }
    let mut r = "(".to_owned();
    r.append(items.as_str());
    r.append(")");
    (r, n)
}

} // verus!
