//! The three generators. Each takes the attribute's argument tokens and
//! the shape of the annotated type alias, refuses malformed input as
//! [`DeriveError`] says, and otherwise writes the source text of the
//! companion declarations that accompany the alias. Every generated item
//! and field carries an empty doc attribute, the way the templates write
//! their declarations.

use vstd::prelude::*;
use crate::attr::AliasType;
use crate::attr::AttrToken;
use crate::attr::DeriveError;
use crate::attr::TypeAlias;
use crate::attr::parse_attr;
use crate::attr::parsed_attr;
use crate::attr::tuple_check;
use crate::members::from_tuple_items;
use crate::members::from_tuple_members;
use crate::members::list_members;
use crate::members::list_members_text;
use crate::members::sqlite3_cols;
use crate::members::sqlite3_cols_text;
use crate::members::sqlite3_vec;
use crate::members::sqlite3_vec_text;
use crate::members::str_members;
use crate::members::str_members_text;
use crate::members::to_tuple_members;
use crate::members::to_tuple_text;
use crate::members::type_cols;
use crate::members::type_cols_text;
use crate::members::type_members;
use crate::members::type_members_text;
use crate::members::vec_cols;
use crate::members::vec_cols_text;
use crate::members::word_count;
use crate::text::lower_of;
use crate::text::pre_ast_ident;

verus! {

/// The member names an attribute's argument list parses to.
pub open spec fn attr_mns(attr: Seq<AttrToken>) -> Seq<String> {
    parsed_attr(attr, attr.len() as int).0
}

/// The column data type names an attribute's argument list parses to.
pub open spec fn attr_dts(attr: Seq<AttrToken>) -> Seq<String> {
    parsed_attr(attr, attr.len() as int).1
}

/// The companion declarations for a record struct over the alias `name`:
/// the struct `St<name>` with one field per member, its member name, type
/// and tuple accessors, its conversion into a vector of dataframe values
/// and into a vector of SQL values, and its construction from the tuple
/// and from an SQL row.
pub open spec fn struct_derive_text(mns: Seq<String>, dts: Seq<String>, name: Seq<char>) -> Seq<
    char,
> {
    let st = "St"@ + name;
    let rec = "Rec"@ + name;
    let fnc = "to_"@ + lower_of(name);
    let k = mns.len() as int;
    "#[doc = \"\"] pub struct "@ + st + "<'a> { "@ + list_members_text(mns, dts, k)
        + "} #[doc = \"\"] impl<'a> "@ + st
        + "<'a> { #[doc = \"\"] pub fn members() -> Vec<&'a str> { "@ + str_members_text(mns)
        + " } #[doc = \"\"] pub fn types() -> Vec<DataType> { "@ + type_members_text(dts)
        + " } #[doc = \"\"] pub fn "@ + fnc + "(&self) -> "@ + name + "<'_> { "@ + to_tuple_text(
        mns,
        dts,
    ) + " } } #[doc = \"\"] impl<'a> IntoAnyValueVec<'a> for "@ + st
        + "<'a> { #[doc = \"\"] fn into_vec(self) -> Vec<AnyValue<'a>> { "@ + rec + "::from("@
        + to_tuple_text(mns, dts) + ").v } } #[doc = \"\"] impl<'a> ToSqlite3ValueVec for "@ + st
        + "<'a> { #[doc = \"\"] fn to_sqlite3_vec(&self) -> Vec<(&'_ str, sqlite::Value)> { "@
        + sqlite3_vec_text(mns, dts) + " } } #[doc = \"\"] impl<'a> From<"@ + name + "<'a>> for "@
        + st + "<'a> { #[doc = \"\"] fn from(t: "@ + name + "<'a>) -> "@ + st + "<'_> { "@ + st
        + " { "@ + from_tuple_items(mns, k)
        + "} } } #[doc = \"\"] impl<'a> From<&'a sqlite::Row> for "@ + st
        + "<'a> { #[doc = \"\"] fn from(row: &'a sqlite::Row) -> "@ + st + "<'_> { "@ + st
        + "::from("@ + fnc + "(row)) } }"@
}

/// Writes the record struct companion declarations for a tuple type
/// alias. The attribute must carry a member name group and a column data
/// type group of the same length, and the alias must be a tuple of that
/// many elements; otherwise the input is refused in that order of checks,
/// as the clauses say.
pub fn struct_derive(attr: &Vec<AttrToken>, alias: &TypeAlias) -> (r: Result<String, DeriveError>)
    ensures
        attr_mns(attr@).len() != attr_dts(attr@).len() ==> r == Result::<
            String,
            DeriveError,
        >::Err(DeriveError::LengthMismatch),
        attr_mns(attr@).len() == attr_dts(attr@).len() && alias.ty is Other ==> r == Result::<
            String,
            DeriveError,
        >::Err(DeriveError::NotTuple),
        attr_mns(attr@).len() == attr_dts(attr@).len() && (alias.ty matches AliasType::Tuple(m)
            && m != attr_dts(attr@).len()) ==> r == Result::<String, DeriveError>::Err(
            DeriveError::ArityMismatch,
        ),
        attr_mns(attr@).len() == attr_dts(attr@).len() && (alias.ty matches AliasType::Tuple(m)
            && m == attr_dts(attr@).len()) ==> (r matches Ok(s) && s@ == struct_derive_text(
            attr_mns(attr@),
            attr_dts(attr@),
            alias.ident@,
        )),
{
    let (mns, dts) = parse_attr(attr);
    if mns.len() != dts.len() {
        return Err(DeriveError::LengthMismatch);
    }
    let n = dts.len();
    if let Err(e) = tuple_check(alias, n) {
        return Err(e);
    }
    let lm = list_members(&mns, &dts);
    let sm = str_members(&mns);
    let tm = type_members(&dts);
    let tt = to_tuple_members(&mns, &dts);
    let ft = from_tuple_members(&mns);
    let sv = sqlite3_vec(&mns, &dts);
    let st = pre_ast_ident("St", &alias.ident, "", true);
    let fnc = pre_ast_ident("to_", &alias.ident, "", false);
    let rec = pre_ast_ident("Rec", &alias.ident, "", true);
    proof {
        reveal_strlit("");
        assert(("St"@ + alias.ident@) + ""@ =~= "St"@ + alias.ident@);
        assert(("to_"@ + lower_of(alias.ident@)) + ""@ =~= "to_"@ + lower_of(alias.ident@));
        assert(("Rec"@ + alias.ident@) + ""@ =~= "Rec"@ + alias.ident@);
    }
    let mut r = "#[doc = \"\"] pub struct ".to_owned();
    r.append(st.as_str());
    r.append("<'a> { ");
    r.append(lm.as_str());
    r.append("} #[doc = \"\"] impl<'a> ");
    r.append(st.as_str());
    r.append("<'a> { #[doc = \"\"] pub fn members() -> Vec<&'a str> { ");
    r.append(sm.as_str());
    r.append(" } #[doc = \"\"] pub fn types() -> Vec<DataType> { ");
    r.append(tm.as_str());
    r.append(" } #[doc = \"\"] pub fn ");
    r.append(fnc.as_str());
    r.append("(&self) -> ");
    r.append(alias.ident.as_str());
    r.append("<'_> { ");
    r.append(tt.as_str());
    r.append(" } } #[doc = \"\"] impl<'a> IntoAnyValueVec<'a> for ");
    r.append(st.as_str());
    r.append("<'a> { #[doc = \"\"] fn into_vec(self) -> Vec<AnyValue<'a>> { ");
    r.append(rec.as_str());
    r.append("::from(");
    r.append(tt.as_str());
    r.append(").v } } #[doc = \"\"] impl<'a> ToSqlite3ValueVec for ");
    r.append(st.as_str());
    r.append("<'a> { #[doc = \"\"] fn to_sqlite3_vec(&self) -> Vec<(&'_ str, sqlite::Value)> { ");
    r.append(sv.as_str());
    r.append(" } } #[doc = \"\"] impl<'a> From<");
    r.append(alias.ident.as_str());
    r.append("<'a>> for ");
    r.append(st.as_str());
    r.append("<'a> { #[doc = \"\"] fn from(t: ");
    r.append(alias.ident.as_str());
    r.append("<'a>) -> ");
    r.append(st.as_str());
    r.append("<'_> { ");
    r.append(st.as_str());
    r.append(" { ");
    r.append(ft.as_str());
    r.append("} } } #[doc = \"\"] impl<'a> From<&'a sqlite::Row> for ");
    r.append(st.as_str());
    r.append("<'a> { #[doc = \"\"] fn from(row: &'a sqlite::Row) -> ");
    r.append(st.as_str());
    r.append("<'_> { ");
    r.append(st.as_str());
    r.append("::from(");
    r.append(fnc.as_str());
    r.append("(row)) } }");
    Ok(r)
}

/// The companion declarations that read a tuple out of an SQL row: the
/// reader function over the alias `name`, and the construction of the
/// record `Rec<name>` from a row through it.
pub open spec fn tuple_sqlite3_text(ts: Seq<AttrToken>, name: Seq<char>) -> Seq<char> {
    let rec = "Rec"@ + name;
    let fnc = "to_"@ + lower_of(name);
    "#[doc = \"\"] pub fn "@ + fnc + "<'a>(row: &'a sqlite::Row) -> "@ + name + "<'_> { "@
        + sqlite3_cols_text(ts) + " } #[doc = \"\"] impl<'a> From<&'a sqlite::Row> for "@ + rec
        + "<'a> { #[doc = \"\"] fn from(row: &'a sqlite::Row) -> "@ + rec + "<'_> { "@ + rec
        + "::from("@ + fnc + "(row)) } }"@
}

/// Writes the SQL row reader declarations for a tuple type alias. The
/// alias must be a tuple with one element per identifier word of the
/// attribute; otherwise the input is refused as the clauses say.
pub fn tuple_sqlite3(attr: &Vec<AttrToken>, alias: &TypeAlias) -> (r: Result<String, DeriveError>)
    ensures
        alias.ty is Other ==> r == Result::<String, DeriveError>::Err(DeriveError::NotTuple),
        (alias.ty matches AliasType::Tuple(m) && m != word_count(attr@, attr@.len() as int)) ==> r
            == Result::<String, DeriveError>::Err(DeriveError::ArityMismatch),
        (alias.ty matches AliasType::Tuple(m) && m == word_count(attr@, attr@.len() as int)) ==> (
        r matches Ok(s) && s@ == tuple_sqlite3_text(attr@, alias.ident@)),
{
    let (cols, n) = sqlite3_cols(attr);
    if let Err(e) = tuple_check(alias, n) {
        return Err(e);
    }
    let rec = pre_ast_ident("Rec", &alias.ident, "", true);
    let fnc = pre_ast_ident("to_", &alias.ident, "", false);
    proof {
        reveal_strlit("");
        assert(("Rec"@ + alias.ident@) + ""@ =~= "Rec"@ + alias.ident@);
        assert(("to_"@ + lower_of(alias.ident@)) + ""@ =~= "to_"@ + lower_of(alias.ident@));
    }
    let mut r = "#[doc = \"\"] pub fn ".to_owned();
    r.append(fnc.as_str());
    r.append("<'a>(row: &'a sqlite::Row) -> ");
    r.append(alias.ident.as_str());
    r.append("<'_> { ");
    r.append(cols.as_str());
    r.append(" } #[doc = \"\"] impl<'a> From<&'a sqlite::Row> for ");
    r.append(rec.as_str());
    r.append("<'a> { #[doc = \"\"] fn from(row: &'a sqlite::Row) -> ");
    r.append(rec.as_str());
    r.append("<'_> { ");
    r.append(rec.as_str());
    r.append("::from(");
    r.append(fnc.as_str());
    r.append("(row)) } }");
    Ok(r)
}

/// The companion declarations for a record of dataframe values over the
/// alias `name`: the record struct `Rec<name>` holding a value vector, its
/// iterator, its construction from the tuple, the column type vector, and
/// iteration over a tuple through the record.
pub open spec fn tuple_derive_text(ts: Seq<AttrToken>, name: Seq<char>) -> Seq<char> {
    let rec = "Rec"@ + name;
    "#[doc = \"\"] pub struct "@ + rec
        + "<'a> { #[doc = \"\"] pub v: Vec<AnyValue<'a>> } #[doc = \"\"] impl<'a> IntoIterator for "@
        + rec
        + "<'a> { #[doc = \"\"] type Item = AnyValue<'a>; #[doc = \"\"] type IntoIter = std::vec::IntoIter<Self::Item>; #[doc = \"\"] fn into_iter(self) -> Self::IntoIter { self.v.into_iter() } } #[doc = \"\"] impl<'a> From<"@
        + name + "<'a>> for "@ + rec + "<'a> { #[doc = \"\"] fn from(t: "@ + name + "<'a>) -> "@
        + rec + "<'_> { "@ + vec_cols_text(ts) + " "@ + rec
        + " { v } } } #[doc = \"\"] impl<'a> "@ + rec
        + "<'a> { #[doc = \"\"] pub fn types() -> Vec<DataType> { "@ + type_cols_text(ts)
        + " } #[doc = \"\"] pub fn into_iter(t: "@ + name
        + "<'a>) -> std::vec::IntoIter<AnyValue<'_>> { "@ + rec + "::from(t).into_iter() } }"@
}

/// Writes the dataframe record companion declarations for a tuple type
/// alias. The alias must be a tuple with one element per identifier word
/// of the attribute; otherwise the input is refused as the clauses say.
pub fn tuple_derive(attr: &Vec<AttrToken>, alias: &TypeAlias) -> (r: Result<String, DeriveError>)
    ensures
        alias.ty is Other ==> r == Result::<String, DeriveError>::Err(DeriveError::NotTuple),
        (alias.ty matches AliasType::Tuple(m) && m != word_count(attr@, attr@.len() as int)) ==> r
            == Result::<String, DeriveError>::Err(DeriveError::ArityMismatch),
        (alias.ty matches AliasType::Tuple(m) && m == word_count(attr@, attr@.len() as int)) ==> (
        r matches Ok(s) && s@ == tuple_derive_text(attr@, alias.ident@)),
{
    let tc = type_cols(attr);
    let (vc, n) = vec_cols(attr);
    if let Err(e) = tuple_check(alias, n) {
        return Err(e);
    }
    let rec = pre_ast_ident("Rec", &alias.ident, "", true);
    proof {
        reveal_strlit("");
        assert(("Rec"@ + alias.ident@) + ""@ =~= "Rec"@ + alias.ident@);
    }
    let mut r = "#[doc = \"\"] pub struct ".to_owned();
    r.append(rec.as_str());
    r.append(
        "<'a> { #[doc = \"\"] pub v: Vec<AnyValue<'a>> } #[doc = \"\"] impl<'a> IntoIterator for ",
    );
    r.append(rec.as_str());
    r.append(
        "<'a> { #[doc = \"\"] type Item = AnyValue<'a>; #[doc = \"\"] type IntoIter = std::vec::IntoIter<Self::Item>; #[doc = \"\"] fn into_iter(self) -> Self::IntoIter { self.v.into_iter() } } #[doc = \"\"] impl<'a> From<",
    );
    r.append(alias.ident.as_str());
    r.append("<'a>> for ");
    r.append(rec.as_str());
    r.append("<'a> { #[doc = \"\"] fn from(t: ");
    r.append(alias.ident.as_str());
    r.append("<'a>) -> ");
    r.append(rec.as_str());
    r.append("<'_> { ");
    r.append(vc.as_str());
    r.append(" ");
    r.append(rec.as_str());
    r.append(" { v } } } #[doc = \"\"] impl<'a> ");
    r.append(rec.as_str());
    r.append("<'a> { #[doc = \"\"] pub fn types() -> Vec<DataType> { ");
    r.append(tc.as_str());
    r.append(" } #[doc = \"\"] pub fn into_iter(t: ");
    r.append(alias.ident.as_str());
    r.append("<'a>) -> std::vec::IntoIter<AnyValue<'_>> { ");
    r.append(rec.as_str());
    r.append("::from(t).into_iter() } }");
    Ok(r)
}

} // verus!
