//! The plain token model that the generators work on: an attribute's
//! argument list as a sequence of identifier words, separators and
//! parenthesised groups, the shape of the annotated type alias, and the
//! errors on which generation is refused.

use vstd::prelude::*;

verus! {

/// One token inside a parenthesised group: an identifier word, or a
/// separator such as a comma, which the parsers skip.
pub enum LeafToken {
    Word(String),
    Sep,
}

/// One top-level token of an attribute's argument list.
pub enum AttrToken {
    Word(String),
    Group(Vec<LeafToken>),
    Sep,
}

/// The shape of the type a type alias names: a tuple with its number of
/// elements, or some other type.
pub enum AliasType {
    Tuple(usize),
    Other,
}

/// What the generators read of the annotated item: a type alias with its
/// name and the shape of its type.
pub struct TypeAlias {
    pub ident: String,
    pub ty: AliasType,
}

/// Why generation was refused; the message mirrors the macro name it is
/// reported under.
#[derive(Debug, PartialEq, Eq)]
pub enum DeriveError {
    /// The annotated item's type is not a tuple.
    NotTuple,
    /// The tuple's element count differs from the attribute's column count.
    ArityMismatch,
    /// The attribute's member group and type group differ in length.
    LengthMismatch,
}

impl DeriveError {
    /// The report for this error under the macro name `f`.
    pub open spec fn message_text(&self, f: Seq<char>) -> Seq<char> {
        match self {
            DeriveError::NotTuple => f + " requires type alias of tuple"@,
            DeriveError::ArityMismatch => f + " attributes not match with tuple"@,
            DeriveError::LengthMismatch => f + " attributes not same length"@,
        }
    }

    /// Writes the report for this error under the macro name `f`, as
    /// [`DeriveError::message_text`] says.
    pub fn message(&self, f: &str) -> (r: String)
        ensures
            r@ == self.message_text(f@),
    {
        let mut r = f.to_owned();
        match self {
            DeriveError::NotTuple => r.append(" requires type alias of tuple"),
            DeriveError::ArityMismatch => r.append(" attributes not match with tuple"),
            DeriveError::LengthMismatch => r.append(" attributes not same length"),
        }
        r
    }
}

/// The identifier words among the first `k` tokens of a group, in order.
pub open spec fn leaf_words(g: Seq<LeafToken>, k: int) -> Seq<String>
    decreases k,
{
    if k <= 0 {
        Seq::empty()
    } else {
        let tail = match g[k - 1] {
            LeafToken::Word(w) => seq![w],
            LeafToken::Sep => Seq::empty(),
        };
        leaf_words(g, k - 1) + tail
    }
}

/// What parsing the first `k` tokens of an attribute's argument list
/// yields: the words of the first group, the words of every later group,
/// and the number of groups seen. Tokens outside groups are skipped.
pub open spec fn parsed_attr(ts: Seq<AttrToken>, k: int) -> (Seq<String>, Seq<String>, int)
    decreases k,
{
    if k <= 0 {
        (Seq::empty(), Seq::empty(), 0)
    } else {
        let p = parsed_attr(ts, k - 1);
        match ts[k - 1] {
            AttrToken::Group(g) => {
                let ws = leaf_words(g@, g@.len() as int);
                if p.2 == 0 {
                    (p.0 + ws, p.1, 1)
                } else {
                    (p.0, p.1 + ws, p.2 + 1)
                }
            },
            _ => p,
        }
    }
}

fn push_group_words(dst: &mut Vec<String>, g: &Vec<LeafToken>)
    ensures
        final(dst)@ == old(dst)@ + leaf_words(g@, g@.len() as int),
{
    proof {
        assert(old(dst)@ + leaf_words(g@, 0) =~= old(dst)@);
    }
    let mut j: usize = 0;
    while j < g.len()
        invariant
            j <= g@.len(),
            dst@ == old(dst)@ + leaf_words(g@, j as int),
        decreases g@.len() - j,
    {
        match &g[j] {
            LeafToken::Word(w) => {
                let w2 = w.clone();
                dst.push(w2);
                proof {
                    assert(dst@ =~= old(dst)@ + leaf_words(g@, j + 1));
                }
            },
            LeafToken::Sep => {
                proof {
                    assert(old(dst)@ + leaf_words(g@, j + 1) =~= old(dst)@ + leaf_words(
                        g@,
                        j as int,
                    ));
                }
            },
        }
        j += 1;
    }
}

/// Splits an attribute's argument list into the member names (the words of
/// the first parenthesised group) and the column data type names (the words
/// of every later group), as [`parsed_attr`] says.
pub fn parse_attr(attr: &Vec<AttrToken>) -> (r: (Vec<String>, Vec<String>))
    ensures
        r.0@ == parsed_attr(attr@, attr@.len() as int).0,
        r.1@ == parsed_attr(attr@, attr@.len() as int).1,
{
    let mut mns: Vec<String> = Vec::new();
    let mut dts: Vec<String> = Vec::new();
    let mut gi: usize = 0;
    let mut i: usize = 0;
    while i < attr.len()
        invariant
            i <= attr@.len(),
            gi <= i,
            mns@ == parsed_attr(attr@, i as int).0,
            dts@ == parsed_attr(attr@, i as int).1,
            gi == parsed_attr(attr@, i as int).2,
        decreases attr@.len() - i,
    {
        match &attr[i] {
            AttrToken::Group(g) => {
                if gi == 0 {
                    push_group_words(&mut mns, g);
                } else {
                    push_group_words(&mut dts, g);
                }
                gi += 1;
            },
            _ => {},
        }
        i += 1;
    }
    (mns, dts)
}

/// Accepts the annotated item only when it is a type alias of a tuple whose
/// element count is `n`: otherwise reports why it was refused, a missing
/// tuple before a wrong element count.
pub fn tuple_check(alias: &TypeAlias, n: usize) -> (r: Result<(), DeriveError>)
    ensures
        alias.ty is Other ==> r == Result::<(), DeriveError>::Err(DeriveError::NotTuple),
        (alias.ty matches AliasType::Tuple(m) && m != n) ==> r == Result::<
            (),
            DeriveError,
        >::Err(DeriveError::ArityMismatch),
        (alias.ty matches AliasType::Tuple(m) && m == n) ==> r == Result::<
            (),
            DeriveError,
        >::Ok(()),
{
    match &alias.ty {
        AliasType::Tuple(m) => {
            if *m != n {
                Err(DeriveError::ArityMismatch)
            } else {
                Ok(())
            }
        },
        AliasType::Other => Err(DeriveError::NotTuple),
    }
}

} // verus!
