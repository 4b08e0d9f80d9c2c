//! Small verified building blocks for assembling generated source text:
//! string equality, ASCII lowercasing, and decimal rendering of indices.

use vstd::prelude::*;
use vstd::string::StrSliceExecFns;

verus! {

/// Compares two string slices character by character.
pub fn str_eq(a: &str, b: &str) -> (r: bool)
    ensures
        r == (a@ == b@),
{
    let la = a.unicode_len();
    let lb = b.unicode_len();
    if la != lb {
        return false;
    }
    let mut i: usize = 0;
    while i < la
        invariant
            la == a@.len(),
            la == b@.len(),
            i <= la,
            forall|j: int| 0 <= j < i ==> a@[j] == b@[j],
        decreases la - i,
    {
        if a.get_char(i) != b.get_char(i) {
            return false;
        }
        i += 1;
    }
    proof {
        assert(a@ =~= b@);
    }
    true
}

/// The Unicode lowercase form of a character sequence, as
/// `str::to_lowercase` maps it: a function of the characters alone.
pub uninterp spec fn lower_of(s: Seq<char>) -> Seq<char>;

/// Relies on `str::to_lowercase`: the result is the input's Unicode
/// lowercase form and depends on the characters alone.
#[verifier::external_body]
pub fn to_lowercase(s: &str) -> (r: String)
    ensures
        r@ == lower_of(s@),
        s@.len() == 0 ==> r@.len() == 0,
{
    s.to_lowercase()
}

/// Relies on `String::push`: appends the given character to the end of the
/// string.
#[verifier::external_body]
pub fn push_char(s: &mut String, c: char)
    ensures
        final(s)@ == old(s)@.push(c),
{
    s.push(c);
}

/// The digit character for one decimal digit value.
pub open spec fn digit_char(d: int) -> char {
    if d == 0 {
        '0'
    } else if d == 1 {
        '1'
    } else if d == 2 {
        '2'
    } else if d == 3 {
        '3'
    } else if d == 4 {
        '4'
    } else if d == 5 {
        '5'
    } else if d == 6 {
        '6'
    } else if d == 7 {
        '7'
    } else if d == 8 {
        '8'
    } else {
        '9'
    }
}

/// The usual decimal rendering of a non-negative integer, most significant
/// digit first, with no sign and no leading zeros.
pub open spec fn decimal(n: int) -> Seq<char>
    decreases n,
{
    if n < 10 {
        seq![digit_char(n)]
    } else {
        decimal(n / 10).push(digit_char(n % 10))
    }
}

fn digit_char_exec(d: usize) -> (c: char)
    requires
        d < 10,
    ensures
        c == digit_char(d as int),
{
    match d {
        0 => '0',
        1 => '1',
        2 => '2',
        3 => '3',
        4 => '4',
        5 => '5',
        6 => '6',
        7 => '7',
        8 => '8',
        _ => '9',
    }
}

/// Renders an index as decimal text, for tuple field positions in generated
/// code.
pub fn pre_ast_usize(n: usize) -> (r: String)
    ensures
        r@ == decimal(n as int),
    decreases n,
{
    if n < 10 {
        let mut r = String::new();
        push_char(&mut r, digit_char_exec(n));
        proof {
            assert(r@ =~= decimal(n as int));
        }
        r
    } else {
        let mut r = pre_ast_usize(n / 10);
        push_char(&mut r, digit_char_exec(n % 10));
        r
    }
}

/// The name built from an identifier by gluing text on either side;
/// `as_is` false lowercases the identifier first.
pub open spec fn glued_ident(pre: Seq<char>, id: Seq<char>, post: Seq<char>, as_is: bool) -> Seq<
    char,
> {
    pre + (if as_is {
        id
    } else {
        lower_of(id)
    }) + post
}

/// Builds an identifier for generated code out of an existing one,
/// with a prefix and a suffix; `as_is` false lowercases the middle part.
pub fn pre_ast_ident(pre: &str, id: &String, post: &str, as_is: bool) -> (r: String)
    ensures
        r@ == glued_ident(pre@, id@, post@, as_is),
{
    let mut r = pre.to_owned();
    if as_is {
        r.append(id.as_str());
    } else {
        let low = to_lowercase(id.as_str());
        r.append(low.as_str());
    }
    r.append(post);
    r
}

/// The source form of a string literal with the given contents: the contents
/// between two quote characters.
pub open spec fn quoted(s: Seq<char>) -> Seq<char> {
    seq!['"'] + s + seq!['"']
}

/// Builds the source text of a string literal whose contents are an
/// identifier glued between a prefix and a suffix, as [`glued_ident`] says.
pub fn pre_ast_literal(pre: &str, id: &String, post: &str, as_is: bool) -> (r: String)
    ensures
        r@ == quoted(glued_ident(pre@, id@, post@, as_is)),
{
    let mut r = String::new();
    push_char(&mut r, '"');
    let mid = pre_ast_ident(pre, id, post, as_is);
    r.append(mid.as_str());
    push_char(&mut r, '"');
    proof {
        assert(r@ =~= quoted(glued_ident(pre@, id@, post@, as_is)));
    }
    r
}

} // verus!
