//! Building texts: the one string operation that is specified here, and
//! templates with holes.

use vstd::prelude::*;
use vstd::string::StringExecFns;

verus! {

/// `String::push` of the standard library, for which the verifier has no
/// specification of its own: it appends the character to the end of the
/// string and changes nothing else of it.
pub assume_specification[ std::string::String::push ](text: &mut std::string::String, c: char)
    ensures
        final(text)@ == old(text)@.push(c),
;

/// Whether the text is the literal.
pub fn is_text(text: &String, literal: &str) -> (r: bool)
    ensures
        r == (text@ == literal@),
{
    let wanted = String::from_str(literal);
    *text == wanted
}

/// A template with one hole, filled.
pub fn fill1(a: &str, x: &str, b: &str) -> (r: String)
    ensures
        r@ == a@ + x@ + b@,
{
    let mut out = String::from_str(a);
    out.append(x);
    out.append(b);
    out
}

/// A template with two holes, filled.
pub fn fill2(a: &str, x: &str, b: &str, y: &str, c: &str) -> (r: String)
    ensures
        r@ == a@ + x@ + b@ + y@ + c@,
{
    let mut out = fill1(a, x, b);
    out.append(y);
    out.append(c);
    out
}

/// A template with three holes, filled.
pub fn fill3(a: &str, x: &str, b: &str, y: &str, c: &str, z: &str, d: &str) -> (r: String)
    ensures
        r@ == a@ + x@ + b@ + y@ + c@ + z@ + d@,
{
    let mut out = fill2(a, x, b, y, c);
    out.append(z);
    out.append(d);
    out
}

} // verus!
