//! Small string-building helpers used when generating script source.

use vstd::prelude::*;
use vstd::string::StringExecFns;

verus! {

/// Relies on `String::push`: appends the given character to the end of the
/// string.
#[verifier::external_body]
pub(crate) fn push_char(s: &mut String, c: char)
    ensures
        final(s)@ == old(s)@.push(c),
{
    s.push(c);
}

/// Concatenates a fixed prefix with a message, as when labelling an
/// interpreter error with the stage that produced it.
pub fn prefixed(prefix: &str, msg: &str) -> (r: String)
    ensures
        r@ == prefix@ + msg@,
{
    let s = String::from_str(prefix);
    s.concat(msg)
}

} // verus!
