//! Functions whose borrowed results tie back to their borrowed inputs.

use vstd::prelude::*;
use vstd::string::*;

verus! {

/// The byte length that `str::len` reports.
pub open spec fn byte_len(s: &str) -> usize {
    s.spec_bytes().len() as usize
}

/// The argument with more bytes; ties win for the second one.
pub fn longest<'a>(x: &'a str, y: &'a str) -> (r: &'a str)
    ensures
        r@ == if byte_len(x) > byte_len(y) {
            x@
        } else {
            y@
        },
{
    if x.len() > y.len() {
        x
    } else {
        y
    }
}

/// Ignores both arguments and hands back an owned string instead,
/// which is how a function must return text it created itself.
pub fn longest_err(x: &str, y: &str) -> (r: String)
    ensures
        r@ == "really long string"@,
{
    let _ = x;
    let _ = y;
    let result = String::from_str("really long string");
    result
}

pub struct ImportantExcerpt<'a> {
    pub part: &'a str,
}

impl<'a> ImportantExcerpt<'a> {
    /// The fixed rating of an excerpt.
    pub fn level(&self) -> (r: i32)
        ensures
            r == 3,
    {
        3
    }
}

} // verus!
