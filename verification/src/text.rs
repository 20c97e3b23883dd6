//! String appending, once by value and once through a mutable reference.

use vstd::prelude::*;
use vstd::string::StringExecFns;

verus! {

/// Consumes `target`, appends `source`, and returns the combined string.
/// The caller gives up its binding and may take ownership back from the
/// return value.
pub fn append(target: String, source: &str) -> (r: String)
    ensures
        r@ == target@ + source@,
{
    target.concat(source)
}

/// Appends `source` to the string behind `target` in place; the caller's
/// binding stays valid and afterwards holds the combined string.
pub fn append_borrow(target: &mut String, source: &str)
    ensures
        final(target)@ == old(target)@ + source@,
{
    target.append(source);
}

} // verus!
