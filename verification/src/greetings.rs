//! A greeting namespace. The helper that actually produces the greeting
//! is private to this module: outside callers must go through `hello` or
//! `hello_world`, and a call to `say_hello` from another module does not
//! compile.

use vstd::prelude::*;
use vstd::string::StringExecFns;

verus! {

/// Produces the greeting line. Only this module may call it; `hello` is
/// the public way in.
fn say_hello() -> (r: String)
    ensures
        r@ == "hello"@,
{
    String::from_str("hello")
}

/// Returns the line `hello`, delegating to the module-private helper.
pub fn hello() -> (r: String)
    ensures
        r@ == "hello"@,
{
    say_hello()
}

/// Returns two lines: the greeting from `hello`, then `hello world`.
pub fn hello_world() -> (r: Vec<String>)
    ensures
        r@.len() == 2,
        r@[0]@ == "hello"@,
        r@[1]@ == "hello world"@,
{
    let mut lines: Vec<String> = Vec::new();
    lines.push(hello());
    lines.push(String::from_str("hello world"));
    lines
}

} // verus!
