//! Ten callables built in a loop, each capturing its creation index by
//! value. The callable built at index `i` always returns `i + 1`: it owns
//! a private copy of the index, so the loop moving on (or any later
//! mutation of the loop variable) cannot change what it returns.

use vstd::prelude::*;

verus! {

/// Builds ten closures, the one at index `k` capturing `k` by value, then
/// invokes them in order of creation and collects what they return. The
/// result at index `k` is `k + 1`.
pub fn closure_outputs() -> (r: Vec<i32>)
    ensures
        r@.len() == 10,
        forall|k: int| 0 <= k < 10 ==> r@[k] == k + 1,
{
    let mut closures = Vec::new();
    let mut i: i32 = 0;
    while i < 10
        invariant
            0 <= i <= 10,
            closures@.len() == i,
            forall|k: int|
                0 <= k < closures@.len() ==> call_requires(#[trigger] closures@[k], ()),
            forall|k: int, y: i32|
                0 <= k < closures@.len() ==> (#[trigger] call_ensures(closures@[k], (), y) ==> y
                    == k + 1),
        decreases 10 - i,
    {
        let f = move || -> (res: i32)
            ensures
                res == i + 1,
            { i + 1 };
        closures.push(f);
        i = i + 1;
    }
    let mut outputs: Vec<i32> = Vec::new();
    let mut j: usize = 0;
    while j < 10
        invariant
            closures@.len() == 10,
            forall|k: int|
                0 <= k < closures@.len() ==> call_requires(#[trigger] closures@[k], ()),
            forall|k: int, y: i32|
                0 <= k < closures@.len() ==> (#[trigger] call_ensures(closures@[k], (), y) ==> y
                    == k + 1),
            0 <= j <= 10,
            outputs@.len() == j,
            forall|k: int| 0 <= k < j ==> outputs@[k] == k + 1,
        decreases 10 - j,
    {
        let y = (closures[j])();
        outputs.push(y);
        j = j + 1;
    }
    outputs
}

} // verus!
