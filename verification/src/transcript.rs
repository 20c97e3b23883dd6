//! The fixed console transcript: every demonstration run in order, each
//! produced line pinned down byte for byte.

use vstd::prelude::*;
use vstd::string::StringExecFns;
use crate::animals::{Dog, Person, say_name};
use crate::closures::closure_outputs;
use crate::decimal::i32_to_string;
use crate::greetings::hello_world;
use crate::render::{compact_listing, numbers_line, pretty_listing_lines};
use crate::text::{append, append_borrow};

verus! {

/// Runs every demonstration in order and returns the lines the program
/// prints: the greetings, the copy and move demonstrations, both listings
/// of the five-element vector, the unwrapped option, the three appending
/// demonstrations, the closure outputs, and the two animal names.
pub fn transcript() -> (r: Vec<String>)
    ensures
        r@.len() == 23,
        r@[0]@ == "hello"@,
        r@[1]@ == "hello world"@,
        r@[2]@ == "a = 10"@,
        r@[3]@ == "b = 10"@,
        r@[4]@ == "b = hi"@,
        r@[5]@ == "[0, 1, 2, 3, 4]"@,
        r@[6]@ == "["@,
        r@[7]@ == "    0,"@,
        r@[8]@ == "    1,"@,
        r@[9]@ == "    2,"@,
        r@[10]@ == "    3,"@,
        r@[11]@ == "    4,"@,
        r@[12]@ == "]"@,
        r@[13]@ == "unwrapped value = 10"@,
        r@[14]@ == "hello"@,
        r@[15]@ == "hello and good bye"@,
        r@[16]@ == "hello"@,
        r@[17]@ == "hello and good bye"@,
        r@[18]@ == "hello"@,
        r@[19]@ == "hello and good bye"@,
        r@[20]@ == "1 2 3 4 5 6 7 8 9 10 "@,
        r@[21]@ == "John"@,
        r@[22]@ == "Puppy"@,
{
    let mut lines: Vec<String> = Vec::new();

    // The greeting namespace: one line from the inner helper, one of its
    // own.
    let mut greeting_lines = hello_world();
    lines.append(&mut greeting_lines);

    // Copying: both bindings of a copyable number stay usable and equal.
    let a: i32 = 10;
    let b: i32 = a;
    let mut line_a = String::from_str("a = ");
    line_a.append(i32_to_string(a).as_str());
    proof {
        reveal_strlit("a = ");
        reveal_strlit("a = 10");
        reveal_with_fuel(crate::decimal::spec_decimal, 3);
        assert(line_a@ =~= "a = 10"@);
    }
    lines.push(line_a);
    let mut line_b = String::from_str("b = ");
    line_b.append(i32_to_string(b).as_str());
    proof {
        reveal_strlit("b = ");
        reveal_strlit("b = 10");
        reveal_with_fuel(crate::decimal::spec_decimal, 3);
        assert(line_b@ =~= "b = 10"@);
    }
    lines.push(line_b);

    // Moving: the text value moves to its new binding, which alone is
    // printed.
    let moved_from: String = String::from_str("hi");
    let moved_to: String = moved_from;
    let mut line_moved = String::from_str("b = ");
    line_moved.append(moved_to.as_str());
    proof {
        reveal_strlit("b = ");
        reveal_strlit("hi");
        reveal_strlit("b = hi");
        assert(line_moved@ =~= "b = hi"@);
    }
    lines.push(line_moved);

    // Both listings of a five-element vector.
    let mut v: Vec<i32> = Vec::new();
    v.push(0);
    v.push(1);
    v.push(2);
    v.push(3);
    v.push(4);
    let compact = compact_listing(&v);
    proof {
        reveal_strlit("[0, 1, 2, 3, 4]");
        reveal_with_fuel(crate::render::spec_joined_from, 7);
        reveal_with_fuel(crate::decimal::spec_decimal, 2);
        assert(compact@ =~= "[0, 1, 2, 3, 4]"@);
    }
    lines.push(compact);
    let mut pretty = pretty_listing_lines(&v);
    proof {
        reveal_strlit("[");
        reveal_strlit("]");
        reveal_strlit("    0,");
        reveal_strlit("    1,");
        reveal_strlit("    2,");
        reveal_strlit("    3,");
        reveal_strlit("    4,");
        reveal_with_fuel(crate::decimal::spec_decimal, 2);
        assert(pretty@[0]@ =~= "["@);
        assert(pretty@[1]@ =~= "    0,"@);
        assert(pretty@[2]@ =~= "    1,"@);
        assert(pretty@[3]@ =~= "    2,"@);
        assert(pretty@[4]@ =~= "    3,"@);
        assert(pretty@[5]@ =~= "    4,"@);
        assert(pretty@[6]@ =~= "]"@);
    }
    lines.append(&mut pretty);

    // Unwrapping an option that holds a value.
    let number: Option<i32> = Some(10);
    if let Some(value) = number {
        let mut line_opt = String::from_str("unwrapped value = ");
        line_opt.append(i32_to_string(value).as_str());
        proof {
            reveal_strlit("unwrapped value = ");
            reveal_strlit("unwrapped value = 10");
            reveal_with_fuel(crate::decimal::spec_decimal, 3);
            assert(line_opt@ =~= "unwrapped value = 10"@);
        }
        lines.push(line_opt);
    }

    // Appending by value: ownership goes with the call and comes back
    // with the result.
    let mut owned: String = String::from_str("hello");
    lines.push(owned.clone());
    owned = append(owned, " and good bye");
    proof {
        reveal_strlit("hello");
        reveal_strlit(" and good bye");
        reveal_strlit("hello and good bye");
        assert(owned@ =~= "hello and good bye"@);
    }
    lines.push(owned);

    // Appending by value again, rebinding the result under the old name.
    let shadowed: String = String::from_str("hello");
    lines.push(shadowed.clone());
    let shadowed = append(shadowed, " and good bye");
    proof {
        assert(shadowed@ =~= "hello and good bye"@);
    }
    lines.push(shadowed);

    // Appending through a mutable borrow: the caller's binding stays
    // valid and shows the mutation.
    let mut borrowed: String = String::from_str("hello");
    lines.push(borrowed.clone());
    append_borrow(&mut borrowed, " and good bye");
    proof {
        assert(borrowed@ =~= "hello and good bye"@);
    }
    lines.push(borrowed);

    // The ten closure results on one line.
    let outputs = closure_outputs();
    let closure_line = numbers_line(&outputs);
    proof {
        reveal_strlit("1 2 3 4 5 6 7 8 9 10 ");
        reveal_with_fuel(crate::render::spec_numbers_from, 12);
        reveal_with_fuel(crate::decimal::spec_decimal, 3);
        assert(closure_line@ =~= "1 2 3 4 5 6 7 8 9 10 "@);
    }
    lines.push(closure_line);

    // One binding over the animal capability, a person first, a dog
    // second: each call reads the name of whatever the binding holds.
    let person = Person { name: String::from_str("John") };
    let dog = Dog { name: String::from_str("Puppy") };
    lines.push(say_name(&person).clone());
    lines.push(say_name(&dog).clone());

    lines
}

} // verus!
