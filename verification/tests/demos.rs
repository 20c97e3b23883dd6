use lang_demo::animals::{Animal, Dog, Person};
use lang_demo::animals::say_name;
use lang_demo::closures::closure_outputs;
use lang_demo::decimal::{i32_to_string, u32_to_string};
use lang_demo::greetings::{hello, hello_world};
use lang_demo::render::{compact_listing, numbers_line, pretty_listing_lines};
use lang_demo::text::{append, append_borrow};
use lang_demo::transcript::transcript;

#[test]
fn hello_returns_greeting() {
    assert_eq!(hello(), "hello");
}

#[test]
fn hello_world_returns_both_lines() {
    let lines = hello_world();
    assert_eq!(lines, vec!["hello".to_string(), "hello world".to_string()]);
}

#[test]
fn append_by_value_returns_combined() {
    let mut hello_text: String = "hello".to_string();
    // The call takes ownership of the binding; reassigning the result is
    // the only way to keep using the same name.
    hello_text = append(hello_text, " and good bye");
    assert_eq!(hello_text, "hello and good bye");
}

#[test]
fn append_by_value_with_shadowing() {
    let hello_text: String = "hello".to_string();
    let hello_text = append(hello_text, " and good bye");
    assert_eq!(hello_text, "hello and good bye");
}

#[test]
fn append_borrow_mutates_in_place() {
    let mut hello_text: String = "hello".to_string();
    append_borrow(&mut hello_text, " and good bye");
    assert_eq!(hello_text, "hello and good bye");
}

#[test]
fn closure_outputs_are_index_plus_one() {
    let outputs = closure_outputs();
    assert_eq!(outputs, vec![1, 2, 3, 4, 5, 6, 7, 8, 9, 10]);
    for (i, out) in outputs.iter().enumerate() {
        assert_eq!(*out, i as i32 + 1);
    }
}

#[test]
fn animal_binding_resolves_to_current_kind() {
    let person = Person {
        name: "John".to_string(),
    };
    let dog = Dog {
        name: "Puppy".to_string(),
    };

    let mut animal: &dyn Animal;

    animal = &person;
    assert_eq!(animal.name().as_str(), "John");

    animal = &dog;
    assert_eq!(animal.name().as_str(), "Puppy");
}

#[test]
fn say_name_reads_each_kind() {
    let person = Person {
        name: "John".to_string(),
    };
    let dog = Dog {
        name: "Puppy".to_string(),
    };
    assert_eq!(say_name(&person).as_str(), "John");
    assert_eq!(say_name(&dog).as_str(), "Puppy");
}

#[test]
fn decimal_of_small_and_large_numbers() {
    assert_eq!(u32_to_string(0), "0");
    assert_eq!(u32_to_string(7), "7");
    assert_eq!(u32_to_string(10), "10");
    assert_eq!(u32_to_string(4294967295), "4294967295");
}

#[test]
fn decimal_of_signed_numbers() {
    assert_eq!(i32_to_string(0), "0");
    assert_eq!(i32_to_string(10), "10");
    assert_eq!(i32_to_string(-1), "-1");
    assert_eq!(i32_to_string(2147483647), "2147483647");
    assert_eq!(i32_to_string(-2147483648), "-2147483648");
}

#[test]
fn compact_listing_matches_debug_format() {
    let v: Vec<i32> = vec![0, 1, 2, 3, 4];
    assert_eq!(compact_listing(&v), format!("{:?}", v));
    assert_eq!(compact_listing(&v), "[0, 1, 2, 3, 4]");
}

#[test]
fn compact_listing_of_empty_and_single() {
    assert_eq!(compact_listing(&vec![]), "[]");
    assert_eq!(compact_listing(&vec![5]), "[5]");
    assert_eq!(compact_listing(&vec![-3, 12]), "[-3, 12]");
}

#[test]
fn pretty_listing_has_one_indented_element_per_line() {
    let v: Vec<i32> = vec![0, 1, 2, 3, 4];
    let lines = pretty_listing_lines(&v);
    let expected: Vec<String> = format!("{:#?}", v).lines().map(|s| s.to_string()).collect();
    assert_eq!(lines, expected);
    assert_eq!(
        lines,
        vec![
            "[".to_string(),
            "    0,".to_string(),
            "    1,".to_string(),
            "    2,".to_string(),
            "    3,".to_string(),
            "    4,".to_string(),
            "]".to_string(),
        ]
    );
}

#[test]
fn numbers_line_has_trailing_space() {
    assert_eq!(numbers_line(&vec![1, 2, 3]), "1 2 3 ");
    assert_eq!(numbers_line(&vec![]), "");
}

#[test]
fn transcript_matches_fixed_lines() {
    let expected = vec![
        "hello",
        "hello world",
        "a = 10",
        "b = 10",
        "b = hi",
        "[0, 1, 2, 3, 4]",
        "[",
        "    0,",
        "    1,",
        "    2,",
        "    3,",
        "    4,",
        "]",
        "unwrapped value = 10",
        "hello",
        "hello and good bye",
        "hello",
        "hello and good bye",
        "hello",
        "hello and good bye",
        "1 2 3 4 5 6 7 8 9 10 ",
        "John",
        "Puppy",
    ];
    let lines = transcript();
    assert_eq!(lines.len(), expected.len());
    for (line, want) in lines.iter().zip(expected.iter()) {
        assert_eq!(line, want);
    }
}
