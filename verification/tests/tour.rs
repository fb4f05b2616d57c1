use ownership_demo::tour::{
    basic_ownership, immutable_references, mutable_references, ownership_with_functions,
    practical_example, references_and_borrowing, returning_ownership, run, string_slices,
    summary, title, transfer_of_ownership,
};

const EXPECTED: &str = "\
========================================
RUST OWNERSHIP AND BORROWING DEMO
========================================
This program demonstrates Rust's ownership and borrowing concepts
through a series of practical examples.

SECTION 1: BASIC OWNERSHIP
------------------------------------------
Example 1: Transfer of ownership
  Created s1: hello
  Ownership transferred to s2: hello
  Note: We can't use s1 anymore as it no longer owns the String
  Variables s1 and s2 are now out of scope, memory is automatically freed

Example 2: Ownership with functions
  Created string s: hello world
  Function received ownership of: hello world
  Note: We can't use s anymore as its ownership was transferred to the function

  Created integer x: 5
  Function received a copy of: 5
  We can still use x after passing it to a function: 5
  Note: This is because primitive types like integers implement the Copy trait

Example 3: Returning ownership
  Function created a string: yours
  Received ownership of string: yours
  Created s2: hello
  Function received ownership of: hello
  Transferred s2 to function and received it back as s3: hello
  Note: s2 is no longer valid as ownership was transferred
  s1 and s3 go out of scope and are dropped, freeing memory

SECTION 2: REFERENCES AND BORROWING
------------------------------------------
Example 1: Immutable references (borrowing)
  Created string s1: hello
  Length of 'hello' is 5 characters
  Note: We can still use s1 here because we only passed a reference to the function

Example 2: Mutable references
  Created mutable string s: hello
  After change, s is now: hello, world
  Note: We were able to modify s through a mutable reference

  Restriction: Only one mutable reference to a particular piece of data in a particular scope
  Created mutable string s: multiple
  Created mutable reference r1 to s
  Can't create another mutable reference while r1 exists
  Using r1: multiple

  Restriction: Cannot have mutable and immutable references in the same scope
  Created mutable string s: hello
  Two immutable references: hello and hello
  Can't create a mutable reference while immutable references exist

SECTION 3: SLICES
------------------------------------------
Example: String slices
  Created string s: hello world
  Created slices: 'hello' and 'world'
  Note: Slices are references to a portion of the String
  This means they don't take ownership of the data

SECTION 4: PRACTICAL EXAMPLE
------------------------------------------
  Original text: The quick brown fox jumps over the lazy dog
  First word: The

  Demonstrating how borrowing prevents data races:
  Created mutable text: Hello world
  First word reference: Hello
  Can't modify mutable_text while word reference exists
  This prevents a data race where word would be pointing to invalid memory
  Using word: Hello
  After word is no longer used, we can modify text: ''

========================================
SUMMARY
========================================
1. Each value in Rust has a single owner.
2. When the owner goes out of scope, the value is dropped.
3. You can transfer ownership by assigning or passing a value.
4. References allow you to access a value without taking ownership.
5. Immutable references (&T) allow reading but not modification.
6. Mutable references (&mut T) allow modification but come with restrictions:
   - Only one mutable reference at a time
   - Cannot have mutable and immutable references simultaneously
7. Slices are references to portions of collections.
8. Rust's ownership system prevents memory safety issues at compile time.
";

fn printed(lines: &[String]) -> String {
    let mut text = String::new();
    for line in lines {
        text.push_str(line);
        text.push('\n');
    }
    text
}

fn written_by(part: fn(&mut Vec<String>)) -> Vec<String> {
    let mut out: Vec<String> = Vec::new();
    part(&mut out);
    out
}

#[test]
fn the_walk_prints_the_expected_text() {
    assert_eq!(printed(&run()), EXPECTED);
}

#[test]
fn the_walk_has_the_expected_lines() {
    let lines = run();
    let expected: Vec<&str> = EXPECTED.lines().collect();
    assert_eq!(lines.len(), 90);
    assert_eq!(lines, expected);
}

#[test]
fn the_walk_is_the_same_on_every_run() {
    let first = run();
    let second = run();
    assert_eq!(first, second);
}

#[test]
fn no_line_holds_a_line_break() {
    for line in run() {
        assert!(!line.contains('\n'));
        assert!(!line.contains('\r'));
    }
}

#[test]
fn the_walk_is_its_parts_in_order() {
    let mut out: Vec<String> = Vec::new();
    title(&mut out);
    basic_ownership(&mut out);
    references_and_borrowing(&mut out);
    string_slices(&mut out);
    practical_example(&mut out);
    summary(&mut out);
    assert_eq!(out, run());
}

#[test]
fn a_part_keeps_the_lines_before_it() {
    let mut out: Vec<String> = vec![String::from("earlier line")];
    summary(&mut out);
    assert_eq!(out[0], "earlier line");
    assert_eq!(out.len(), 15);
    assert_eq!(out[1], "");
    assert_eq!(out[3], "SUMMARY");
}

#[test]
fn title_lines() {
    assert_eq!(
        written_by(title),
        vec![
            "========================================",
            "RUST OWNERSHIP AND BORROWING DEMO",
            "========================================",
            "This program demonstrates Rust's ownership and borrowing concepts",
            "through a series of practical examples.",
            "",
        ]
    );
}

#[test]
fn transfer_of_ownership_lines() {
    assert_eq!(
        written_by(transfer_of_ownership),
        vec![
            "Example 1: Transfer of ownership",
            "  Created s1: hello",
            "  Ownership transferred to s2: hello",
            "  Note: We can't use s1 anymore as it no longer owns the String",
            "  Variables s1 and s2 are now out of scope, memory is automatically freed",
            "",
        ]
    );
}

#[test]
fn ownership_with_functions_lines() {
    assert_eq!(
        written_by(ownership_with_functions),
        vec![
            "Example 2: Ownership with functions",
            "  Created string s: hello world",
            "  Function received ownership of: hello world",
            "  Note: We can't use s anymore as its ownership was transferred to the function",
            "",
            "  Created integer x: 5",
            "  Function received a copy of: 5",
            "  We can still use x after passing it to a function: 5",
            "  Note: This is because primitive types like integers implement the Copy trait",
            "",
        ]
    );
}

#[test]
fn returning_ownership_lines() {
    assert_eq!(
        written_by(returning_ownership),
        vec![
            "Example 3: Returning ownership",
            "  Function created a string: yours",
            "  Received ownership of string: yours",
            "  Created s2: hello",
            "  Function received ownership of: hello",
            "  Transferred s2 to function and received it back as s3: hello",
            "  Note: s2 is no longer valid as ownership was transferred",
            "  s1 and s3 go out of scope and are dropped, freeing memory",
            "",
        ]
    );
}

#[test]
fn basic_ownership_is_heading_and_three_examples() {
    let mut expected: Vec<String> = vec![
        String::from("SECTION 1: BASIC OWNERSHIP"),
        String::from("------------------------------------------"),
    ];
    transfer_of_ownership(&mut expected);
    ownership_with_functions(&mut expected);
    returning_ownership(&mut expected);
    assert_eq!(written_by(basic_ownership), expected);
    assert_eq!(expected.len(), 27);
}

#[test]
fn immutable_references_lines() {
    assert_eq!(
        written_by(immutable_references),
        vec![
            "Example 1: Immutable references (borrowing)",
            "  Created string s1: hello",
            "  Length of 'hello' is 5 characters",
            "  Note: We can still use s1 here because we only passed a reference to the function",
            "",
        ]
    );
}

#[test]
fn mutable_references_lines() {
    assert_eq!(
        written_by(mutable_references),
        vec![
            "Example 2: Mutable references",
            "  Created mutable string s: hello",
            "  After change, s is now: hello, world",
            "  Note: We were able to modify s through a mutable reference",
            "",
            "  Restriction: Only one mutable reference to a particular piece of data in a particular scope",
            "  Created mutable string s: multiple",
            "  Created mutable reference r1 to s",
            "  Can't create another mutable reference while r1 exists",
            "  Using r1: multiple",
            "",
            "  Restriction: Cannot have mutable and immutable references in the same scope",
            "  Created mutable string s: hello",
            "  Two immutable references: hello and hello",
            "  Can't create a mutable reference while immutable references exist",
            "",
        ]
    );
}

#[test]
fn references_and_borrowing_is_heading_and_two_examples() {
    let mut expected: Vec<String> = vec![
        String::from("SECTION 2: REFERENCES AND BORROWING"),
        String::from("------------------------------------------"),
    ];
    immutable_references(&mut expected);
    mutable_references(&mut expected);
    assert_eq!(written_by(references_and_borrowing), expected);
    assert_eq!(expected.len(), 23);
}

#[test]
fn string_slices_lines() {
    assert_eq!(
        written_by(string_slices),
        vec![
            "SECTION 3: SLICES",
            "------------------------------------------",
            "Example: String slices",
            "  Created string s: hello world",
            "  Created slices: 'hello' and 'world'",
            "  Note: Slices are references to a portion of the String",
            "  This means they don't take ownership of the data",
            "",
        ]
    );
}

#[test]
fn practical_example_lines() {
    assert_eq!(
        written_by(practical_example),
        vec![
            "SECTION 4: PRACTICAL EXAMPLE",
            "------------------------------------------",
            "  Original text: The quick brown fox jumps over the lazy dog",
            "  First word: The",
            "",
            "  Demonstrating how borrowing prevents data races:",
            "  Created mutable text: Hello world",
            "  First word reference: Hello",
            "  Can't modify mutable_text while word reference exists",
            "  This prevents a data race where word would be pointing to invalid memory",
            "  Using word: Hello",
            "  After word is no longer used, we can modify text: ''",
        ]
    );
}

#[test]
fn the_cleared_text_is_shown_empty() {
    let lines = written_by(practical_example);
    assert_eq!(
        lines.last().map(String::as_str),
        Some("  After word is no longer used, we can modify text: ''")
    );
}

#[test]
fn summary_lines() {
    assert_eq!(
        written_by(summary),
        vec![
            "",
            "========================================",
            "SUMMARY",
            "========================================",
            "1. Each value in Rust has a single owner.",
            "2. When the owner goes out of scope, the value is dropped.",
            "3. You can transfer ownership by assigning or passing a value.",
            "4. References allow you to access a value without taking ownership.",
            "5. Immutable references (&T) allow reading but not modification.",
            "6. Mutable references (&mut T) allow modification but come with restrictions:",
            "   - Only one mutable reference at a time",
            "   - Cannot have mutable and immutable references simultaneously",
            "7. Slices are references to portions of collections.",
            "8. Rust's ownership system prevents memory safety issues at compile time.",
        ]
    );
}
