//! The walk itself: what is shown, in the order in which it is shown.
//!
//! Every part adds its lines to `out`. Beside each part stands a spec function
//! with the text that the part writes; the part's contract says that it adds
//! exactly that text.

use crate::borrowing::{calculate_length, change};
use crate::console::{put, put_labelled, put_line};
use crate::decimal::{decimal, digits, signed_decimal, unsigned_decimal};
use crate::ownership::{gives_ownership, makes_copy, takes_and_gives_back, takes_ownership};
use crate::slices::{get_first_word, lemma_first_word_unique};
use vstd::prelude::*;
use vstd::string::*;

verus! {

/// The lines of the title.
pub open spec fn title_text() -> Seq<Seq<char>> {
    seq![
        "========================================"@,
        "RUST OWNERSHIP AND BORROWING DEMO"@,
        "========================================"@,
        "This program demonstrates Rust's ownership and borrowing concepts"@,
        "through a series of practical examples."@,
        ""@,
    ]
}

/// Writes the title.
pub fn title(out: &mut Vec<String>)
    ensures
        final(out).deep_view() == old(out).deep_view() + title_text(),
{
    put_line(out, "========================================");
    put_line(out, "RUST OWNERSHIP AND BORROWING DEMO");
    put_line(out, "========================================");
    put_line(out, "This program demonstrates Rust's ownership and borrowing concepts");
    put_line(out, "through a series of practical examples.");
    put_line(out, "");
    assert(out.deep_view() =~= old(out).deep_view() + title_text());
}

/// The lines on a string that moves from one variable to another.
pub open spec fn transfer_of_ownership_text() -> Seq<Seq<char>> {
    seq![
        "Example 1: Transfer of ownership"@,
        "  Created s1: hello"@,
        "  Ownership transferred to s2: hello"@,
        "  Note: We can't use s1 anymore as it no longer owns the String"@,
        "  Variables s1 and s2 are now out of scope, memory is automatically freed"@,
        ""@,
    ]
}

/// Moves a string from `s1` to `s2` and shows it before and after.
pub fn transfer_of_ownership(out: &mut Vec<String>)
    ensures
        final(out).deep_view() == old(out).deep_view() + transfer_of_ownership_text(),
{
    put_line(out, "Example 1: Transfer of ownership");
    {
        let s1 = String::from_str("hello");
        put_labelled(out, "  Created s1: ", s1.as_str());
        let s2 = s1;
        put_labelled(out, "  Ownership transferred to s2: ", s2.as_str());
        put_line(out, "  Note: We can't use s1 anymore as it no longer owns the String");
    }
    put_line(out, "  Variables s1 and s2 are now out of scope, memory is automatically freed");
    put_line(out, "");
    proof {
        reveal_strlit("hello");
        reveal_strlit("  Created s1: ");
        reveal_strlit("  Created s1: hello");
        reveal_strlit("  Ownership transferred to s2: ");
        reveal_strlit("  Ownership transferred to s2: hello");
        assert("  Created s1: "@ + "hello"@ =~= "  Created s1: hello"@);
        assert("  Ownership transferred to s2: "@ + "hello"@
            =~= "  Ownership transferred to s2: hello"@);
        assert(out.deep_view() =~= old(out).deep_view() + transfer_of_ownership_text());
    }
}

/// The lines on values that are passed to functions.
pub open spec fn ownership_with_functions_text() -> Seq<Seq<char>> {
    seq![
        "Example 2: Ownership with functions"@,
        "  Created string s: hello world"@,
        "  Function received ownership of: hello world"@,
        "  Note: We can't use s anymore as its ownership was transferred to the function"@,
        ""@,
        "  Created integer x: 5"@,
        "  Function received a copy of: 5"@,
        "  We can still use x after passing it to a function: 5"@,
        "  Note: This is because primitive types like integers implement the Copy trait"@,
        ""@,
    ]
}

/// Passes a string to a function, which takes it for good, and an integer,
/// which is copied and stays usable.
pub fn ownership_with_functions(out: &mut Vec<String>)
    ensures
        final(out).deep_view() == old(out).deep_view() + ownership_with_functions_text(),
{
    put_line(out, "Example 2: Ownership with functions");
    {
        let s = String::from_str("hello world");
        put_labelled(out, "  Created string s: ", s.as_str());
        takes_ownership(s, out);
        put_line(
            out,
            "  Note: We can't use s anymore as its ownership was transferred to the function",
        );
        put_line(out, "");
        let x: i32 = 5;
        put_labelled(out, "  Created integer x: ", signed_decimal(x as i64).as_str());
        makes_copy(x, out);
        put_labelled(
            out,
            "  We can still use x after passing it to a function: ",
            signed_decimal(x as i64).as_str(),
        );
        put_line(
            out,
            "  Note: This is because primitive types like integers implement the Copy trait",
        );
    }
    put_line(out, "");
    proof {
        reveal_strlit("hello world");
        reveal_strlit("  Created string s: ");
        reveal_strlit("  Created string s: hello world");
        reveal_strlit("  Function received ownership of: ");
        reveal_strlit("  Function received ownership of: hello world");
        reveal_strlit("  Created integer x: ");
        reveal_strlit("  Created integer x: 5");
        reveal_strlit("  Function received a copy of: ");
        reveal_strlit("  Function received a copy of: 5");
        reveal_strlit("  We can still use x after passing it to a function: ");
        reveal_strlit("  We can still use x after passing it to a function: 5");
        assert("  Created string s: "@ + "hello world"@ =~= "  Created string s: hello world"@);
        assert("  Function received ownership of: "@ + "hello world"@
            =~= "  Function received ownership of: hello world"@);
        assert("  Created integer x: "@ + decimal(5) =~= "  Created integer x: 5"@);
        assert("  Function received a copy of: "@ + decimal(5)
            =~= "  Function received a copy of: 5"@);
        assert("  We can still use x after passing it to a function: "@ + decimal(5)
            =~= "  We can still use x after passing it to a function: 5"@);
        assert(out.deep_view() =~= old(out).deep_view() + ownership_with_functions_text());
    }
}

/// The lines on strings that functions hand back.
pub open spec fn returning_ownership_text() -> Seq<Seq<char>> {
    seq![
        "Example 3: Returning ownership"@,
        "  Function created a string: yours"@,
        "  Received ownership of string: yours"@,
        "  Created s2: hello"@,
        "  Function received ownership of: hello"@,
        "  Transferred s2 to function and received it back as s3: hello"@,
        "  Note: s2 is no longer valid as ownership was transferred"@,
        "  s1 and s3 go out of scope and are dropped, freeing memory"@,
        ""@,
    ]
}

/// Receives a string that a function made, and sends another through a
/// function and gets it back.
pub fn returning_ownership(out: &mut Vec<String>)
    ensures
        final(out).deep_view() == old(out).deep_view() + returning_ownership_text(),
{
    put_line(out, "Example 3: Returning ownership");
    {
        let s1 = gives_ownership(out);
        put_labelled(out, "  Received ownership of string: ", s1.as_str());
        let s2 = String::from_str("hello");
        put_labelled(out, "  Created s2: ", s2.as_str());
        let s3 = takes_and_gives_back(s2, out);
        put_labelled(
            out,
            "  Transferred s2 to function and received it back as s3: ",
            s3.as_str(),
        );
        put_line(out, "  Note: s2 is no longer valid as ownership was transferred");
    }
    put_line(out, "  s1 and s3 go out of scope and are dropped, freeing memory");
    put_line(out, "");
    proof {
        reveal_strlit("yours");
        reveal_strlit("hello");
        reveal_strlit("  Function created a string: ");
        reveal_strlit("  Function created a string: yours");
        reveal_strlit("  Received ownership of string: ");
        reveal_strlit("  Received ownership of string: yours");
        reveal_strlit("  Created s2: ");
        reveal_strlit("  Created s2: hello");
        reveal_strlit("  Function received ownership of: ");
        reveal_strlit("  Function received ownership of: hello");
        reveal_strlit("  Transferred s2 to function and received it back as s3: ");
        reveal_strlit("  Transferred s2 to function and received it back as s3: hello");
        assert("  Function created a string: "@ + "yours"@
            =~= "  Function created a string: yours"@);
        assert("  Received ownership of string: "@ + "yours"@
            =~= "  Received ownership of string: yours"@);
        assert("  Created s2: "@ + "hello"@ =~= "  Created s2: hello"@);
        assert("  Function received ownership of: "@ + "hello"@
            =~= "  Function received ownership of: hello"@);
        assert("  Transferred s2 to function and received it back as s3: "@ + "hello"@
            =~= "  Transferred s2 to function and received it back as s3: hello"@);
        assert(out.deep_view() =~= old(out).deep_view() + returning_ownership_text());
    }
}

/// The lines of the part on ownership.
pub open spec fn basic_ownership_text() -> Seq<Seq<char>> {
    seq!["SECTION 1: BASIC OWNERSHIP"@, "------------------------------------------"@]
        + transfer_of_ownership_text() + ownership_with_functions_text()
        + returning_ownership_text()
}

/// Writes the part on ownership: its heading and its three examples.
pub fn basic_ownership(out: &mut Vec<String>)
    ensures
        final(out).deep_view() == old(out).deep_view() + basic_ownership_text(),
{
    put_line(out, "SECTION 1: BASIC OWNERSHIP");
    put_line(out, "------------------------------------------");
    transfer_of_ownership(out);
    ownership_with_functions(out);
    returning_ownership(out);
    assert(out.deep_view() =~= old(out).deep_view() + basic_ownership_text());
}

/// The lines on reading a string through a shared reference.
pub open spec fn immutable_references_text() -> Seq<Seq<char>> {
    seq![
        "Example 1: Immutable references (borrowing)"@,
        "  Created string s1: hello"@,
        "  Length of 'hello' is 5 characters"@,
        "  Note: We can still use s1 here because we only passed a reference to the function"@,
        ""@,
    ]
}

/// Lends a string to a function that measures it, and uses the string again.
pub fn immutable_references(out: &mut Vec<String>)
    ensures
        final(out).deep_view() == old(out).deep_view() + immutable_references_text(),
{
    put_line(out, "Example 1: Immutable references (borrowing)");
    {
        let s1 = String::from_str("hello");
        put_labelled(out, "  Created string s1: ", s1.as_str());
        proof {
            reveal_strlit("hello");
        }
        let len = calculate_length(&s1);
        let mut line = String::from_str("  Length of '");
        line.append(s1.as_str());
        line.append("' is ");
        line.append(unsigned_decimal(len as u64).as_str());
        line.append(" characters");
        put(out, line);
        put_line(
            out,
            "  Note: We can still use s1 here because we only passed a reference to the function",
        );
    }
    put_line(out, "");
    proof {
        reveal_strlit("  Created string s1: ");
        reveal_strlit("  Created string s1: hello");
        reveal_strlit("  Length of '");
        reveal_strlit("' is ");
        reveal_strlit(" characters");
        reveal_strlit("  Length of 'hello' is 5 characters");
        assert("  Created string s1: "@ + "hello"@ =~= "  Created string s1: hello"@);
        assert("  Length of '"@ + "hello"@ + "' is "@ + digits(5) + " characters"@
            =~= "  Length of 'hello' is 5 characters"@);
        assert(out.deep_view() =~= old(out).deep_view() + immutable_references_text());
    }
}

/// The lines on changing a string through a mutable reference, and on what
/// may not stand beside such a reference.
pub open spec fn mutable_references_text() -> Seq<Seq<char>> {
    seq![
        "Example 2: Mutable references"@,
        "  Created mutable string s: hello"@,
        "  After change, s is now: hello, world"@,
        "  Note: We were able to modify s through a mutable reference"@,
        ""@,
        "  Restriction: Only one mutable reference to a particular piece of data in a particular scope"@,
        "  Created mutable string s: multiple"@,
        "  Created mutable reference r1 to s"@,
        "  Can't create another mutable reference while r1 exists"@,
        "  Using r1: multiple"@,
        ""@,
        "  Restriction: Cannot have mutable and immutable references in the same scope"@,
        "  Created mutable string s: hello"@,
        "  Two immutable references: hello and hello"@,
        "  Can't create a mutable reference while immutable references exist"@,
        ""@,
    ]
}

/// Lets a function change a string through `&mut`, then holds one mutable
/// reference alone, and two shared references side by side.
pub fn mutable_references(out: &mut Vec<String>)
    ensures
        final(out).deep_view() == old(out).deep_view() + mutable_references_text(),
{
    put_line(out, "Example 2: Mutable references");
    {
        let mut s = String::from_str("hello");
        put_labelled(out, "  Created mutable string s: ", s.as_str());
        change(&mut s);
        put_labelled(out, "  After change, s is now: ", s.as_str());
        put_line(out, "  Note: We were able to modify s through a mutable reference");
        put_line(out, "");
        put_line(
            out,
            "  Restriction: Only one mutable reference to a particular piece of data in a particular scope",
        );
        {
            let mut s = String::from_str("multiple");
            put_labelled(out, "  Created mutable string s: ", s.as_str());
            let r1 = &mut s;
            put_line(out, "  Created mutable reference r1 to s");
            put_line(out, "  Can't create another mutable reference while r1 exists");
            put_labelled(out, "  Using r1: ", r1.as_str());
        }
        put_line(out, "");
        put_line(
            out,
            "  Restriction: Cannot have mutable and immutable references in the same scope",
        );
        {
            let s = String::from_str("hello");
            put_labelled(out, "  Created mutable string s: ", s.as_str());
            let r1 = &s;
            let r2 = &s;
            let mut line = String::from_str("  Two immutable references: ");
            line.append(r1.as_str());
            line.append(" and ");
            line.append(r2.as_str());
            put(out, line);
            put_line(out, "  Can't create a mutable reference while immutable references exist");
        }
    }
    put_line(out, "");
    proof {
        reveal_strlit("hello");
        reveal_strlit(", world");
        reveal_strlit("multiple");
        reveal_strlit("  Created mutable string s: ");
        reveal_strlit("  Created mutable string s: hello");
        reveal_strlit("  After change, s is now: ");
        reveal_strlit("  After change, s is now: hello, world");
        reveal_strlit("  Created mutable string s: multiple");
        reveal_strlit("  Using r1: ");
        reveal_strlit("  Using r1: multiple");
        reveal_strlit("  Two immutable references: ");
        reveal_strlit(" and ");
        reveal_strlit("  Two immutable references: hello and hello");
        assert("  Created mutable string s: "@ + "hello"@ =~= "  Created mutable string s: hello"@);
        assert("  After change, s is now: "@ + ("hello"@ + ", world"@)
            =~= "  After change, s is now: hello, world"@);
        assert("  Created mutable string s: "@ + "multiple"@
            =~= "  Created mutable string s: multiple"@);
        assert("  Using r1: "@ + "multiple"@ =~= "  Using r1: multiple"@);
        assert("  Two immutable references: "@ + "hello"@ + " and "@ + "hello"@
            =~= "  Two immutable references: hello and hello"@);
        assert(out.deep_view() =~= old(out).deep_view() + mutable_references_text());
    }
}

/// The lines of the part on references.
pub open spec fn references_and_borrowing_text() -> Seq<Seq<char>> {
    seq!["SECTION 2: REFERENCES AND BORROWING"@, "------------------------------------------"@]
        + immutable_references_text() + mutable_references_text()
}

/// Writes the part on references: its heading and its two examples.
pub fn references_and_borrowing(out: &mut Vec<String>)
    ensures
        final(out).deep_view() == old(out).deep_view() + references_and_borrowing_text(),
{
    put_line(out, "SECTION 2: REFERENCES AND BORROWING");
    put_line(out, "------------------------------------------");
    immutable_references(out);
    mutable_references(out);
    assert(out.deep_view() =~= old(out).deep_view() + references_and_borrowing_text());
}

/// The lines on slices of a string.
pub open spec fn string_slices_text() -> Seq<Seq<char>> {
    seq![
        "SECTION 3: SLICES"@,
        "------------------------------------------"@,
        "Example: String slices"@,
        "  Created string s: hello world"@,
        "  Created slices: 'hello' and 'world'"@,
        "  Note: Slices are references to a portion of the String"@,
        "  This means they don't take ownership of the data"@,
        ""@,
    ]
}

/// Writes the part on slices: takes the two words of a string as slices of it.
pub fn string_slices(out: &mut Vec<String>)
    ensures
        final(out).deep_view() == old(out).deep_view() + string_slices_text(),
{
    put_line(out, "SECTION 3: SLICES");
    put_line(out, "------------------------------------------");
    put_line(out, "Example: String slices");
    {
        let s = String::from_str("hello world");
        put_labelled(out, "  Created string s: ", s.as_str());
        proof {
            reveal_strlit("hello world");
        }
        let hello = s.as_str().substring_ascii(0, 5);
        let world = s.as_str().substring_ascii(6, 11);
        let mut line = String::from_str("  Created slices: '");
        line.append(hello);
        line.append("' and '");
        line.append(world);
        line.append("'");
        put(out, line);
        put_line(out, "  Note: Slices are references to a portion of the String");
        put_line(out, "  This means they don't take ownership of the data");
    }
    put_line(out, "");
    proof {
        reveal_strlit("  Created string s: ");
        reveal_strlit("  Created string s: hello world");
        reveal_strlit("  Created slices: '");
        reveal_strlit("' and '");
        reveal_strlit("'");
        reveal_strlit("  Created slices: 'hello' and 'world'");
        assert("  Created string s: "@ + "hello world"@ =~= "  Created string s: hello world"@);
        assert("  Created slices: '"@ + "hello world"@.subrange(0, 5) + "' and '"@
            + "hello world"@.subrange(6, 11) + "'"@ =~= "  Created slices: 'hello' and 'world'"@);
        assert(out.deep_view() =~= old(out).deep_view() + string_slices_text());
    }
}

/// The lines on the first word of a text.
pub open spec fn practical_example_text() -> Seq<Seq<char>> {
    seq![
        "SECTION 4: PRACTICAL EXAMPLE"@,
        "------------------------------------------"@,
        "  Original text: The quick brown fox jumps over the lazy dog"@,
        "  First word: The"@,
        ""@,
        "  Demonstrating how borrowing prevents data races:"@,
        "  Created mutable text: Hello world"@,
        "  First word reference: Hello"@,
        "  Can't modify mutable_text while word reference exists"@,
        "  This prevents a data race where word would be pointing to invalid memory"@,
        "  Using word: Hello"@,
        "  After word is no longer used, we can modify text: ''"@,
    ]
}

/// Writes the part that puts slices to use: takes the first word of a text,
/// and clears a text only once the slice into it is no longer used.
pub fn practical_example(out: &mut Vec<String>)
    ensures
        final(out).deep_view() == old(out).deep_view() + practical_example_text(),
{
    put_line(out, "SECTION 4: PRACTICAL EXAMPLE");
    put_line(out, "------------------------------------------");
    {
        let text = String::from_str("The quick brown fox jumps over the lazy dog");
        put_labelled(out, "  Original text: ", text.as_str());
        let first = get_first_word(text.as_str());
        put_labelled(out, "  First word: ", first);
        put_line(out, "");
        put_line(out, "  Demonstrating how borrowing prevents data races:");
        let mut mutable_text = String::from_str("Hello world");
        put_labelled(out, "  Created mutable text: ", mutable_text.as_str());
        let word = get_first_word(mutable_text.as_str());
        put_labelled(out, "  First word reference: ", word);
        put_line(out, "  Can't modify mutable_text while word reference exists");
        put_line(
            out,
            "  This prevents a data race where word would be pointing to invalid memory",
        );
        put_labelled(out, "  Using word: ", word);
        mutable_text.clear();
        let mut line = String::from_str("  After word is no longer used, we can modify text: '");
        line.append(mutable_text.as_str());
        line.append("'");
        put(out, line);
    }
    proof {
        reveal_strlit("The quick brown fox jumps over the lazy dog");
        reveal_strlit("The");
        reveal_strlit("Hello world");
        reveal_strlit("Hello");
        assert("The"@ =~= "The quick brown fox jumps over the lazy dog"@.take(3));
        lemma_first_word_unique("The"@, "The quick brown fox jumps over the lazy dog"@);
        assert("Hello"@ =~= "Hello world"@.take(5));
        lemma_first_word_unique("Hello"@, "Hello world"@);
        reveal_strlit("  Original text: ");
        reveal_strlit("  Original text: The quick brown fox jumps over the lazy dog");
        reveal_strlit("  First word: ");
        reveal_strlit("  First word: The");
        reveal_strlit("  Created mutable text: ");
        reveal_strlit("  Created mutable text: Hello world");
        reveal_strlit("  First word reference: ");
        reveal_strlit("  First word reference: Hello");
        reveal_strlit("  Using word: ");
        reveal_strlit("  Using word: Hello");
        reveal_strlit("  After word is no longer used, we can modify text: '");
        reveal_strlit("'");
        reveal_strlit("  After word is no longer used, we can modify text: ''");
        assert("  Original text: "@ + "The quick brown fox jumps over the lazy dog"@
            =~= "  Original text: The quick brown fox jumps over the lazy dog"@);
        assert("  First word: "@ + "The"@ =~= "  First word: The"@);
        assert("  Created mutable text: "@ + "Hello world"@
            =~= "  Created mutable text: Hello world"@);
        assert("  First word reference: "@ + "Hello"@ =~= "  First word reference: Hello"@);
        assert("  Using word: "@ + "Hello"@ =~= "  Using word: Hello"@);
        assert("  After word is no longer used, we can modify text: '"@ + Seq::<char>::empty()
            + "'"@ =~= "  After word is no longer used, we can modify text: ''"@);
        assert(out.deep_view() =~= old(out).deep_view() + practical_example_text());
    }
}

/// The lines of the closing summary.
pub open spec fn summary_text() -> Seq<Seq<char>> {
    seq![
        ""@,
        "========================================"@,
        "SUMMARY"@,
        "========================================"@,
        "1. Each value in Rust has a single owner."@,
        "2. When the owner goes out of scope, the value is dropped."@,
        "3. You can transfer ownership by assigning or passing a value."@,
        "4. References allow you to access a value without taking ownership."@,
        "5. Immutable references (&T) allow reading but not modification."@,
        "6. Mutable references (&mut T) allow modification but come with restrictions:"@,
        "   - Only one mutable reference at a time"@,
        "   - Cannot have mutable and immutable references simultaneously"@,
        "7. Slices are references to portions of collections."@,
        "8. Rust's ownership system prevents memory safety issues at compile time."@,
    ]
}

/// Writes the closing summary.
pub fn summary(out: &mut Vec<String>)
    ensures
        final(out).deep_view() == old(out).deep_view() + summary_text(),
{
    put_line(out, "");
    put_line(out, "========================================");
    put_line(out, "SUMMARY");
    put_line(out, "========================================");
    put_line(out, "1. Each value in Rust has a single owner.");
    put_line(out, "2. When the owner goes out of scope, the value is dropped.");
    put_line(out, "3. You can transfer ownership by assigning or passing a value.");
    put_line(out, "4. References allow you to access a value without taking ownership.");
    put_line(out, "5. Immutable references (&T) allow reading but not modification.");
    put_line(out, "6. Mutable references (&mut T) allow modification but come with restrictions:");
    put_line(out, "   - Only one mutable reference at a time");
    put_line(out, "   - Cannot have mutable and immutable references simultaneously");
    put_line(out, "7. Slices are references to portions of collections.");
    put_line(out, "8. Rust's ownership system prevents memory safety issues at compile time.");
    assert(out.deep_view() =~= old(out).deep_view() + summary_text());
}

/// Every line of the walk, from the title to the summary.
pub open spec fn tour_text() -> Seq<Seq<char>> {
    title_text() + basic_ownership_text() + references_and_borrowing_text() + string_slices_text()
        + practical_example_text() + summary_text()
}

/// Runs the whole walk and returns its lines in the order in which they are
/// to be printed. The text is the same on every run.
pub fn run() -> (lines: Vec<String>)
    ensures
        lines.deep_view() == tour_text(),
{
    let mut out: Vec<String> = Vec::new();
    assert(out.deep_view() =~= Seq::<Seq<char>>::empty());
    title(&mut out);
    basic_ownership(&mut out);
    references_and_borrowing(&mut out);
    string_slices(&mut out);
    practical_example(&mut out);
    summary(&mut out);
    assert(out.deep_view() =~= tour_text());
    out
}

} // verus!
