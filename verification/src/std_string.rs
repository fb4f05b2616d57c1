//! Contracts for methods of `std::string::String` that vstd leaves without one.
//!
//! Verus takes these on trust: they restate the standard library's
//! documentation and are not proved.

use vstd::prelude::*;

verus! {

/// `String::clear` of the standard library. Its documentation says that it
/// truncates the string and removes all contents; the contract says as much:
/// after the call the string holds no character.
pub assume_specification[ String::clear ](s: &mut String)
    ensures
        final(s)@ == Seq::<char>::empty(),
;

} // verus!
