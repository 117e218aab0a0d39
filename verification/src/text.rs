//! Text carried by owned strings, and conversions from literals.

use vstd::prelude::*;

verus! {

/// `String::from` on a string slice: the owned string holds the same
/// characters.
pub assume_specification<'a>[ <String as From<&'a str>>::from ](s: &str) -> (r: String)
    ensures
        r@ == s@,
;

/// `T::from` on a `T`, the conversion of a value into its own type: the value
/// is returned unchanged.
pub assume_specification<T>[ <T as From<T>>::from ](value: T) -> (r: T)
    ensures
        r == value,
;

/// The characters of each string, in order.
pub open spec fn texts(strings: Seq<String>) -> Seq<Seq<char>> {
    strings.map_values(|s: String| s@)
}

/// The characters of an optional owned string.
pub open spec fn optional_text(s: Option<String>) -> Option<Seq<char>> {
    match s {
        Some(s) => Some(s@),
        None => None,
    }
}

/// The characters of an optional string slice.
pub open spec fn optional_slice_text(s: Option<&str>) -> Option<Seq<char>> {
    match s {
        Some(s) => Some(s@),
        None => None,
    }
}

/// Takes ownership of an optional string slice.
pub fn owned(s: Option<&str>) -> (r: Option<String>)
    ensures
        optional_text(r) == optional_slice_text(s),
{
    match s {
        Some(s) => Some(String::from(s)),
        None => None,
    }
}

} // verus!
