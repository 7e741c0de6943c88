use vstd::prelude::*;

use heck::{ToSnakeCase, ToUpperCamelCase};

verus! {

/// The snake_case form of a text, as the case-conversion crate defines
/// it: a pure function of the characters alone.
pub uninterp spec fn snake_of(s: Seq<char>) -> Seq<char>;

/// The UpperCamelCase form of a text, as the case-conversion crate
/// defines it: a pure function of the characters alone.
pub uninterp spec fn camel_of(s: Seq<char>) -> Seq<char>;

/// Relies on heck's `str::to_snake_case`: lowercases and separates the
/// words of the input with underscores, deterministically from the
/// characters alone.
#[verifier::external_body]
pub fn to_snake_case(s: &str) -> (r: String)
    ensures
        r@ == snake_of(s@),
{
    ToSnakeCase::to_snake_case(s)
}

/// Relies on heck's `str::to_upper_camel_case`: capitalizes the words
/// of the input and removes the separators, deterministically from the
/// characters alone.
#[verifier::external_body]
pub fn to_upper_camel_case(s: &str) -> (r: String)
    ensures
        r@ == camel_of(s@),
{
    ToUpperCamelCase::to_upper_camel_case(s)
}

} // verus!
