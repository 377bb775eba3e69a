//! Comparison of names, and the types that formatting goes through.

use vstd::prelude::*;

verus! {

/// `str`'s `==`: two string slices are equal exactly when they hold the same
/// characters.
#[verifier::external_body]
pub(crate) fn same_text(a: &str, b: &str) -> (same: bool)
    ensures
        same == (a@ == b@),
{
    a == b
}

#[verifier::external_type_specification]
#[verifier::external_body]
pub struct ExFormatter<'a>(core::fmt::Formatter<'a>);

#[verifier::external_type_specification]
#[verifier::external_body]
pub struct ExFmtError(core::fmt::Error);

/// `core::fmt::Formatter::debug_struct`, for a struct that shows a name and
/// a frequency: writes the struct's name and the two fields.
#[verifier::external_body]
pub(crate) fn write_name_and_frequency(
    f: &mut core::fmt::Formatter<'_>,
    title: &str,
    name: &str,
    frequency: u32,
) -> (result: core::fmt::Result) {
    f.debug_struct(title).field("name", &name).field("frequency", &frequency).finish()
}

} // verus!
