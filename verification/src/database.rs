//! Predicates that decide which fields of the database models are left out
//! when a model is serialised.
use vstd::prelude::*;

verus! {

/// Whether a flag is left out of a serialised model: exactly when it is `false`.
pub open spec fn skips_flag(t: bool) -> bool {
    !t
}

/// Whether an optional flag is left out of a serialised model: exactly when it
/// is not an explicit `Some(true)`.
pub open spec fn skips_optional_flag(t: Option<bool>) -> bool {
    t != Some(true)
}

/// Returns true if the value is `false`.
pub fn if_false(t: &bool) -> (r: bool)
    ensures
        r == skips_flag(*t),
{
    !*t
}

/// Returns true if the option is not `Some(true)`.
pub fn if_option_false(t: &Option<bool>) -> (r: bool)
    ensures
        r == skips_optional_flag(*t),
{
    match t {
        Some(true) => false,
        _ => true,
    }
}

/// An optional flag that is present is left out exactly when the plain flag
/// with the same value would be; an absent one is always left out.
pub proof fn lemma_optional_flag_agrees_with_flag(b: bool)
    ensures
        skips_optional_flag(Some(b)) == skips_flag(b),
        skips_optional_flag(None),
{
}

} // verus!
