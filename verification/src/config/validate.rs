//! Checking one field of a configuration against its default value.

use vstd::prelude::*;
use vstd::std_specs::cmp::PartialEqSpec;

verus! {

/// Clears `result` when `field` differs from `def_value`: a field that must
/// keep its default value was set to another one.
pub fn validate_field<T: PartialEq>(result: &mut bool, field: &T, def_value: &T)
    ensures
        T::obeys_eq_spec() ==> *final(result) == (*old(result) && field.eq_spec(def_value)),
        *final(result) ==> *old(result),
{
    if field != def_value {
        *result = false;
    }
}

/// Adds `name` to `offending` when `field` differs from `def_value`.
pub(crate) fn note_field<T: PartialEq>(
    offending: &mut Vec<&'static str>,
    name: &'static str,
    field: &T,
    def_value: &T,
)
    ensures
        T::obeys_eq_spec() ==> final(offending)@ == if field.eq_spec(def_value) {
            old(offending)@
        } else {
            old(offending)@.push(name)
        },
{
    if field != def_value {
        offending.push(name);
    }
}

} // verus!
