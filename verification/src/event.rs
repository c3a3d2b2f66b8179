//! Keyboard-level notions shared by the configuration.

use vstd::prelude::*;
use vstd::std_specs::cmp::PartialEqSpecImpl;

verus! {

/// A modifier key, used as the key that toggles the expander on and off.
#[derive(Debug, Clone, Copy, Eq)]
pub enum KeyModifier {
    CTRL,
    SHIFT,
    ALT,
    META,
    BACKSPACE,
}

impl PartialEq for KeyModifier {
    fn eq(&self, other: &Self) -> (r: bool) {
        match (*self, *other) {
            (KeyModifier::CTRL, KeyModifier::CTRL) => true,
            (KeyModifier::SHIFT, KeyModifier::SHIFT) => true,
            (KeyModifier::ALT, KeyModifier::ALT) => true,
            (KeyModifier::META, KeyModifier::META) => true,
            (KeyModifier::BACKSPACE, KeyModifier::BACKSPACE) => true,
            _ => false,
        }
    }
}

impl PartialEqSpecImpl for KeyModifier {
    open spec fn obeys_eq_spec() -> bool {
        true
    }

    open spec fn eq_spec(&self, other: &Self) -> bool {
        *self == *other
    }
}

impl Default for KeyModifier {
    /// The toggle key is ALT unless a configuration says otherwise.
    fn default() -> (k: KeyModifier)
        ensures
            k == KeyModifier::ALT,
    {
        KeyModifier::ALT
    }
}

} // verus!
