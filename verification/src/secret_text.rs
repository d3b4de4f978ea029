//! Text that a user typed into a secret field.

use crate::protocol::Text;
use vstd::prelude::*;
use vstd::string::*;

verus! {

/// A phone number, login code, password, or API value on its way to the core.
/// The core copies it into the memory vault. It has no `Debug`, so it cannot
/// reach a log by accident.
pub struct SecretText {
    text: String,
}

impl SecretText {
    /// The typed text.
    pub closed spec fn value(self) -> Text {
        self.text@
    }

    /// Wrap a typed value.
    pub fn new(value: &str) -> (r: Self)
        ensures
            r.value() == value@,
    {
        SecretText { text: value.to_owned() }
    }

    /// The raw value. Do not log it, and do not keep it outside the vault.
    pub fn expose(&self) -> (r: &str)
        ensures
            r@ == self.value(),
    {
        self.text.as_str()
    }

    /// The raw value, without a copy.
    pub fn into_inner(self) -> (r: String)
        ensures
            r@ == self.value(),
    {
        self.text
    }

    /// True when the value holds no text.
    pub fn is_empty(&self) -> (r: bool)
        ensures
            r == (self.value().len() == 0),
    {
        self.text.as_str().is_empty()
    }

    /// What a log may show of any value.
    pub fn debug_text(&self) -> (r: &'static str)
        ensures
            r@ == "SecretText(<redacted>)"@,
    {
        "SecretText(<redacted>)"
    }
}

impl Clone for SecretText {
    fn clone(&self) -> (r: Self)
        ensures
            r.value() == self.value(),
    {
        SecretText { text: self.text.clone() }
    }
}

impl Default for SecretText {
    fn default() -> (r: Self)
        ensures
            r.value().len() == 0,
    {
        SecretText { text: String::new() }
    }
}

} // verus!
