//! A wrapper that keeps a sensitive value, such as a key or a password, out of
//! every text that is made of it. The value itself stays within reach through
//! a reference.

use vstd::prelude::*;
use vstd::std_specs::convert::FromSpecImpl;

verus! {

/// What is shown in place of a sensitive value.
pub const MASK: &'static str = "******";

/// A value that is never shown.
#[derive(Clone)]
pub struct Sensitive<T>(pub T);

/// A sensitive text.
pub type SensitiveString = Sensitive<String>;

impl<T> View for Sensitive<T> {
    type V = T;

    /// The value that is kept.
    open spec fn view(&self) -> T {
        self.0
    }
}

impl<T> Sensitive<T> {
    /// Wraps a value.
    pub fn new(value: T) -> (wrapped: Self)
        ensures
            wrapped@ == value,
    {
        Self(value)
    }

    /// The value that is kept.
    pub fn get(&self) -> (value: &T)
        ensures
            *value == self@,
    {
        &self.0
    }

    /// The text shown for the value: the mask, whatever the value is.
    pub fn to_string(&self) -> (text: String)
        ensures
            text@ == MASK@,
    {
        MASK.to_owned()
    }

    /// The text shown for the wrapper where it is inspected: the wrapper's name
    /// around the quoted mask, whatever the value is.
    pub fn to_debug_string(&self) -> (text: String)
        ensures
            text@ == "Sensitive<T>(\"******\")"@,
    {
        "Sensitive<T>(\"******\")".to_owned()
    }
}

impl<T> core::ops::Deref for Sensitive<T> {
    type Target = T;

    fn deref(&self) -> (value: &T)
        ensures
            *value == self@,
    {
        &self.0
    }
}

impl<T> From<T> for Sensitive<T> {
    fn from(value: T) -> (wrapped: Self) {
        Self(value)
    }
}

impl<T> FromSpecImpl<T> for Sensitive<T> {
    open spec fn obeys_from_spec() -> bool {
        true
    }

    open spec fn from_spec(value: T) -> Self {
        Sensitive(value)
    }
}

impl core::str::FromStr for Sensitive<String> {
    type Err = core::convert::Infallible;

    /// Wraps the text as it stands; this cannot fail.
    fn from_str(s: &str) -> (parsed: Result<Self, core::convert::Infallible>)
        ensures
            parsed matches Ok(wrapped) && wrapped@@ == s@,
    {
        Ok(Sensitive(s.to_owned()))
    }
}

} // verus!
