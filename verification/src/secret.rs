//! A string that must not reach diagnostic output.

use vstd::prelude::*;

verus! {

/// A secret-bearing string.
///
/// The type has no `Debug` output and offers no conversion to text: the only
/// way to the characters is [`Secret::expose`], which marks the place where
/// the value stops being hidden.
pub struct Secret {
    inner: String,
}

impl View for Secret {
    type V = Seq<char>;

    closed spec fn view(&self) -> Seq<char> {
        self.inner@
    }
}

impl Secret {
    /// Hides `value`.
    pub fn new(value: String) -> (secret: Secret)
        ensures
            secret@ == value@,
    {
        Secret { inner: value }
    }

    /// The hidden characters.
    pub fn expose(&self) -> (value: &str)
        ensures
            value@ == self@,
    {
        self.inner.as_str()
    }
}

} // verus!
