//! The value that a successful extraction hands to a handler.

use vstd::prelude::*;
use vstd::string::to_string_from_display_ensures;

verus! {

/// The text that `T`'s `Debug` writes for `value`, through `format!` of std.
/// Nothing is claimed of the text.
#[verifier::external_body]
fn debug_text<T: core::fmt::Debug>(value: &T) -> (text: String) {
    format!("{:?}", value)
}

/// `text` is a text that `T`'s `Debug` gives for `value`.
pub closed spec fn debug_yields<T: core::fmt::Debug>(value: &T, text: String) -> bool {
    call_ensures(debug_text::<T>, (value,), text)
}

/// A decoded and validated payload of type `T`.
///
/// The wrapper has a single owner and no state of its own: its view is the
/// payload. Only a successful run of the extraction pipeline makes one.
#[derive(PartialEq, Eq, PartialOrd, Ord)]
pub struct ValidateQsQuery<T>(T);

impl<T> View for ValidateQsQuery<T> {
    type V = T;

    closed spec fn view(&self) -> T {
        self.0
    }
}

impl<T> ValidateQsQuery<T> {
    /// Wraps a payload that has passed decoding and validation.
    pub(crate) fn wrap(value: T) -> (wrapped: Self)
        ensures
            wrapped@ == value,
    {
        ValidateQsQuery(value)
    }

    /// Gives up the wrapper and hands the payload to the caller.
    pub fn into_inner(self) -> (inner: T)
        ensures
            inner == self@,
    {
        self.0
    }

    /// The payload's own `Display` text: the wrapper adds nothing to it.
    pub fn to_string(&self) -> (text: String) where T: core::fmt::Display
        ensures
            to_string_from_display_ensures::<T>(&self@, text),
    {
        self.0.to_string()
    }

    /// The payload's own `Debug` text: the wrapper adds nothing to it.
    pub fn to_debug_string(&self) -> (text: String) where T: core::fmt::Debug
        ensures
            debug_yields::<T>(&self@, text),
    {
        debug_text(&self.0)
    }
}

impl<T> core::ops::Deref for ValidateQsQuery<T> {
    type Target = T;

    /// Read access to the payload.
    fn deref(&self) -> (inner: &T)
        ensures
            *inner == self@,
    {
        &self.0
    }
}

impl<T> core::ops::DerefMut for ValidateQsQuery<T> {
    /// Write access to the payload. What the caller leaves behind the
    /// reference is the wrapper's payload afterwards; nothing is validated
    /// again.
    fn deref_mut(&mut self) -> (inner: &mut T)
        ensures
            *inner == old(self)@,
            final(self)@ == *final(inner),
    {
        &mut self.0
    }
}

} // verus!
