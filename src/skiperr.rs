//! A field that is read leniently: a value that fails to decode counts as absent.

use vstd::prelude::*;

verus! {

/// An optional value whose decoding never fails: where the value cannot be
/// decoded, it is absent.
#[derive(Debug, Clone, Copy, PartialEq, Eq)]
pub struct SkipErr<T>(pub Option<T>);

impl<T> SkipErr<T> {
    /// Settles a decode attempt: a decoded value is present, a failure is
    /// absence, whatever the failure was.
    pub fn lenient<E>(attempt: Result<T, E>) -> (r: SkipErr<T>)
        ensures
            r.0 == match attempt {
                Ok(v) => Some(v),
                Err(_) => None::<T>,
            },
    {
        match attempt {
            Ok(v) => SkipErr(Some(v)),
            Err(_) => SkipErr(None),
        }
    }

    /// Wraps an optional value.
    pub fn from_option(value: Option<T>) -> (r: SkipErr<T>)
        ensures
            r.0 == value,
    {
        SkipErr(value)
    }

    /// The optional value inside.
    pub fn into_option(self) -> (r: Option<T>)
        ensures
            r == self.0,
    {
        self.0
    }

    /// A view of the optional value inside.
    pub fn get(&self) -> (r: &Option<T>)
        ensures
            *r == self.0,
    {
        &self.0
    }
}

} // verus!
