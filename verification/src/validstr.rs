//! The error returned when a `String` fails validation.
use vstd::prelude::*;

verus! {

/// A failure to convert `string` into a validated type, giving the string
/// back along with the reason it was rejected
#[derive(Clone, Debug, PartialEq, Eq, Hash)]
pub struct TryFromStringError<E> {
    pub inner: E,
    pub string: String,
}

impl<E> View for TryFromStringError<E> {
    type V = (E, Seq<char>);

    open spec fn view(&self) -> (E, Seq<char>) {
        (self.inner, self.string@)
    }
}

} // verus!
