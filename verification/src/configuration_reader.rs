use vstd::prelude::*;

verus! {

/// The capability to produce a configuration value.
///
/// A reader is modelled as a state machine: `read_spec(pre, post, r)` relates
/// the reader's state before a read, its state after it, and the outcome.
/// Implementations pin this relation down as tightly as their behaviour
/// allows; combinators compose the relations of their components.
pub trait ConfigurationReader: Sized {
    /// The type of the configuration.
    type Configuration;

    /// The type of the error; an uninhabited type if no error can occur.
    type Error;

    /// Relates the reader's state before a read, its state after it, and the
    /// read's outcome.
    spec fn read_spec(
        pre: Self,
        post: Self,
        r: Result<Self::Configuration, Self::Error>,
    ) -> bool;

    /// Reads the configuration, returning an error in cases of failure.
    fn read_configuration(&mut self) -> (r: Result<Self::Configuration, Self::Error>)
        ensures
            Self::read_spec(*old(self), *final(self), r),
    ;
}

} // verus!
