use vstd::prelude::*;

verus! {

/// The capability to persist a configuration value.
///
/// A writer is modelled as a state machine: `write_spec(pre, post, c, r)`
/// relates the writer's state before a write of the configuration `c`, its
/// state after it, and the outcome.
pub trait ConfigurationWriter: Sized {
    /// The type of the configuration.
    type Configuration;

    /// The type of the error; an uninhabited type if no error can occur.
    type Error;

    /// Relates the writer's state before a write of `c`, its state after it,
    /// and the write's outcome.
    spec fn write_spec(
        pre: Self,
        post: Self,
        c: Self::Configuration,
        r: Result<(), Self::Error>,
    ) -> bool;

    /// Writes the configuration, returning an error in cases of failure.
    fn write_configuration(&mut self, configuration: &Self::Configuration) -> (r: Result<
        (),
        Self::Error,
    >)
        ensures
            Self::write_spec(*old(self), *final(self), *configuration, r),
    ;
}

} // verus!
