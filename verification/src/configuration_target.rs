use vstd::prelude::*;

verus! {

/// The capability to apply a configuration to live application state: a
/// synchronous collaborator of the framework's consumers, not part of the
/// combinator graph, and specified only as the interface it presents.
pub trait ConfigurationTarget {
    /// The type of the configuration.
    type Configuration;

    /// Applies the given configuration.
    fn apply(&mut self, configuration: &Self::Configuration);
}

} // verus!
