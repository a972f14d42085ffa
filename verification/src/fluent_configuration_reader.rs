use vstd::prelude::*;

use crate::cache::CachedConfigurationReader;
use crate::configuration_reader::ConfigurationReader;
use crate::configuration_writer::ConfigurationWriter;
use crate::fallback::AlwaysFallback;
use crate::fallback::FallbackPredicate;

verus! {

/// Fluently assembles the read-through cache shape onto any reader: prefer
/// the (cheap, already populated) accessor, and only on its failure read the
/// (presumably expensive) original reader, capturing its value into the
/// accessor. The accessor serves as both the cache's reader and its writer —
/// one value with both capabilities, such as a memory store — so the
/// captured value is found by the next read.
pub trait FluentConfigurationReader: ConfigurationReader {
    /// Wires the cache shape with the default predicate: the original reader
    /// is consulted on every failure of the accessor.
    fn with_cache<A>(self, accessor: A) -> (r: CachedConfigurationReader<
        A,
        Self,
        AlwaysFallback,
    >) where
        A: ConfigurationReader<Configuration = Self::Configuration> + ConfigurationWriter<
            Configuration = Self::Configuration,
        >,

        ensures
            r.accessor == accessor,
            r.reader == self,
            r.should_fallback == AlwaysFallback,
    ;

    /// The same shape, gated behind a custom fallback predicate.
    fn with_conditional_cache<A, P>(self, accessor: A, should_fallback: P) -> (r:
        CachedConfigurationReader<A, Self, P>) where
        A: ConfigurationReader<Configuration = Self::Configuration> + ConfigurationWriter<
            Configuration = Self::Configuration,
        >,
        P: FallbackPredicate<<A as ConfigurationReader>::Error>,

        ensures
            r.accessor == accessor,
            r.reader == self,
            r.should_fallback == should_fallback,
    ;
}

impl<T: ConfigurationReader> FluentConfigurationReader for T {
    fn with_cache<A>(self, accessor: A) -> (r: CachedConfigurationReader<
        A,
        Self,
        AlwaysFallback,
    >) where
        A: ConfigurationReader<Configuration = Self::Configuration> + ConfigurationWriter<
            Configuration = Self::Configuration,
        >,
     {
        self.with_conditional_cache(accessor, AlwaysFallback)
    }

    fn with_conditional_cache<A, P>(self, accessor: A, should_fallback: P) -> (r:
        CachedConfigurationReader<A, Self, P>) where
        A: ConfigurationReader<Configuration = Self::Configuration> + ConfigurationWriter<
            Configuration = Self::Configuration,
        >,
        P: FallbackPredicate<<A as ConfigurationReader>::Error>,
     {
        CachedConfigurationReader { accessor, reader: self, should_fallback }
    }
}

} // verus!
