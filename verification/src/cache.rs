use vstd::prelude::*;
use vstd::pervasive::cloned;

use crate::configuration_reader::ConfigurationReader;
use crate::configuration_writer::ConfigurationWriter;
use crate::copy_configuration_error::CopyConfigurationError;
use crate::fallback::AlwaysFallback;
use crate::fallback::FallbackConfigurationReadError;
use crate::fallback::FallbackPredicate;
use crate::memory::MemoryConfigurationAccessor;
use crate::memory::MemoryConfigurationReadError;
use crate::memory::MemoryConfigurationWriteError;
use crate::copy_configuration;
use crate::copy_spec;

verus! {

/// A single-slot read-through cache over a source reader. A read first
/// checks the memory store; on a miss (the slot was never written) it copies
/// the value from the source into the store and returns it, so subsequent
/// reads hit the store directly. There is no expiry and no invalidation
/// beyond an explicit overwrite of the slot.
#[derive(Debug, Clone)]
pub struct CacheConfigurationReader<C, R> {
    /// The memory store acting as the cache slot.
    pub memory: MemoryConfigurationAccessor<C>,
    /// The source reader, consulted only on a cache miss.
    pub reader: R,
}

impl<R> CacheConfigurationReader<R::Configuration, R> where R: ConfigurationReader {
    /// Wraps `reader` with a fresh, never-written cache slot.
    pub fn new(reader: R) -> (r: Self)
        ensures
            r.memory.configuration is None,
            r.reader == reader,
    {
        Self { memory: MemoryConfigurationAccessor::empty(), reader }
    }
}

impl<R> ConfigurationReader for CacheConfigurationReader<R::Configuration, R> where
    R: ConfigurationReader,
    R::Configuration: Clone,
 {
    type Configuration = R::Configuration;

    type Error = CopyConfigurationError<R::Error, MemoryConfigurationWriteError>;

    /// A cache hit returns a clone of the slot's value and touches nothing;
    /// a miss is exactly one copy from the source reader into the store.
    open spec fn read_spec(
        pre: Self,
        post: Self,
        r: Result<
            R::Configuration,
            CopyConfigurationError<R::Error, MemoryConfigurationWriteError>,
        >,
    ) -> bool {
        match pre.memory.configuration {
            Some(c) => post == pre && (r matches Ok(v) && cloned(c, v)),
            None => copy_spec(pre.reader, post.reader, pre.memory, post.memory, r),
        }
    }

    fn read_configuration(&mut self) -> (r: Result<
        R::Configuration,
        CopyConfigurationError<R::Error, MemoryConfigurationWriteError>,
    >) {
        match self.memory.read_configuration() {
            Ok(c) => Ok(c),
            Err(_) => copy_configuration(&mut self.reader, &mut self.memory),
        }
    }
}

/// The read-through cache shape assembled by the fluent builder. One
/// accessor serves as both the cache's reader and its writer, so a
/// read-through write lands exactly where the next read looks; a predicate
/// over the accessor's read error decides when the (presumably expensive)
/// source reader is consulted.
#[derive(Debug, Clone)]
pub struct CachedConfigurationReader<A, R, P> {
    /// The cache: read first, and written through on a source read.
    pub accessor: A,
    /// The source reader, consulted only when the predicate accepts the
    /// accessor's read error.
    pub reader: R,
    /// The predicate over the accessor's read error.
    pub should_fallback: P,
}

impl<A, R, P> ConfigurationReader for CachedConfigurationReader<A, R, P> where
    R: ConfigurationReader,
    A: ConfigurationReader<Configuration = R::Configuration> + ConfigurationWriter<
        Configuration = R::Configuration,
    >,
    P: FallbackPredicate<<A as ConfigurationReader>::Error>,
 {
    type Configuration = R::Configuration;

    type Error = FallbackConfigurationReadError<
        <A as ConfigurationReader>::Error,
        Option<CopyConfigurationError<R::Error, <A as ConfigurationWriter>::Error>>,
    >;

    /// The accessor is always read first; on its success its value is
    /// returned and the source is untouched. On its failure the predicate
    /// decides: when it declines, nothing else is touched and the error
    /// carries `None`; when it accepts, the source's value is copied into the
    /// accessor and returned, or the error carries both failures.
    open spec fn read_spec(
        pre: Self,
        post: Self,
        r: Result<
            R::Configuration,
            FallbackConfigurationReadError<
                <A as ConfigurationReader>::Error,
                Option<CopyConfigurationError<R::Error, <A as ConfigurationWriter>::Error>>,
            >,
        >,
    ) -> bool {
        &&& post.should_fallback == pre.should_fallback
        &&& exists|probed: A, ar: Result<R::Configuration, <A as ConfigurationReader>::Error>|
            #[trigger] <A as ConfigurationReader>::read_spec(pre.accessor, probed, ar) && match ar {
                Ok(c) => post.accessor == probed && post.reader == pre.reader && r == Ok::<
                    R::Configuration,
                    FallbackConfigurationReadError<
                        <A as ConfigurationReader>::Error,
                        Option<CopyConfigurationError<R::Error, <A as ConfigurationWriter>::Error>>,
                    >,
                >(c),
                Err(e) => {
                    if pre.should_fallback.accepts(e) {
                        exists|cr: Result<
                            R::Configuration,
                            CopyConfigurationError<R::Error, <A as ConfigurationWriter>::Error>,
                        >|
                            #[trigger] copy_spec(pre.reader, post.reader, probed, post.accessor, cr)
                                && match cr {
                                Ok(c) => r == Ok::<
                                    R::Configuration,
                                    FallbackConfigurationReadError<
                                        <A as ConfigurationReader>::Error,
                                        Option<
                                            CopyConfigurationError<
                                                R::Error,
                                                <A as ConfigurationWriter>::Error,
                                            >,
                                        >,
                                    >,
                                >(c),
                                Err(ce) => r matches Err(err) && (err.spec_read_error() == e
                                    && err.spec_fallback_error() == Some(ce)),
                            }
                    } else {
                        &&& post.accessor == probed
                        &&& post.reader == pre.reader
                        &&& r matches Err(err) && (err.spec_read_error() == e
                            && err.spec_fallback_error() == None::<
                            CopyConfigurationError<R::Error, <A as ConfigurationWriter>::Error>,
                        >)
                    }
                },
            }
    }

    fn read_configuration(&mut self) -> (r: Result<
        R::Configuration,
        FallbackConfigurationReadError<
            <A as ConfigurationReader>::Error,
            Option<CopyConfigurationError<R::Error, <A as ConfigurationWriter>::Error>>,
        >,
    >) {
        match self.accessor.read_configuration() {
            Ok(c) => Ok(c),
            Err(e) => {
                let ghost probed: A = self.accessor;
                if self.should_fallback.accept(&e) {
                    match copy_configuration(&mut self.reader, &mut self.accessor) {
                        Ok(c) => {
                            proof {
                                assert(<A as ConfigurationReader>::read_spec(
                                    old(self).accessor,
                                    probed,
                                    Err::<R::Configuration, <A as ConfigurationReader>::Error>(e),
                                ));
                                assert(copy_spec(
                                    old(self).reader,
                                    self.reader,
                                    probed,
                                    self.accessor,
                                    Ok::<
                                        R::Configuration,
                                        CopyConfigurationError<
                                            R::Error,
                                            <A as ConfigurationWriter>::Error,
                                        >,
                                    >(c),
                                ));
                            }
                            Ok(c)
                        },
                        Err(ce) => {
                            proof {
                                assert(<A as ConfigurationReader>::read_spec(
                                    old(self).accessor,
                                    probed,
                                    Err::<R::Configuration, <A as ConfigurationReader>::Error>(e),
                                ));
                                assert(copy_spec(
                                    old(self).reader,
                                    self.reader,
                                    probed,
                                    self.accessor,
                                    Err::<
                                        R::Configuration,
                                        CopyConfigurationError<
                                            R::Error,
                                            <A as ConfigurationWriter>::Error,
                                        >,
                                    >(ce),
                                ));
                            }
                            Err(FallbackConfigurationReadError::new(e, Some(ce)))
                        },
                    }
                } else {
                    Err(FallbackConfigurationReadError::new(e, None))
                }
            },
        }
    }
}

/// Once a read of the fluent-built cache over a memory store has succeeded,
/// a second read does not touch the source reader — its side effects, such
/// as an invocation counter, stay where they were — and returns the same
/// value again, for every configuration type whose `clone` returns a value
/// equal to its argument.
pub proof fn lemma_cached_reader_reads_source_once<R>(
    s0: CachedConfigurationReader<MemoryConfigurationAccessor<R::Configuration>, R, AlwaysFallback>,
    s1: CachedConfigurationReader<MemoryConfigurationAccessor<R::Configuration>, R, AlwaysFallback>,
    s2: CachedConfigurationReader<MemoryConfigurationAccessor<R::Configuration>, R, AlwaysFallback>,
    r1: Result<
        R::Configuration,
        FallbackConfigurationReadError<
            MemoryConfigurationReadError,
            Option<CopyConfigurationError<R::Error, MemoryConfigurationWriteError>>,
        >,
    >,
    r2: Result<
        R::Configuration,
        FallbackConfigurationReadError<
            MemoryConfigurationReadError,
            Option<CopyConfigurationError<R::Error, MemoryConfigurationWriteError>>,
        >,
    >,
) where R: ConfigurationReader, R::Configuration: Clone
    requires
        forall|a: R::Configuration, b: R::Configuration| cloned(a, b) ==> b == a,
        CachedConfigurationReader::read_spec(s0, s1, r1),
        r1 is Ok,
        CachedConfigurationReader::read_spec(s1, s2, r2),
    ensures
        s2.reader == s1.reader,
        r2 == r1,
{
}

/// Once a cache read has succeeded, a second read does not touch the source
/// reader — its side effects, such as an invocation counter, stay where they
/// were — and returns the same value again, for every configuration type
/// whose `clone` returns a value equal to its argument.
pub proof fn lemma_cache_reads_source_once<R>(
    s0: CacheConfigurationReader<R::Configuration, R>,
    s1: CacheConfigurationReader<R::Configuration, R>,
    s2: CacheConfigurationReader<R::Configuration, R>,
    r1: Result<R::Configuration, CopyConfigurationError<R::Error, MemoryConfigurationWriteError>>,
    r2: Result<R::Configuration, CopyConfigurationError<R::Error, MemoryConfigurationWriteError>>,
) where R: ConfigurationReader, R::Configuration: Clone
    requires
        forall|a: R::Configuration, b: R::Configuration| cloned(a, b) ==> b == a,
        CacheConfigurationReader::read_spec(s0, s1, r1),
        r1 is Ok,
        CacheConfigurationReader::read_spec(s1, s2, r2),
    ensures
        s2.reader == s1.reader,
        r2 == r1,
{
}

} // verus!
