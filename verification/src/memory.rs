use vstd::prelude::*;
use vstd::pervasive::cloned;

use crate::configuration_reader::ConfigurationReader;
use crate::configuration_writer::ConfigurationWriter;

verus! {

/// The error returned when the memory store is read before any write.
#[derive(Debug, Clone, Copy, PartialEq, Eq, Structural)]
pub enum MemoryConfigurationReadError {
    /// No configuration has been written to the store yet.
    NoConfiguration,
}

/// The error type of the memory store's writes. A write into the in-memory
/// slot cannot fail: no value of this type is ever produced, and the write
/// contract's success branch is the only reachable one.
#[derive(Debug, Clone, Copy, PartialEq, Eq, Structural)]
pub struct MemoryConfigurationWriteError;

/// A configuration store backed by a single in-memory slot.
///
/// The slot holds `Option<C>`; `None` models "never written", not a default
/// value. A write replaces the slot wholesale (last-write-wins), and cannot
/// fail; a read clones the slot's value, or fails with `NoConfiguration`
/// when the slot has never been written.
///
/// Shared, lock-guarded ownership of one slot across several handles cannot
/// be captured by the contracts here, so the store holds its slot by value;
/// callers that need one slot in several places pass one store around by
/// `&mut`.
#[derive(Debug, Clone)]
pub struct MemoryConfigurationAccessor<C> {
    /// The slot: the stored configuration, or `None` before the first write.
    pub configuration: Option<C>,
}

impl<C> MemoryConfigurationAccessor<C> {
    /// Creates a store whose slot has never been written.
    pub fn empty() -> (r: Self)
        ensures
            r.configuration is None,
    {
        Self { configuration: None }
    }

    /// Creates a store whose slot starts out holding `configuration`.
    pub fn new(configuration: Option<C>) -> (r: Self)
        ensures
            r.configuration == configuration,
    {
        Self { configuration }
    }
}

impl<C> Default for MemoryConfigurationAccessor<C> {
    /// Equivalent to `empty`: the slot has never been written.
    fn default() -> (r: Self)
        ensures
            r.configuration is None,
    {
        Self::empty()
    }
}

impl<C: Clone> ConfigurationReader for MemoryConfigurationAccessor<C> {
    type Configuration = C;

    type Error = MemoryConfigurationReadError;

    /// Reading leaves the store unchanged; it returns a clone of the slot's
    /// value, or fails with `NoConfiguration` when the slot was never written.
    open spec fn read_spec(
        pre: Self,
        post: Self,
        r: Result<C, MemoryConfigurationReadError>,
    ) -> bool {
        &&& post == pre
        &&& match pre.configuration {
            Some(c) => r matches Ok(v) && cloned(c, v),
            None => r matches Err(MemoryConfigurationReadError::NoConfiguration),
        }
    }

    fn read_configuration(&mut self) -> (r: Result<C, MemoryConfigurationReadError>) {
        match &self.configuration {
            Some(c) => Ok(c.clone()),
            None => Err(MemoryConfigurationReadError::NoConfiguration),
        }
    }
}

impl<C: Clone> ConfigurationWriter for MemoryConfigurationAccessor<C> {
    type Configuration = C;

    type Error = MemoryConfigurationWriteError;

    /// Writing always succeeds and replaces the slot with a clone of the
    /// written configuration.
    open spec fn write_spec(
        pre: Self,
        post: Self,
        c: C,
        r: Result<(), MemoryConfigurationWriteError>,
    ) -> bool {
        &&& r matches Ok(_)
        &&& post.configuration matches Some(v) && cloned(c, v)
    }

    fn write_configuration(&mut self, configuration: &C) -> (r: Result<
        (),
        MemoryConfigurationWriteError,
    >) {
        self.configuration = Some(configuration.clone());
        Ok(())
    }
}

/// A read of a store whose slot was never written fails with
/// `NoConfiguration`, whatever the configuration type.
pub proof fn lemma_read_before_write_fails<C: Clone>(
    pre: MemoryConfigurationAccessor<C>,
    post: MemoryConfigurationAccessor<C>,
    r: Result<C, MemoryConfigurationReadError>,
)
    requires
        pre.configuration is None,
        MemoryConfigurationAccessor::read_spec(pre, post, r),
    ensures
        r matches Err(MemoryConfigurationReadError::NoConfiguration),
{
}

/// Writing `c` and then reading returns a value equal to `c`, for every
/// configuration type whose `clone` returns a value equal to its argument.
pub proof fn lemma_write_then_read_returns_written<C: Clone>(
    s0: MemoryConfigurationAccessor<C>,
    s1: MemoryConfigurationAccessor<C>,
    s2: MemoryConfigurationAccessor<C>,
    c: C,
    wr: Result<(), MemoryConfigurationWriteError>,
    rr: Result<C, MemoryConfigurationReadError>,
)
    requires
        forall|a: C, b: C| cloned(a, b) ==> b == a,
        MemoryConfigurationAccessor::write_spec(s0, s1, c, wr),
        MemoryConfigurationAccessor::read_spec(s1, s2, rr),
    ensures
        rr == Ok::<C, MemoryConfigurationReadError>(c),
{
}

} // verus!
