use vstd::prelude::*;

use core::marker::PhantomData;

use crate::configuration_reader::ConfigurationReader;
use crate::configuration_writer::ConfigurationWriter;

verus! {

/// Wraps an arbitrary user-supplied factory function as a reader: each read
/// calls the factory once and returns its outcome. A leaf adapter with no
/// algorithm of its own, letting callers inject arbitrary logic into the
/// combinator graph.
#[derive(Debug)]
#[verifier::reject_recursive_types(C)]
#[verifier::reject_recursive_types(E)]
pub struct ClosureConfigurationReader<F, C, E> where F: Fn() -> Result<C, E> {
    factory: F,
    phantom: PhantomData<(C, E)>,
}

impl<F, C, E> ClosureConfigurationReader<F, C, E> where F: Fn() -> Result<C, E> {
    /// The wrapped factory.
    pub closed spec fn spec_factory(self) -> F {
        self.factory
    }

    #[verifier::type_invariant]
    closed spec fn factory_callable(self) -> bool {
        call_requires(self.factory, ())
    }

    /// Wraps `factory`, which must be callable without preconditions.
    pub fn new(factory: F) -> (r: Self)
        requires
            call_requires(factory, ()),
        ensures
            r.spec_factory() == factory,
    {
        Self { factory, phantom: PhantomData }
    }
}

impl<F, C, E> ConfigurationReader for ClosureConfigurationReader<F, C, E> where
    F: Fn() -> Result<C, E>,
 {
    type Configuration = C;

    type Error = E;

    /// A read leaves the adapter unchanged and returns an outcome the wrapped
    /// factory can produce.
    open spec fn read_spec(pre: Self, post: Self, r: Result<C, E>) -> bool {
        &&& post == pre
        &&& call_ensures(pre.spec_factory(), (), r)
    }

    fn read_configuration(&mut self) -> (r: Result<C, E>) {
        proof {
            use_type_invariant(&*self);
        }
        (self.factory)()
    }
}

/// The error type of the default reader mode. No value of it is ever
/// produced: the default factory always succeeds.
#[derive(Debug, Clone, Copy, PartialEq, Eq, Structural)]
pub struct DefaultFactoryError;

/// The factory of the default reader mode: always succeeds, with the
/// configuration type's default value.
pub fn default_factory<C: Default>() -> (r: Result<C, DefaultFactoryError>)
    ensures
        r matches Ok(v) && call_ensures(C::default, (), v),
{
    Ok(C::default())
}

/// Wraps an arbitrary user-supplied callback function as a writer: each write
/// hands the configuration to the callback once and returns its outcome. A
/// leaf adapter with no algorithm of its own.
#[derive(Debug)]
#[verifier::reject_recursive_types(C)]
#[verifier::reject_recursive_types(E)]
pub struct ClosureConfigurationWriter<F, C, E> where F: Fn(&C) -> Result<(), E> {
    callback: F,
    phantom: PhantomData<(C, E)>,
}

impl<F, C, E> ClosureConfigurationWriter<F, C, E> where F: Fn(&C) -> Result<(), E> {
    /// The wrapped callback.
    pub closed spec fn spec_callback(self) -> F {
        self.callback
    }

    #[verifier::type_invariant]
    closed spec fn callback_callable(self) -> bool {
        forall|c: &C| #[trigger] call_requires(self.callback, (c,))
    }

    /// Wraps `callback`, which must be callable without preconditions on
    /// every configuration.
    pub fn new(callback: F) -> (r: Self)
        requires
            forall|c: &C| #[trigger] call_requires(callback, (c,)),
        ensures
            r.spec_callback() == callback,
    {
        Self { callback, phantom: PhantomData }
    }
}

impl<F, C, E> ConfigurationWriter for ClosureConfigurationWriter<F, C, E> where
    F: Fn(&C) -> Result<(), E>,
 {
    type Configuration = C;

    type Error = E;

    /// A write leaves the adapter unchanged and returns an outcome the
    /// wrapped callback can produce on the written configuration.
    open spec fn write_spec(pre: Self, post: Self, c: C, r: Result<(), E>) -> bool {
        &&& post == pre
        &&& call_ensures(pre.spec_callback(), (&c,), r)
    }

    fn write_configuration(&mut self, configuration: &C) -> (r: Result<(), E>) {
        proof {
            use_type_invariant(&*self);
        }
        (self.callback)(configuration)
    }
}

} // verus!
