use vstd::prelude::*;

use crate::configuration_reader::ConfigurationReader;

verus! {

/// The error of a fallback read. It always carries the primary reader's
/// error; it carries the fallback reader's error only if the fallback was
/// attempted and also failed. In `FallbackConfigurationReader`'s use the
/// second component is an `Option`, and `None` distinguishes "the predicate
/// declined to try the fallback" from "the fallback was tried and succeeded"
/// (the latter is not an error at all).
#[derive(Debug, Clone, PartialEq, Eq)]
pub struct FallbackConfigurationReadError<R, F> {
    read_error: R,
    fallback_error: F,
}

impl<R, F> FallbackConfigurationReadError<R, F> {
    /// The primary reader's error.
    pub closed spec fn spec_read_error(self) -> R {
        self.read_error
    }

    /// What is known of the fallback reader's outcome.
    pub closed spec fn spec_fallback_error(self) -> F {
        self.fallback_error
    }

    /// Pairs a primary error with what is known of the fallback's outcome.
    pub fn new(read_error: R, fallback_error: F) -> (r: Self)
        ensures
            r.spec_read_error() == read_error,
            r.spec_fallback_error() == fallback_error,
    {
        Self { read_error, fallback_error }
    }

    /// The primary reader's error.
    pub fn read_error(&self) -> (r: &R)
        ensures
            *r == self.spec_read_error(),
    {
        &self.read_error
    }

    /// What is known of the fallback reader's outcome.
    pub fn fallback_error(&self) -> (r: &F)
        ensures
            *r == self.spec_fallback_error(),
    {
        &self.fallback_error
    }
}

/// A decision over a primary reader's error: whether the fallback reader
/// should be attempted for it.
pub trait FallbackPredicate<E>: Sized {
    /// The decision the predicate takes on each error.
    spec fn accepts(self, error: E) -> bool;

    /// Decides whether the fallback should be attempted for `error`.
    fn accept(&self, error: &E) -> (r: bool)
        ensures
            r == self.accepts(*error),
    ;
}

/// Accepts any value: the decision taken by the default fallback predicate.
pub fn predicate_true<T>(_value: &T) -> (r: bool)
    ensures
        r,
{
    true
}

/// The default predicate: the fallback is attempted on every primary error.
#[derive(Debug, Clone, Copy, PartialEq, Eq, Structural)]
pub struct AlwaysFallback;

impl<E> FallbackPredicate<E> for AlwaysFallback {
    open spec fn accepts(self, error: E) -> bool {
        true
    }

    fn accept(&self, error: &E) -> (r: bool) {
        predicate_true(error)
    }
}

/// Tries a primary reader; on its failure, a predicate over the primary error
/// decides whether a secondary reader is attempted. Chainable: further tiers
/// may be prepended or appended, each wrapping the previous chain as the new
/// primary or the new fallback.
#[derive(Debug, Clone)]
pub struct FallbackConfigurationReader<R, F, P> {
    /// The primary reader, always tried first.
    pub reader: R,
    /// The secondary reader, tried only when the predicate accepts the
    /// primary's error.
    pub fallback: F,
    /// The predicate over the primary's error.
    pub should_fallback: P,
}

impl<R, F> FallbackConfigurationReader<R, F, AlwaysFallback> where
    R: ConfigurationReader,
    F: ConfigurationReader<Configuration = R::Configuration>,
 {
    /// Chains the two readers with the default predicate: the fallback is
    /// attempted on every primary failure.
    pub fn new(reader: R, fallback: F) -> (r: Self)
        ensures
            r.reader == reader,
            r.fallback == fallback,
            r.should_fallback == AlwaysFallback,
    {
        Self::new_conditional(reader, fallback, AlwaysFallback)
    }
}

impl<R, F, P> FallbackConfigurationReader<R, F, P> where
    R: ConfigurationReader,
    F: ConfigurationReader<Configuration = R::Configuration>,
    P: FallbackPredicate<R::Error>,
 {
    /// Chains the two readers, gating the fallback behind `should_fallback`.
    pub fn new_conditional(reader: R, fallback: F, should_fallback: P) -> (r: Self)
        ensures
            r.reader == reader,
            r.fallback == fallback,
            r.should_fallback == should_fallback,
    {
        Self { reader, fallback, should_fallback }
    }
}

impl<R, F, P> FallbackConfigurationReader<R, F, P> {
    /// Prepends a tier: the new reader becomes the primary and the existing
    /// chain the fallback, attempted on every failure of the new primary.
    pub fn push_reader_front<NR>(self, reader: NR) -> (r: FallbackConfigurationReader<
        NR,
        Self,
        AlwaysFallback,
    >) where
        Self: ConfigurationReader,
        NR: ConfigurationReader<Configuration = <Self as ConfigurationReader>::Configuration>,

        ensures
            r.reader == reader,
            r.fallback == self,
            r.should_fallback == AlwaysFallback,
    {
        FallbackConfigurationReader::new(reader, self)
    }

    /// Prepends a tier gated behind `should_fallback`.
    pub fn push_conditional_reader_front<NR, NP>(self, reader: NR, should_fallback: NP) -> (r:
        FallbackConfigurationReader<NR, Self, NP>) where
        Self: ConfigurationReader,
        NR: ConfigurationReader<Configuration = <Self as ConfigurationReader>::Configuration>,
        NP: FallbackPredicate<NR::Error>,

        ensures
            r.reader == reader,
            r.fallback == self,
            r.should_fallback == should_fallback,
    {
        FallbackConfigurationReader::new_conditional(reader, self, should_fallback)
    }

    /// Appends a tier: the existing chain stays the primary and the new
    /// reader becomes the fallback, attempted on every failure of the chain.
    pub fn push_reader_back<NR>(self, reader: NR) -> (r: FallbackConfigurationReader<
        Self,
        NR,
        AlwaysFallback,
    >) where
        Self: ConfigurationReader,
        NR: ConfigurationReader<Configuration = <Self as ConfigurationReader>::Configuration>,

        ensures
            r.reader == self,
            r.fallback == reader,
            r.should_fallback == AlwaysFallback,
    {
        FallbackConfigurationReader::new(self, reader)
    }

    /// Appends a tier gated behind `should_fallback`.
    pub fn push_conditional_reader_back<NR, NP>(self, reader: NR, should_fallback: NP) -> (r:
        FallbackConfigurationReader<Self, NR, NP>) where
        Self: ConfigurationReader,
        NR: ConfigurationReader<Configuration = <Self as ConfigurationReader>::Configuration>,
        NP: FallbackPredicate<<Self as ConfigurationReader>::Error>,

        ensures
            r.reader == self,
            r.fallback == reader,
            r.should_fallback == should_fallback,
    {
        FallbackConfigurationReader::new_conditional(self, reader, should_fallback)
    }
}

impl<R, F, P> ConfigurationReader for FallbackConfigurationReader<R, F, P> where
    R: ConfigurationReader,
    F: ConfigurationReader<Configuration = R::Configuration>,
    P: FallbackPredicate<R::Error>,
 {
    type Configuration = R::Configuration;

    type Error = FallbackConfigurationReadError<R::Error, Option<F::Error>>;

    /// The primary is always read. On its success the fallback is untouched
    /// and its value is returned. On its failure the predicate decides: when
    /// it declines, the fallback is untouched and the error carries `None`;
    /// when it accepts, the fallback is read, and either its value is
    /// returned or the error carries both failures.
    open spec fn read_spec(
        pre: Self,
        post: Self,
        r: Result<R::Configuration, FallbackConfigurationReadError<R::Error, Option<F::Error>>>,
    ) -> bool {
        &&& post.should_fallback == pre.should_fallback
        &&& exists|rr: Result<R::Configuration, R::Error>|
            #[trigger] R::read_spec(pre.reader, post.reader, rr) && match rr {
                Ok(c) => post.fallback == pre.fallback && r == Ok::<
                    R::Configuration,
                    FallbackConfigurationReadError<R::Error, Option<F::Error>>,
                >(c),
                Err(e) => {
                    if pre.should_fallback.accepts(e) {
                        exists|fr: Result<R::Configuration, F::Error>|
                            #[trigger] F::read_spec(pre.fallback, post.fallback, fr) && match fr {
                                Ok(c) => r == Ok::<
                                    R::Configuration,
                                    FallbackConfigurationReadError<R::Error, Option<F::Error>>,
                                >(c),
                                Err(fe) => r matches Err(err) && (err.spec_read_error() == e
                                    && err.spec_fallback_error() == Some(fe)),
                            }
                    } else {
                        &&& post.fallback == pre.fallback
                        &&& r matches Err(err) && (err.spec_read_error() == e
                            && err.spec_fallback_error() == None::<F::Error>)
                    }
                },
            }
    }

    fn read_configuration(&mut self) -> (r: Result<
        R::Configuration,
        FallbackConfigurationReadError<R::Error, Option<F::Error>>,
    >) {
        match self.reader.read_configuration() {
            Ok(c) => Ok(c),
            Err(e) => {
                if self.should_fallback.accept(&e) {
                    match self.fallback.read_configuration() {
                        Ok(c) => {
                            proof {
                                assert(R::read_spec(
                                    old(self).reader,
                                    self.reader,
                                    Err::<R::Configuration, R::Error>(e),
                                ));
                                assert(F::read_spec(
                                    old(self).fallback,
                                    self.fallback,
                                    Ok::<R::Configuration, F::Error>(c),
                                ));
                            }
                            Ok(c)
                        },
                        Err(fe) => {
                            proof {
                                assert(R::read_spec(
                                    old(self).reader,
                                    self.reader,
                                    Err::<R::Configuration, R::Error>(e),
                                ));
                                assert(F::read_spec(
                                    old(self).fallback,
                                    self.fallback,
                                    Err::<R::Configuration, F::Error>(fe),
                                ));
                            }
                            Err(FallbackConfigurationReadError::new(e, Some(fe)))
                        },
                    }
                } else {
                    Err(FallbackConfigurationReadError::new(e, None))
                }
            },
        }
    }
}

/// When the primary reader can only succeed, a fallback read succeeds with a
/// value the primary produced, and the fallback reader is untouched: its side
/// effects stay at zero.
pub proof fn lemma_fallback_untouched_on_primary_success<R, F, P>(
    pre: FallbackConfigurationReader<R, F, P>,
    post: FallbackConfigurationReader<R, F, P>,
    r: Result<R::Configuration, FallbackConfigurationReadError<R::Error, Option<F::Error>>>,
) where
    R: ConfigurationReader,
    F: ConfigurationReader<Configuration = R::Configuration>,
    P: FallbackPredicate<R::Error>,

    requires
        FallbackConfigurationReader::read_spec(pre, post, r),
        forall|rq: R, rr: Result<R::Configuration, R::Error>|
            #[trigger] R::read_spec(pre.reader, rq, rr) ==> rr is Ok,
    ensures
        post.fallback == pre.fallback,
        r matches Ok(c) && R::read_spec(pre.reader, post.reader, Ok(c)),
{
}

/// When the primary reader can only fail and the predicate declines every
/// error, a fallback read fails carrying the primary error and no fallback
/// error, and the fallback reader is untouched.
pub proof fn lemma_fallback_declined<R, F, P>(
    pre: FallbackConfigurationReader<R, F, P>,
    post: FallbackConfigurationReader<R, F, P>,
    r: Result<R::Configuration, FallbackConfigurationReadError<R::Error, Option<F::Error>>>,
) where
    R: ConfigurationReader,
    F: ConfigurationReader<Configuration = R::Configuration>,
    P: FallbackPredicate<R::Error>,

    requires
        FallbackConfigurationReader::read_spec(pre, post, r),
        forall|rq: R, rr: Result<R::Configuration, R::Error>|
            #[trigger] R::read_spec(pre.reader, rq, rr) ==> rr is Err,
        forall|e: R::Error| !(#[trigger] pre.should_fallback.accepts(e)),
    ensures
        post.fallback == pre.fallback,
        r matches Err(err) && (R::read_spec(pre.reader, post.reader, Err(err.spec_read_error()))
            && err.spec_fallback_error() == None::<F::Error>),
{
}

/// A nested chain is an ordered list of sources, tried in sequence until one
/// succeeds: in a chain of three tiers with the default predicates, when the
/// first tier can only fail and the second can only return `c0`, a read of
/// the chain returns exactly `c0` and the third tier is untouched.
pub proof fn lemma_fallback_chain_tried_in_order<A, B, C>(
    pre: FallbackConfigurationReader<
        FallbackConfigurationReader<A, B, AlwaysFallback>,
        C,
        AlwaysFallback,
    >,
    post: FallbackConfigurationReader<
        FallbackConfigurationReader<A, B, AlwaysFallback>,
        C,
        AlwaysFallback,
    >,
    r: Result<
        A::Configuration,
        FallbackConfigurationReadError<
            FallbackConfigurationReadError<A::Error, Option<B::Error>>,
            Option<C::Error>,
        >,
    >,
    c0: A::Configuration,
) where
    A: ConfigurationReader,
    B: ConfigurationReader<Configuration = A::Configuration>,
    C: ConfigurationReader<Configuration = A::Configuration>,

    requires
        FallbackConfigurationReader::read_spec(pre, post, r),
        forall|aq: A, ar: Result<A::Configuration, A::Error>|
            #[trigger] A::read_spec(pre.reader.reader, aq, ar) ==> ar is Err,
        forall|bq: B, br: Result<A::Configuration, B::Error>|
            #[trigger] B::read_spec(pre.reader.fallback, bq, br) ==> br == Ok::<
                A::Configuration,
                B::Error,
            >(c0),
    ensures
        post.fallback == pre.fallback,
        r == Ok::<
            A::Configuration,
            FallbackConfigurationReadError<
                FallbackConfigurationReadError<A::Error, Option<B::Error>>,
                Option<C::Error>,
            >,
        >(c0),
{
    assert forall|
        iq: FallbackConfigurationReader<A, B, AlwaysFallback>,
        ir: Result<A::Configuration, FallbackConfigurationReadError<A::Error, Option<B::Error>>>,
    |
        #[trigger] FallbackConfigurationReader::read_spec(pre.reader, iq, ir) implies ir == Ok::<
        A::Configuration,
        FallbackConfigurationReadError<A::Error, Option<B::Error>>,
    >(c0) by {
        lemma_fallback_returns_fallback_value(pre.reader, iq, ir, c0);
    }
    lemma_fallback_untouched_on_primary_success(pre, post, r);
}

/// When the primary reader can only fail, the predicate accepts every error,
/// and the fallback reader can only return `c0`, a fallback read returns
/// exactly `c0`.
pub proof fn lemma_fallback_returns_fallback_value<R, F, P>(
    pre: FallbackConfigurationReader<R, F, P>,
    post: FallbackConfigurationReader<R, F, P>,
    r: Result<R::Configuration, FallbackConfigurationReadError<R::Error, Option<F::Error>>>,
    c0: R::Configuration,
) where
    R: ConfigurationReader,
    F: ConfigurationReader<Configuration = R::Configuration>,
    P: FallbackPredicate<R::Error>,

    requires
        FallbackConfigurationReader::read_spec(pre, post, r),
        forall|rq: R, rr: Result<R::Configuration, R::Error>|
            #[trigger] R::read_spec(pre.reader, rq, rr) ==> rr is Err,
        forall|e: R::Error| #[trigger] pre.should_fallback.accepts(e),
        forall|fq: F, fr: Result<R::Configuration, F::Error>|
            #[trigger] F::read_spec(pre.fallback, fq, fr) ==> fr == Ok::<
                R::Configuration,
                F::Error,
            >(c0),
    ensures
        r == Ok::<R::Configuration, FallbackConfigurationReadError<R::Error, Option<F::Error>>>(
            c0,
        ),
{
}

} // verus!
