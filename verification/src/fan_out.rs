use vstd::prelude::*;

use crate::configuration_writer::ConfigurationWriter;

verus! {

/// The error of a broadcast write, tagged with exactly the side that failed;
/// the two sides' errors are never merged into one value.
#[derive(Debug, PartialEq, Eq)]
pub enum BroadcastConfigurationWriteError<F, S> {
    /// The first writer failed.
    First(F),
    /// The second writer failed.
    Second(S),
}

/// Fans one write out to two writers. Both writes are always issued and run
/// to completion before the combined outcome is reported; success requires
/// both sides to succeed. This is non-transactional fan-out: no atomicity and
/// no rollback are provided across the two destinations.
#[derive(Debug, Clone)]
pub struct BroadcastConfigurationWriter<F, S> {
    /// The first destination.
    pub first_writer: F,
    /// The second destination.
    pub second_writer: S,
}

impl<F, S> BroadcastConfigurationWriter<F, S> where
    F: ConfigurationWriter,
    S: ConfigurationWriter<Configuration = F::Configuration>,
 {
    /// Pairs the two destinations of the fan-out.
    pub fn new(first_writer: F, second_writer: S) -> (r: Self)
        ensures
            r.first_writer == first_writer,
            r.second_writer == second_writer,
    {
        Self { first_writer, second_writer }
    }
}

impl<F, S> BroadcastConfigurationWriter<F, S> {
    /// Extends the fan-out: the new writer becomes the first destination and
    /// the existing pair the second.
    pub fn push_writer_front<W>(self, writer: W) -> (r: BroadcastConfigurationWriter<W, Self>) where
        Self: ConfigurationWriter,
        W: ConfigurationWriter<Configuration = <Self as ConfigurationWriter>::Configuration>,

        ensures
            r.first_writer == writer,
            r.second_writer == self,
    {
        BroadcastConfigurationWriter::new(writer, self)
    }

    /// Extends the fan-out: the existing pair stays the first destination and
    /// the new writer becomes the second.
    pub fn push_writer_back<W>(self, writer: W) -> (r: BroadcastConfigurationWriter<Self, W>) where
        Self: ConfigurationWriter,
        W: ConfigurationWriter<Configuration = <Self as ConfigurationWriter>::Configuration>,

        ensures
            r.first_writer == self,
            r.second_writer == writer,
    {
        BroadcastConfigurationWriter::new(self, writer)
    }
}

impl<F, S> ConfigurationWriter for BroadcastConfigurationWriter<F, S> where
    F: ConfigurationWriter,
    S: ConfigurationWriter<Configuration = F::Configuration>,
 {
    type Configuration = F::Configuration;

    type Error = BroadcastConfigurationWriteError<F::Error, S::Error>;

    /// Both sides are written. The composite succeeds only when both sides
    /// succeed; a failure is tagged with the failing side, the first side
    /// taking precedence when both fail.
    open spec fn write_spec(
        pre: Self,
        post: Self,
        c: F::Configuration,
        r: Result<(), BroadcastConfigurationWriteError<F::Error, S::Error>>,
    ) -> bool {
        exists|r1: Result<(), F::Error>, r2: Result<(), S::Error>|
            {
                &&& #[trigger] F::write_spec(pre.first_writer, post.first_writer, c, r1)
                &&& #[trigger] S::write_spec(pre.second_writer, post.second_writer, c, r2)
                &&& match (r1, r2) {
                    (Err(e), _) => r matches Err(BroadcastConfigurationWriteError::First(fe))
                        && fe == e,
                    (Ok(_), Err(e)) => r matches Err(BroadcastConfigurationWriteError::Second(se))
                        && se == e,
                    (Ok(_), Ok(_)) => r matches Ok(_),
                }
            }
    }

    fn write_configuration(&mut self, configuration: &F::Configuration) -> (r: Result<
        (),
        BroadcastConfigurationWriteError<F::Error, S::Error>,
    >) {
        let first = self.first_writer.write_configuration(configuration);
        let second = self.second_writer.write_configuration(configuration);
        proof {
            assert(F::write_spec(
                old(self).first_writer,
                self.first_writer,
                *configuration,
                first,
            ));
            assert(S::write_spec(
                old(self).second_writer,
                self.second_writer,
                *configuration,
                second,
            ));
        }
        match first {
            Err(e) => Err(BroadcastConfigurationWriteError::First(e)),
            Ok(_) => match second {
                Err(e) => Err(BroadcastConfigurationWriteError::Second(e)),
                Ok(_) => Ok(()),
            },
        }
    }
}

/// When the first writer can only fail, a broadcast write fails tagged to the
/// first side, whatever the configuration and however the second side fares.
pub proof fn lemma_broadcast_first_failure_tagged<F, S>(
    pre: BroadcastConfigurationWriter<F, S>,
    post: BroadcastConfigurationWriter<F, S>,
    c: F::Configuration,
    r: Result<(), BroadcastConfigurationWriteError<F::Error, S::Error>>,
) where F: ConfigurationWriter, S: ConfigurationWriter<Configuration = F::Configuration>
    requires
        BroadcastConfigurationWriter::write_spec(pre, post, c, r),
        forall|fq: F, r1: Result<(), F::Error>|
            #[trigger] F::write_spec(pre.first_writer, fq, c, r1) ==> r1 is Err,
    ensures
        r matches Err(BroadcastConfigurationWriteError::First(_)),
{
}

} // verus!
