//! A composable framework for reading and writing configuration values —
//! opaque, cloneable application settings — from pluggable sources, with
//! combinators for caching, fallback, fan-out writes, and serialized
//! mutation.
//!
//! The two capability contracts, [`ConfigurationReader`] and
//! [`ConfigurationWriter`], model each source as a state machine through the
//! relations `read_spec` and `write_spec`; every combinator's contract is
//! stated, and proved, in terms of the relations of its components, so that
//! error provenance and side-effect behaviour are pinned down for arbitrary
//! reader and writer implementations.

mod configuration_accessor;
mod configuration_reader;
mod configuration_target;
mod configuration_writer;
mod copy_configuration_error;
mod fluent_configuration_reader;

pub mod fan_out;
pub mod closure;
pub mod cache;
pub mod copy_on_read;
pub mod fallback;
pub mod memory;
pub mod sync;

pub use configuration_accessor::ConfigurationAccessor;
pub use configuration_reader::ConfigurationReader;
pub use configuration_target::ConfigurationTarget;
pub use configuration_writer::ConfigurationWriter;
pub use copy_configuration_error::CopyConfigurationError;
pub use fluent_configuration_reader::FluentConfigurationReader;

use vstd::prelude::*;

verus! {

/// Relates the components' states around one copy from a reader into a
/// writer. On a read failure the writer is untouched and the outcome is
/// `ReadError`; on a read success the value is written, a write failure is
/// `WriteError`, and when both succeed the outcome is exactly the value that
/// was read.
pub open spec fn copy_spec<R, W>(
    reader_pre: R,
    reader_post: R,
    writer_pre: W,
    writer_post: W,
    r: Result<R::Configuration, CopyConfigurationError<R::Error, W::Error>>,
) -> bool where R: ConfigurationReader, W: ConfigurationWriter<Configuration = R::Configuration> {
    match r {
        Ok(c) => R::read_spec(reader_pre, reader_post, Ok(c)) && W::write_spec(
            writer_pre,
            writer_post,
            c,
            Ok(()),
        ),
        Err(CopyConfigurationError::ReadError(e)) => R::read_spec(reader_pre, reader_post, Err(e))
            && writer_post == writer_pre,
        Err(CopyConfigurationError::WriteError(we)) => exists|c: R::Configuration|
            #[trigger] R::read_spec(reader_pre, reader_post, Ok(c)) && W::write_spec(
                writer_pre,
                writer_post,
                c,
                Err(we),
            ),
    }
}

/// Reads once from `reader` and writes the obtained value into `writer`,
/// returning the value on success. Read and write are strictly sequential:
/// the write never begins before the read completes. Failures keep their
/// provenance through `CopyConfigurationError`.
pub fn copy_configuration<R, W>(reader: &mut R, writer: &mut W) -> (r: Result<
    R::Configuration,
    CopyConfigurationError<R::Error, W::Error>,
>) where R: ConfigurationReader, W: ConfigurationWriter<Configuration = R::Configuration>
    ensures
        copy_spec(*old(reader), *final(reader), *old(writer), *final(writer), r),
{
    match reader.read_configuration() {
        Err(e) => Err(CopyConfigurationError::ReadError(e)),
        Ok(c) => match writer.write_configuration(&c) {
            Err(we) => Err(CopyConfigurationError::WriteError(we)),
            Ok(u) => {
                proof {
                    // The successful write's outcome is the unit result.
                    assert(u == ());
                }
                Ok(c)
            },
        },
    }
}

/// If the reader can only fail, a copy fails with `ReadError` and leaves the
/// writer untouched, even when the writer is configured to also fail.
pub proof fn lemma_copy_read_failure_wins<R, W>(
    reader_pre: R,
    reader_post: R,
    writer_pre: W,
    writer_post: W,
    r: Result<R::Configuration, CopyConfigurationError<R::Error, W::Error>>,
) where R: ConfigurationReader, W: ConfigurationWriter<Configuration = R::Configuration>
    requires
        copy_spec(reader_pre, reader_post, writer_pre, writer_post, r),
        forall|post: R, rr: Result<R::Configuration, R::Error>|
            #[trigger] R::read_spec(reader_pre, post, rr) ==> rr is Err,
    ensures
        r matches Err(CopyConfigurationError::ReadError(_)),
        writer_post == writer_pre,
{
}

/// If the reader can only succeed and the writer can only fail, a copy fails
/// with `WriteError`.
pub proof fn lemma_copy_write_failure<R, W>(
    reader_pre: R,
    reader_post: R,
    writer_pre: W,
    writer_post: W,
    r: Result<R::Configuration, CopyConfigurationError<R::Error, W::Error>>,
) where R: ConfigurationReader, W: ConfigurationWriter<Configuration = R::Configuration>
    requires
        copy_spec(reader_pre, reader_post, writer_pre, writer_post, r),
        forall|post: R, rr: Result<R::Configuration, R::Error>|
            #[trigger] R::read_spec(reader_pre, post, rr) ==> rr is Ok,
        forall|post: W, c: R::Configuration, wr: Result<(), W::Error>|
            #[trigger] W::write_spec(writer_pre, post, c, wr) ==> wr is Err,
    ensures
        r matches Err(CopyConfigurationError::WriteError(_)),
{
}

/// If the reader can only return `c0` and the writer can only succeed, a copy
/// returns exactly `c0`.
pub proof fn lemma_copy_returns_read_value<R, W>(
    reader_pre: R,
    reader_post: R,
    writer_pre: W,
    writer_post: W,
    r: Result<R::Configuration, CopyConfigurationError<R::Error, W::Error>>,
    c0: R::Configuration,
) where R: ConfigurationReader, W: ConfigurationWriter<Configuration = R::Configuration>
    requires
        copy_spec(reader_pre, reader_post, writer_pre, writer_post, r),
        forall|post: R, rr: Result<R::Configuration, R::Error>|
            #[trigger] R::read_spec(reader_pre, post, rr) ==> rr == Ok::<
                R::Configuration,
                R::Error,
            >(c0),
        forall|post: W, c: R::Configuration, wr: Result<(), W::Error>|
            #[trigger] W::write_spec(writer_pre, post, c, wr) ==> wr is Ok,
    ensures
        r == Ok::<R::Configuration, CopyConfigurationError<R::Error, W::Error>>(c0),
{
}

} // verus!
