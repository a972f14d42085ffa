use vstd::prelude::*;

use crate::configuration_reader::ConfigurationReader;
use crate::configuration_writer::ConfigurationWriter;
use crate::copy_configuration_error::CopyConfigurationError;
use crate::sync::ConcurrentWriter;
use crate::copy_configuration;
use crate::copy_spec;

verus! {

/// Wraps a primary reader and a backing writer, held behind a
/// concurrency-safe wrapper. Every read copies the value read from the
/// primary through into the backing writer, keeping a cache warm as a side
/// effect of normal reads; a failure of either half fails the whole read.
#[derive(Debug, Clone)]
pub struct CopyOnReadConfigurationReader<R, W> {
    /// The primary reader.
    pub reader: R,
    /// The backing writer every read's value is copied into.
    pub writer: ConcurrentWriter<W>,
}

impl<R, W> CopyOnReadConfigurationReader<R, W> where
    R: ConfigurationReader,
    W: ConfigurationWriter<Configuration = R::Configuration>,
 {
    /// Pairs the primary reader with the backing writer.
    pub fn new(reader: R, writer: W) -> (r: Self)
        ensures
            r.reader == reader,
            r.writer.writer == writer,
    {
        Self { reader, writer: ConcurrentWriter::new(writer) }
    }
}

impl<R, W> ConfigurationReader for CopyOnReadConfigurationReader<R, W> where
    R: ConfigurationReader,
    W: ConfigurationWriter<Configuration = R::Configuration>,
 {
    type Configuration = R::Configuration;

    type Error = CopyConfigurationError<R::Error, W::Error>;

    /// A read is exactly one copy from the primary reader into the backing
    /// writer.
    open spec fn read_spec(
        pre: Self,
        post: Self,
        r: Result<R::Configuration, CopyConfigurationError<R::Error, W::Error>>,
    ) -> bool {
        copy_spec(pre.reader, post.reader, pre.writer, post.writer, r)
    }

    fn read_configuration(&mut self) -> (r: Result<
        R::Configuration,
        CopyConfigurationError<R::Error, W::Error>,
    >) {
        copy_configuration(&mut self.reader, &mut self.writer)
    }
}

} // verus!
