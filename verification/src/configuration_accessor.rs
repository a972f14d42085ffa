use vstd::prelude::*;

use crate::configuration_reader::ConfigurationReader;
use crate::configuration_writer::ConfigurationWriter;

verus! {

/// A value pairing one reader and one writer of matching configuration type.
/// It carries no state of its own beyond the pair, and delegates each
/// capability to the corresponding component.
#[derive(Debug, Clone)]
pub struct ConfigurationAccessor<R, W> {
    /// The read side of the pair.
    pub reader: R,
    /// The write side of the pair.
    pub writer: W,
}

impl<R, W> ConfigurationAccessor<R, W> where
    R: ConfigurationReader,
    W: ConfigurationWriter<Configuration = R::Configuration>,
 {
    /// Binds the given reader and writer into one handle.
    pub fn new(reader: R, writer: W) -> (r: Self)
        ensures
            r.reader == reader,
            r.writer == writer,
    {
        Self { reader, writer }
    }
}

impl<R, W> ConfigurationAccessor<R, W> {
    /// Splits the accessor back into its reader/writer pair.
    pub fn into_pair(self) -> (r: (R, W))
        ensures
            r.0 == self.reader,
            r.1 == self.writer,
    {
        (self.reader, self.writer)
    }
}

impl<R, W> From<(R, W)> for ConfigurationAccessor<R, W> where
    R: ConfigurationReader,
    W: ConfigurationWriter<Configuration = R::Configuration>,
 {
    /// Binds a reader/writer pair into an accessor.
    fn from(value: (R, W)) -> (r: Self) {
        Self::new(value.0, value.1)
    }
}

impl<R, W> vstd::std_specs::convert::FromSpecImpl<(R, W)> for ConfigurationAccessor<R, W> where
    R: ConfigurationReader,
    W: ConfigurationWriter<Configuration = R::Configuration>,
 {
    open spec fn obeys_from_spec() -> bool {
        true
    }

    open spec fn from_spec(value: (R, W)) -> Self {
        ConfigurationAccessor { reader: value.0, writer: value.1 }
    }
}

impl<R: ConfigurationReader, W> ConfigurationReader for ConfigurationAccessor<R, W> {
    type Configuration = R::Configuration;

    type Error = R::Error;

    /// A read goes through the read side and leaves the write side untouched.
    open spec fn read_spec(
        pre: Self,
        post: Self,
        r: Result<R::Configuration, R::Error>,
    ) -> bool {
        &&& R::read_spec(pre.reader, post.reader, r)
        &&& post.writer == pre.writer
    }

    fn read_configuration(&mut self) -> (r: Result<R::Configuration, R::Error>) {
        self.reader.read_configuration()
    }
}

impl<R, W: ConfigurationWriter> ConfigurationWriter for ConfigurationAccessor<R, W> {
    type Configuration = W::Configuration;

    type Error = W::Error;

    /// A write goes through the write side and leaves the read side untouched.
    open spec fn write_spec(
        pre: Self,
        post: Self,
        c: W::Configuration,
        r: Result<(), W::Error>,
    ) -> bool {
        &&& W::write_spec(pre.writer, post.writer, c, r)
        &&& post.reader == pre.reader
    }

    fn write_configuration(&mut self, configuration: &W::Configuration) -> (r: Result<
        (),
        W::Error,
    >) {
        self.writer.write_configuration(configuration)
    }
}

} // verus!
