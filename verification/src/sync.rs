use vstd::prelude::*;

use crate::configuration_writer::ConfigurationWriter;

verus! {

/// Wraps a writer that is not itself safe for concurrent use, and hands each
/// write through to it exactly once, unchanged. The mutual exclusion of
/// concurrently running callers rests on a shared lock, which no contract
/// here can model; in this crate exclusive access to the guarded writer comes
/// from Rust's exclusive reference to the wrapper.
#[derive(Debug, Clone)]
pub struct ConcurrentWriter<W> {
    /// The guarded writer.
    pub writer: W,
}

impl<W: ConfigurationWriter> ConcurrentWriter<W> {
    /// Wraps the given writer. Use this where concurrent access to the writer
    /// is required but the writer does not support concurrent access.
    pub fn new(writer: W) -> (r: Self)
        ensures
            r.writer == writer,
    {
        Self { writer }
    }
}

impl<W: ConfigurationWriter> ConfigurationWriter for ConcurrentWriter<W> {
    type Configuration = W::Configuration;

    type Error = W::Error;

    /// Each write passes through to the guarded writer exactly once,
    /// altering neither its success nor its error semantics.
    open spec fn write_spec(
        pre: Self,
        post: Self,
        c: W::Configuration,
        r: Result<(), W::Error>,
    ) -> bool {
        W::write_spec(pre.writer, post.writer, c, r)
    }

    fn write_configuration(&mut self, configuration: &W::Configuration) -> (r: Result<
        (),
        W::Error,
    >) {
        self.writer.write_configuration(configuration)
    }
}

/// The wrapper is transparent: a write through it is exactly one write on the
/// guarded writer, with the same state change and the same outcome.
pub proof fn lemma_concurrent_writer_transparent<W: ConfigurationWriter>(
    pre: ConcurrentWriter<W>,
    post: ConcurrentWriter<W>,
    c: W::Configuration,
    r: Result<(), W::Error>,
)
    ensures
        ConcurrentWriter::write_spec(pre, post, c, r) == W::write_spec(
            pre.writer,
            post.writer,
            c,
            r,
        ),
{
}

} // verus!
