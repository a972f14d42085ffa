use lz_configuration::fan_out::BroadcastConfigurationWriteError;
use lz_configuration::fan_out::BroadcastConfigurationWriter;
use lz_configuration::cache::CacheConfigurationReader;
use lz_configuration::closure::default_factory;
use lz_configuration::closure::ClosureConfigurationReader;
use lz_configuration::closure::ClosureConfigurationWriter;
use lz_configuration::copy_configuration;
use lz_configuration::copy_on_read::CopyOnReadConfigurationReader;
use lz_configuration::fallback::predicate_true;
use lz_configuration::fallback::FallbackConfigurationReadError;
use lz_configuration::fallback::FallbackConfigurationReader;
use lz_configuration::fallback::FallbackPredicate;
use lz_configuration::memory::MemoryConfigurationAccessor;
use lz_configuration::memory::MemoryConfigurationReadError;
use lz_configuration::sync::ConcurrentWriter;
use lz_configuration::ConfigurationAccessor;
use lz_configuration::ConfigurationReader;
use lz_configuration::ConfigurationWriter;
use lz_configuration::CopyConfigurationError;
use lz_configuration::FluentConfigurationReader;

#[derive(Debug, Default, Clone, PartialEq, Eq)]
struct TestConfiguration(pub i32);

#[derive(Debug, Clone, Copy, PartialEq, Eq)]
struct ReadFault;

#[derive(Debug, Clone, Copy, PartialEq, Eq)]
struct WriteFault;

/// A reader that counts its invocations and returns a fixed outcome.
struct CountingReader {
    calls: u32,
    outcome: Result<TestConfiguration, ReadFault>,
}

impl CountingReader {
    fn succeeding(value: i32) -> Self {
        CountingReader { calls: 0, outcome: Ok(TestConfiguration(value)) }
    }

    fn failing() -> Self {
        CountingReader { calls: 0, outcome: Err(ReadFault) }
    }
}

impl ConfigurationReader for CountingReader {
    type Configuration = TestConfiguration;
    type Error = ReadFault;

    fn read_spec(_pre: Self, _post: Self, _r: Result<TestConfiguration, ReadFault>) -> bool {
        true
    }

    fn read_configuration(&mut self) -> Result<TestConfiguration, ReadFault> {
        self.calls += 1;
        self.outcome.clone()
    }
}

/// A writer that counts its invocations, records the last value written, and
/// fails on demand.
struct CountingWriter {
    calls: u32,
    last: Option<TestConfiguration>,
    fail: bool,
}

impl CountingWriter {
    fn succeeding() -> Self {
        CountingWriter { calls: 0, last: None, fail: false }
    }

    fn failing() -> Self {
        CountingWriter { calls: 0, last: None, fail: true }
    }
}

impl ConfigurationWriter for CountingWriter {
    type Configuration = TestConfiguration;
    type Error = WriteFault;

    fn write_spec(_pre: Self, _post: Self, _c: TestConfiguration, _r: Result<(), WriteFault>) -> bool {
        true
    }

    fn write_configuration(&mut self, configuration: &TestConfiguration) -> Result<(), WriteFault> {
        self.calls += 1;
        if self.fail {
            Err(WriteFault)
        } else {
            self.last = Some(configuration.clone());
            Ok(())
        }
    }
}

/// A predicate that declines the fallback on every error.
struct RejectAll;

impl FallbackPredicate<ReadFault> for RejectAll {
    fn accepts(self, _error: ReadFault) -> bool {
        false
    }

    fn accept(&self, _error: &ReadFault) -> bool {
        false
    }
}

/// A predicate that declines the fallback on every chained-read error.
struct RejectChainError;

impl<R, F> FallbackPredicate<FallbackConfigurationReadError<R, F>> for RejectChainError {
    fn accepts(self, _error: FallbackConfigurationReadError<R, F>) -> bool {
        false
    }

    fn accept(&self, _error: &FallbackConfigurationReadError<R, F>) -> bool {
        false
    }
}

/// A predicate that declines the fallback on every memory read error.
struct NeverFallback;

impl FallbackPredicate<MemoryConfigurationReadError> for NeverFallback {
    fn accepts(self, _error: MemoryConfigurationReadError) -> bool {
        false
    }

    fn accept(&self, _error: &MemoryConfigurationReadError) -> bool {
        false
    }
}

#[test]
fn read_configuration_before_write_returns_error() {
    // Arrange
    let mut accessor = MemoryConfigurationAccessor::<TestConfiguration>::default();

    // Act
    let error = accessor.read_configuration().unwrap_err();

    // Assert
    assert_eq!(error, MemoryConfigurationReadError::NoConfiguration);
}

#[test]
fn read_configuration_after_write_returns_configuration() {
    // Arrange
    let mut accessor = MemoryConfigurationAccessor::<TestConfiguration>::default();

    accessor.write_configuration(&TestConfiguration(5)).unwrap();

    // Act
    let configuration = accessor.read_configuration().unwrap();

    // Assert
    assert_eq!(configuration, TestConfiguration(5));
}

#[test]
fn clone_references_same_written_configuration() {
    // Arrange
    let mut accessor = MemoryConfigurationAccessor::<TestConfiguration>::default();
    accessor.write_configuration(&TestConfiguration(5)).unwrap();

    // Act
    let mut cloned_accessor = accessor.clone();

    // Assert
    let first_configuration = accessor.read_configuration().unwrap();
    let second_configuration = cloned_accessor.read_configuration().unwrap();

    assert_eq!(first_configuration, TestConfiguration(5));
    assert_eq!(second_configuration, TestConfiguration(5));
}

#[test]
fn memory_new_holds_initial_configuration() {
    let mut accessor = MemoryConfigurationAccessor::new(Some(TestConfiguration(7)));

    assert_eq!(accessor.read_configuration().unwrap(), TestConfiguration(7));
}

#[test]
fn default_read_configuration_returns_default() {
    // Arrange
    let mut reader = ClosureConfigurationReader::new(default_factory::<TestConfiguration>);

    // Act
    let configuration: TestConfiguration = reader.read_configuration().unwrap();

    // Assert
    assert_eq!(configuration, TestConfiguration::default());
}

#[test]
fn factory_read_configuration_returns_factory() {
    // Arrange
    let mut reader =
        ClosureConfigurationReader::new(|| Ok::<TestConfiguration, ReadFault>(TestConfiguration(5)));

    // Act
    let configuration = reader.read_configuration().unwrap();

    // Assert
    assert_eq!(configuration, TestConfiguration(5));
}

#[test]
fn closure_writer_hands_configuration_to_callback() {
    let written = std::cell::RefCell::new(None);
    let mut writer = ClosureConfigurationWriter::new(|c: &TestConfiguration| {
        *written.borrow_mut() = Some(c.clone());
        Ok::<(), WriteFault>(())
    });

    writer.write_configuration(&TestConfiguration(9)).unwrap();

    assert_eq!(*written.borrow(), Some(TestConfiguration(9)));
}

#[test]
fn copy_read_failure_wins_over_failing_writer() {
    let mut reader = CountingReader::failing();
    let mut writer = CountingWriter::failing();

    let result = copy_configuration(&mut reader, &mut writer);

    assert_eq!(result.unwrap_err(), CopyConfigurationError::ReadError(ReadFault));
    assert_eq!(writer.calls, 0);
}

#[test]
fn copy_write_failure_is_tagged_write_error() {
    let mut reader = CountingReader::succeeding(3);
    let mut writer = CountingWriter::failing();

    let result = copy_configuration(&mut reader, &mut writer);

    assert_eq!(result.unwrap_err(), CopyConfigurationError::WriteError(WriteFault));
    assert_eq!(reader.calls, 1);
    assert_eq!(writer.calls, 1);
}

#[test]
fn copy_returns_read_value_when_both_succeed() {
    let mut reader = CountingReader::succeeding(11);
    let mut writer = CountingWriter::succeeding();

    let result = copy_configuration(&mut reader, &mut writer);

    assert_eq!(result.unwrap(), TestConfiguration(11));
    assert_eq!(writer.last, Some(TestConfiguration(11)));
}

#[test]
fn fallback_untouched_when_primary_succeeds() {
    let mut chain =
        FallbackConfigurationReader::new(CountingReader::succeeding(1), CountingReader::succeeding(2));

    let configuration = chain.read_configuration().unwrap();

    assert_eq!(configuration, TestConfiguration(1));
    assert_eq!(chain.fallback.calls, 0);
}

#[test]
fn fallback_declined_by_predicate_carries_no_fallback_error() {
    let mut chain = FallbackConfigurationReader::new_conditional(
        CountingReader::failing(),
        CountingReader::succeeding(2),
        RejectAll,
    );

    let error = chain.read_configuration().unwrap_err();

    assert_eq!(*error.read_error(), ReadFault);
    assert_eq!(*error.fallback_error(), None);
    assert_eq!(chain.fallback.calls, 0);
}

#[test]
fn fallback_returns_fallback_value_when_primary_fails() {
    let mut chain =
        FallbackConfigurationReader::new(CountingReader::failing(), CountingReader::succeeding(2));

    let configuration = chain.read_configuration().unwrap();

    assert_eq!(configuration, TestConfiguration(2));
    assert_eq!(chain.reader.calls, 1);
    assert_eq!(chain.fallback.calls, 1);
}

#[test]
fn fallback_failure_on_both_sides_carries_both_errors() {
    let mut chain =
        FallbackConfigurationReader::new(CountingReader::failing(), CountingReader::failing());

    let error = chain.read_configuration().unwrap_err();

    assert_eq!(*error.read_error(), ReadFault);
    assert_eq!(*error.fallback_error(), Some(ReadFault));
}

#[test]
fn fallback_error_getters_return_components() {
    let error = FallbackConfigurationReadError::new(ReadFault, Some(WriteFault));

    assert_eq!(*error.read_error(), ReadFault);
    assert_eq!(*error.fallback_error(), Some(WriteFault));
}

#[test]
fn predicate_true_accepts_anything() {
    assert!(predicate_true(&TestConfiguration(0)));
    assert!(predicate_true(&ReadFault));
}

#[test]
fn pushed_back_reader_serves_as_last_resort() {
    let chain =
        FallbackConfigurationReader::new(CountingReader::failing(), CountingReader::failing());
    let mut chain = chain.push_reader_back(CountingReader::succeeding(4));

    let configuration = chain.read_configuration().unwrap();

    assert_eq!(configuration, TestConfiguration(4));
}

#[test]
fn pushed_front_reader_is_tried_first() {
    let chain =
        FallbackConfigurationReader::new(CountingReader::failing(), CountingReader::succeeding(2));
    let mut chain = chain.push_reader_front(CountingReader::succeeding(9));

    let configuration = chain.read_configuration().unwrap();

    assert_eq!(configuration, TestConfiguration(9));
    assert_eq!(chain.fallback.reader.calls, 0);
    assert_eq!(chain.fallback.fallback.calls, 0);
}

#[test]
fn pushed_conditional_reader_back_respects_predicate() {
    let chain =
        FallbackConfigurationReader::new(CountingReader::failing(), CountingReader::failing());
    let mut chain =
        chain.push_conditional_reader_back(CountingReader::succeeding(4), RejectChainError);

    let error = chain.read_configuration().unwrap_err();

    assert_eq!(*error.fallback_error(), None);
    assert_eq!(chain.fallback.calls, 0);
}

#[test]
fn broadcast_first_failure_is_tagged_first() {
    let mut writer =
        BroadcastConfigurationWriter::new(CountingWriter::failing(), CountingWriter::succeeding());

    let error = writer.write_configuration(&TestConfiguration(6)).unwrap_err();

    assert_eq!(error, BroadcastConfigurationWriteError::First(WriteFault));
    // Both writes are always issued; the second side's effect is applied.
    assert_eq!(writer.second_writer.calls, 1);
    assert_eq!(writer.second_writer.last, Some(TestConfiguration(6)));
}

#[test]
fn broadcast_second_failure_is_tagged_second() {
    let mut writer =
        BroadcastConfigurationWriter::new(CountingWriter::succeeding(), CountingWriter::failing());

    let error = writer.write_configuration(&TestConfiguration(6)).unwrap_err();

    assert_eq!(error, BroadcastConfigurationWriteError::Second(WriteFault));
    assert_eq!(writer.first_writer.last, Some(TestConfiguration(6)));
}

#[test]
fn broadcast_writes_both_destinations_on_success() {
    let mut writer =
        BroadcastConfigurationWriter::new(CountingWriter::succeeding(), CountingWriter::succeeding());

    writer.write_configuration(&TestConfiguration(8)).unwrap();

    assert_eq!(writer.first_writer.last, Some(TestConfiguration(8)));
    assert_eq!(writer.second_writer.last, Some(TestConfiguration(8)));
}

#[test]
fn concurrent_writer_passes_write_through_once() {
    let mut writer = ConcurrentWriter::new(CountingWriter::succeeding());

    writer.write_configuration(&TestConfiguration(3)).unwrap();

    assert_eq!(writer.writer.calls, 1);
    assert_eq!(writer.writer.last, Some(TestConfiguration(3)));
}

#[test]
fn copy_on_read_persists_every_read() {
    let mut reader = CopyOnReadConfigurationReader::new(
        CountingReader::succeeding(12),
        CountingWriter::succeeding(),
    );

    let configuration = reader.read_configuration().unwrap();

    assert_eq!(configuration, TestConfiguration(12));
    assert_eq!(reader.writer.writer.last, Some(TestConfiguration(12)));
}

#[test]
fn copy_on_read_fails_with_read_error_when_source_fails() {
    let mut reader =
        CopyOnReadConfigurationReader::new(CountingReader::failing(), CountingWriter::succeeding());

    let error = reader.read_configuration().unwrap_err();

    assert_eq!(error, CopyConfigurationError::ReadError(ReadFault));
    assert_eq!(reader.writer.writer.calls, 0);
}

#[test]
fn cache_reads_source_once_for_two_reads() {
    let mut cached = CacheConfigurationReader::new(CountingReader::succeeding(42));

    let first = cached.read_configuration().unwrap();
    let second = cached.read_configuration().unwrap();

    assert_eq!(first, TestConfiguration(42));
    assert_eq!(second, TestConfiguration(42));
    assert_eq!(cached.reader.calls, 1);
}

#[test]
fn cache_propagates_source_failure_as_read_error() {
    let mut cached = CacheConfigurationReader::new(CountingReader::failing());

    let error = cached.read_configuration().unwrap_err();

    assert_eq!(error, CopyConfigurationError::ReadError(ReadFault));
}

#[test]
fn accessor_delegates_to_its_pair() {
    let mut accessor =
        ConfigurationAccessor::new(CountingReader::succeeding(21), CountingWriter::succeeding());

    assert_eq!(accessor.read_configuration().unwrap(), TestConfiguration(21));
    accessor.write_configuration(&TestConfiguration(22)).unwrap();

    let (reader, writer) = accessor.into_pair();
    assert_eq!(reader.calls, 1);
    assert_eq!(writer.last, Some(TestConfiguration(22)));
}

#[test]
fn accessor_from_pair_binds_components() {
    let mut accessor =
        ConfigurationAccessor::from((CountingReader::succeeding(13), CountingWriter::succeeding()));

    assert_eq!(accessor.read_configuration().unwrap(), TestConfiguration(13));
}

#[test]
fn with_cache_prefers_populated_accessor() {
    let accessor = MemoryConfigurationAccessor::new(Some(TestConfiguration(1)));
    let mut cached = CountingReader::succeeding(2).with_cache(accessor);

    let configuration = cached.read_configuration().unwrap();

    assert_eq!(configuration, TestConfiguration(1));
    assert_eq!(cached.reader.calls, 0);
}

#[test]
fn with_cache_falls_back_to_source_and_captures_value() {
    let accessor = MemoryConfigurationAccessor::<TestConfiguration>::empty();
    let mut cached = CountingReader::succeeding(2).with_cache(accessor);

    let configuration = cached.read_configuration().unwrap();

    assert_eq!(configuration, TestConfiguration(2));
    assert_eq!(cached.reader.calls, 1);
    assert_eq!(cached.accessor.configuration, Some(TestConfiguration(2)));
}

#[test]
fn with_cache_reads_source_once_for_two_reads() {
    let accessor = MemoryConfigurationAccessor::<TestConfiguration>::empty();
    let mut cached = CountingReader::succeeding(2).with_cache(accessor);

    let first = cached.read_configuration().unwrap();
    let second = cached.read_configuration().unwrap();

    assert_eq!(first, TestConfiguration(2));
    assert_eq!(second, TestConfiguration(2));
    // The first read populated the cache; the second was served from it.
    assert_eq!(cached.reader.calls, 1);
}

#[test]
fn with_conditional_cache_respects_predicate() {
    let accessor = MemoryConfigurationAccessor::<TestConfiguration>::empty();
    let mut cached = CountingReader::succeeding(2).with_conditional_cache(accessor, NeverFallback);

    let error = cached.read_configuration().unwrap_err();

    assert_eq!(*error.read_error(), MemoryConfigurationReadError::NoConfiguration);
    assert!(error.fallback_error().is_none());
    assert_eq!(cached.reader.calls, 0);
    assert_eq!(cached.accessor.configuration, None);
}
