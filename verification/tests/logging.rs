use jf::logging::{JfStdout, LogGenerator, LogLevel, MockLogWriter};
use jf::error::JfResult;

trait Fixture {
    fn fixture() -> Self;
}

impl Fixture for LogLevel {
    fn fixture() -> Self {
        LogLevel::Debug
    }
}

impl Fixture for LogGenerator {
    fn fixture() -> Self {
        LogGenerator::new(Fixture::fixture(), "test".to_string())
    }
}

#[test]
fn mod_init() {
    let _ = JfStdout::new();
    let _ = MockLogWriter::new();
}

#[test]
fn mod_write() -> JfResult<()> {
    let mut w = MockLogWriter::new();
    w.write("test")?;
    assert_eq!(w.lines(), vec!["test"]);
    w.write("test2")?;
    assert_eq!(w.lines(), vec!["test", "test2"]);
    Ok(())
}

#[test]
fn mock_init() {
    let writer = MockLogWriter::new();
    assert_eq!(writer.lines(), Vec::<String>::new());
}

#[test]
fn log_generator() {
    let log_gen = LogGenerator::fixture();
    let text = log_gen.gen();
    assert_eq!(String::from("[D] test"), text);
}

#[test]
fn log_generator_stamps_the_time() {
    let text = LogGenerator::new(LogLevel::Warn, "careful".to_string())
        .with_stamp("12:34:56.789".to_string())
        .gen();
    assert_eq!(text, "12:34:56.789[W] careful");
}

#[test]
fn log_level() {
    assert_eq!(LogLevel::Silent, LogLevel::from_str("none", false).unwrap());
    assert_eq!(LogLevel::Error, LogLevel::from_str("error", false).unwrap());
    assert_eq!(LogLevel::Warn, LogLevel::from_str("warn", false).unwrap());
    assert_eq!(LogLevel::Info, LogLevel::from_str("info", false).unwrap());
    assert_eq!(LogLevel::Debug, LogLevel::from_str("debug", false).unwrap());
    assert!(LogLevel::from_str("anything", false).is_err());
}

#[test]
fn log_level_ignoring_case() {
    assert_eq!(LogLevel::Debug, LogLevel::from_str("DeBuG", true).unwrap());
    assert!(LogLevel::from_str("DEBUG", false).is_err());
    assert_eq!(LogLevel::from_str("loud", true).unwrap_err(), "invalid variant: loud");
}

#[test]
fn log_level_default() {
    assert_eq!(LogLevel::Info, LogLevel::default());
}

#[test]
fn log_level_fixture() {
    assert_eq!(LogLevel::Debug, LogLevel::fixture());
}

#[test]
fn log_level_tags() {
    let tags: Vec<&str> = [LogLevel::Silent, LogLevel::Error, LogLevel::Warn, LogLevel::Info, LogLevel::Debug]
        .iter()
        .map(|l| l.short())
        .collect();
    assert_eq!(tags, vec!["N", "E", "W", "I", "D"]);
}

/// The messages that a logger at `level` lets through, from the four that
/// the logging tests send.
fn emitted(level: LogLevel) -> Vec<String> {
    let mut writer = MockLogWriter::new();
    for (msg_level, msg) in [
        (LogLevel::Error, "error"),
        (LogLevel::Warn, "warn"),
        (LogLevel::Info, "info"),
        (LogLevel::Debug, "debug"),
    ] {
        if level.allows(msg_level) {
            writer.write(&LogGenerator::new(msg_level, msg.to_string()).gen()).unwrap();
        }
    }
    writer.lines()
}

#[test]
fn filter_debug() {
    assert_eq!(emitted(LogLevel::Debug), vec!["[E] error", "[W] warn", "[I] info", "[D] debug"]);
}

#[test]
fn filter_info() {
    assert_eq!(emitted(LogLevel::Info), vec!["[E] error", "[W] warn", "[I] info"]);
}

#[test]
fn filter_warn() {
    assert_eq!(emitted(LogLevel::Warn), vec!["[E] error", "[W] warn"]);
}

#[test]
fn filter_error() {
    assert_eq!(emitted(LogLevel::Error), vec!["[E] error"]);
}

#[test]
fn filter_silent() {
    assert_eq!(emitted(LogLevel::Silent), Vec::<String>::new());
}

#[test]
fn mock_write() -> JfResult<()> {
    let mut writer = MockLogWriter::new();
    writer.write("test")?;
    assert_eq!(writer.lines(), vec!["test".to_string()]);
    assert_eq!(writer.clone().lines(), vec!["test".to_string()]);
    Ok(())
}
