pub mod log_generator;
pub mod log_level;
pub mod writer;

pub use log_generator::LogGenerator;
pub use log_level::LogLevel;
pub use writer::{JfStdout, LogMessage, MockLogWriter};
