//! Parse strings into records through the named capture groups of a regular expression.
pub mod annotation;
pub mod capturable;
pub mod de;
pub mod provider;
pub mod record;

pub use de::Deserializer;
pub use provider::RegexCapture;
