//! An XML reformatter: it re-serializes a document's whitespace and
//! indentation without altering its logical content.
//!
//! The library has two parts. The option resolver turns raw command-line
//! values into a validated, immutable configuration. The reformat pipeline
//! drives a pull-style XML tokenizer over the input bytes and forwards each
//! token, in order, to a pretty-printing serializer configured with the
//! chosen indent unit. Tokenization and serialization themselves are done by
//! the `xml` crate behind a small trusted boundary in [`stream`].

pub mod options;
pub mod pipeline;
pub mod stream;
pub mod tokens;

pub use options::{build_config, exit_code, Config, ConfigError, Indent};
pub use pipeline::{format_xml, FormatError};
pub use tokens::Token;
