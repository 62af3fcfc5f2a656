//! A uniform hashing facade: a selectable digest algorithm, applied to
//! in-memory bytes or to a stream of chunks, returning a lowercase hex string.

mod algorithm;
mod hex;
mod primitives;
mod digester;
mod lemmas;
mod session;

pub use algorithm::Algorithm;
pub use digester::{ConfigError, DigestError, Hashery, DEFAULT_BUFFER_SIZE};
pub use session::DigestSession;
