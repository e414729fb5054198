//! Streaming, bounded-memory validator for binary WebAssembly modules and
//! components, together with the data model of the content store that serves
//! such modules.
//!
//! The validator decides whether a byte stream is a structurally and
//! semantically well-formed module, including modules nested inside
//! components, without buffering the whole input. It behaves identically
//! whether the input arrives in one piece or in arbitrarily small chunks,
//! and reports the first error together with a byte offset. Two choices are
//! fixed here: bytes after the root container's end are accepted and left
//! unconsumed, and input that ends too early fails with a distinct message,
//! "unexpected end of input" at the top level and "unclosed nested
//! container" when containers are still open.

pub mod driver;
pub mod engine;
pub mod failure;
pub mod hash;
pub mod path;
pub mod store;
pub mod window;

pub use hash::Commit;
pub use path::Path;
pub use store::CommitInfo;
pub use store::Version;
pub use driver::Driver;
pub use driver::RunStatus;
pub use driver::Step;
pub use driver::validate;
pub use driver::validate_chunks;
pub use failure::ValidationFailure;
