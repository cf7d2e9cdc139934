//! Request and response state of the L7 proxy stack: the error type shared by
//! every layer, and the payload carried through an HTTP exchange, with lazy
//! buffering of its bodies and the decision that settles a response once the
//! middleware flow has run.

pub mod error;
pub mod payload;

pub use error::Error;
pub use payload::Container;
pub use payload::PayloadState;
pub use payload::Settlement;
pub use payload::VaneBody;
