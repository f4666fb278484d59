//! A uniform abstraction for composing and running external command-line
//! tools: build an argument list, optionally pick a working directory, run,
//! and receive a normalized outcome (an exit code or a typed error with a
//! stable numeric code).
//!
//! The crate exposes the command contract itself ([`XSCommand`]), the error
//! capability it is parameterized by ([`XSCommandErr`]) together with a
//! default error type ([`DefaultErr`]), a verified command-line value
//! ([`CommandLine`]) that concrete wrappers can embed, and the decision
//! rule that maps the observable events of one run to the outcome the
//! caller of `excute` sees ([`excute_outcome`]).
//!
//! Spawning the process, creating redirection targets and validating a
//! working directory are the embedding application's work; everything the
//! crate decides about them is stated and proved here.

pub mod command;
pub mod err;
pub mod render;

pub use command::CommandLine;
pub use command::RunEvent;
pub use command::XSCommand;
pub use command::excute_outcome;
pub use err::DefaultErr;
pub use err::XSCommandErr;
