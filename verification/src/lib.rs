//! Records when a program was built.
//!
//! A build picks one moment, either the timestamp handed to it for a
//! reproducible build or the local wall clock, writes it as an RFC 3339 text
//! and wraps that text in a one-line source fragment. The program that embeds
//! the fragment reads the same moment back.
//!
//! The build step is [`generate`]; the program's side is [`ensoulment`].
//!
//! Timestamps are read and written, and the clock is read, by `chrono`. The
//! module [`rfc3339`] holds those calls and says what is taken on trust of
//! each. Everything else is proved: what a build chooses, the text of the
//! fragment, that the fragment reads back as what was written, and the
//! wording of the one error.

pub mod embed;
pub mod error;
pub mod fragment;
pub mod generator;
pub mod laws;
pub mod moment;
pub mod rfc3339;

pub use embed::ensoulment;
pub use error::EnsoulmentBuildError;
pub use fragment::{read_fragment, render_fragment};
pub use generator::{fragment_for, generate, moment_from_env, select_moment};
pub use moment::{BuildMoment, MomentView};
