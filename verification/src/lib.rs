//! Build-time provenance made rebuildable on demand.
//!
//! A build toolchain only re-runs a generation step when a declared input
//! changes, so metadata such as a build timestamp goes stale across rebuilds.
//! This library holds the logic of a forced-rebuild mechanism: a trigger
//! value, derived from a hash of the current wall-clock time and encoded as a
//! decimal numeral, is placed in an environment variable that the generation
//! step declares as an input; the next build then observes a changed value
//! and re-runs the generator.
//!
//! The modules:
//! - [`numeral`]: decimal encoding of trigger values, with its injectivity.
//! - [`trigger`]: the trigger value computation and the fixed names of the
//!   environment variable and of the declaration of interest.
//! - [`pipeline`]: a model of one build invocation: when the fragment is
//!   regenerated, when it is reused, and how generator failure aborts.
//!
//! The process-environment write and the file write themselves are I/O and
//! live outside the library; callers hand their outcomes in as plain values.

pub mod numeral;
pub mod pipeline;
pub mod trigger;
