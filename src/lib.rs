//! Registers a pushed container image with a deployment backend.
//!
//! The library holds every decision of the notifier: which inputs are
//! required, which endpoint is called, what the request carries, and how the
//! response maps to a diagnostic and an exit code. The caller performs the
//! reads of the process environment and the single HTTP exchange.

pub mod endpoint;
pub mod error;
pub mod input;
pub mod laws;
pub mod outcome;
pub mod payload;
pub mod request;
pub mod text;

pub use endpoint::Config;
pub use error::{EnvVar, Flag, NotifyError};
pub use input::{read_input, EnvParams, InputParams, Transport};
pub use outcome::{graphql_outcome, report, rest_outcome};
pub use payload::{GitRepositoryProvider, GithubActionArtifactPushPayload};
pub use request::{prepare, OutboundRequest, RawInputs};
