//! Process supervisor for a single long-lived backend server.
//!
//! The library holds the decision logic of the supervisor: the configuration
//! and process-slot state machine, interpreter resolution, spawn-argument and
//! URL construction, readiness-poll bookkeeping, and output-relay tagging.
//! The operating-system work itself (spawning, signalling, connecting,
//! sleeping) is done by the hosting application, which feeds the observed
//! events back into these functions.

pub mod decimal;
pub mod interpreter;
pub mod relay;
pub mod supervisor;

pub use decimal::decimal_string;
pub use supervisor::Liveness;
pub use supervisor::ServerStatus;
pub use supervisor::StartError;
pub use supervisor::Supervisor;
