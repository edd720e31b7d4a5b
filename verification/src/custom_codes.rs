//! The catalogue of codes: one enum per subject, each a closed set of named
//! states. Most states are bare names; a few carry a reason, a list of names
//! or raw bytes.

pub mod access;
pub mod database;
pub mod execution;
pub mod files;
pub mod hardware;
pub mod networking;
pub mod outcome;
pub mod payload;
pub mod security;

pub use self::access::{AccessStatus, ActivityStatus, ActivityToggle, Subscription};
pub use self::database::DbOps;
pub use self::execution::{Cli, DateTimeOp, ExecCommand};
pub use self::files::{Compression, FileOps};
pub use self::hardware::HardwareResources;
pub use self::networking::Networking;
pub use self::outcome::{CustomBool, GenericOutcome, Outcome};
pub use self::security::{KeyLength, SecHardware, SecOps};
