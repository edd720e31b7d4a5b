//! Enumerated codes for memorable and uniform responses, and a classifier
//! that sorts any `anyhow::Error` into a closed set of error categories.
//!
//! Enums are cheaper to compare and harder to get wrong than strings.
//!
//! ## Examples
//!
//! ### Create codes for file operations
//! ```
//! use custom_codes::FileOps;
//!
//! fn report(created: bool) -> FileOps {
//!     if created {
//!         FileOps::CreateTrue
//!     } else {
//!         FileOps::CreateFalse
//!     }
//! }
//!
//! assert_eq!(report(true), FileOps::CreateTrue);
//! ```

pub mod anyhow_downcast;
pub mod custom_codes;
pub mod formatting;

pub use crate::anyhow_downcast::{
    classify, classify_kind, find_root_cause, try_downcast, BorrowedStr, DownCastErrors,
    InvalidFile, InvalidFileName, InvalidFolder, InvalidPath, RootCause, StringifyError,
};
pub use crate::custom_codes::{
    AccessStatus, ActivityStatus, ActivityToggle, Cli, Compression, CustomBool, DateTimeOp, DbOps,
    ExecCommand, FileOps, GenericOutcome, HardwareResources, KeyLength, Networking, Outcome,
    SecHardware, SecOps, Subscription,
};
