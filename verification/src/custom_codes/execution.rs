//! Codes for running commands, for reading a command line, and for dates
//! and times.

use vstd::prelude::*;
use vstd::std_specs::cmp::PartialEqSpec;

verus! {

/// Command Operations for execution
/// ### Examples
/// ```
/// # use custom_codes::ExecCommand;
/// let foo = ExecCommand::Queued;
/// assert_eq!(foo, ExecCommand::Queued);
/// ```
#[derive(Debug, PartialEq, Eq, Structural)]
pub enum ExecCommand {
    /// Command Operation added to Queue
    Queued,
    /// Command removed from queue
    DeQueued,
    /// Command in progress
    InProgress,
    /// Command paused
    Paused,
    /// Command suspended but not killed
    Frozen,
    /// Command killed and removed from execution stack
    Killed,
    /// Command has finished execution
    Executed,
    /// The Operation was interrupted and can be resumed
    Interrupted,
    /// Status of an operation is not initialized
    Unspecified,
}

impl Clone for ExecCommand {
    /// A clone is equal to what it was made from.
    fn clone(&self) -> (r: Self)
        ensures
            r == *self,
    {
        match self {
            ExecCommand::Queued => ExecCommand::Queued,
            ExecCommand::DeQueued => ExecCommand::DeQueued,
            ExecCommand::InProgress => ExecCommand::InProgress,
            ExecCommand::Paused => ExecCommand::Paused,
            ExecCommand::Frozen => ExecCommand::Frozen,
            ExecCommand::Killed => ExecCommand::Killed,
            ExecCommand::Executed => ExecCommand::Executed,
            ExecCommand::Interrupted => ExecCommand::Interrupted,
            ExecCommand::Unspecified => ExecCommand::Unspecified,
        }
    }
}

/// `==` on `ExecCommand` is reflexive, symmetric and transitive.
pub proof fn exec_command_equality_laws(a: ExecCommand, b: ExecCommand, c: ExecCommand)
    ensures
        a == a,
        a == b ==> b == a,
        a == b && b == c ==> a == c,
{
}

/// Command Line Options
/// ### Examples
/// ```
/// # use custom_codes::Cli;
/// let foo = Cli::ParseInProgress;
/// assert_eq!(foo, Cli::ParseInProgress);
/// ```
#[derive(Debug, Eq)]
pub enum Cli {
    /// Parsing
    ParseInProgress,
    /// Parsed Arguments
    ParseArgs,
    /// Parsing Argument field in progress
    ArgFieldParseInPorgress,
    /// Parsed Argument field
    ParsedArgField,
    /// Parsing Asynchronously
    ParseAsync,
    /// Parsing field Asynchronously
    ArgFieldAsyncParseInPorgress,
    /// Not enough commandline arguments
    NotEnoughArgs,
    /// Encountered parsing errors
    EncounteredErrors(String),
}

impl Clone for Cli {
    /// A clone is equal to what it was made from.
    fn clone(&self) -> (r: Self)
        ensures
            r.eq_spec(self),
    {
        match self {
            Cli::ParseInProgress => Cli::ParseInProgress,
            Cli::ParseArgs => Cli::ParseArgs,
            Cli::ArgFieldParseInPorgress => Cli::ArgFieldParseInPorgress,
            Cli::ParsedArgField => Cli::ParsedArgField,
            Cli::ParseAsync => Cli::ParseAsync,
            Cli::ArgFieldAsyncParseInPorgress => Cli::ArgFieldAsyncParseInPorgress,
            Cli::NotEnoughArgs => Cli::NotEnoughArgs,
            Cli::EncounteredErrors(x) => Cli::EncounteredErrors(x.clone()),
        }
    }
}

impl PartialEq for Cli {
    /// Whether two values are equal, as `eq_spec` says.
    fn eq(&self, other: &Self) -> (r: bool) {
        match (self, other) {
            (Cli::EncounteredErrors(x), Cli::EncounteredErrors(y)) => *x == *y,
            (Cli::ParseInProgress, Cli::ParseInProgress) => true,
            (Cli::ParseArgs, Cli::ParseArgs) => true,
            (Cli::ArgFieldParseInPorgress, Cli::ArgFieldParseInPorgress) => true,
            (Cli::ParsedArgField, Cli::ParsedArgField) => true,
            (Cli::ParseAsync, Cli::ParseAsync) => true,
            (Cli::ArgFieldAsyncParseInPorgress, Cli::ArgFieldAsyncParseInPorgress) => true,
            (Cli::NotEnoughArgs, Cli::NotEnoughArgs) => true,
            _ => false,
        }
    }
}

impl vstd::std_specs::cmp::PartialEqSpecImpl for Cli {
    open spec fn obeys_eq_spec() -> bool {
        true
    }

    /// Two values are equal if they are the same state and, where the state
    /// carries a reason, what they carry reads the same.
    open spec fn eq_spec(&self, other: &Self) -> bool {
        match (*self, *other) {
            (Cli::EncounteredErrors(x), Cli::EncounteredErrors(y)) => x@ == y@,
            _ => *self == *other,
        }
    }
}

/// Equality on `Cli` is reflexive, symmetric and transitive, and two values
/// of a state that carries something are equal exactly if what they carry
/// reads the same.
pub proof fn cli_equality_laws(a: Cli, b: Cli, c: Cli, s: String, t: String)
    ensures
        a.eq_spec(&a),
        a.eq_spec(&b) ==> b.eq_spec(&a),
        a.eq_spec(&b) && b.eq_spec(&c) ==> a.eq_spec(&c),
        Cli::EncounteredErrors(s).eq_spec(&Cli::EncounteredErrors(t)) <==> s@ == t@,
{
}

/// Date and time custom codes
/// ### Examples
/// ```
/// # use custom_codes::DateTimeOp;
/// let foo = DateTimeOp::DateCreated;
/// assert_eq!(foo, DateTimeOp::DateCreated);
/// ```
#[derive(Debug, PartialEq, Eq, Structural)]
pub enum DateTimeOp {
    /// Date created
    DateCreated,
    /// Date deleted
    DateDeleted,
    /// Date Modified
    DateModified,
    /// Date period not specified
    DateUnspecified,
    /// Date created
    TimeCreated,
    /// Date deleted
    TimeDeleted,
    /// Date Modified
    TimeModified,
    /// Time period not specified
    TimeUnspecified,
    /// Both date and time not specied
    DateTimeUnspecified,
}

impl Clone for DateTimeOp {
    /// A clone is equal to what it was made from.
    fn clone(&self) -> (r: Self)
        ensures
            r == *self,
    {
        match self {
            DateTimeOp::DateCreated => DateTimeOp::DateCreated,
            DateTimeOp::DateDeleted => DateTimeOp::DateDeleted,
            DateTimeOp::DateModified => DateTimeOp::DateModified,
            DateTimeOp::DateUnspecified => DateTimeOp::DateUnspecified,
            DateTimeOp::TimeCreated => DateTimeOp::TimeCreated,
            DateTimeOp::TimeDeleted => DateTimeOp::TimeDeleted,
            DateTimeOp::TimeModified => DateTimeOp::TimeModified,
            DateTimeOp::TimeUnspecified => DateTimeOp::TimeUnspecified,
            DateTimeOp::DateTimeUnspecified => DateTimeOp::DateTimeUnspecified,
        }
    }
}

/// `==` on `DateTimeOp` is reflexive, symmetric and transitive.
pub proof fn date_time_op_equality_laws(a: DateTimeOp, b: DateTimeOp, c: DateTimeOp)
    ensures
        a == a,
        a == b ==> b == a,
        a == b && b == c ==> a == c,
{
}

} // verus!
