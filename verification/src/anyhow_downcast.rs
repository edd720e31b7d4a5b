//! Sorting an `anyhow::Error` into one of a closed set of categories.
//!
//! The category is decided by the concrete type of the error's root cause,
//! the innermost error of its chain of sources. An I/O error is sorted by its
//! kind; the marker types of this module are sorted by what they stand for;
//! every other error is handed back untouched inside `Unmatched`.
//!
//! Finding the root cause and asking for its type is the work of `anyhow` and
//! of `std`. It is done in eight small functions, one for each known type,
//! whose contracts are taken on trust; they speak of `root_cause`, the name
//! for what `anyhow` finds. Everything after that is proved: `find_root_cause`
//! puts the eight answers together, `classify` turns the root cause into a
//! category, and `try_downcast` is the two in a row.

use crate::formatting::written;
use std::io::ErrorKind;
use vstd::prelude::*;

verus! {

/// `anyhow::Error`, carried through and handed back, never inspected.
#[verifier::external_type_specification]
#[verifier::external_body]
pub struct ExAnyhowError(anyhow::Error);

/// `std::io::Error`, of which only the kind is read.
#[verifier::external_type_specification]
#[verifier::external_body]
pub struct ExIoError(std::io::Error);

/// `std::io::ErrorKind`, with its variants, so that a kind can be matched on.
#[verifier::external_type_specification]
pub struct ExIoErrorKind(std::io::ErrorKind);

/// `std::path::StripPrefixError`, carried through, never inspected.
#[verifier::external_type_specification]
#[verifier::external_body]
pub struct ExStripPrefixError(std::path::StripPrefixError);

/// An error that is nothing but a borrowed string.
#[derive(Debug)]
pub struct BorrowedStr<'se>(pub &'se str);

impl<'se> std::fmt::Display for BorrowedStr<'se> {
    fn fmt(&self, f: &mut std::fmt::Formatter<'_>) -> (r: std::fmt::Result)
        ensures
            r is Ok ==> written(*final(f)) == written(*old(f)) + self.0@,
    {
        f.write_str(self.0)
    }
}

impl<'se> std::error::Error for BorrowedStr<'se> {
}

/// An error that is nothing but an owned string. Convert a `String`, a
/// `&str`, an `OsStr` or an `OsString` into this type to have it recognised.
#[derive(Debug)]
pub struct StringifyError(pub String);

impl std::fmt::Display for StringifyError {
    fn fmt(&self, f: &mut std::fmt::Formatter<'_>) -> (r: std::fmt::Result)
        ensures
            r is Ok ==> written(*final(f)) == written(*old(f)) + self.0@,
    {
        f.write_str(self.0.as_str())
    }
}

impl std::error::Error for StringifyError {
}

/// Marks an error as "the file is invalid".
#[derive(Debug)]
pub struct InvalidFile;

impl std::fmt::Display for InvalidFile {
    fn fmt(&self, f: &mut std::fmt::Formatter<'_>) -> (r: std::fmt::Result)
        ensures
            r is Ok ==> written(*final(f)) == written(*old(f)) + "The file is invalid"@,
    {
        f.write_str("The file is invalid")
    }
}

impl std::error::Error for InvalidFile {
}

/// Marks an error as "the name of a file is invalid".
#[derive(Debug)]
pub struct InvalidFileName;

impl std::fmt::Display for InvalidFileName {
    fn fmt(&self, f: &mut std::fmt::Formatter<'_>) -> (r: std::fmt::Result)
        ensures
            r is Ok ==> written(*final(f)) == written(*old(f)) + "Name of a file is invalid"@,
    {
        f.write_str("Name of a file is invalid")
    }
}

impl std::error::Error for InvalidFileName {
}

/// Marks an error as "the path is not a directory".
#[derive(Debug)]
pub struct InvalidFolder;

impl std::fmt::Display for InvalidFolder {
    fn fmt(&self, f: &mut std::fmt::Formatter<'_>) -> (r: std::fmt::Result)
        ensures
            r is Ok ==> written(*final(f)) == written(*old(f)) + "Path is not a directory"@,
    {
        f.write_str("Path is not a directory")
    }
}

impl std::error::Error for InvalidFolder {
}

/// Marks an error as "the path is not valid".
#[derive(Debug)]
pub struct InvalidPath;

impl std::fmt::Display for InvalidPath {
    fn fmt(&self, f: &mut std::fmt::Formatter<'_>) -> (r: std::fmt::Result)
        ensures
            r is Ok ==> written(*final(f)) == written(*old(f)) + "Path is not valid"@,
    {
        f.write_str("Path is not valid")
    }
}

impl std::error::Error for InvalidPath {
}

/// What the root cause of an error chain turned out to be: one of the types
/// that the classifier knows, with the part of it that the classifier keeps,
/// or none of them.
#[derive(Debug)]
pub enum RootCause<'se> {
    /// A `std::io::Error` of this kind.
    Io(ErrorKind),
    /// A `std::path::StripPrefixError`.
    StripPrefix(std::path::StripPrefixError),
    /// A `StringifyError` that holds this string.
    Stringify(String),
    /// A `BorrowedStr` that holds this text.
    BorrowedStr(&'se str),
    /// An `InvalidFile`.
    InvalidFile,
    /// An `InvalidFileName`.
    InvalidFileName,
    /// An `InvalidFolder`.
    InvalidFolder,
    /// An `InvalidPath`.
    InvalidPath,
    /// An error of any other type.
    Unrecognized,
}

/// All common errors for use in crates. The variants up to `UnexpectedEof`
/// mirror `std::io::ErrorKind`.
#[derive(Debug)]
pub enum DownCastErrors<'se> {
    /// An entity was not found, often a file.
    NotFound,
    /// The operation lacked the necessary privileges to complete.
    PermissionDenied,
    /// The connection was refused by the remote server.
    ConnectionRefused,
    /// The connection was reset by the remote server.
    ConnectionReset,
    /// The connection was aborted (terminated) by the remote server.
    ConnectionAborted,
    /// The network operation failed because it was not connected yet.
    NotConnected,
    /// A socket address could not be bound because the address is already in
    /// use elsewhere.
    AddrInUse,
    /// A nonexistent interface was requested or the requested address was not
    /// local.
    AddrNotAvailable,
    /// The operation failed because a pipe was closed.
    BrokenPipe,
    /// An entity already exists, often a file.
    AlreadyExists,
    /// The operation needs to block to complete, but the blocking operation
    /// was requested to not occur.
    WouldBlock,
    /// A parameter was incorrect.
    InvalidInput,
    /// Data not valid for the operation were encountered.
    ///
    /// Unlike `InvalidInput`, this typically means that the operation
    /// parameters were valid, however the error was caused by malformed input
    /// data.
    InvalidData,
    /// The I/O operation's timeout expired, causing it to be canceled.
    TimedOut,
    /// An operation could not be completed because a call to write returned
    /// `Ok(0)`.
    WriteZero,
    /// This operation was interrupted. Interrupted operations can typically be
    /// retried.
    Interrupted,
    /// Any I/O error not part of this list.
    Other,
    /// An operation could not be completed because an "end of file" was
    /// reached prematurely.
    UnexpectedEof,
    /// An I/O error of a kind that has no variant of its own here.
    Unspecified,
    /// Any `StripPrefixError`.
    StripPrefixError(std::path::StripPrefixError),
    /// The string of a `StringifyError`.
    Stringify(String),
    /// The text of a `BorrowedStr`.
    BorrowedStr(&'se str),
    /// The file is invalid.
    InvalidFile,
    /// Name of a file is invalid.
    InvalidFileName,
    /// Path is not a directory.
    InvalidFolder,
    /// Path is not valid.
    InvalidPath,
    /// The root cause is of none of the known types; the error is handed back
    /// as it came.
    Unmatched(anyhow::Error),
}

/// The root cause of `error`: what `anyhow::Error::root_cause` returns for
/// it, told apart by its concrete type. It is `Io` with the kind of the error
/// if that is a `std::io::Error`, the variant of a known type with what the
/// value holds if it is of that type, and `Unrecognized` if it is of any
/// other type.
pub uninterp spec fn root_cause(error: anyhow::Error) -> RootCause<'static>;

/// The kind of an I/O error: what `std::io::Error::kind` returns for it.
pub uninterp spec fn kind_of(error: std::io::Error) -> ErrorKind;

/// `std::io::Error::kind` returns the kind of the error, which is a property
/// of the error alone. The contract gives that kind its name.
pub assume_specification[ std::io::Error::kind ](error: &std::io::Error) -> (kind: ErrorKind)
    ensures
        kind == kind_of(*error),
;

/// `Clone::clone` of `std::path::StripPrefixError` returns a duplicate of the
/// value. The contract claims that the duplicate equals what it was made
/// from.
pub assume_specification[ <std::path::StripPrefixError as Clone>::clone ](
    error: &std::path::StripPrefixError,
) -> (copy: std::path::StripPrefixError)
    ensures
        copy == *error,
;

/// Calls `anyhow::Error::root_cause`, which follows the chain of sources to
/// its last error, and `downcast_ref` to `std::io::Error` on that error, which
/// gives `Some` if the error is of that type and `None` if it is not. The
/// contract claims that the result is `Some` exactly if the root cause is an
/// I/O error, and then that very error. The call returns for every error whose
/// chain of sources comes to an end.
#[verifier::external_body]
fn root_io_error(error: &anyhow::Error) -> (r: Option<&std::io::Error>)
    ensures
        match r {
            Some(io) => root_cause(*error) == RootCause::Io(kind_of(*io)),
            None => !(root_cause(*error) is Io),
        },
{
    error.root_cause().downcast_ref::<std::io::Error>()
}

/// Calls `anyhow::Error::root_cause` and `downcast_ref` to
/// `std::path::StripPrefixError`: `Some` exactly if the root cause is of that
/// type, and then that very value.
#[verifier::external_body]
fn root_strip_prefix_error(error: &anyhow::Error) -> (r: Option<&std::path::StripPrefixError>)
    ensures
        match r {
            Some(e) => root_cause(*error) == RootCause::StripPrefix(*e),
            None => !(root_cause(*error) is StripPrefix),
        },
{
    error.root_cause().downcast_ref::<std::path::StripPrefixError>()
}

/// Calls `anyhow::Error::root_cause` and `downcast_ref` to `StringifyError`:
/// `Some` exactly if the root cause is of that type, and then that very
/// value.
#[verifier::external_body]
fn root_stringify_error(error: &anyhow::Error) -> (r: Option<&StringifyError>)
    ensures
        match r {
            Some(e) => root_cause(*error) == RootCause::Stringify(e.0),
            None => !(root_cause(*error) is Stringify),
        },
{
    error.root_cause().downcast_ref::<StringifyError>()
}

/// Calls `anyhow::Error::root_cause` and `downcast_ref` to `BorrowedStr`:
/// `Some` exactly if the root cause is of that type, and then that very
/// value. An error inside an `anyhow::Error` borrows for `'static`.
#[verifier::external_body]
fn root_borrowed_str(error: &anyhow::Error) -> (r: Option<&BorrowedStr<'static>>)
    ensures
        match r {
            Some(e) => root_cause(*error) == RootCause::BorrowedStr(e.0),
            None => !(root_cause(*error) is BorrowedStr),
        },
{
    error.root_cause().downcast_ref::<BorrowedStr<'static>>()
}

/// Calls `anyhow::Error::root_cause` and `downcast_ref` to `InvalidFile`:
/// `Some` exactly if the root cause is of that type.
#[verifier::external_body]
fn root_invalid_file(error: &anyhow::Error) -> (r: Option<&InvalidFile>)
    ensures
        r is Some <==> root_cause(*error) is InvalidFile,
{
    error.root_cause().downcast_ref::<InvalidFile>()
}

/// Calls `anyhow::Error::root_cause` and `downcast_ref` to `InvalidFileName`:
/// `Some` exactly if the root cause is of that type.
#[verifier::external_body]
fn root_invalid_file_name(error: &anyhow::Error) -> (r: Option<&InvalidFileName>)
    ensures
        r is Some <==> root_cause(*error) is InvalidFileName,
{
    error.root_cause().downcast_ref::<InvalidFileName>()
}

/// Calls `anyhow::Error::root_cause` and `downcast_ref` to `InvalidFolder`:
/// `Some` exactly if the root cause is of that type.
#[verifier::external_body]
fn root_invalid_folder(error: &anyhow::Error) -> (r: Option<&InvalidFolder>)
    ensures
        r is Some <==> root_cause(*error) is InvalidFolder,
{
    error.root_cause().downcast_ref::<InvalidFolder>()
}

/// Calls `anyhow::Error::root_cause` and `downcast_ref` to `InvalidPath`:
/// `Some` exactly if the root cause is of that type.
#[verifier::external_body]
fn root_invalid_path(error: &anyhow::Error) -> (r: Option<&InvalidPath>)
    ensures
        r is Some <==> root_cause(*error) is InvalidPath,
{
    error.root_cause().downcast_ref::<InvalidPath>()
}

/// Whether an I/O error kind has a variant of its own in `DownCastErrors`.
pub open spec fn recognized(kind: ErrorKind) -> bool {
    matches!(
        kind,
        ErrorKind::NotFound
            | ErrorKind::PermissionDenied
            | ErrorKind::ConnectionRefused
            | ErrorKind::ConnectionReset
            | ErrorKind::ConnectionAborted
            | ErrorKind::NotConnected
            | ErrorKind::AddrInUse
            | ErrorKind::AddrNotAvailable
            | ErrorKind::BrokenPipe
            | ErrorKind::AlreadyExists
            | ErrorKind::WouldBlock
            | ErrorKind::InvalidInput
            | ErrorKind::InvalidData
            | ErrorKind::TimedOut
            | ErrorKind::WriteZero
            | ErrorKind::Interrupted
            | ErrorKind::Other
            | ErrorKind::UnexpectedEof
    )
}

/// The category of an I/O error of a given kind: the variant of the same
/// name where there is one, `Unspecified` where there is none.
pub open spec fn kind_classification(kind: ErrorKind) -> DownCastErrors<'static> {
    match kind {
        ErrorKind::NotFound => DownCastErrors::NotFound,
        ErrorKind::PermissionDenied => DownCastErrors::PermissionDenied,
        ErrorKind::ConnectionRefused => DownCastErrors::ConnectionRefused,
        ErrorKind::ConnectionReset => DownCastErrors::ConnectionReset,
        ErrorKind::ConnectionAborted => DownCastErrors::ConnectionAborted,
        ErrorKind::NotConnected => DownCastErrors::NotConnected,
        ErrorKind::AddrInUse => DownCastErrors::AddrInUse,
        ErrorKind::AddrNotAvailable => DownCastErrors::AddrNotAvailable,
        ErrorKind::BrokenPipe => DownCastErrors::BrokenPipe,
        ErrorKind::AlreadyExists => DownCastErrors::AlreadyExists,
        ErrorKind::WouldBlock => DownCastErrors::WouldBlock,
        ErrorKind::InvalidInput => DownCastErrors::InvalidInput,
        ErrorKind::InvalidData => DownCastErrors::InvalidData,
        ErrorKind::TimedOut => DownCastErrors::TimedOut,
        ErrorKind::WriteZero => DownCastErrors::WriteZero,
        ErrorKind::Interrupted => DownCastErrors::Interrupted,
        ErrorKind::Other => DownCastErrors::Other,
        ErrorKind::UnexpectedEof => DownCastErrors::UnexpectedEof,
        _ => DownCastErrors::Unspecified,
    }
}

/// The category of an error whose root cause is `cause`. Only where the root
/// cause is of no known type does the error itself enter the result.
pub open spec fn classification<'se>(cause: RootCause<'se>, error: anyhow::Error) -> DownCastErrors<
    'se,
> {
    match cause {
        RootCause::Io(kind) => kind_classification(kind),
        RootCause::StripPrefix(e) => DownCastErrors::StripPrefixError(e),
        RootCause::Stringify(s) => DownCastErrors::Stringify(s),
        RootCause::BorrowedStr(s) => DownCastErrors::BorrowedStr(s),
        RootCause::InvalidFile => DownCastErrors::InvalidFile,
        RootCause::InvalidFileName => DownCastErrors::InvalidFileName,
        RootCause::InvalidFolder => DownCastErrors::InvalidFolder,
        RootCause::InvalidPath => DownCastErrors::InvalidPath,
        RootCause::Unrecognized => DownCastErrors::Unmatched(error),
    }
}

/// Each recognized kind has a category of its own: a kind is recognized
/// exactly if its category is not `Unspecified`, and no other kind shares the
/// category of a recognized kind.
pub proof fn kind_classification_laws(kind: ErrorKind, other: ErrorKind)
    ensures
        recognized(kind) <==> !(kind_classification(kind) is Unspecified),
        recognized(kind) && kind_classification(kind) == kind_classification(other) ==> kind
            == other,
{
}

/// What the category holds is what the root cause holds:
/// an I/O error is sorted by its kind alone; a `StripPrefixError`, the string
/// of a `StringifyError` and the text of a `BorrowedStr` come back unchanged;
/// each of the four markers has its own category, which nothing else is
/// sorted into; and the result is `Unmatched` exactly if the root cause is of
/// no known type, in which case it holds the error itself. Where the root
/// cause is of a known type, the category does not depend on the error
/// around it.
pub proof fn classification_laws(cause: RootCause, error: anyhow::Error, other: anyhow::Error)
    ensures
        cause matches RootCause::Io(kind) ==> classification(cause, error) == kind_classification(
            kind,
        ),
        cause matches RootCause::StripPrefix(e) ==> classification(cause, error)
            == DownCastErrors::StripPrefixError(e),
        cause matches RootCause::Stringify(s) ==> classification(cause, error)
            == DownCastErrors::Stringify(s),
        cause matches RootCause::BorrowedStr(s) ==> classification(cause, error)
            == DownCastErrors::BorrowedStr(s),
        cause is InvalidFile <==> classification(cause, error) is InvalidFile,
        cause is InvalidFileName <==> classification(cause, error) is InvalidFileName,
        cause is InvalidFolder <==> classification(cause, error) is InvalidFolder,
        cause is InvalidPath <==> classification(cause, error) is InvalidPath,
        cause is Unrecognized <==> classification(cause, error) is Unmatched,
        cause is Unrecognized ==> classification(cause, error) == DownCastErrors::Unmatched(error),
        !(cause is Unrecognized) ==> classification(cause, error) == classification(cause, other),
{
}

/// Sorts an I/O error kind into its category.
pub fn classify_kind(kind: ErrorKind) -> (r: DownCastErrors<'static>)
    ensures
        r == kind_classification(kind),
{
    match kind {
        ErrorKind::NotFound => DownCastErrors::NotFound,
        ErrorKind::PermissionDenied => DownCastErrors::PermissionDenied,
        ErrorKind::ConnectionRefused => DownCastErrors::ConnectionRefused,
        ErrorKind::ConnectionReset => DownCastErrors::ConnectionReset,
        ErrorKind::ConnectionAborted => DownCastErrors::ConnectionAborted,
        ErrorKind::NotConnected => DownCastErrors::NotConnected,
        ErrorKind::AddrInUse => DownCastErrors::AddrInUse,
        ErrorKind::AddrNotAvailable => DownCastErrors::AddrNotAvailable,
        ErrorKind::BrokenPipe => DownCastErrors::BrokenPipe,
        ErrorKind::AlreadyExists => DownCastErrors::AlreadyExists,
        ErrorKind::WouldBlock => DownCastErrors::WouldBlock,
        ErrorKind::InvalidInput => DownCastErrors::InvalidInput,
        ErrorKind::InvalidData => DownCastErrors::InvalidData,
        ErrorKind::TimedOut => DownCastErrors::TimedOut,
        ErrorKind::WriteZero => DownCastErrors::WriteZero,
        ErrorKind::Interrupted => DownCastErrors::Interrupted,
        ErrorKind::Other => DownCastErrors::Other,
        ErrorKind::UnexpectedEof => DownCastErrors::UnexpectedEof,
        _ => DownCastErrors::Unspecified,
    }
}

/// Sorts an error into its category, given what its root cause is.
pub fn classify<'se>(cause: RootCause<'se>, error: anyhow::Error) -> (r: DownCastErrors<'se>)
    ensures
        r == classification(cause, error),
{
    match cause {
        RootCause::Io(kind) => classify_kind(kind),
        RootCause::StripPrefix(e) => DownCastErrors::StripPrefixError(e),
        RootCause::Stringify(s) => DownCastErrors::Stringify(s),
        RootCause::BorrowedStr(s) => DownCastErrors::BorrowedStr(s),
        RootCause::InvalidFile => DownCastErrors::InvalidFile,
        RootCause::InvalidFileName => DownCastErrors::InvalidFileName,
        RootCause::InvalidFolder => DownCastErrors::InvalidFolder,
        RootCause::InvalidPath => DownCastErrors::InvalidPath,
        RootCause::Unrecognized => DownCastErrors::Unmatched(error),
    }
}

/// Finds out what the root cause of `error` is. The known types are tried in
/// a fixed order and the first that fits is taken.
pub fn find_root_cause<'se>(error: &anyhow::Error) -> (cause: RootCause<'se>)
    ensures
        cause == root_cause(*error),
{
    if let Some(io) = root_io_error(error) {
        RootCause::Io(io.kind())
    } else if let Some(e) = root_strip_prefix_error(error) {
        RootCause::StripPrefix(e.clone())
    } else if let Some(e) = root_stringify_error(error) {
        RootCause::Stringify(e.0.clone())
    } else if let Some(e) = root_borrowed_str(error) {
        RootCause::BorrowedStr(e.0)
    } else if root_invalid_file(error).is_some() {
        RootCause::InvalidFile
    } else if root_invalid_file_name(error).is_some() {
        RootCause::InvalidFileName
    } else if root_invalid_folder(error).is_some() {
        RootCause::InvalidFolder
    } else if root_invalid_path(error).is_some() {
        RootCause::InvalidPath
    } else {
        RootCause::Unrecognized
    }
}

/// Sorts `error` into one of the categories of `DownCastErrors` by the
/// concrete type of its root cause. This never fails: an error whose root
/// cause is of no known type comes back whole inside `Unmatched`.
pub fn try_downcast<'se>(error: anyhow::Error) -> (r: DownCastErrors<'se>)
    ensures
        r == classification(root_cause(error), error),
{
    let cause = find_root_cause(&error);
    classify(cause, error)
}

} // verus!
