//! Codes for operations on files and directories, and for compression.

use vstd::prelude::*;
use vstd::std_specs::cmp::PartialEqSpec;

verus! {

/// File operations
/// ### Examples
/// ```
/// # use custom_codes::FileOps;
/// let foo = FileOps::DirAccessDenied;
/// assert_eq!(foo, FileOps::DirAccessDenied);
/// ```
#[derive(Debug, Eq)]
pub enum FileOps {
    /// Directory Created
    DirCreated,
    /// Directory Access Denied
    DirAccessDenied,
    /// Directory is read only
    DirIsReadOnly,
    /// Directory is append only
    DirectoryAppendOnly,
    /// File is read only
    FileIsReadOnly,
    /// File is append only
    FileIsAppendOnly,
    /// Delete operation denied due to permissions
    DeletionDenied,
    /// Deletion could not be done as another operation is reading the file
    DeletionToBeDone,
    /// Read has been completed especially useful in `async` operations
    ReadDone,
    /// Write operation has been competed
    WriteDone,
    /// The file or directory already exists
    AlreadyExists,
    /// Update operation completed
    UpdateDone,
    /// Deletion operation completed
    DeletionDone,
    /// Read is in progress
    ReadInProgress,
    /// Write is in progress
    WriteInProgess,
    /// Update is in progress
    UpdateInProgress,
    /// File has been deleted
    DeletionInProgress,
    /// Directory has been opened
    DirOpened,
    /// Directory is no longer open
    DirClosed,
    /// Directory has been modified
    DirModified,
    /// File has been opened
    OpenedFile,
    /// File has been closed
    ClosedFile,
    /// Unable To Open File
    OpenError,
    /// The operation comleted with a given error
    EncounteredErrors(String),
    /// Creation of the file is denied
    CreateDenied,
    /// Read acess to file is denied
    ReadDenied,
    /// Update to the file is denied
    UpdateDenied,
    /// Writing to the file has been denied
    WriteDenied,
    /// Appending to the file has been denied
    AppendDenied,
    /// Metadata has been added to file or directory
    MetadataAdded,
    /// File or directory does not contain Metadata
    MetadataNotAvailable,
    /// metadata changed
    MetadataChanged,
    /// Netadata has been Deleted
    MetadataDeleted,
    /// Open a file. any open can read contents
    OpenTrue,
    /// Do not open file
    OpenFalse,
    /// Create a file if it does not exist
    CreateTrue,
    /// Do Not Create a file it does not exist
    CreateFalse,
    /// Write to a file
    WriteTrue,
    /// Do not write to file
    WriteFalse,
    /// Append to a file
    AppendTrue,
    /// The Operation was interrupted and can be resumed
    Interrupted,
    /// Delete a file if it exists,
    DeleteTrue,
}

impl Clone for FileOps {
    /// A clone is equal to what it was made from.
    fn clone(&self) -> (r: Self)
        ensures
            r.eq_spec(self),
    {
        match self {
            FileOps::DirCreated => FileOps::DirCreated,
            FileOps::DirAccessDenied => FileOps::DirAccessDenied,
            FileOps::DirIsReadOnly => FileOps::DirIsReadOnly,
            FileOps::DirectoryAppendOnly => FileOps::DirectoryAppendOnly,
            FileOps::FileIsReadOnly => FileOps::FileIsReadOnly,
            FileOps::FileIsAppendOnly => FileOps::FileIsAppendOnly,
            FileOps::DeletionDenied => FileOps::DeletionDenied,
            FileOps::DeletionToBeDone => FileOps::DeletionToBeDone,
            FileOps::ReadDone => FileOps::ReadDone,
            FileOps::WriteDone => FileOps::WriteDone,
            FileOps::AlreadyExists => FileOps::AlreadyExists,
            FileOps::UpdateDone => FileOps::UpdateDone,
            FileOps::DeletionDone => FileOps::DeletionDone,
            FileOps::ReadInProgress => FileOps::ReadInProgress,
            FileOps::WriteInProgess => FileOps::WriteInProgess,
            FileOps::UpdateInProgress => FileOps::UpdateInProgress,
            FileOps::DeletionInProgress => FileOps::DeletionInProgress,
            FileOps::DirOpened => FileOps::DirOpened,
            FileOps::DirClosed => FileOps::DirClosed,
            FileOps::DirModified => FileOps::DirModified,
            FileOps::OpenedFile => FileOps::OpenedFile,
            FileOps::ClosedFile => FileOps::ClosedFile,
            FileOps::OpenError => FileOps::OpenError,
            FileOps::EncounteredErrors(x) => FileOps::EncounteredErrors(x.clone()),
            FileOps::CreateDenied => FileOps::CreateDenied,
            FileOps::ReadDenied => FileOps::ReadDenied,
            FileOps::UpdateDenied => FileOps::UpdateDenied,
            FileOps::WriteDenied => FileOps::WriteDenied,
            FileOps::AppendDenied => FileOps::AppendDenied,
            FileOps::MetadataAdded => FileOps::MetadataAdded,
            FileOps::MetadataNotAvailable => FileOps::MetadataNotAvailable,
            FileOps::MetadataChanged => FileOps::MetadataChanged,
            FileOps::MetadataDeleted => FileOps::MetadataDeleted,
            FileOps::OpenTrue => FileOps::OpenTrue,
            FileOps::OpenFalse => FileOps::OpenFalse,
            FileOps::CreateTrue => FileOps::CreateTrue,
            FileOps::CreateFalse => FileOps::CreateFalse,
            FileOps::WriteTrue => FileOps::WriteTrue,
            FileOps::WriteFalse => FileOps::WriteFalse,
            FileOps::AppendTrue => FileOps::AppendTrue,
            FileOps::Interrupted => FileOps::Interrupted,
            FileOps::DeleteTrue => FileOps::DeleteTrue,
        }
    }
}

impl PartialEq for FileOps {
    /// Whether two values are equal, as `eq_spec` says.
    fn eq(&self, other: &Self) -> (r: bool) {
        match (self, other) {
            (FileOps::EncounteredErrors(x), FileOps::EncounteredErrors(y)) => *x == *y,
            (FileOps::DirCreated, FileOps::DirCreated) => true,
            (FileOps::DirAccessDenied, FileOps::DirAccessDenied) => true,
            (FileOps::DirIsReadOnly, FileOps::DirIsReadOnly) => true,
            (FileOps::DirectoryAppendOnly, FileOps::DirectoryAppendOnly) => true,
            (FileOps::FileIsReadOnly, FileOps::FileIsReadOnly) => true,
            (FileOps::FileIsAppendOnly, FileOps::FileIsAppendOnly) => true,
            (FileOps::DeletionDenied, FileOps::DeletionDenied) => true,
            (FileOps::DeletionToBeDone, FileOps::DeletionToBeDone) => true,
            (FileOps::ReadDone, FileOps::ReadDone) => true,
            (FileOps::WriteDone, FileOps::WriteDone) => true,
            (FileOps::AlreadyExists, FileOps::AlreadyExists) => true,
            (FileOps::UpdateDone, FileOps::UpdateDone) => true,
            (FileOps::DeletionDone, FileOps::DeletionDone) => true,
            (FileOps::ReadInProgress, FileOps::ReadInProgress) => true,
            (FileOps::WriteInProgess, FileOps::WriteInProgess) => true,
            (FileOps::UpdateInProgress, FileOps::UpdateInProgress) => true,
            (FileOps::DeletionInProgress, FileOps::DeletionInProgress) => true,
            (FileOps::DirOpened, FileOps::DirOpened) => true,
            (FileOps::DirClosed, FileOps::DirClosed) => true,
            (FileOps::DirModified, FileOps::DirModified) => true,
            (FileOps::OpenedFile, FileOps::OpenedFile) => true,
            (FileOps::ClosedFile, FileOps::ClosedFile) => true,
            (FileOps::OpenError, FileOps::OpenError) => true,
            (FileOps::CreateDenied, FileOps::CreateDenied) => true,
            (FileOps::ReadDenied, FileOps::ReadDenied) => true,
            (FileOps::UpdateDenied, FileOps::UpdateDenied) => true,
            (FileOps::WriteDenied, FileOps::WriteDenied) => true,
            (FileOps::AppendDenied, FileOps::AppendDenied) => true,
            (FileOps::MetadataAdded, FileOps::MetadataAdded) => true,
            (FileOps::MetadataNotAvailable, FileOps::MetadataNotAvailable) => true,
            (FileOps::MetadataChanged, FileOps::MetadataChanged) => true,
            (FileOps::MetadataDeleted, FileOps::MetadataDeleted) => true,
            (FileOps::OpenTrue, FileOps::OpenTrue) => true,
            (FileOps::OpenFalse, FileOps::OpenFalse) => true,
            (FileOps::CreateTrue, FileOps::CreateTrue) => true,
            (FileOps::CreateFalse, FileOps::CreateFalse) => true,
            (FileOps::WriteTrue, FileOps::WriteTrue) => true,
            (FileOps::WriteFalse, FileOps::WriteFalse) => true,
            (FileOps::AppendTrue, FileOps::AppendTrue) => true,
            (FileOps::Interrupted, FileOps::Interrupted) => true,
            (FileOps::DeleteTrue, FileOps::DeleteTrue) => true,
            _ => false,
        }
    }
}

impl vstd::std_specs::cmp::PartialEqSpecImpl for FileOps {
    open spec fn obeys_eq_spec() -> bool {
        true
    }

    /// Two values are equal if they are the same state and, where the state
    /// carries a reason, what they carry reads the same.
    open spec fn eq_spec(&self, other: &Self) -> bool {
        match (*self, *other) {
            (FileOps::EncounteredErrors(x), FileOps::EncounteredErrors(y)) => x@ == y@,
            _ => *self == *other,
        }
    }
}

/// Equality on `FileOps` is reflexive, symmetric and transitive, and two values
/// of a state that carries something are equal exactly if what they carry
/// reads the same.
pub proof fn file_ops_equality_laws(a: FileOps, b: FileOps, c: FileOps, s: String, t: String)
    ensures
        a.eq_spec(&a),
        a.eq_spec(&b) ==> b.eq_spec(&a),
        a.eq_spec(&b) && b.eq_spec(&c) ==> a.eq_spec(&c),
        FileOps::EncounteredErrors(s).eq_spec(&FileOps::EncounteredErrors(t)) <==> s@ == t@,
{
}

/// Compression of files, bytes or directories
/// ### Examples
/// ```
/// # use custom_codes::Compression;
/// let foo = Compression::Done;
/// assert_eq!(foo, Compression::Done);
/// ```
#[derive(Debug, PartialEq, Eq, Structural)]
pub enum Compression {
    /// Compression done
    Done,
    /// Compression in progress
    InProgress,
    /// Compression already done
    AlreadyCompressed,
    /// Compression is not possible
    Impossible,
    /// A process is writing to the file being compressed
    ToBeDone,
    /// Streaming and compressing at the same time
    StreamCompress,
    /// The Operation was interrupted and can be resumed
    Interrupted,
    /// Status of an operation is not initialized
    Unspecified,
}

impl Clone for Compression {
    /// A clone is equal to what it was made from.
    fn clone(&self) -> (r: Self)
        ensures
            r == *self,
    {
        match self {
            Compression::Done => Compression::Done,
            Compression::InProgress => Compression::InProgress,
            Compression::AlreadyCompressed => Compression::AlreadyCompressed,
            Compression::Impossible => Compression::Impossible,
            Compression::ToBeDone => Compression::ToBeDone,
            Compression::StreamCompress => Compression::StreamCompress,
            Compression::Interrupted => Compression::Interrupted,
            Compression::Unspecified => Compression::Unspecified,
        }
    }
}

/// `==` on `Compression` is reflexive, symmetric and transitive.
pub proof fn compression_equality_laws(a: Compression, b: Compression, c: Compression)
    ensures
        a == a,
        a == b ==> b == a,
        a == b && b == c ==> a == c,
{
}

} // verus!
