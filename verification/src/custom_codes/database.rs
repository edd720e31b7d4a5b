//! Codes for what a database, a document store or a cluster reports.

use crate::custom_codes::payload::{same_byte_strings, same_bytes, same_names};
use vstd::prelude::*;
use vstd::std_specs::cmp::PartialEqSpec;

verus! {

/// Custom Response Codes Using Enums For Efficient Comparison
/// ### Examples
/// ```
/// # use custom_codes::DbOps;
/// let foo = DbOps::Inserted;
/// assert_eq!(foo, DbOps::Inserted);
/// ```
#[derive(Debug, Eq)]
pub enum DbOps {
    /// A Repository has been created
    RepoCreated,
    /// A Repository has been initialized by loading all contents of the repo
    RepoInitialized,
    /// The repository trying to be created already exists
    RepoAlreadyExists,
    /// An empty Repository with no databases
    RepoEmpty,
    /// An repository is not available on disk
    RepoNotFound,
    /// A Repository has been deleted
    RepoDropped,
    /// A checksum of the database shows a database is consistent
    DbIntegrityConsistent,
    /// A checksum fo the database shows the database is not consistent
    DbIntegrityCorrupted,
    /// A checksum of the document is consistent
    DocumentIntegrityConsistent,
    /// A checksum fo the document is not consistent
    DocumentIntegrityCorrupted,
    /// Database has been created
    DbCreated,
    /// Database has been Found after a search
    DbFound,
    /// Database being inserted already exists in the repo
    DbAlreadyExists,
    /// Database does not exist
    DbNotFound,
    /// Database is empty
    DbEmpty,
    /// A list containing Databases
    DbList(Vec<String>),
    /// A Database has neen modified
    DbModified,
    /// A database has been removed
    DbDropped,
    /// Document has been created
    DocumentCreated,
    /// Document has been inserted
    DocumentInserted,
    /// Document has been Found after a search
    DocumentFound,
    /// Document is empty
    DocumentEmpty,
    /// List of Documents
    DocumentList(Vec<String>),
    /// Document being inserted already exists in the DB
    DocumentAlreadyExists,
    /// Document does not exist
    DocumentNotFound,
    /// A Document has neen modified
    DocumentModified,
    /// Document has been removed
    DocumentDropped,
    /// Field has been created
    FieldCreated,
    /// Field has been inserted
    FieldInserted,
    /// Field has been Found after a search
    FieldFound,
    /// Field being inserted already exists in the DB
    FieldAlreadyExists,
    /// Field does not exist
    FieldNotFound,
    /// Contents of a field in heap allocated bytes
    FieldContents(Vec<u8>),
    /// List of fields in a document
    FieldList(Vec<Vec<u8>>),
    /// A Field has neen modified
    FieldModified,
    /// Field has been removed
    FieldDropped,
    /// A `Write` to create a database is successfull
    Created,
    /// A `Write` to a commit log was successful
    Commited,
    /// A `Write` to a commit log was unsuccessful
    UnCommited,
    /// A `Write` is successful
    Inserted,
    /// A `Change` is successful
    Changed,
    /// A `Change` is unsuccessful
    Unchanged,
    /// A `Command` is skipped since the document does not exist
    Skipped,
    /// Document already exists
    AlreadyExists,
    /// Document has been updated
    Modified,
    /// A document value has been `Swapped` replacing it with the new value provided
    /// Especially useful for Key/Value stores
    Swapped,
    /// An Document has been deleted
    Deleted,
    /// Key Found in KV Store/Database, Field or Document depending on query
    KeyFound,
    /// Key Not Found in Database, Field or Document depending on query
    KeyNotFound,
    /// A Command or Query Has Not Been Executed
    NotExecuted,
    /// Two or more queries are not supposed to be used command eg. using `get` and `list` together
    QueryConflictError,
    /// Database is empty
    Empty,
    /// The command has been added to a queue
    Queued,
    /// Command has been removed from queue
    DeQueued,
    /// Log compaction successful
    CompactionTrue,
    /// Log compaction unsuccessful
    CompactionFalse,
    /// Connection to a database is not available
    ConnRefused,
    /// Port is in use
    PortAddrInUse,
    /// Driver to the database has an error
    DriverError,
    /// An error occured when trying to execute a command at database level
    RuntimeError,
    /// Encountered Errors When Trying to connect to a database
    EncounteredErrors(String),
    /// No permissions to complete the I/O operation
    PermissionDenied,
    /// A cluster in online and ready to receive commands
    ClusterOnline,
    /// A cluster is offline
    ClusterOffline,
    /// Cluster details synced across all nodes
    ClusterSynced,
    /// Added a node to the cluster
    ClusterNodeAdded,
    /// Updated configuration to the cluster
    ConfigUpdated,
    /// A node has been permanently removed
    ClusterNodeDropped,
    /// The details have been inserted to the specified logs
    Logged,
    /// The details have not been logged
    NotLogged,
    /// The Operation was interrupted and can be resumed
    Interrupted,
    /// Status of an operation is not initialized
    Unspecified,
}

impl Clone for DbOps {
    /// A clone is equal to what it was made from.
    fn clone(&self) -> (r: Self)
        ensures
            r.eq_spec(self),
    {
        match self {
            DbOps::RepoCreated => DbOps::RepoCreated,
            DbOps::RepoInitialized => DbOps::RepoInitialized,
            DbOps::RepoAlreadyExists => DbOps::RepoAlreadyExists,
            DbOps::RepoEmpty => DbOps::RepoEmpty,
            DbOps::RepoNotFound => DbOps::RepoNotFound,
            DbOps::RepoDropped => DbOps::RepoDropped,
            DbOps::DbIntegrityConsistent => DbOps::DbIntegrityConsistent,
            DbOps::DbIntegrityCorrupted => DbOps::DbIntegrityCorrupted,
            DbOps::DocumentIntegrityConsistent => DbOps::DocumentIntegrityConsistent,
            DbOps::DocumentIntegrityCorrupted => DbOps::DocumentIntegrityCorrupted,
            DbOps::DbCreated => DbOps::DbCreated,
            DbOps::DbFound => DbOps::DbFound,
            DbOps::DbAlreadyExists => DbOps::DbAlreadyExists,
            DbOps::DbNotFound => DbOps::DbNotFound,
            DbOps::DbEmpty => DbOps::DbEmpty,
            DbOps::DbList(x) => DbOps::DbList(x.clone()),
            DbOps::DbModified => DbOps::DbModified,
            DbOps::DbDropped => DbOps::DbDropped,
            DbOps::DocumentCreated => DbOps::DocumentCreated,
            DbOps::DocumentInserted => DbOps::DocumentInserted,
            DbOps::DocumentFound => DbOps::DocumentFound,
            DbOps::DocumentEmpty => DbOps::DocumentEmpty,
            DbOps::DocumentList(x) => DbOps::DocumentList(x.clone()),
            DbOps::DocumentAlreadyExists => DbOps::DocumentAlreadyExists,
            DbOps::DocumentNotFound => DbOps::DocumentNotFound,
            DbOps::DocumentModified => DbOps::DocumentModified,
            DbOps::DocumentDropped => DbOps::DocumentDropped,
            DbOps::FieldCreated => DbOps::FieldCreated,
            DbOps::FieldInserted => DbOps::FieldInserted,
            DbOps::FieldFound => DbOps::FieldFound,
            DbOps::FieldAlreadyExists => DbOps::FieldAlreadyExists,
            DbOps::FieldNotFound => DbOps::FieldNotFound,
            DbOps::FieldContents(x) => DbOps::FieldContents(x.clone()),
            DbOps::FieldList(x) => DbOps::FieldList(x.clone()),
            DbOps::FieldModified => DbOps::FieldModified,
            DbOps::FieldDropped => DbOps::FieldDropped,
            DbOps::Created => DbOps::Created,
            DbOps::Commited => DbOps::Commited,
            DbOps::UnCommited => DbOps::UnCommited,
            DbOps::Inserted => DbOps::Inserted,
            DbOps::Changed => DbOps::Changed,
            DbOps::Unchanged => DbOps::Unchanged,
            DbOps::Skipped => DbOps::Skipped,
            DbOps::AlreadyExists => DbOps::AlreadyExists,
            DbOps::Modified => DbOps::Modified,
            DbOps::Swapped => DbOps::Swapped,
            DbOps::Deleted => DbOps::Deleted,
            DbOps::KeyFound => DbOps::KeyFound,
            DbOps::KeyNotFound => DbOps::KeyNotFound,
            DbOps::NotExecuted => DbOps::NotExecuted,
            DbOps::QueryConflictError => DbOps::QueryConflictError,
            DbOps::Empty => DbOps::Empty,
            DbOps::Queued => DbOps::Queued,
            DbOps::DeQueued => DbOps::DeQueued,
            DbOps::CompactionTrue => DbOps::CompactionTrue,
            DbOps::CompactionFalse => DbOps::CompactionFalse,
            DbOps::ConnRefused => DbOps::ConnRefused,
            DbOps::PortAddrInUse => DbOps::PortAddrInUse,
            DbOps::DriverError => DbOps::DriverError,
            DbOps::RuntimeError => DbOps::RuntimeError,
            DbOps::EncounteredErrors(x) => DbOps::EncounteredErrors(x.clone()),
            DbOps::PermissionDenied => DbOps::PermissionDenied,
            DbOps::ClusterOnline => DbOps::ClusterOnline,
            DbOps::ClusterOffline => DbOps::ClusterOffline,
            DbOps::ClusterSynced => DbOps::ClusterSynced,
            DbOps::ClusterNodeAdded => DbOps::ClusterNodeAdded,
            DbOps::ConfigUpdated => DbOps::ConfigUpdated,
            DbOps::ClusterNodeDropped => DbOps::ClusterNodeDropped,
            DbOps::Logged => DbOps::Logged,
            DbOps::NotLogged => DbOps::NotLogged,
            DbOps::Interrupted => DbOps::Interrupted,
            DbOps::Unspecified => DbOps::Unspecified,
        }
    }
}

impl PartialEq for DbOps {
    /// Whether two values are equal, as `eq_spec` says.
    fn eq(&self, other: &Self) -> (r: bool) {
        match (self, other) {
            (DbOps::DbList(x), DbOps::DbList(y)) => same_names(x, y),
            (DbOps::DocumentList(x), DbOps::DocumentList(y)) => same_names(x, y),
            (DbOps::FieldContents(x), DbOps::FieldContents(y)) => same_bytes(x, y),
            (DbOps::FieldList(x), DbOps::FieldList(y)) => same_byte_strings(x, y),
            (DbOps::EncounteredErrors(x), DbOps::EncounteredErrors(y)) => *x == *y,
            (DbOps::RepoCreated, DbOps::RepoCreated) => true,
            (DbOps::RepoInitialized, DbOps::RepoInitialized) => true,
            (DbOps::RepoAlreadyExists, DbOps::RepoAlreadyExists) => true,
            (DbOps::RepoEmpty, DbOps::RepoEmpty) => true,
            (DbOps::RepoNotFound, DbOps::RepoNotFound) => true,
            (DbOps::RepoDropped, DbOps::RepoDropped) => true,
            (DbOps::DbIntegrityConsistent, DbOps::DbIntegrityConsistent) => true,
            (DbOps::DbIntegrityCorrupted, DbOps::DbIntegrityCorrupted) => true,
            (DbOps::DocumentIntegrityConsistent, DbOps::DocumentIntegrityConsistent) => true,
            (DbOps::DocumentIntegrityCorrupted, DbOps::DocumentIntegrityCorrupted) => true,
            (DbOps::DbCreated, DbOps::DbCreated) => true,
            (DbOps::DbFound, DbOps::DbFound) => true,
            (DbOps::DbAlreadyExists, DbOps::DbAlreadyExists) => true,
            (DbOps::DbNotFound, DbOps::DbNotFound) => true,
            (DbOps::DbEmpty, DbOps::DbEmpty) => true,
            (DbOps::DbModified, DbOps::DbModified) => true,
            (DbOps::DbDropped, DbOps::DbDropped) => true,
            (DbOps::DocumentCreated, DbOps::DocumentCreated) => true,
            (DbOps::DocumentInserted, DbOps::DocumentInserted) => true,
            (DbOps::DocumentFound, DbOps::DocumentFound) => true,
            (DbOps::DocumentEmpty, DbOps::DocumentEmpty) => true,
            (DbOps::DocumentAlreadyExists, DbOps::DocumentAlreadyExists) => true,
            (DbOps::DocumentNotFound, DbOps::DocumentNotFound) => true,
            (DbOps::DocumentModified, DbOps::DocumentModified) => true,
            (DbOps::DocumentDropped, DbOps::DocumentDropped) => true,
            (DbOps::FieldCreated, DbOps::FieldCreated) => true,
            (DbOps::FieldInserted, DbOps::FieldInserted) => true,
            (DbOps::FieldFound, DbOps::FieldFound) => true,
            (DbOps::FieldAlreadyExists, DbOps::FieldAlreadyExists) => true,
            (DbOps::FieldNotFound, DbOps::FieldNotFound) => true,
            (DbOps::FieldModified, DbOps::FieldModified) => true,
            (DbOps::FieldDropped, DbOps::FieldDropped) => true,
            (DbOps::Created, DbOps::Created) => true,
            (DbOps::Commited, DbOps::Commited) => true,
            (DbOps::UnCommited, DbOps::UnCommited) => true,
            (DbOps::Inserted, DbOps::Inserted) => true,
            (DbOps::Changed, DbOps::Changed) => true,
            (DbOps::Unchanged, DbOps::Unchanged) => true,
            (DbOps::Skipped, DbOps::Skipped) => true,
            (DbOps::AlreadyExists, DbOps::AlreadyExists) => true,
            (DbOps::Modified, DbOps::Modified) => true,
            (DbOps::Swapped, DbOps::Swapped) => true,
            (DbOps::Deleted, DbOps::Deleted) => true,
            (DbOps::KeyFound, DbOps::KeyFound) => true,
            (DbOps::KeyNotFound, DbOps::KeyNotFound) => true,
            (DbOps::NotExecuted, DbOps::NotExecuted) => true,
            (DbOps::QueryConflictError, DbOps::QueryConflictError) => true,
            (DbOps::Empty, DbOps::Empty) => true,
            (DbOps::Queued, DbOps::Queued) => true,
            (DbOps::DeQueued, DbOps::DeQueued) => true,
            (DbOps::CompactionTrue, DbOps::CompactionTrue) => true,
            (DbOps::CompactionFalse, DbOps::CompactionFalse) => true,
            (DbOps::ConnRefused, DbOps::ConnRefused) => true,
            (DbOps::PortAddrInUse, DbOps::PortAddrInUse) => true,
            (DbOps::DriverError, DbOps::DriverError) => true,
            (DbOps::RuntimeError, DbOps::RuntimeError) => true,
            (DbOps::PermissionDenied, DbOps::PermissionDenied) => true,
            (DbOps::ClusterOnline, DbOps::ClusterOnline) => true,
            (DbOps::ClusterOffline, DbOps::ClusterOffline) => true,
            (DbOps::ClusterSynced, DbOps::ClusterSynced) => true,
            (DbOps::ClusterNodeAdded, DbOps::ClusterNodeAdded) => true,
            (DbOps::ConfigUpdated, DbOps::ConfigUpdated) => true,
            (DbOps::ClusterNodeDropped, DbOps::ClusterNodeDropped) => true,
            (DbOps::Logged, DbOps::Logged) => true,
            (DbOps::NotLogged, DbOps::NotLogged) => true,
            (DbOps::Interrupted, DbOps::Interrupted) => true,
            (DbOps::Unspecified, DbOps::Unspecified) => true,
            _ => false,
        }
    }
}

impl vstd::std_specs::cmp::PartialEqSpecImpl for DbOps {
    open spec fn obeys_eq_spec() -> bool {
        true
    }

    /// Two values are equal if they are the same state and, where the state
    /// carries a reason, a list or bytes, what they carry reads the same.
    open spec fn eq_spec(&self, other: &Self) -> bool {
        match (*self, *other) {
            (DbOps::DbList(x), DbOps::DbList(y)) => x.deep_view() == y.deep_view(),
            (DbOps::DocumentList(x), DbOps::DocumentList(y)) => x.deep_view() == y.deep_view(),
            (DbOps::FieldContents(x), DbOps::FieldContents(y)) => x@ == y@,
            (DbOps::FieldList(x), DbOps::FieldList(y)) => x.deep_view() == y.deep_view(),
            (DbOps::EncounteredErrors(x), DbOps::EncounteredErrors(y)) => x@ == y@,
            _ => *self == *other,
        }
    }
}

/// Equality on `DbOps` is reflexive, symmetric and transitive, and two values
/// of a state that carries something are equal exactly if what they carry
/// reads the same.
pub proof fn db_ops_equality_laws(
    a: DbOps,
    b: DbOps,
    c: DbOps,
    m: Vec<String>,
    n: Vec<String>,
    u: Vec<u8>,
    v: Vec<u8>,
    p: Vec<Vec<u8>>,
    q: Vec<Vec<u8>>,
    s: String,
    t: String,
)
    ensures
        a.eq_spec(&a),
        a.eq_spec(&b) ==> b.eq_spec(&a),
        a.eq_spec(&b) && b.eq_spec(&c) ==> a.eq_spec(&c),
        DbOps::DbList(m).eq_spec(&DbOps::DbList(n)) <==> m.deep_view() == n.deep_view(),
        DbOps::DocumentList(m).eq_spec(&DbOps::DocumentList(n)) <==> m.deep_view() == n.deep_view(),
        DbOps::FieldContents(u).eq_spec(&DbOps::FieldContents(v)) <==> u@ == v@,
        DbOps::FieldList(p).eq_spec(&DbOps::FieldList(q)) <==> p.deep_view() == q.deep_view(),
        DbOps::EncounteredErrors(s).eq_spec(&DbOps::EncounteredErrors(t)) <==> s@ == t@,
{
}

} // verus!
