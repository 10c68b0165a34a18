//! The connection manager: a single lazily-created, read-only database
//! handle with read-oriented pragmas, plus the error type every request
//! surfaces to the caller.

use vstd::prelude::*;
use vstd::string::*;
use crate::paths::{canonical_or_self, find_db_path, is_candidate_or_default, opt_view,
    path_exists};

verus! {

#[verifier::external_type_specification]
#[verifier::external_body]
pub struct ExConnection(rusqlite::Connection);

#[verifier::external_type_specification]
#[verifier::external_body]
pub struct ExSqliteError(rusqlite::Error);

/// Relies on rusqlite's `Connection::open_with_flags` with
/// `SQLITE_OPEN_READ_ONLY`: opens the database file at the path for reading
/// only, so writes are structurally impossible through the handle. Success
/// depends on the disk, so nothing more is stated of it.
#[verifier::external_body]
fn open_read_only(path: &str) -> Result<rusqlite::Connection, rusqlite::Error> {
    rusqlite::Connection::open_with_flags(path, rusqlite::OpenFlags::SQLITE_OPEN_READ_ONLY)
}

/// Relies on rusqlite's `Connection::pragma_update`: sets the named pragma to
/// the integer value on this connection.
#[verifier::external_body]
fn pragma_update_int(
    conn: &rusqlite::Connection,
    name: &str,
    value: i64,
) -> Result<(), rusqlite::Error> {
    conn.pragma_update(None, name, value)
}

/// Relies on rusqlite's `Connection::pragma_update`: sets the named pragma to
/// the text value on this connection.
#[verifier::external_body]
fn pragma_update_text(
    conn: &rusqlite::Connection,
    name: &str,
    value: &str,
) -> Result<(), rusqlite::Error> {
    conn.pragma_update(None, name, value)
}

/// Relies on rusqlite's `Error` `Display` implementation, through std's
/// `ToString`: a human-readable description of the error.
#[verifier::external_body]
pub(crate) fn sqlite_error_text(e: &rusqlite::Error) -> String {
    e.to_string()
}

/// What can go wrong with a request. Each variant carries the text the
/// caller sees; `message` assembles it.
#[derive(Debug)]
pub enum DbError {
    /// The database file was not found; `path` is the path that was tried.
    NotFound { path: String },
    /// Opening the database failed.
    Open { detail: String },
    /// Applying one of the initialization pragmas failed.
    Pragma { detail: String },
    /// Preparing or executing a statement failed.
    Statement { detail: String },
}

impl DbError {
    /// The human-readable diagnostic for this error.
    pub fn message(&self) -> (r: String)
        ensures
            (self matches DbError::NotFound { path } ==> r@
                == "db.sqlite non trovato. Percorso provato: "@ + path@),
            (self matches DbError::Open { detail } ==> r@ == "open db failed: "@ + detail@),
            (self matches DbError::Pragma { detail } ==> r@ == detail@),
            (self matches DbError::Statement { detail } ==> r@ == detail@),
    {
        match self {
            DbError::NotFound { path } => {
                let mut r = String::from_str("db.sqlite non trovato. Percorso provato: ");
                r.append(path.as_str());
                r
            },
            DbError::Open { detail } => {
                let mut r = String::from_str("open db failed: ");
                r.append(detail.as_str());
                r
            },
            DbError::Pragma { detail } => detail.clone(),
            DbError::Statement { detail } => detail.clone(),
        }
    }
}

/// The process-wide connection slot: empty until the first successful
/// request, then holding the one read-only handle for the rest of the
/// process's life. The owner is expected to guard it with a lock and keep
/// the lock held across a whole request.
pub struct Db {
    conn: Option<rusqlite::Connection>,
}

impl Db {
    /// Whether the connection has been established.
    pub closed spec fn is_open(&self) -> bool {
        self.conn is Some
    }

    /// An empty slot; no connection is made until the first request.
    pub fn new() -> (r: Db)
        ensures
            !r.is_open(),
    {
        Db { conn: None }
    }

    /// A slot holding an already-open connection.
    pub fn from_connection(conn: rusqlite::Connection) -> (r: Db)
        ensures
            r.is_open(),
    {
        Db { conn: Some(conn) }
    }

    /// A reference to the open connection.
    pub fn connection(&self) -> (r: Option<&rusqlite::Connection>)
        ensures
            r is Some <==> self.is_open(),
    {
        self.conn.as_ref()
    }

    /// Idempotent connection initialization: when a handle is already
    /// present, succeeds immediately with nothing re-checked or re-applied;
    /// otherwise resolves the database path from the given directories,
    /// requires the file to exist, opens it read-only and applies the three
    /// read-throughput pragmas. Any failure leaves the slot empty so a later
    /// call can retry.
    pub fn ensure_open(&mut self, exe_dir: Option<&str>, cwd: Option<&str>) -> (r: Result<
        (),
        DbError,
    >)
        ensures
            old(self).is_open() ==> r is Ok && *final (self) == *old(self),
            r is Ok ==> final (self).is_open(),
            r is Err ==> *final (self) == *old(self) && !old(self).is_open(),
            r matches Err(e) ==> !(e is Statement),
            r matches Err(DbError::NotFound { path }) ==> is_candidate_or_default(
                path@,
                opt_view(exe_dir),
                opt_view(cwd),
            ),
    {
        if self.conn.is_some() {
            return Ok(());
        }
        let candidate = find_db_path(exe_dir, cwd);
        if !path_exists(candidate.as_str()) {
            return Err(DbError::NotFound { path: candidate });
        }
        let db_path = canonical_or_self(candidate.as_str());
        let conn = match open_read_only(db_path.as_str()) {
            Ok(c) => c,
            Err(e) => {
                return Err(DbError::Open { detail: sqlite_error_text(&e) });
            },
        };
        match pragma_update_int(&conn, "cache_size", -400000i64) {
            Ok(u) => u,
            Err(e) => {
                return Err(DbError::Pragma { detail: sqlite_error_text(&e) });
            },
        };
        match pragma_update_text(&conn, "temp_store", "MEMORY") {
            Ok(u) => u,
            Err(e) => {
                return Err(DbError::Pragma { detail: sqlite_error_text(&e) });
            },
        };
        match pragma_update_int(&conn, "mmap_size", 30000000000i64) {
            Ok(u) => u,
            Err(e) => {
                return Err(DbError::Pragma { detail: sqlite_error_text(&e) });
            },
        };
        self.conn = Some(conn);
        Ok(())
    }
}

} // verus!
