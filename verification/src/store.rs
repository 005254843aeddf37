//! The durable cached snapshot behind every change-detecting provider: one
//! logical record holding the last successfully observed version and payload.
//!
//! The record lives in a SQLite database — on disk when the configuration
//! names a state file, in memory otherwise — and is exclusively owned by one
//! provider for the duration of the process. The handle keeps an in-memory
//! mirror of the record; the trusted operations below keep the mirror and the
//! database row in step, so [`StateStore::snapshot`] is the record's value.

use vstd::prelude::*;

verus! {

/// The last successfully observed version and payload, as mathematical values.
pub struct Snapshot {
    pub version: u64,
    pub data: Seq<char>,
}

#[verifier::external_type_specification]
#[verifier::external_body]
pub struct ExConnection(rusqlite::Connection);

#[verifier::external_type_specification]
#[verifier::external_body]
pub struct ExSqlError(rusqlite::Error);

/// A handle on the single durable record, mirroring the row it last saw.
#[derive(Debug)]
pub struct StateStore {
    conn: rusqlite::Connection,
    version: u64,
    data: String,
}

/// Opens the database at `path` (a fresh in-memory database when no path is
/// given), creates the single-row table when it is absent, seeds it with the
/// empty sentinel, and returns the connection together with the row's current
/// contents.
///
/// Relies on rusqlite's `Connection::open` / `Connection::open_in_memory`,
/// `Connection::execute` and `Connection::query_row`: an in-memory database
/// starts empty, so without a path the returned row is the freshly seeded
/// sentinel.
#[verifier::external_body]
fn open_raw(path: Option<&String>) -> (r: Result<(rusqlite::Connection, u64, String), rusqlite::Error>)
    ensures
        path is None ==> (r matches Ok(t) ==> t.1 == 0 && t.2@ == Seq::<char>::empty()),
{
    let conn = match path {
        None => rusqlite::Connection::open_in_memory()?,
        Some(p) => rusqlite::Connection::open(p.as_str())?,
    };
    let create = "CREATE TABLE IF NOT EXISTS snapshot (id INTEGER PRIMARY KEY, version INTEGER NOT NULL, data TEXT NOT NULL)";
    let seed = "INSERT INTO snapshot (id, version, data) SELECT 0, 0, '' WHERE NOT EXISTS (SELECT * FROM snapshot WHERE id=0)";
    conn.execute(create, ())?;
    conn.execute(seed, ())?;
    let row = "SELECT version, data FROM snapshot WHERE id=0";
    let (version, data): (i64, String) = conn.query_row(row, (), |r| Ok((r.get(0)?, r.get(1)?)))?;
    Ok((conn, version as u64, data))
}

impl StateStore {
    /// The snapshot the store currently holds.
    pub closed spec fn snapshot(&self) -> Snapshot {
        Snapshot { version: self.version, data: self.data@ }
    }

    /// Opens or creates the store; a store opened without a path always
    /// starts from the empty sentinel.
    pub fn open(path: Option<&String>) -> (r: Result<StateStore, rusqlite::Error>)
        ensures
            path is None ==> (r matches Ok(s) ==> s.snapshot().version == 0
                && s.snapshot().data == Seq::<char>::empty()),
    {
        match open_raw(path) {
            Ok((conn, version, data)) => Ok(StateStore { conn, version, data }),
            Err(e) => Err(e),
        }
    }

    /// The cached version, read from the in-memory mirror of the record.
    pub fn version(&self) -> (v: u64)
        ensures
            v == self.snapshot().version,
    {
        self.version
    }

    /// Reads the record back from the database.
    ///
    /// Relies on rusqlite's `Connection::query_row`: this handle has the
    /// database to itself, so selecting the single row returns exactly what
    /// the row last held — the mirrored snapshot.
    #[verifier::external_body]
    pub fn read(&self) -> (r: Result<(u64, String), rusqlite::Error>)
        ensures
            r matches Ok(row) ==> row.0 == self.snapshot().version
                && row.1@ == self.snapshot().data,
    {
        let row = "SELECT version, data FROM snapshot WHERE id=0";
        let (version, data): (i64, String) =
            self.conn.query_row(row, (), |r| Ok((r.get(0)?, r.get(1)?)))?;
        Ok((version as u64, data))
    }

    /// Replaces the record; on failure the record is left as it was.
    ///
    /// Relies on rusqlite's `Connection::execute`: one UPDATE statement
    /// replaces the row's version and data atomically, so a failed statement
    /// leaves the row — and hence the mirror — unchanged. SQLite integers are
    /// signed 64-bit values, hence the bound on `version`.
    #[verifier::external_body]
    pub fn write(&mut self, version: u64, data: &str) -> (r: Result<(), rusqlite::Error>)
        requires
            version <= i64::MAX as u64,
        ensures
            r is Ok ==> final(self).snapshot().version == version
                && final(self).snapshot().data == data@,
            r is Err ==> final(self).snapshot() == old(self).snapshot(),
    {
        self.conn.execute(
            "UPDATE snapshot SET version = ?1, data = ?2 WHERE id=0",
            (version as i64, data),
        )?;
        self.version = version;
        self.data = data.to_string();
        Ok(())
    }
}

} // verus!
