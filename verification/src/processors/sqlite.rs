//! The persistent sink: opens and validates a storage file, ensures the
//! schema (bootstrap or migration hook), and upserts every record with
//! replace-on-conflict semantics keyed by the team pair. Each storage call
//! goes through a trusted wrapper over rusqlite; every decision between
//! the calls is verified.

use vstd::prelude::*;
use vstd::string::StringExecFns;
use rusqlite::{Connection, OpenFlags, OptionalExtension};
use crate::error::PipelineError;
use crate::hunters::Hunter;
use crate::models::Match;

verus! {

/// Declares rusqlite's connection handle to one storage file.
#[verifier::external_type_specification]
#[verifier::external_body]
pub struct ExConnection(Connection);

/// The current schema version, stored in the version table at bootstrap.
pub const VERSION: usize = 1;

/// The DDL that creates the version table.
pub open spec fn sql_create_version_table() -> Seq<char> {
    "CREATE TABLE IF NOT EXISTS tVersion ( version INTEGER NOT NULL )"@
}

/// The statement that stores the schema version at bootstrap.
pub open spec fn sql_insert_version() -> Seq<char> {
    "INSERT INTO tVersion (version) VALUES (?)"@
}

/// The DDL that creates the match table keyed by the team pair.
pub open spec fn sql_create_matches_table() -> Seq<char> {
    "CREATE TABLE IF NOT EXISTS tMatches ( team1 TEXT NOT NULL, team2 TEXT NOT NULL, match_day INTEGER NOT NULL, match_date TEXT NOT NULL, team1_score INTEGER NULL, team2_score INTEGER NULL, PRIMARY KEY(team1, team2) )"@
}

/// The query that asks whether the version table exists.
pub open spec fn sql_version_table_exists() -> Seq<char> {
    "SELECT EXISTS(SELECT 1 FROM sqlite_master WHERE type=\"table\" AND name=\"tVersion\")"@
}

/// The query that reads the stored version.
pub open spec fn sql_select_version() -> Seq<char> {
    "SELECT version FROM tVersion"@
}

/// The replace-on-conflict insert for one record.
pub open spec fn sql_upsert_match() -> Seq<char> {
    "INSERT OR REPLACE INTO tMatches (match_day,match_date,team1,team2,team1_score,team2_score) VALUES (?,?,?,?,?,?);"@
}

/// Relies on rusqlite's Connection::open_with_flags with the read-write,
/// no-mutex and create flags: opens the storage file, creating it when
/// absent. sqlite opens lazily, so this alone validates nothing.
#[verifier::external_body]
fn open_rw_create(path: &str) -> Result<Connection, rusqlite::Error> {
    let flags = OpenFlags::SQLITE_OPEN_READ_WRITE | OpenFlags::SQLITE_OPEN_NO_MUTEX
        | OpenFlags::SQLITE_OPEN_CREATE;
    Connection::open_with_flags(path, flags)
}

/// Relies on rusqlite's Connection::open_with_flags with the read-write
/// and no-mutex flags: opening fails when the file is absent.
#[verifier::external_body]
fn open_rw(path: &str) -> Result<Connection, rusqlite::Error> {
    let flags = OpenFlags::SQLITE_OPEN_READ_WRITE | OpenFlags::SQLITE_OPEN_NO_MUTEX;
    Connection::open_with_flags(path, flags)
}

/// Relies on rusqlite's Connection::pragma_query: runs the named pragma
/// and discards its rows, failing if the file is not a valid database.
#[verifier::external_body]
fn pragma_query_check(conn: &Connection, name: &str) -> Result<(), rusqlite::Error>
    requires
        name@ == "schema_version"@,
{
    conn.pragma_query(None, name, |_| Ok(()))
}

/// Relies on rusqlite's Connection::execute with no parameters; returns
/// the number of rows changed.
#[verifier::external_body]
fn exec_sql(conn: &Connection, sql: &str) -> Result<usize, rusqlite::Error>
    requires
        sql@ == sql_create_version_table() || sql@ == sql_create_matches_table(),
{
    conn.execute(sql, ())
}

/// Relies on rusqlite's Connection::execute with one integer parameter.
#[verifier::external_body]
fn exec_sql_usize(conn: &Connection, sql: &str, v: usize) -> Result<usize, rusqlite::Error>
    requires
        sql@ == sql_insert_version(),
{
    conn.execute(sql, [v])
}

/// Relies on rusqlite's Connection::execute with the six upsert
/// parameters, bound in order: round index, rendered date, the two team
/// names, the two optional scores.
#[verifier::external_body]
fn exec_sql_match(
    conn: &Connection,
    sql: &str,
    day: usize,
    date: &str,
    team1: &str,
    team2: &str,
    s1: Option<usize>,
    s2: Option<usize>,
) -> Result<usize, rusqlite::Error>
    requires
        sql@ == sql_upsert_match(),
{
    conn.execute(sql, (day, date, team1, team2, s1, s2))
}

/// Relies on rusqlite's Connection::query_row reading a query that yields
/// one row; the closure only picks the row's first integer column.
#[verifier::external_body]
fn query_one_usize(conn: &Connection, sql: &str) -> Result<usize, rusqlite::Error>
    requires
        sql@ == sql_version_table_exists(),
{
    conn.query_row(sql, [], |row| row.get(0))
}

/// Relies on rusqlite's Connection::query_row and OptionalExtension: the
/// first integer column of the row, or None when the query returns no row
/// (which is not an error); the closure only picks the first column.
#[verifier::external_body]
fn query_opt_usize(conn: &Connection, sql: &str) -> Result<Option<usize>, rusqlite::Error>
    requires
        sql@ == sql_select_version(),
{
    conn.query_row(sql, [], |row| row.get(0)).optional()
}

/// The persistent sink, bound to one storage file path.
pub struct SqliteProcessor {
    pub db_name: String,
}

impl SqliteProcessor {
    pub fn new(db_name: String) -> (r: Result<Self, PipelineError>)
        ensures
            r matches Ok(p) && p.db_name == db_name,
    {
        Ok(Self { db_name })
    }
}

/// Opens the storage file read-write, creating it when asked to; every
/// failure the engine reports surfaces as a storage error.
pub fn create_conn(path: &str, create: bool) -> (r: Result<Connection, PipelineError>)
    ensures
        r matches Err(e) ==> e is Sqlite,
{
    let opened = if create {
        open_rw_create(path)
    } else {
        open_rw(path)
    };
    match opened {
        Ok(c) => Ok(c),
        Err(e) => Err(PipelineError::Sqlite(e)),
    }
}

/// sqlite opens databases lazily, so opening alone reports no error even
/// for a non-database file. Forcing a cheap pragma query makes the engine
/// actually open the file and checks that it is valid.
pub fn check_valid_connection(conn: &Connection) -> (r: Result<(), PipelineError>)
    ensures
        r matches Err(e) ==> e is Sqlite,
{
    match pragma_query_check(conn, "schema_version") {
        Ok(_) => Ok(()),
        Err(e) => Err(PipelineError::Sqlite(e)),
    }
}

/// Bootstraps a fresh storage file: creates the version table, stores the
/// current schema version in it, and creates the match table keyed by the
/// team pair.
pub fn prepare_db(conn: &Connection) -> (r: Result<(), PipelineError>)
    ensures
        r matches Err(e) ==> e is Sqlite,
{
    let sql_tversion_table = "CREATE TABLE IF NOT EXISTS tVersion ( version INTEGER NOT NULL )";
    match exec_sql(conn, sql_tversion_table) {
        Ok(_) => (),
        Err(e) => {
            return Err(PipelineError::Sqlite(e));
        },
    }
    let sql_tversion_insert = "INSERT INTO tVersion (version) VALUES (?)";
    match exec_sql_usize(conn, sql_tversion_insert, VERSION) {
        Ok(_) => (),
        Err(e) => {
            return Err(PipelineError::Sqlite(e));
        },
    }
    let sql_tmatches_table =
        "CREATE TABLE IF NOT EXISTS tMatches ( team1 TEXT NOT NULL, team2 TEXT NOT NULL, match_day INTEGER NOT NULL, match_date TEXT NOT NULL, team1_score INTEGER NULL, team2_score INTEGER NULL, PRIMARY KEY(team1, team2) )";
    match exec_sql(conn, sql_tmatches_table) {
        Ok(_) => Ok(()),
        Err(e) => Err(PipelineError::Sqlite(e)),
    }
}

/// What the two version queries mean: an exists-flag of zero says the
/// version table itself is absent — "no version", and not an error;
/// otherwise the version row's value is the answer (None for a present
/// but empty table).
pub fn interpret_version(exists_flag: usize, version_row: Option<usize>) -> (r: Option<usize>)
    ensures
        exists_flag == 0 ==> r is None,
        exists_flag != 0 ==> r == version_row,
{
    if exists_flag == 0 {
        None
    } else {
        version_row
    }
}

/// Reads the stored schema version, as `interpret_version` describes the
/// engine's two answers: None when the version table itself is absent (a
/// fresh file), which is not an error; a present but empty version table
/// also yields None.
pub fn get_version(conn: &Connection) -> (r: Result<Option<usize>, PipelineError>)
    ensures
        r matches Err(e) ==> e is Sqlite,
{
    let sql_tversion_exists =
        "SELECT EXISTS(SELECT 1 FROM sqlite_master WHERE type=\"table\" AND name=\"tVersion\")";
    let exists_flag = match query_one_usize(conn, sql_tversion_exists) {
        Ok(v) => v,
        Err(e) => {
            return Err(PipelineError::Sqlite(e));
        },
    };
    if exists_flag == 0 {
        return Ok(interpret_version(exists_flag, None));
    }
    let version_row = match query_opt_usize(conn, "SELECT version FROM tVersion") {
        Ok(v) => v,
        Err(e) => {
            return Err(PipelineError::Sqlite(e));
        },
    };
    Ok(interpret_version(exists_flag, version_row))
}

/// The step the schema check decides on: a fresh file is initialized, a
/// file with a stored version runs the migration hook keyed by it.
#[derive(Debug, PartialEq, Eq, Structural)]
pub enum SchemaAction {
    Initialize,
    Migrate(usize),
}

/// Decides the schema step from the stored version: absent means
/// initialize, present means migrate from that version.
pub fn schema_action(version: Option<usize>) -> (r: SchemaAction)
    ensures
        match version {
            Some(v) => r == SchemaAction::Migrate(v),
            None => r == SchemaAction::Initialize,
        },
{
    match version {
        Some(v) => SchemaAction::Migrate(v),
        None => SchemaAction::Initialize,
    }
}

/// The migration hook, keyed by (stored version, current version). The
/// only defined version is the current one, so every defined step is the
/// identity and the hook always succeeds.
pub fn exec_migration(_conn: &Connection, _current_version: usize) -> (r: Result<
    (),
    PipelineError,
>)
    ensures
        r is Ok,
{
    Ok(())
}

/// Writes one record with replace-on-conflict semantics keyed by the
/// (team1, team2) pair: an existing row for that exact pair is overwritten
/// whole with the record's round index, rendered date and scores;
/// otherwise a new row is inserted.
pub fn upsert_match(conn: &Connection, m: &Match) -> (r: Result<(), PipelineError>)
    ensures
        r matches Err(e) ==> e is Sqlite,
{
    let sql_match_insert =
        "INSERT OR REPLACE INTO tMatches (match_day,match_date,team1,team2,team1_score,team2_score) VALUES (?,?,?,?,?,?);";
    let date = m.match_date.to_string();
    match exec_sql_match(
        conn,
        sql_match_insert,
        m.match_day,
        date.as_str(),
        m.team1.as_str(),
        m.team2.as_str(),
        m.team1_score,
        m.team2_score,
    ) {
        Ok(_) => Ok(()),
        Err(e) => Err(PipelineError::Sqlite(e)),
    }
}

impl crate::processors::Processor for SqliteProcessor {
    fn name(&self) -> String {
        String::from_str("Sqlite Processor")
    }

    /// One pass of the storage state machine: open (creating if absent),
    /// validate, bootstrap or migrate the schema as `schema_action`
    /// decides, then call the source once and upsert every record it
    /// returned, in order. Each upsert is its own atomic unit: a failure
    /// aborts the remaining upserts and the earlier ones stay committed.
    /// Every error is a storage error, or the source's own error returned
    /// unchanged (and then no upsert has run).
    fn process<H: Hunter>(&self, hunter: &H) -> (r: Result<(), PipelineError>)
        ensures
            r matches Err(e) ==> (e is Sqlite || call_ensures(
                H::find_matches,
                (hunter,),
                Err::<Vec<Match>, PipelineError>(e),
            )),
            r is Ok ==> exists|ms: Vec<Match>|
                call_ensures(H::find_matches, (hunter,), Ok::<Vec<Match>, PipelineError>(ms)),
    {
        let conn = match create_conn(self.db_name.as_str(), true) {
            Ok(c) => c,
            Err(e) => {
                return Err(e);
            },
        };
        match check_valid_connection(&conn) {
            Ok(_) => (),
            Err(e) => {
                return Err(e);
            },
        }
        let version = match get_version(&conn) {
            Ok(v) => v,
            Err(e) => {
                return Err(e);
            },
        };
        match schema_action(version) {
            SchemaAction::Migrate(current_version) => {
                match exec_migration(&conn, current_version) {
                    Ok(_) => (),
                    Err(e) => {
                        return Err(e);
                    },
                }
            },
            SchemaAction::Initialize => {
                match prepare_db(&conn) {
                    Ok(_) => (),
                    Err(e) => {
                        return Err(e);
                    },
                }
            },
        }
        let records = match hunter.find_matches() {
            Ok(r) => r,
            Err(e) => {
                return Err(e);
            },
        };
        let mut i: usize = 0;
        while i < records.len()
            decreases records.len() - i,
        {
            match upsert_match(&conn, &records[i]) {
                Ok(_) => (),
                Err(e) => {
                    return Err(e);
                },
            }
            i = i + 1;
        }
        Ok(())
    }
}

} // verus!
