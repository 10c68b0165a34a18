//! The query executor: runs the COUNT statement, then the paginated SELECT,
//! maps each row into a record, and returns the total plus one page of rows.

use vstd::prelude::*;
use crate::db::{Db, DbError, sqlite_error_text};
use crate::paths::{is_candidate_or_default, opt_view};
use crate::plan::{
    build_plan, req_offset_fits, spec_select_params, spec_where_params, views_of, Param,
    SearchRequest,
};

verus! {

/// One row of the record table. The identifier is the only attribute
/// guaranteed present; every other field is optional text.
#[derive(Debug)]
pub struct Rec {
    pub id: i64,
    pub telefono: Option<String>,
    pub idfb: Option<String>,
    pub nome: Option<String>,
    pub cognome: Option<String>,
    pub sesso: Option<String>,
    pub natoa: Option<String>,
    pub residente: Option<String>,
    pub statocivile: Option<String>,
    pub azienda: Option<String>,
    pub data_acc: Option<String>,
    pub niente: Option<String>,
    pub niente2: Option<String>,
}

/// One answer: the total match count, ignoring pagination, and the records
/// of the requested page in ascending identifier order.
#[derive(Debug)]
pub struct SearchResult {
    pub total: i64,
    pub rows: Vec<Rec>,
}

/// The optional field at an index; out-of-range reads degrade to absent
/// rather than failing the row.
pub open spec fn field_at(fs: Seq<Option<String>>, i: int) -> Option<String> {
    if 0 <= i < fs.len() {
        fs[i]
    } else {
        None
    }
}

/// The identifier of a raw row: a value that failed to coerce defaults
/// rather than aborting the page.
pub open spec fn spec_id_of(id: Option<i64>) -> i64 {
    match id {
        Some(v) => v,
        None => 0,
    }
}

/// The record a raw row maps to: the defaulted identifier and the twelve
/// optional text columns in the projection's order.
pub open spec fn spec_rec(id: Option<i64>, fs: Seq<Option<String>>) -> Rec {
    Rec {
        id: spec_id_of(id),
        telefono: field_at(fs, 0),
        idfb: field_at(fs, 1),
        nome: field_at(fs, 2),
        cognome: field_at(fs, 3),
        sesso: field_at(fs, 4),
        natoa: field_at(fs, 5),
        residente: field_at(fs, 6),
        statocivile: field_at(fs, 7),
        azienda: field_at(fs, 8),
        data_acc: field_at(fs, 9),
        niente: field_at(fs, 10),
        niente2: field_at(fs, 11),
    }
}

fn clone_field(fs: &Vec<Option<String>>, i: usize) -> (r: Option<String>)
    ensures
        r == field_at(fs@, i as int),
{
    if i < fs.len() {
        match &fs[i] {
            Some(s) => Some(s.clone()),
            None => None,
        }
    } else {
        None
    }
}

/// Builds a record from the raw identifier and the twelve optional text
/// columns, in the projection's order; an identifier that failed to coerce
/// defaults, and a missing column degrades to absent.
pub fn rec_from_fields(id: Option<i64>, fs: &Vec<Option<String>>) -> (r: Rec)
    ensures
        r == spec_rec(id, fs@),
{
    Rec {
        id: match id {
            Some(v) => v,
            None => 0,
        },
        telefono: clone_field(fs, 0),
        idfb: clone_field(fs, 1),
        nome: clone_field(fs, 2),
        cognome: clone_field(fs, 3),
        sesso: clone_field(fs, 4),
        natoa: clone_field(fs, 5),
        residente: clone_field(fs, 6),
        statocivile: clone_field(fs, 7),
        azienda: clone_field(fs, 8),
        data_acc: clone_field(fs, 9),
        niente: clone_field(fs, 10),
        niente2: clone_field(fs, 11),
    }
}

/// Relies on rusqlite's `Connection::prepare` and `Statement::query_row`:
/// runs the statement with exactly the given parameters, in order (a text
/// parameter binds as text, an integer one as an integer), and reads the
/// single integer column of its one result row. The result depends on the
/// database, so nothing more is stated of it.
#[verifier::external_body]
fn query_count(
    conn: &rusqlite::Connection,
    sql: &str,
    params: &Vec<Param>,
) -> Result<i64, rusqlite::Error> {
    let vals: Vec<rusqlite::types::Value> = params.iter().map(|p| match p {
        Param::Text(s) => rusqlite::types::Value::Text(s.clone()),
        Param::Int(i) => rusqlite::types::Value::Integer(*i),
    }).collect();
    let mut stmt = conn.prepare(sql)?;
    stmt.query_row(rusqlite::params_from_iter(vals.iter()), |row| row.get(0))
}

/// Relies on rusqlite's `Connection::prepare`, `Statement::query`,
/// `Rows::next` and `Row::get`: runs the statement with exactly the given
/// parameters, in order (a text parameter binds as text, an integer one as
/// an integer), and reads each result row as the first column's integer
/// (absent when it fails to coerce) followed by twelve optional text columns
/// (each absent when it fails to coerce), in cursor order. Which rows come
/// back depends on the database, so only their shape is stated.
#[verifier::external_body]
fn query_rows(
    conn: &rusqlite::Connection,
    sql: &str,
    params: &Vec<Param>,
) -> (r: Result<Vec<(Option<i64>, Vec<Option<String>>)>, rusqlite::Error>)
    ensures
        r matches Ok(rows) ==> forall|i: int| 0 <= i < rows@.len() ==> rows@[i].1@.len() == 12,
{
    let vals: Vec<rusqlite::types::Value> = params.iter().map(|p| match p {
        Param::Text(s) => rusqlite::types::Value::Text(s.clone()),
        Param::Int(i) => rusqlite::types::Value::Integer(*i),
    }).collect();
    let mut stmt = conn.prepare(sql)?;
    let mut rows = stmt.query(rusqlite::params_from_iter(vals.iter()))?;
    let mut out: Vec<(Option<i64>, Vec<Option<String>>)> = Vec::new();
    while let Some(row) = rows.next()? {
        out.push((row.get(0).ok(), (1..13).map(|i| row.get(i).ok()).collect()));
    }
    Ok(out)
}

/// Maps every raw row into a record, in order: no row is dropped, the
/// identifier defaults when it failed to coerce, and each optional field is
/// taken by position.
pub fn recs_from_raw(raw: &Vec<(Option<i64>, Vec<Option<String>>)>) -> (r: Vec<Rec>)
    ensures
        r@.len() == raw@.len(),
        forall|j: int| 0 <= j < raw@.len() ==> r@[j] == spec_rec(raw@[j].0, raw@[j].1@),
{
    let mut rows: Vec<Rec> = Vec::new();
    let mut i: usize = 0;
    while i < raw.len()
        invariant
            0 <= i <= raw@.len(),
            rows@.len() == i,
            forall|j: int| 0 <= j < i ==> rows@[j] == spec_rec(raw@[j].0, raw@[j].1@),
        decreases raw@.len() - i,
    {
        rows.push(rec_from_fields(raw[i].0, &raw[i].1));
        i = i + 1;
    }
    rows
}

/// Runs one request against an open connection: builds the plan, executes
/// the COUNT statement with the WHERE-clause parameters, then the SELECT
/// statement with the same parameters followed by the limit and the offset,
/// and maps each raw row into a record. A statement failure aborts the whole
/// request; a per-column failure only degrades that field.
pub fn run_search(conn: &rusqlite::Connection, req: &SearchRequest) -> (r: Result<
    SearchResult,
    DbError,
>)
    requires
        req_offset_fits(req),
    ensures
        r matches Err(e) ==> e is Statement,
{
    let plan = build_plan(req);
    let mut params = plan.params;
    proof {
        // The COUNT statement runs with exactly the WHERE-clause parameters.
        assert(views_of(params@) == spec_where_params(req));
    }
    let total = match query_count(conn, plan.count_sql.as_str(), &params) {
        Ok(t) => t,
        Err(e) => {
            return Err(DbError::Statement { detail: sqlite_error_text(&e) });
        },
    };
    params.push(Param::Int(plan.limit));
    params.push(Param::Int(plan.offset));
    proof {
        // The SELECT statement runs with the COUNT parameters plus the two
        // pagination values, exactly the vector the prefix law speaks of.
        assert(views_of(params@) =~= spec_select_params(req));
    }
    let raw = match query_rows(conn, plan.select_sql.as_str(), &params) {
        Ok(v) => v,
        Err(e) => {
            return Err(DbError::Statement { detail: sqlite_error_text(&e) });
        },
    };
    let rows = recs_from_raw(&raw);
    Ok(SearchResult { total, rows })
}

impl Db {
    /// Answers one search request: ensures the connection is open (resolving
    /// the database path from the given directories on first use), then runs
    /// the request on it.
    pub fn search_records(
        &mut self,
        req: &SearchRequest,
        exe_dir: Option<&str>,
        cwd: Option<&str>,
    ) -> (r: Result<SearchResult, DbError>)
        requires
            req_offset_fits(req),
        ensures
            r is Ok ==> final (self).is_open(),
            old(self).is_open() ==> *final (self) == *old(self),
            old(self).is_open() ==> (r matches Err(e) ==> e is Statement),
            r matches Err(DbError::NotFound { path }) ==> is_candidate_or_default(
                path@,
                opt_view(exe_dir),
                opt_view(cwd),
            ),
    {
        match self.ensure_open(exe_dir, cwd) {
            Ok(u) => u,
            Err(e) => {
                return Err(e);
            },
        };
        match self.connection() {
            Some(c) => run_search(c, req),
            None => vstd::pervasive::unreached(),
        }
    }
}

} // verus!
