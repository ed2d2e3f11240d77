use vstd::prelude::*;
use vstd::string::StringExecFns;

use rusqlite::types::Value as EngineValue;
use rusqlite::types::ValueRef as EngineValueRef;

use crate::record::{columns_model, decode_row, decoded_row_model, params_model, record_params,
    Record};
use crate::sql::{build_clear, build_delete, build_select_all, build_upsert, clear_model,
    delete_model, fixed_tables, upsert_model};
use crate::value::{ParamModel, SqlParam, ValueModel};

verus! {

/// Declares rusqlite::Connection: the engine connection the store owns.
/// The value is opaque; everything the store does with it goes through the
/// trusted calls below.
#[verifier::external_type_specification]
#[verifier::external_body]
pub struct ExConnection(rusqlite::Connection);

/// Declares rusqlite::types::ValueRef: one column of one result row, in
/// the engine's own kinds, converted by `from_engine_value`.
#[verifier::external_type_specification]
#[verifier::external_body]
pub struct ExValueRef<'a>(rusqlite::types::ValueRef<'a>);

/// Declares rusqlite::Error: an engine failure, mapped by `err_text` to
/// the message every operation reports.
#[verifier::external_type_specification]
#[verifier::external_body]
pub struct ExError(rusqlite::Error);

/// Relies on rusqlite::Error's Display implementation: the human-readable
/// message of an engine failure, as every failed operation reports it.
#[verifier::external_body]
fn err_text(e: rusqlite::Error) -> (r: String) {
    e.to_string()
}

/// Relies on rusqlite::types::ValueRef, the engine's closed set of value
/// kinds: each kind converts to its own parameter kind, a real to its
/// decimal text, and text that is not valid UTF-8 degrades to the empty
/// string rather than failing the whole read.
#[verifier::external_body]
fn from_engine_value(v: rusqlite::types::ValueRef<'_>) -> (r: SqlParam) {
    match v {
        EngineValueRef::Null => SqlParam::Null,
        EngineValueRef::Integer(i) => SqlParam::Int(i),
        EngineValueRef::Real(f) => SqlParam::Real(f.to_string()),
        EngineValueRef::Text(t) => SqlParam::Text(std::str::from_utf8(t).unwrap_or("").to_string()),
        EngineValueRef::Blob(b) => SqlParam::Blob(b.to_vec()),
    }
}

/// One statement as the engine receives it: its text and the parameters
/// bound, in order. The store's journal is a sequence of these.
pub type StatementModel = (Seq<char>, Seq<ParamModel>);

/// An empty parameter list.
pub open spec fn no_params() -> Seq<ParamModel> {
    Seq::empty()
}

/// The statement that opens a transaction.
pub open spec fn begin_entry() -> StatementModel {
    ("BEGIN"@, no_params())
}

/// The statement that commits a transaction.
pub open spec fn commit_entry() -> StatementModel {
    ("COMMIT"@, no_params())
}

/// The statement that abandons a transaction.
pub open spec fn rollback_entry() -> StatementModel {
    ("ROLLBACK"@, no_params())
}

/// The statement one record write hands to the engine: the upsert text over
/// the record's field names, with the record's encoded values bound.
pub open spec fn upsert_entry(table: Seq<char>, rec: Seq<(Seq<char>, ValueModel)>) -> StatementModel {
    (upsert_model(table, columns_model(rec)), params_model(rec))
}

/// The statements one batch hands to the engine between BEGIN and COMMIT:
/// one upsert per record, in input order.
pub open spec fn upsert_entries(table: Seq<char>, recs: Seq<Seq<(Seq<char>, ValueModel)>>) -> Seq<
    StatementModel,
> {
    recs.map_values(|r: Seq<(Seq<char>, ValueModel)>| upsert_entry(table, r))
}

/// The four delete-all statements that empty the fixed tables, in order.
pub open spec fn clear_statements() -> Seq<StatementModel> {
    seq![
        (clear_model("clients"@), no_params()),
        (clear_model("customers"@), no_params()),
        (clear_model("tickets"@), no_params()),
        (clear_model("worklogs"@), no_params()),
    ]
}

/// The idempotent statements that ensure the four fixed tables exist, in
/// the order `open` runs them.
pub open spec fn bootstrap_entries() -> Seq<StatementModel> {
    seq![
        (
            "CREATE TABLE IF NOT EXISTS clients (id TEXT PRIMARY KEY, name TEXT, code TEXT, address TEXT)"@,
            no_params(),
        ),
        (
            "CREATE TABLE IF NOT EXISTS customers (id TEXT PRIMARY KEY, clientId TEXT, name TEXT, address TEXT, isInactive INTEGER DEFAULT 0)"@,
            no_params(),
        ),
        (
            "CREATE TABLE IF NOT EXISTS tickets (id TEXT PRIMARY KEY, clientId TEXT, customerId TEXT, sapId TEXT, sapModule TEXT, title TEXT, description TEXT, priority TEXT, status TEXT, budget INTEGER, estimation INTEGER, date TEXT, createdAt TEXT, startDate TEXT)"@,
            no_params(),
        ),
        (
            "CREATE TABLE IF NOT EXISTS worklogs (id TEXT PRIMARY KEY, clientId TEXT, customerId TEXT, ticketId TEXT, manualTicketId TEXT, manualModule TEXT, date TEXT, hours REAL, description TEXT, invoiceNumber TEXT, billingDate TEXT)"@,
            no_params(),
        ),
    ]
}

/// The journal only grows: everything already on record stays, in place.
pub open spec fn extends(post: Seq<StatementModel>, pre: Seq<StatementModel>) -> bool {
    pre.len() <= post.len() && post.take(pre.len() as int) == pre
}

/// The store: sole owner of the one engine connection for the life of the
/// process, together with a ghost journal of every statement its write
/// path has handed to the engine, in order, with the parameters bound for
/// it. The contracts of the write operations are stated over that journal.
/// Writes take `&mut self`; a caller that shares the store across threads
/// serializes the operations behind its own mutual-exclusion wrapper.
pub struct Store {
    conn: rusqlite::Connection,
    journal: Ghost<Seq<StatementModel>>,
}

impl Store {
    /// The journal: every statement this store has handed to the engine for
    /// execution, oldest first, each with the parameters bound for it.
    pub closed spec fn log(&self) -> Seq<StatementModel> {
        self.journal@
    }
}

/// Relies on rusqlite::Connection::execute: prepares and runs one statement
/// that returns no rows, with the given parameters bound in order, and
/// answers how many rows it changed. A `Real` parameter binds the 64-bit
/// float its decimal text names — the stated meaning of `SqlParam::Real`;
/// a text that names no number, which no value of this crate produces,
/// binds as zero. Every other kind binds as itself, per
/// rusqlite::types::Value. Whatever the outcome, the statement and its
/// parameters go on the store's journal: the journal records what was
/// handed to the engine, not what succeeded.
#[verifier::external_body]
fn exec_logged(store: &mut Store, sql: &str, params: &Vec<SqlParam>) -> (r: Result<usize, String>)
    ensures
        final(store).log() == old(store).log().push(
            (sql@, params@.map_values(|p: SqlParam| p@)),
        ),
{
    let vals = params.iter().map(|p| match p {
        SqlParam::Null => EngineValue::Null,
        SqlParam::Int(i) => EngineValue::Integer(*i),
        SqlParam::Real(s) => EngineValue::Real(s.parse().unwrap_or_default()),
        SqlParam::Text(s) => EngineValue::Text(s.clone()),
        SqlParam::Blob(b) => EngineValue::Blob(b.clone()),
    });
    store.conn.execute(sql, rusqlite::params_from_iter(vals)).map_err(err_text)
}

/// Relies on rusqlite::Statement::{column_names, query} and Rows::next:
/// runs one query and hands back the column names and every result row, in
/// the order the engine returns them; each row holds exactly one value per
/// column, converted by `from_engine_value`.
#[verifier::external_body]
fn query_sql(conn: &rusqlite::Connection, sql: &str) -> (r: Result<
    (Vec<String>, Vec<Vec<SqlParam>>),
    String,
>)
    ensures
        r matches Ok(t) ==> forall|i: int|
            0 <= i < t.1@.len() ==> (#[trigger] t.1@[i])@.len() == t.0@.len(),
{
    let mut stmt = conn.prepare(sql).map_err(err_text)?;
    let names: Vec<String> = stmt.column_names().iter().map(|s| s.to_string()).collect();
    let mut rows = stmt.query([]).map_err(err_text)?;
    let mut out: Vec<Vec<SqlParam>> = Vec::new();
    while let Some(row) = rows.next().map_err(err_text)? {
        let mut rec: Vec<SqlParam> = Vec::new();
        let mut i: usize = 0;
        while i < names.len() {
            rec.push(from_engine_value(row.get_ref(i).map_err(err_text)?));
            i += 1;
        }
        out.push(rec);
    }
    Ok((names, out))
}

/// Every result row of one read, decoded: each row pairs the shared column
/// names with its decoded values.
pub open spec fn decoded_rows_model(names: Seq<Seq<char>>, rows: Seq<Seq<ParamModel>>) -> Seq<
    Seq<(Seq<char>, ValueModel)>,
> {
    rows.map_values(|row: Seq<ParamModel>| decoded_row_model(names, row))
}

impl Store {
    /// Wraps an open engine connection and idempotently ensures the four
    /// fixed tables exist, each with `id` as its single primary-key column.
    /// On success the store's journal holds exactly the four statements of
    /// `bootstrap_entries`, in order.
    pub fn open(conn: rusqlite::Connection) -> (r: Result<Store, String>)
        ensures
            r matches Ok(s) ==> s.log() == bootstrap_entries(),
    {
        let mut store = Store { conn, journal: Ghost(Seq::empty()) };
        let none: Vec<SqlParam> = Vec::new();
        proof {
            assert(none@.map_values(|p: SqlParam| p@) =~= no_params());
        }
        match exec_logged(
            &mut store,
            "CREATE TABLE IF NOT EXISTS clients (id TEXT PRIMARY KEY, name TEXT, code TEXT, address TEXT)",
            &none,
        ) {
            Err(e) => return Err(e),
            Ok(_) => {},
        }
        match exec_logged(
            &mut store,
            "CREATE TABLE IF NOT EXISTS customers (id TEXT PRIMARY KEY, clientId TEXT, name TEXT, address TEXT, isInactive INTEGER DEFAULT 0)",
            &none,
        ) {
            Err(e) => return Err(e),
            Ok(_) => {},
        }
        match exec_logged(
            &mut store,
            "CREATE TABLE IF NOT EXISTS tickets (id TEXT PRIMARY KEY, clientId TEXT, customerId TEXT, sapId TEXT, sapModule TEXT, title TEXT, description TEXT, priority TEXT, status TEXT, budget INTEGER, estimation INTEGER, date TEXT, createdAt TEXT, startDate TEXT)",
            &none,
        ) {
            Err(e) => return Err(e),
            Ok(_) => {},
        }
        match exec_logged(
            &mut store,
            "CREATE TABLE IF NOT EXISTS worklogs (id TEXT PRIMARY KEY, clientId TEXT, customerId TEXT, ticketId TEXT, manualTicketId TEXT, manualModule TEXT, date TEXT, hours REAL, description TEXT, invoiceNumber TEXT, billingDate TEXT)",
            &none,
        ) {
            Err(e) => return Err(e),
            Ok(_) => {},
        }
        proof {
            assert(store.log() =~= bootstrap_entries());
        }
        Ok(store)
    }

    /// Reads every row of the table, in whatever order the engine returns
    /// them. On success the result is exactly the decode of what the engine
    /// handed back: some column-name list shared by all rows, each row's
    /// values decoded by `decode_model`. Fails where the table does not
    /// exist. Reads leave the write journal alone.
    pub fn get_all(&self, table: &str) -> (r: Result<Vec<Record>, String>)
        ensures
            r matches Ok(recs) ==> exists|names: Seq<Seq<char>>, rows: Seq<Seq<ParamModel>>|
                recs@.map_values(|x: Record| x@) == #[trigger] decoded_rows_model(names, rows),
    {
        let sql = build_select_all(table);
        match query_sql(&self.conn, sql.as_str()) {
            Err(e) => Err(e),
            Ok((names, rows)) => {
                let ghost namesv = names@.map_values(|s: String| s@);
                let ghost rowsv = rows@.map_values(
                    |v: Vec<SqlParam>| v@.map_values(|p: SqlParam| p@),
                );
                let mut recs: Vec<Record> = Vec::new();
                let n = rows.len();
                let mut i: usize = 0;
                while i < n
                    invariant
                        n == rows@.len(),
                        namesv == names@.map_values(|s: String| s@),
                        rowsv == rows@.map_values(
                            |v: Vec<SqlParam>| v@.map_values(|p: SqlParam| p@),
                        ),
                        forall|j: int|
                            0 <= j < rows@.len() ==> (#[trigger] rows@[j])@.len() == names@.len(),
                        0 <= i <= n,
                        recs@.len() == i,
                        forall|j: int|
                            0 <= j < i ==> (#[trigger] recs@[j])@ == decoded_row_model(
                                namesv,
                                rowsv[j],
                            ),
                    decreases n - i,
                {
                    let rec = decode_row(&names, &rows[i]);
                    recs.push(rec);
                    i += 1;
                }
                proof {
                    assert(recs@.map_values(|x: Record| x@) =~= decoded_rows_model(namesv, rowsv));
                }
                Ok(recs)
            },
        }
    }

    /// Writes one record, auto-committed: insert-or-replace by primary key.
    /// The record must be a mapping — no field name twice — as every record
    /// that decodes from an object is. Whatever the outcome, exactly one
    /// statement goes to the engine: the upsert text of `upsert_model` over
    /// the record's field names, with the record's encoded values bound, as
    /// `params_model` states them. What the engine then does to the table
    /// is what `upsert_row` states. Fails where the table or a named column
    /// does not exist, or a constraint objects.
    pub fn put(&mut self, table: &str, rec: &Record) -> (r: Result<(), String>)
        requires
            rec.wf(),
        ensures
            final(self).log() == old(self).log().push(upsert_entry(table@, rec@)),
    {
        let sql = build_upsert(table, rec);
        let params = record_params(rec);
        proof {
            assert(params@.map_values(|p: SqlParam| p@) =~= params_model(rec@));
        }
        match exec_logged(self, sql.as_str(), &params) {
            Err(e) => Err(e),
            Ok(_) => Ok(()),
        }
    }

    /// Writes many records inside one transaction, in input order, each as
    /// `put` writes one. All or nothing: the first failing write rolls the
    /// whole transaction back and nothing becomes visible. An empty input
    /// succeeds at once and hands the engine nothing. On success the engine
    /// received exactly BEGIN, one upsert per record in input order, and
    /// COMMIT; on failure the last statement handed over was ROLLBACK,
    /// unless BEGIN itself was refused.
    pub fn bulk_put(&mut self, table: &str, recs: &Vec<Record>) -> (r: Result<(), String>)
        requires
            forall|i: int| 0 <= i < recs@.len() ==> (#[trigger] recs@[i]).wf(),
        ensures
            extends(final(self).log(), old(self).log()),
            recs@.len() == 0 ==> r is Ok && final(self).log() == old(self).log(),
            recs@.len() > 0 && r is Ok ==> final(self).log() == old(self).log() + seq![
                begin_entry(),
            ] + upsert_entries(table@, recs@.map_values(|x: Record| x@)) + seq![commit_entry()],
            r is Err ==> final(self).log() == old(self).log().push(begin_entry())
                || final(self).log().last() == rollback_entry(),
    {
        let ghost pre = self.log();
        let ghost entries = upsert_entries(table@, recs@.map_values(|x: Record| x@));
        if recs.len() == 0 {
            proof {
                assert(pre.take(pre.len() as int) =~= pre);
            }
            return Ok(());
        }
        let none: Vec<SqlParam> = Vec::new();
        proof {
            assert(none@.map_values(|p: SqlParam| p@) =~= no_params());
        }
        match exec_logged(self, "BEGIN", &none) {
            Err(e) => {
                proof {
                    assert(self.log().take(pre.len() as int) =~= pre);
                }
                return Err(e);
            },
            Ok(_) => {},
        }
        let n = recs.len();
        let mut i: usize = 0;
        proof {
            assert(self.log() =~= pre + seq![begin_entry()] + entries.take(0));
        }
        while i < n
            invariant
                n == recs@.len(),
                0 <= i <= n,
                pre == old(self).log(),
                entries == upsert_entries(table@, recs@.map_values(|x: Record| x@)),
                entries.len() == n,
                self.log() == pre + seq![begin_entry()] + entries.take(i as int),
                none@.map_values(|p: SqlParam| p@) == no_params(),
            decreases n - i,
        {
            let sql = build_upsert(table, &recs[i]);
            let params = record_params(&recs[i]);
            proof {
                assert(recs@.map_values(|x: Record| x@)[i as int] == recs@[i as int]@);
                assert(params@.map_values(|p: SqlParam| p@) =~= params_model(recs@[i as int]@));
                assert(entries[i as int] == upsert_entry(table@, recs@[i as int]@));
            }
            match exec_logged(self, sql.as_str(), &params) {
                Err(e) => {
                    let _ = exec_logged(self, "ROLLBACK", &none);
                    proof {
                        assert(self.log().last() == rollback_entry());
                        assert(self.log().take(pre.len() as int) =~= pre);
                    }
                    return Err(e);
                },
                Ok(_) => {},
            }
            proof {
                assert(self.log() =~= pre + seq![begin_entry()] + entries.take(i as int + 1));
            }
            i += 1;
        }
        proof {
            assert(entries.take(n as int) =~= entries);
        }
        match exec_logged(self, "COMMIT", &none) {
            Err(e) => {
                let _ = exec_logged(self, "ROLLBACK", &none);
                proof {
                    assert(self.log().last() == rollback_entry());
                    assert(self.log().take(pre.len() as int) =~= pre);
                }
                Err(e)
            },
            Ok(_) => {
                proof {
                    assert(self.log() =~= pre + seq![begin_entry()] + entries + seq![
                        commit_entry(),
                    ]);
                    assert(self.log().take(pre.len() as int) =~= pre);
                }
                Ok(())
            },
        }
    }

    /// Deletes at most one row, by primary key. Whatever the outcome,
    /// exactly one statement goes to the engine: the text of
    /// `delete_model`, with the key as its one bound parameter. What the
    /// engine does is what `delete_row` states: a key no row holds deletes
    /// nothing and is no error.
    pub fn delete(&mut self, table: &str, id: &str) -> (r: Result<(), String>)
        ensures
            final(self).log() == old(self).log().push(
                (delete_model(table@), seq![ParamModel::Text(id@)]),
            ),
    {
        let sql = build_delete(table);
        let mut params: Vec<SqlParam> = Vec::new();
        params.push(SqlParam::Text(String::from_str(id)));
        proof {
            assert(params@.map_values(|p: SqlParam| p@) =~= seq![ParamModel::Text(id@)]);
        }
        match exec_logged(self, sql.as_str(), &params) {
            Err(e) => Err(e),
            Ok(_) => Ok(()),
        }
    }

    /// Empties the four fixed tables inside one transaction. All or
    /// nothing: a partial clear is never visible. On success the engine
    /// received exactly BEGIN, the four statements of `clear_statements` in
    /// order, and COMMIT; on failure the last statement handed over was
    /// ROLLBACK, unless BEGIN itself was refused.
    pub fn clear_all(&mut self) -> (r: Result<(), String>)
        ensures
            extends(final(self).log(), old(self).log()),
            r is Ok ==> final(self).log() == old(self).log() + seq![begin_entry()]
                + clear_statements() + seq![commit_entry()],
            r is Err ==> final(self).log() == old(self).log().push(begin_entry())
                || final(self).log().last() == rollback_entry(),
    {
        let ghost pre = self.log();
        let none: Vec<SqlParam> = Vec::new();
        proof {
            assert(none@.map_values(|p: SqlParam| p@) =~= no_params());
        }
        match exec_logged(self, "BEGIN", &none) {
            Err(e) => {
                proof {
                    assert(self.log().take(pre.len() as int) =~= pre);
                }
                return Err(e);
            },
            Ok(_) => {},
        }
        let tables = fixed_tables();
        let n = tables.len();
        let mut i: usize = 0;
        proof {
            assert(self.log() =~= pre + seq![begin_entry()] + clear_statements().take(0));
        }
        while i < n
            invariant
                n == 4,
                tables@.len() == 4,
                tables@[0]@ == "clients"@,
                tables@[1]@ == "customers"@,
                tables@[2]@ == "tickets"@,
                tables@[3]@ == "worklogs"@,
                0 <= i <= n,
                pre == old(self).log(),
                self.log() == pre + seq![begin_entry()] + clear_statements().take(i as int),
                none@.map_values(|p: SqlParam| p@) == no_params(),
            decreases n - i,
        {
            let sql = build_clear(tables[i].as_str());
            proof {
                assert(clear_statements()[i as int] == (clear_model(tables@[i as int]@), no_params()));
            }
            match exec_logged(self, sql.as_str(), &none) {
                Err(e) => {
                    let _ = exec_logged(self, "ROLLBACK", &none);
                    proof {
                        assert(self.log().last() == rollback_entry());
                        assert(self.log().take(pre.len() as int) =~= pre);
                    }
                    return Err(e);
                },
                Ok(_) => {},
            }
            proof {
                assert(self.log() =~= pre + seq![begin_entry()] + clear_statements().take(
                    i as int + 1,
                ));
            }
            i += 1;
        }
        proof {
            assert(clear_statements().take(4) =~= clear_statements());
        }
        match exec_logged(self, "COMMIT", &none) {
            Err(e) => {
                let _ = exec_logged(self, "ROLLBACK", &none);
                proof {
                    assert(self.log().last() == rollback_entry());
                    assert(self.log().take(pre.len() as int) =~= pre);
                }
                Err(e)
            },
            Ok(_) => {
                proof {
                    assert(self.log() =~= pre + seq![begin_entry()] + clear_statements() + seq![
                        commit_entry(),
                    ]);
                    assert(self.log().take(pre.len() as int) =~= pre);
                }
                Ok(())
            },
        }
    }
}

} // verus!
