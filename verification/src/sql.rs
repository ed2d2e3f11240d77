//! Statement builders. Table and column names are interpolated into the
//! statement text as raw identifiers, because the engine's parameter
//! binding covers values only: this is a deliberate, documented trust
//! boundary, safe only while table and column names never derive from
//! untrusted input. Every contract below states the exact text built, so
//! what crosses that boundary is pinned down.

use vstd::prelude::*;
use vstd::string::StringExecFns;

use crate::record::{columns_model, Record};

verus! {

/// A comma-joined identifier list, as statement text: `a, b, c`.
pub open spec fn joined(items: Seq<Seq<char>>) -> Seq<char>
    decreases items.len(),
{
    if items.len() == 0 {
        Seq::empty()
    } else if items.len() == 1 {
        items[0]
    } else {
        joined(items.drop_last()) + ", "@ + items.last()
    }
}

/// A comma-joined placeholder list, as statement text: `?, ?, ?`.
pub open spec fn placeholders(n: nat) -> Seq<char>
    decreases n,
{
    if n == 0 {
        Seq::empty()
    } else if n == 1 {
        "?"@
    } else {
        placeholders((n - 1) as nat) + ", ?"@
    }
}

/// The text of the whole-table read: no filter, no order, every row.
pub open spec fn select_all_model(table: Seq<char>) -> Seq<char> {
    "SELECT * FROM "@ + table
}

/// The text of the insert-or-replace statement that writes a record with
/// the given column list: one placeholder per column, in the same order.
pub open spec fn upsert_model(table: Seq<char>, cols: Seq<Seq<char>>) -> Seq<char> {
    "INSERT OR REPLACE INTO "@ + table + " ("@ + joined(cols) + ") VALUES ("@ + placeholders(
        cols.len(),
    ) + ")"@
}

/// The text of the delete-by-primary-key statement: one bound parameter,
/// the key.
pub open spec fn delete_model(table: Seq<char>) -> Seq<char> {
    "DELETE FROM "@ + table + " WHERE id = ?"@
}

/// The text of the delete-all statement that empties one table.
pub open spec fn clear_model(table: Seq<char>) -> Seq<char> {
    "DELETE FROM "@ + table
}

/// Builds the whole-table read for the given table.
pub fn build_select_all(table: &str) -> (r: String)
    ensures
        r@ == select_all_model(table@),
{
    let mut s = String::from_str("SELECT * FROM ");
    s.append(table);
    s
}

/// Builds the delete-by-primary-key statement for the given table.
pub fn build_delete(table: &str) -> (r: String)
    ensures
        r@ == delete_model(table@),
{
    let mut s = String::from_str("DELETE FROM ");
    s.append(table);
    s.append(" WHERE id = ?");
    s
}

/// Builds the delete-all statement for the given table.
pub fn build_clear(table: &str) -> (r: String)
    ensures
        r@ == clear_model(table@),
{
    let mut s = String::from_str("DELETE FROM ");
    s.append(table);
    s
}

/// Joining one more identifier appends a separator and the identifier,
/// unless it is the first.
proof fn lemma_joined_step(items: Seq<Seq<char>>, i: int)
    requires
        0 <= i < items.len(),
    ensures
        joined(items.take(i + 1)) == if i == 0 {
            items[0]
        } else {
            joined(items.take(i)) + ", "@ + items[i]
        },
{
    let t = items.take(i + 1);
    assert(t.drop_last() =~= items.take(i));
    assert(t.last() == items[i]);
    if i == 0 {
        assert(joined(t) == t[0]);
    }
}

/// One more placeholder appends `, ?`, unless it is the first.
proof fn lemma_placeholders_step(i: int)
    requires
        0 <= i,
    ensures
        placeholders((i + 1) as nat) == if i == 0 {
            "?"@
        } else {
            placeholders(i as nat) + ", ?"@
        },
{
}

/// Builds the insert-or-replace statement that writes the given record into
/// the given table: the record's field names as the column list, one
/// placeholder per field, in the record's own order.
pub fn build_upsert(table: &str, rec: &Record) -> (r: String)
    ensures
        r@ == upsert_model(table@, columns_model(rec@)),
{
    let ghost cols = columns_model(rec@);
    let mut s = String::from_str("INSERT OR REPLACE INTO ");
    s.append(table);
    s.append(" (");
    let ghost head = "INSERT OR REPLACE INTO "@ + table@ + " ("@;
    proof {
        assert(s@ =~= head + joined(cols.take(0)));
    }
    let n = rec.fields.len();
    let mut i: usize = 0;
    while i < n
        invariant
            n == rec.fields@.len(),
            cols == columns_model(rec@),
            cols.len() == n,
            0 <= i <= n,
            s@ == head + joined(cols.take(i as int)),
        decreases n - i,
    {
        proof {
            assert(cols[i as int] == rec@[i as int].0);
            assert(rec@[i as int] == (rec.fields@[i as int].0@, rec.fields@[i as int].1@));
            lemma_joined_step(cols, i as int);
        }
        if i > 0 {
            s.append(", ");
        }
        s.append(rec.fields[i].0.as_str());
        proof {
            assert(s@ =~= head + joined(cols.take(i as int + 1)));
        }
        i += 1;
    }
    proof {
        assert(cols.take(n as int) =~= cols);
    }
    s.append(") VALUES (");
    let ghost mid = head + joined(cols) + ") VALUES ("@;
    proof {
        assert(s@ =~= mid + placeholders(0));
    }
    let mut i: usize = 0;
    while i < n
        invariant
            0 <= i <= n,
            s@ == mid + placeholders(i as nat),
        decreases n - i,
    {
        proof {
            lemma_placeholders_step(i as int);
        }
        if i > 0 {
            s.append(", ?");
        } else {
            s.append("?");
        }
        proof {
            assert(s@ =~= mid + placeholders((i + 1) as nat));
        }
        i += 1;
    }
    s.append(")");
    proof {
        assert(s@ =~= upsert_model(table@, cols));
    }
    s
}

/// The fixed table list: every record table this store serves, in the order
/// the clear operation empties them.
pub fn fixed_tables() -> (r: Vec<String>)
    ensures
        r@.len() == 4,
        r@[0]@ == "clients"@,
        r@[1]@ == "customers"@,
        r@[2]@ == "tickets"@,
        r@[3]@ == "worklogs"@,
{
    let mut v: Vec<String> = Vec::new();
    v.push(String::from_str("clients"));
    v.push(String::from_str("customers"));
    v.push(String::from_str("tickets"));
    v.push(String::from_str("worklogs"));
    v
}

} // verus!
