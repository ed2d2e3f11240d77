use vstd::prelude::*;

use crate::record::{columns_model, params_model};
use crate::value::{decode_model, encode_model, lemma_value_round_trip, narrowed, ParamModel,
    ValueModel};

verus! {

/// A stored row, as the engine holds it after a write: column names paired
/// with the values that were bound for them.
pub type RowModel = Seq<(Seq<char>, ParamModel)>;

/// The value a row holds in the given column: the first binding of the
/// name, or the engine's NULL where the row has no such column.
pub open spec fn column_value(row: RowModel, name: Seq<char>) -> ParamModel
    decreases row.len(),
{
    if row.len() == 0 {
        ParamModel::Null
    } else if row[0].0 == name {
        row[0].1
    } else {
        column_value(row.drop_first(), name)
    }
}

/// The primary key of a row: the value of its `id` column. Every table this
/// store serves has exactly one primary-key column, named `id`.
pub open spec fn row_key(row: RowModel) -> ParamModel {
    column_value(row, "id"@)
}

/// The first row with the given primary key, or -1 where the table holds
/// none.
pub open spec fn find_by_key(t: Seq<RowModel>, key: ParamModel) -> int
    decreases t.len(),
{
    if t.len() == 0 {
        -1
    } else if row_key(t[0]) == key {
        0
    } else {
        let k = find_by_key(t.drop_first(), key);
        if k < 0 {
            -1
        } else {
            k + 1
        }
    }
}

/// What the insert-or-replace statement does to a table: the first row with
/// the new row's primary key is replaced whole — columns absent from the
/// new row do not survive from the old one — and where no row has the key,
/// the new row is appended.
pub open spec fn upsert_row(t: Seq<RowModel>, row: RowModel) -> Seq<RowModel> {
    let k = find_by_key(t, row_key(row));
    if k < 0 {
        t.push(row)
    } else {
        t.update(k, row)
    }
}

/// What the delete-by-primary-key statement does to a table: the first row
/// with the key leaves; a key no row holds changes nothing and is no error.
pub open spec fn delete_row(t: Seq<RowModel>, key: ParamModel) -> Seq<RowModel> {
    let k = find_by_key(t, key);
    if k < 0 {
        t
    } else {
        t.remove(k)
    }
}

/// The row one upsert statement writes for a record: the record's column
/// names paired with the parameters bound for them, in the record's own
/// order.
pub open spec fn bound_row_model(rec: Seq<(Seq<char>, ValueModel)>) -> RowModel {
    columns_model(rec).zip_with(params_model(rec))
}

/// What a stored row reads back as: its column names kept, each bound
/// value decoded.
pub open spec fn decode_stored_row(row: RowModel) -> Seq<(Seq<char>, ValueModel)> {
    row.map_values(|f: (Seq<char>, ParamModel)| (f.0, decode_model(f.1)))
}

/// Round trip through the table: writing a record into any table state
/// leaves its bound row in the table, and that row reads back as the
/// record itself, field for field, except that each boolean comes back as
/// the integer it was stored as and each nested structure as its
/// serialization text.
pub proof fn lemma_put_round_trip(t: Seq<RowModel>, rec: Seq<(Seq<char>, ValueModel)>)
    ensures
        exists|i: int|
            0 <= i < upsert_row(t, bound_row_model(rec)).len() && #[trigger] upsert_row(
                t,
                bound_row_model(rec),
            )[i] == bound_row_model(rec),
        decode_stored_row(bound_row_model(rec)) == rec.map_values(
            |f: (Seq<char>, ValueModel)| (f.0, narrowed(f.1)),
        ),
{
    let row = bound_row_model(rec);
    lemma_find_by_key(t, row_key(row));
    let k = find_by_key(t, row_key(row));
    if k < 0 {
        assert(upsert_row(t, row)[t.len() as int] == row);
    } else {
        assert(upsert_row(t, row)[k] == row);
    }
    assert(row.len() == rec.len());
    let lhs = decode_stored_row(row);
    let rhs = rec.map_values(|f: (Seq<char>, ValueModel)| (f.0, narrowed(f.1)));
    assert forall|i: int| 0 <= i < rec.len() implies lhs[i] == rhs[i] by {
        assert(row[i] == (rec[i].0, encode_model(rec[i].1)));
        lemma_value_round_trip(rec[i].1);
    }
    assert(lhs =~= rhs);
}

/// `column_value` reads exactly the first binding of a name.
proof fn lemma_column_value_first(row: RowModel, name: Seq<char>, k: int)
    requires
        0 <= k < row.len(),
        row[k].0 == name,
        forall|j: int| 0 <= j < k ==> (#[trigger] row[j]).0 != name,
    ensures
        column_value(row, name) == row[k].1,
    decreases k,
{
    if k > 0 {
        assert(row[0].0 != name);
        assert(forall|j: int| 0 <= j < row.len() - 1 ==> #[trigger] row.drop_first()[j] == row[j
            + 1]);
        lemma_column_value_first(row.drop_first(), name, k - 1);
    }
}

/// The primary key the engine sees for a record is the encoding of the
/// record's first `id` field: the key `upsert_row` replaces by.
pub proof fn lemma_bound_row_key(rec: Seq<(Seq<char>, ValueModel)>, k: int)
    requires
        0 <= k < rec.len(),
        rec[k].0 == "id"@,
        forall|j: int| 0 <= j < k ==> (#[trigger] rec[j]).0 != "id"@,
    ensures
        row_key(bound_row_model(rec)) == encode_model(rec[k].1),
{
    let row = bound_row_model(rec);
    assert(forall|j: int| 0 <= j < rec.len() ==> #[trigger] row[j] == (rec[j].0, encode_model(
        rec[j].1,
    )));
    lemma_column_value_first(row, "id"@, k);
}

/// `find_by_key` finds exactly the first row with the key: a negative
/// answer means no row has it, a non-negative answer points at a row with
/// it that no earlier row shares.
pub proof fn lemma_find_by_key(t: Seq<RowModel>, key: ParamModel)
    ensures
        find_by_key(t, key) < 0 ==> forall|i: int|
            0 <= i < t.len() ==> row_key(#[trigger] t[i]) != key,
        find_by_key(t, key) >= 0 ==> find_by_key(t, key) < t.len() && row_key(
            t[find_by_key(t, key)],
        ) == key && (forall|i: int| 0 <= i < find_by_key(t, key) ==> row_key(#[trigger] t[i]) != key),
    decreases t.len(),
{
    if t.len() > 0 {
        lemma_find_by_key(t.drop_first(), key);
        assert(forall|i: int| 1 <= i < t.len() ==> #[trigger] t[i] == t.drop_first()[i - 1]);
    }
}

/// Writing the same record twice leaves what one write leaves: the second
/// write replaces, row for row, what the first one put there.
pub proof fn lemma_upsert_idempotent(t: Seq<RowModel>, row: RowModel)
    ensures
        upsert_row(upsert_row(t, row), row) == upsert_row(t, row),
{
    let key = row_key(row);
    let k = find_by_key(t, key);
    lemma_find_by_key(t, key);
    let t1 = upsert_row(t, row);
    lemma_find_by_key(t1, key);
    let k1 = find_by_key(t1, key);
    if k < 0 {
        assert(t1 == t.push(row));
        assert(row_key(t1[t.len() as int]) == key);
        assert(forall|i: int| 0 <= i < t.len() ==> t1[i] == #[trigger] t[i]);
        assert(k1 == t.len() as int);
        assert(t1.update(k1, row) =~= t1);
    } else {
        assert(t1 == t.update(k, row));
        assert(row_key(t1[k]) == key);
        assert(forall|i: int| 0 <= i < t1.len() && i != k ==> t1[i] == #[trigger] t[i]);
        assert(k1 == k);
        assert(t1.update(k, row) =~= t1);
    }
}

/// Deleting a key that no row holds gives the table back unchanged: the
/// delete succeeds and removes nothing.
pub proof fn lemma_delete_missing(t: Seq<RowModel>, key: ParamModel)
    requires
        forall|i: int| 0 <= i < t.len() ==> row_key(#[trigger] t[i]) != key,
    ensures
        delete_row(t, key) == t,
{
    lemma_find_by_key(t, key);
}

/// A delete removes at most one row, whatever the table holds.
pub proof fn lemma_delete_at_most_one(t: Seq<RowModel>, key: ParamModel)
    ensures
        delete_row(t, key).len() + 1 >= t.len(),
{
    lemma_find_by_key(t, key);
}

} // verus!
