use vstd::prelude::*;
use vstd::string::StringExecFns;

use crate::value::{
    decode_model, decode_value, encode_model, encode_value, narrowed, DbValue, ParamModel,
    SqlParam, ValueModel,
};

verus! {

/// A schemaless record: an ordered mapping from field name to a dynamically
/// typed scalar value. The field names double as the column names of the
/// statement that writes the record.
#[derive(Debug, Clone)]
pub struct Record {
    pub fields: Vec<(String, DbValue)>,
}

impl View for Record {
    type V = Seq<(Seq<char>, ValueModel)>;

    open spec fn view(&self) -> Seq<(Seq<char>, ValueModel)> {
        self.fields@.map_values(|f: (String, DbValue)| (f.0@, f.1@))
    }
}

impl Record {
    /// No field name occurs twice; what an ordered mapping promises.
    pub open spec fn wf(&self) -> bool {
        forall|i: int, j: int|
            0 <= i < j < self@.len() ==> (#[trigger] self@[i]).0 != (#[trigger] self@[j]).0
    }

    /// The number of fields.
    pub fn len(&self) -> (r: usize)
        ensures
            r == self@.len(),
    {
        self.fields.len()
    }

    /// The value of the first field with the given name, if any.
    pub fn field(&self, name: &str) -> (r: Option<&DbValue>)
        ensures
            match r {
                Some(v) => exists|i: int|
                    0 <= i < self@.len() && #[trigger] self@[i] == (name@, v@) && (forall|j: int|
                        0 <= j < i ==> (#[trigger] self@[j]).0 != name@),
                None => forall|i: int| 0 <= i < self@.len() ==> (#[trigger] self@[i]).0 != name@,
            },
    {
        let name_owned = String::from_str(name);
        let n = self.fields.len();
        let mut i: usize = 0;
        while i < n
            invariant
                n == self.fields@.len(),
                name_owned@ == name@,
                0 <= i <= n,
                forall|j: int| 0 <= j < i ==> (#[trigger] self@[j]).0 != name@,
            decreases n - i,
        {
            if self.fields[i].0 == name_owned {
                proof {
                    assert(self@[i as int] == (self.fields@[i as int].0@, self.fields@[i as int].1@));
                }
                return Some(&self.fields[i].1);
            }
            proof {
                assert(self@[i as int] == (self.fields@[i as int].0@, self.fields@[i as int].1@));
            }
            i += 1;
        }
        None
    }
}

/// The column list a record writes: its field names, in the record's own
/// order.
pub open spec fn columns_model(r: Seq<(Seq<char>, ValueModel)>) -> Seq<Seq<char>> {
    r.map_values(|f: (Seq<char>, ValueModel)| f.0)
}

/// The parameter list a record binds: each field value encoded, in the
/// record's own order.
pub open spec fn params_model(r: Seq<(Seq<char>, ValueModel)>) -> Seq<ParamModel> {
    r.map_values(|f: (Seq<char>, ValueModel)| encode_model(f.1))
}

/// The field names of a record, in order: the columns its upsert statement
/// names.
pub fn record_columns(rec: &Record) -> (r: Vec<String>)
    ensures
        r@.len() == rec@.len(),
        forall|i: int| 0 <= i < r@.len() ==> (#[trigger] r@[i])@ == columns_model(rec@)[i],
{
    let n = rec.fields.len();
    let mut out: Vec<String> = Vec::new();
    let mut i: usize = 0;
    while i < n
        invariant
            n == rec.fields@.len(),
            0 <= i <= n,
            out@.len() == i,
            forall|j: int| 0 <= j < i ==> (#[trigger] out@[j])@ == columns_model(rec@)[j],
        decreases n - i,
    {
        out.push(rec.fields[i].0.clone());
        i += 1;
    }
    out
}

/// The encoded field values of a record, in order: the parameters its
/// upsert statement binds.
pub fn record_params(rec: &Record) -> (r: Vec<SqlParam>)
    ensures
        r@.len() == rec@.len(),
        forall|i: int| 0 <= i < r@.len() ==> (#[trigger] r@[i])@ == params_model(rec@)[i],
{
    let n = rec.fields.len();
    let mut out: Vec<SqlParam> = Vec::new();
    let mut i: usize = 0;
    while i < n
        invariant
            n == rec.fields@.len(),
            0 <= i <= n,
            out@.len() == i,
            forall|j: int| 0 <= j < i ==> (#[trigger] out@[j])@ == params_model(rec@)[j],
        decreases n - i,
    {
        out.push(encode_value(&rec.fields[i].1));
        i += 1;
    }
    out
}

/// One decoded result row, as a model: the column names paired with the
/// decoded column values.
pub open spec fn decoded_row_model(names: Seq<Seq<char>>, row: Seq<ParamModel>) -> Seq<
    (Seq<char>, ValueModel),
> {
    names.zip_with(row).map_values(|f: (Seq<char>, ParamModel)| (f.0, decode_model(f.1)))
}

/// Decodes one result row into a record: the column names become the field
/// names, each column value decodes to a field value.
pub fn decode_row(names: &Vec<String>, row: &Vec<SqlParam>) -> (r: Record)
    requires
        names@.len() == row@.len(),
    ensures
        r@ == decoded_row_model(names@.map_values(|s: String| s@), row@.map_values(|p: SqlParam| p@)),
{
    let n = names.len();
    let mut fields: Vec<(String, DbValue)> = Vec::new();
    let mut i: usize = 0;
    while i < n
        invariant
            n == names@.len() == row@.len(),
            0 <= i <= n,
            fields@.len() == i,
            forall|j: int|
                0 <= j < i ==> #[trigger] fields@[j].0@ == names@[j]@ && fields@[j].1@
                    == decode_model(row@[j]@),
        decreases n - i,
    {
        fields.push((names[i].clone(), decode_value(&row[i])));
        i += 1;
    }
    let r = Record { fields };
    proof {
        assert(r@ =~= decoded_row_model(
            names@.map_values(|s: String| s@),
            row@.map_values(|p: SqlParam| p@),
        ));
    }
    r
}

/// Round trip at the record level: if the engine hands back exactly the row
/// a record was bound as — the column names the upsert statement named and
/// the parameters it bound — then decoding yields the record again, field
/// for field, except that each boolean comes back as the integer it was
/// stored as and each nested structure as its serialization text.
pub proof fn lemma_record_round_trip(rec: Seq<(Seq<char>, ValueModel)>)
    ensures
        decoded_row_model(columns_model(rec), params_model(rec)) == rec.map_values(
            |f: (Seq<char>, ValueModel)| (f.0, narrowed(f.1)),
        ),
{
    let lhs = decoded_row_model(columns_model(rec), params_model(rec));
    let rhs = rec.map_values(|f: (Seq<char>, ValueModel)| (f.0, narrowed(f.1)));
    assert forall|i: int| 0 <= i < rec.len() implies lhs[i] == rhs[i] by {
        crate::value::lemma_value_round_trip(rec[i].1);
    }
    assert(lhs =~= rhs);
}

impl Record {
    /// Whether two records are the same, decided at run time and meaning
    /// exactly equality of the models: the same field names with the same
    /// values, in the same order.
    pub fn same(&self, other: &Record) -> (r: bool)
        ensures
            r == (self@ == other@),
    {
        if self.fields.len() != other.fields.len() {
            proof {
                assert(self@.len() == self.fields@.len());
                assert(other@.len() == other.fields@.len());
            }
            return false;
        }
        let n = self.fields.len();
        let mut i: usize = 0;
        while i < n
            invariant
                n == self.fields@.len() == other.fields@.len(),
                0 <= i <= n,
                forall|j: int| 0 <= j < i ==> #[trigger] self@[j] == other@[j],
            decreases n - i,
        {
            proof {
                assert(self@[i as int] == (self.fields@[i as int].0@, self.fields@[i as int].1@));
                assert(other@[i as int] == (other.fields@[i as int].0@, other.fields@[i as int].1@));
            }
            if !(self.fields[i].0 == other.fields[i].0) {
                return false;
            }
            if !self.fields[i].1.same(&other.fields[i].1) {
                return false;
            }
            i += 1;
        }
        proof {
            assert(self@ =~= other@);
        }
        true
    }
}

} // verus!
