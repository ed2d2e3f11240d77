use vstd::prelude::*;

verus! {

/// Mathematical model of a record field value: a dynamically typed scalar.
/// A number with a fractional part is carried as its decimal text, and a
/// nested structure as its canonical text serialization, so that every
/// variant is a plain mathematical value.
pub ghost enum ValueModel {
    Null,
    Bool(bool),
    Int(int),
    Real(Seq<char>),
    Text(Seq<char>),
    Blob(Seq<u8>),
    Json(Seq<char>),
}

/// A dynamically typed scalar value, as a record field holds it.
///
/// `Real` carries the decimal text of a 64-bit floating point number and
/// `Json` carries the canonical text serialization of a nested structure:
/// both travel through this crate as text, which keeps every field a plain
/// value.
#[derive(Debug, Clone)]
pub enum DbValue {
    Null,
    Bool(bool),
    Int(i64),
    Real(String),
    Text(String),
    Blob(Vec<u8>),
    Json(String),
}

impl View for DbValue {
    type V = ValueModel;

    open spec fn view(&self) -> ValueModel {
        match self {
            DbValue::Null => ValueModel::Null,
            DbValue::Bool(b) => ValueModel::Bool(*b),
            DbValue::Int(i) => ValueModel::Int(*i as int),
            DbValue::Real(s) => ValueModel::Real(s@),
            DbValue::Text(s) => ValueModel::Text(s@),
            DbValue::Blob(b) => ValueModel::Blob(b@),
            DbValue::Json(s) => ValueModel::Json(s@),
        }
    }
}

/// Mathematical model of a bound parameter: the engine's closed set of
/// value kinds. A real is carried as its decimal text.
pub ghost enum ParamModel {
    Null,
    Int(int),
    Real(Seq<char>),
    Text(Seq<char>),
    Blob(Seq<u8>),
}

/// A value in the engine's own kinds: what a statement binds, and what a
/// result column holds.
///
/// `Real` carries the decimal text of a 64-bit floating point number, and
/// that is what the text is taken to mean wherever a `Real` is bound: the
/// binder hands the engine the float the text names. Every `Real` this
/// crate produces — from a decoded engine value, or from a number a caller
/// rendered — names one; the meaning of a text that names no number is not
/// part of any contract here.
#[derive(Debug, Clone)]
pub enum SqlParam {
    Null,
    Int(i64),
    Real(String),
    Text(String),
    Blob(Vec<u8>),
}

impl View for SqlParam {
    type V = ParamModel;

    open spec fn view(&self) -> ParamModel {
        match self {
            SqlParam::Null => ParamModel::Null,
            SqlParam::Int(i) => ParamModel::Int(*i as int),
            SqlParam::Real(s) => ParamModel::Real(s@),
            SqlParam::Text(s) => ParamModel::Text(s@),
            SqlParam::Blob(b) => ParamModel::Blob(b@),
        }
    }
}

/// What binding a field value hands to the engine: booleans become the
/// integers 1 and 0 (the engine has no boolean kind), nested structures
/// become their serialization text, every other kind maps to its own.
pub open spec fn encode_model(v: ValueModel) -> ParamModel {
    match v {
        ValueModel::Null => ParamModel::Null,
        ValueModel::Bool(b) => ParamModel::Int(if b { 1 } else { 0 }),
        ValueModel::Int(i) => ParamModel::Int(i),
        ValueModel::Real(s) => ParamModel::Real(s),
        ValueModel::Text(s) => ParamModel::Text(s),
        ValueModel::Blob(b) => ParamModel::Blob(b),
        ValueModel::Json(s) => ParamModel::Text(s),
    }
}

/// What reading a result column yields: each engine kind maps to its own
/// field kind. The mapping is total over the engine's closed kind set, so
/// decoding a column never fails.
pub open spec fn decode_model(p: ParamModel) -> ValueModel {
    match p {
        ParamModel::Null => ValueModel::Null,
        ParamModel::Int(i) => ValueModel::Int(i),
        ParamModel::Real(s) => ValueModel::Real(s),
        ParamModel::Text(s) => ValueModel::Text(s),
        ParamModel::Blob(b) => ValueModel::Blob(b),
    }
}

/// What a field value comes back as after a store and a load: booleans
/// narrow to the integers 1 and 0, nested structures to their text; every
/// other kind is kept.
pub open spec fn narrowed(v: ValueModel) -> ValueModel {
    match v {
        ValueModel::Bool(b) => ValueModel::Int(if b { 1 } else { 0 }),
        ValueModel::Json(s) => ValueModel::Text(s),
        _ => v,
    }
}

/// Encodes one field value as a bound parameter.
pub fn encode_value(v: &DbValue) -> (r: SqlParam)
    ensures
        r@ == encode_model(v@),
{
    match v {
        DbValue::Null => SqlParam::Null,
        DbValue::Bool(b) => SqlParam::Int(if *b { 1 } else { 0 }),
        DbValue::Int(i) => SqlParam::Int(*i),
        DbValue::Real(s) => SqlParam::Real(s.clone()),
        DbValue::Text(s) => SqlParam::Text(s.clone()),
        DbValue::Blob(b) => SqlParam::Blob(b.clone()),
        DbValue::Json(s) => SqlParam::Text(s.clone()),
    }
}

/// Decodes one result column into a field value.
pub fn decode_value(p: &SqlParam) -> (r: DbValue)
    ensures
        r@ == decode_model(p@),
{
    match p {
        SqlParam::Null => DbValue::Null,
        SqlParam::Int(i) => DbValue::Int(*i),
        SqlParam::Real(s) => DbValue::Real(s.clone()),
        SqlParam::Text(s) => DbValue::Text(s.clone()),
        SqlParam::Blob(b) => DbValue::Blob(b.clone()),
    }
}

/// A field value survives a store and a load unchanged, except for the two
/// documented narrowings: a boolean comes back as the integer it was bound
/// as, and a nested structure as its serialization text.
pub proof fn lemma_value_round_trip(v: ValueModel)
    ensures
        decode_model(encode_model(v)) == narrowed(v),
{
}

impl DbValue {
    /// Whether two field values are the same, decided at run time and
    /// meaning exactly equality of the models.
    pub fn same(&self, other: &DbValue) -> (r: bool)
        ensures
            r == (self@ == other@),
    {
        match self {
            DbValue::Null => match other {
                DbValue::Null => true,
                _ => false,
            },
            DbValue::Bool(a) => match other {
                DbValue::Bool(b) => *a == *b,
                _ => false,
            },
            DbValue::Int(a) => match other {
                DbValue::Int(b) => *a == *b,
                _ => false,
            },
            DbValue::Real(a) => match other {
                DbValue::Real(b) => *a == *b,
                _ => false,
            },
            DbValue::Text(a) => match other {
                DbValue::Text(b) => *a == *b,
                _ => false,
            },
            DbValue::Blob(a) => match other {
                DbValue::Blob(b) => bytes_eq(a, b),
                _ => false,
            },
            DbValue::Json(a) => match other {
                DbValue::Json(b) => *a == *b,
                _ => false,
            },
        }
    }
}

/// Whether two byte sequences are equal, element for element.
pub fn bytes_eq(a: &Vec<u8>, b: &Vec<u8>) -> (r: bool)
    ensures
        r == (a@ == b@),
{
    if a.len() != b.len() {
        return false;
    }
    let n = a.len();
    let mut i: usize = 0;
    while i < n
        invariant
            n == a.len() == b.len(),
            0 <= i <= n,
            forall|k: int| 0 <= k < i ==> a@[k] == b@[k],
        decreases n - i,
    {
        if a[i] != b[i] {
            return false;
        }
        i += 1;
    }
    proof {
        assert(a@ =~= b@);
    }
    true
}

} // verus!
