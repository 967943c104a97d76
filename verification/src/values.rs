//! The dialect-neutral value and result-set model.
//!
//! A [`Value`] is one SQL-bindable scalar or null; a [`ResultSet`] is an
//! ordered list of column names plus rows of values aligned to those names.

use vstd::prelude::*;
use crate::strutil::str_eq;

verus! {

/// One SQL-bindable scalar value, or null.
#[derive(Debug, Clone, PartialEq)]
pub enum Value {
    /// An absent value of any type.
    Null,
    /// A 32-bit signed integer.
    Int32(i32),
    /// A 64-bit signed integer.
    Int64(i64),
    /// A string value.
    Text(String),
    /// A boolean value.
    Boolean(bool),
    /// A byte-array value.
    Bytes(Vec<u8>),
    /// A point in time, as milliseconds since the Unix epoch.
    DateTime(i64),
}

/// Structural equality of two values, with strings and byte arrays compared
/// by their contents.
pub open spec fn value_eq_spec(a: Value, b: Value) -> bool {
    match (a, b) {
        (Value::Null, Value::Null) => true,
        (Value::Int32(x), Value::Int32(y)) => x == y,
        (Value::Int64(x), Value::Int64(y)) => x == y,
        (Value::Text(x), Value::Text(y)) => x@ == y@,
        (Value::Boolean(x), Value::Boolean(y)) => x == y,
        (Value::Bytes(x), Value::Bytes(y)) => x@ == y@,
        (Value::DateTime(x), Value::DateTime(y)) => x == y,
        _ => false,
    }
}

/// Equality of two byte vectors by contents.
fn bytes_eq(a: &Vec<u8>, b: &Vec<u8>) -> (r: bool)
    ensures
        r == (a@ == b@),
{
    if a.len() != b.len() {
        assert(a@ != b@);
        return false;
    }
    let n = a.len();
    let mut i: usize = 0;
    while i < n
        invariant
            n == a@.len() == b@.len(),
            i <= n,
            forall|j: int| 0 <= j < i ==> a@[j] == b@[j],
        decreases n - i,
    {
        if a[i] != b[i] {
            return false;
        }
        i += 1;
    }
    assert(a@ =~= b@);
    true
}

impl Value {
    /// A copy of the value, equal by contents.
    pub fn copy_value(&self) -> (r: Value)
        ensures
            value_eq_spec(r, *self),
    {
        match self {
            Value::Null => Value::Null,
            Value::Int32(x) => Value::Int32(*x),
            Value::Int64(x) => Value::Int64(*x),
            Value::Text(s) => Value::Text(s.clone()),
            Value::Boolean(b) => Value::Boolean(*b),
            Value::Bytes(b) => {
                let mut out: Vec<u8> = Vec::new();
                let n = b.len();
                let mut i: usize = 0;
                while i < n
                    invariant
                        i <= n,
                        n == b@.len(),
                        out@ =~= b@.subrange(0, i as int),
                    decreases n - i,
                {
                    out.push(b[i]);
                    i += 1;
                }
                proof {
                    assert(out@ =~= b@);
                }
                Value::Bytes(out)
            }
            Value::DateTime(t) => Value::DateTime(*t),
        }
    }

    /// Decides [`value_eq_spec`] on two values.
    pub fn eq_value(&self, other: &Value) -> (r: bool)
        ensures
            r == value_eq_spec(*self, *other),
    {
        match (self, other) {
            (Value::Null, Value::Null) => true,
            (Value::Int32(x), Value::Int32(y)) => x == y,
            (Value::Int64(x), Value::Int64(y)) => x == y,
            (Value::Text(x), Value::Text(y)) => str_eq(x.as_str(), y.as_str()),
            (Value::Boolean(x), Value::Boolean(y)) => x == y,
            (Value::Bytes(x), Value::Bytes(y)) => bytes_eq(x, y),
            (Value::DateTime(x), Value::DateTime(y)) => x == y,
            _ => false,
        }
    }

    /// True if the value is null.
    pub fn is_null(&self) -> (r: bool)
        ensures
            r == (*self matches Value::Null),
    {
        match self {
            Value::Null => true,
            _ => false,
        }
    }

    /// The text carried by the value, if it is a non-null string.
    pub fn to_text(&self) -> (r: Option<String>)
        ensures
            match r {
                Some(s) => *self matches Value::Text(t) && s@ == t@,
                None => !(*self matches Value::Text(_)),
            },
    {
        match self {
            Value::Text(s) => Some(s.clone()),
            _ => None,
        }
    }
}

/// An ordered sequence of column names plus rows of values aligned to them.
#[derive(Debug, Clone)]
pub struct ResultSet {
    /// The column names, in selection order.
    pub columns: Vec<String>,
    /// The rows; each row holds one value per column.
    pub rows: Vec<Vec<Value>>,
}

impl ResultSet {
    /// Every row is exactly as wide as the column list.
    pub open spec fn wf(&self) -> bool {
        forall|i: int| 0 <= i < self.rows@.len() ==> #[trigger] self.rows@[i]@.len() == self.columns@.len()
    }

    /// Builds a result set from column names and rows.
    pub fn new(columns: Vec<String>, rows: Vec<Vec<Value>>) -> (r: ResultSet)
        ensures
            r.columns == columns,
            r.rows == rows,
    {
        ResultSet { columns, rows }
    }

    /// An empty result set with no columns and no rows.
    pub fn empty() -> (r: ResultSet)
        ensures
            r.columns@.len() == 0,
            r.rows@.len() == 0,
            r.wf(),
    {
        ResultSet { columns: Vec::new(), rows: Vec::new() }
    }

    /// The number of rows.
    pub fn len(&self) -> (r: usize)
        ensures
            r == self.rows@.len(),
    {
        self.rows.len()
    }

    /// The row at `i`, if there is one.
    pub fn get(&self, i: usize) -> (r: Option<&Vec<Value>>)
        ensures
            match r {
                Some(row) => i < self.rows@.len() && *row == self.rows@[i as int],
                None => i >= self.rows@.len(),
            },
    {
        if i < self.rows.len() {
            Some(&self.rows[i])
        } else {
            None
        }
    }
}

/// The index of the first column named `name`, if any.
pub fn find_column(columns: &Vec<String>, name: &str) -> (r: Option<usize>)
    ensures
        match r {
            Some(i) => i < columns@.len() && columns@[i as int]@ == name@
                && forall|j: int| 0 <= j < i ==> columns@[j]@ != name@,
            None => forall|j: int| 0 <= j < columns@.len() ==> columns@[j]@ != name@,
        },
{
    let n = columns.len();
    let mut i: usize = 0;
    while i < n
        invariant
            n == columns@.len(),
            i <= n,
            forall|j: int| 0 <= j < i ==> columns@[j]@ != name@,
        decreases n - i,
    {
        if str_eq(columns[i].as_str(), name) {
            return Some(i);
        }
        i += 1;
    }
    None
}

} // verus!
