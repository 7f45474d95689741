//! The SQL boundary: parameterized statements and result cells.
//!
//! A repository translates a typed lookup into a `SqlQuery` — a
//! statement text with `?` placeholders and the parameter values to
//! bind — and interprets what comes back as rows of `SqlValue` cells.
//! The engine itself runs outside the core; these types are the exact
//! vocabulary exchanged with it.

use vstd::prelude::*;

use crate::approx::ApproxValue;
use crate::money::Money;

verus! {

/// One cell of a result row, as handed back by the engine.
#[derive(Clone, Debug, PartialEq)]
pub enum SqlValue {
    /// SQL NULL.
    Null,
    /// A 64-bit integer column.
    Int(i64),
    /// An exact decimal column (currency).
    Num(Money),
    /// A double-precision column, carried opaquely.
    Approx(ApproxValue),
    /// A text column.
    Text(String),
}

/// A parameterized statement: text with `?` placeholders, and the
/// values to bind to them, in order.
#[derive(Clone, Debug)]
pub struct SqlQuery {
    pub text: String,
    pub params: Vec<String>,
}

/// Does the cell hold a nullable double column correctly: NULL or a
/// double?
pub open spec fn is_opt_approx(c: SqlValue) -> bool {
    c is Null || c is Approx
}

/// The optional double a nullable cell denotes.
pub open spec fn opt_approx_of(c: SqlValue) -> Option<ApproxValue> {
    match c {
        SqlValue::Approx(a) => Some(a),
        _ => None,
    }
}

/// Does the cell hold a nullable integer column correctly: NULL or an
/// integer?
pub open spec fn is_opt_int(c: SqlValue) -> bool {
    c is Null || c is Int
}

/// The optional integer a nullable cell denotes.
pub open spec fn opt_int_of(c: SqlValue) -> Option<i64> {
    match c {
        SqlValue::Int(i) => Some(i),
        _ => None,
    }
}

/// The characters of a text cell (meaningful only when the cell is
/// `Text`).
pub open spec fn text_of(c: SqlValue) -> Seq<char> {
    match c {
        SqlValue::Text(s) => s@,
        _ => Seq::empty(),
    }
}

/// The exact decimal of a currency cell (meaningful only when the cell
/// is `Num`).
pub open spec fn num_of(c: SqlValue) -> Money {
    match c {
        SqlValue::Num(m) => m,
        _ => Money { negative: false, mantissa: 0, scale: 0 },
    }
}

/// The double of a non-nullable double cell (meaningful only when the
/// cell is `Approx`).
pub open spec fn approx_of(c: SqlValue) -> ApproxValue {
    match c {
        SqlValue::Approx(a) => a,
        _ => ApproxValue { bits: 0 },
    }
}

/// The integer of a non-nullable integer cell (meaningful only when
/// the cell is `Int`).
pub open spec fn int_of(c: SqlValue) -> i64 {
    match c {
        SqlValue::Int(i) => i,
        _ => 0,
    }
}

/// The views of a sequence of rows.
pub open spec fn rows_view(rows: Seq<Vec<SqlValue>>) -> Seq<Seq<SqlValue>> {
    rows.map_values(|r: Vec<SqlValue>| r@)
}

/// Reads a required text cell; `None` on NULL or a differently typed
/// column.
pub fn read_text(c: &SqlValue) -> (r: Option<String>)
    ensures
        r is Some <==> *c is Text,
        r matches Some(s) ==> s@ == text_of(*c),
{
    match c {
        SqlValue::Text(s) => Some(s.clone()),
        _ => None,
    }
}

/// Reads a required exact-decimal cell; `None` on NULL or a
/// differently typed column.
pub fn read_num(c: &SqlValue) -> (r: Option<Money>)
    ensures
        r is Some <==> *c is Num,
        r matches Some(m) ==> m == num_of(*c),
{
    match c {
        SqlValue::Num(m) => Some(*m),
        _ => None,
    }
}

/// Reads a required double cell; `None` on NULL or a differently typed
/// column.
pub fn read_approx(c: &SqlValue) -> (r: Option<ApproxValue>)
    ensures
        r is Some <==> *c is Approx,
        r matches Some(a) ==> a == approx_of(*c),
{
    match c {
        SqlValue::Approx(a) => Some(*a),
        _ => None,
    }
}

/// Reads a nullable double cell; the outer `None` marks a differently
/// typed column, the inner option the NULL.
pub fn read_opt_approx(c: &SqlValue) -> (r: Option<Option<ApproxValue>>)
    ensures
        r is Some <==> is_opt_approx(*c),
        r matches Some(v) ==> v == opt_approx_of(*c),
{
    match c {
        SqlValue::Null => Some(None),
        SqlValue::Approx(a) => Some(Some(*a)),
        _ => None,
    }
}

/// Reads a nullable integer cell; the outer `None` marks a differently
/// typed column, the inner option the NULL.
pub fn read_opt_int(c: &SqlValue) -> (r: Option<Option<i64>>)
    ensures
        r is Some <==> is_opt_int(*c),
        r matches Some(v) ==> v == opt_int_of(*c),
{
    match c {
        SqlValue::Null => Some(None),
        SqlValue::Int(i) => Some(Some(*i)),
        _ => None,
    }
}

} // verus!
