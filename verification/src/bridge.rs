use vstd::prelude::*;

use crate::json::JsonModel;
use crate::json::JsonValue;

verus! {

#[verifier::external_type_specification]
#[verifier::external_body]
pub struct ExSerdeValue(serde_json::Value);

/// The JSON tree a `serde_json::Value` holds, in this library's model:
/// object fields in their stored order, numbers as their canonical decimal
/// text.
pub uninterp spec fn serde_view(v: serde_json::Value) -> JsonModel;

/// The outcome of parsing one line: the model of the parsed document when
/// the line is JSON with an object at top level, and `None` otherwise.
pub uninterp spec fn parsed_object(line: Seq<char>) -> Option<JsonModel>;

/// The outcome of evaluating a query against a record. The query engine is
/// a pure function of the record and the query text, so the outcome carries
/// over to every call on equal arguments.
pub uninterp spec fn query_outcome(rec: JsonModel, query: Seq<char>) -> QueryModel;

/// What evaluating a query yielded: a value, one of the two no-match
/// outcomes, or a bad query with the engine's error text.
pub enum QueryOutcome {
    /// The query selected a value.
    Matched(JsonValue),
    /// The query was empty and selected nothing.
    EmptyMatch,
    /// A key the query names does not exist on its parent.
    Absent,
    /// The query itself is unusable; the record cannot be blamed.
    BadQuery(String),
}

/// Model of a query outcome.
#[verifier::ext_equal]
pub enum QueryModel {
    Matched(JsonModel),
    EmptyMatch,
    Absent,
    BadQuery(Seq<char>),
}

impl View for QueryOutcome {
    type V = QueryModel;

    open spec fn view(&self) -> QueryModel {
        match self {
            QueryOutcome::Matched(v) => QueryModel::Matched(v@),
            QueryOutcome::EmptyMatch => QueryModel::EmptyMatch,
            QueryOutcome::Absent => QueryModel::Absent,
            QueryOutcome::BadQuery(s) => QueryModel::BadQuery(s@),
        }
    }
}

/// Relies on serde_json::from_str and the Value::Object variant: the result
/// is `Some` exactly when the line parses as JSON with an object at top
/// level, and then holds that object.
#[verifier::external_body]
pub fn parse_json_object(line: &str) -> (r: Option<serde_json::Value>)
    ensures
        r is Some <==> parsed_object(line@) is Some,
        r matches Some(v) ==> parsed_object(line@) == Some(serde_view(v)) && serde_view(v) is Obj,
{
    match serde_json::from_str::<serde_json::Value>(line) {
        Ok(v @ serde_json::Value::Object(_)) => Some(v),
        _ => None,
    }
}

/// Relies on the variants of serde_json::Value: each maps one-for-one onto
/// this library's `JsonValue`; object fields keep their stored order and
/// numbers their canonical text (`Number::to_string`).
#[verifier::external_body]
pub fn from_serde(v: &serde_json::Value) -> (r: JsonValue)
    ensures
        r@ == serde_view(*v),
{
    match v {
        serde_json::Value::Null => JsonValue::Null,
        serde_json::Value::Bool(b) => JsonValue::Bool(*b),
        serde_json::Value::Number(n) => JsonValue::Num(n.to_string()),
        serde_json::Value::String(s) => JsonValue::Str(s.clone()),
        serde_json::Value::Array(a) => JsonValue::Arr(a.iter().map(from_serde).collect()),
        serde_json::Value::Object(o) => JsonValue::Obj(
            o.iter().map(|(k, f)| (k.clone(), from_serde(f))).collect(),
        ),
    }
}

/// Relies on jql_runner::runner::raw, a pure function of the record and the
/// query text. A key missing on its parent maps to `Absent`, an empty query
/// to `EmptyMatch`, and every other failure to `BadQuery` with the engine's
/// error text.
#[verifier::external_body]
pub fn run_query(raw: &serde_json::Value, query: &str) -> (r: QueryOutcome)
    ensures
        r@ == query_outcome(serde_view(*raw), query@),
{
    match jql_runner::runner::raw(query, raw) {
        Ok(v) => QueryOutcome::Matched(from_serde(&v)),
        Err(jql_runner::errors::JqlRunnerError::EmptyQueryError) => QueryOutcome::EmptyMatch,
        Err(jql_runner::errors::JqlRunnerError::KeyNotFoundError { .. }) => QueryOutcome::Absent,
        Err(jql_runner::errors::JqlRunnerError::MultiKeyNotFoundError { .. }) => QueryOutcome::Absent,
        Err(e) => QueryOutcome::BadQuery(e.to_string()),
    }
}

/// Relies on chrono: DateTime::from_timestamp accepts every count of whole
/// seconds from the Unix epoch through the year 9999 (its calendar reaches
/// much further both ways), and `%Y-%m-%d %r` formats the date and 12-hour
/// clock time in the machine's local timezone. The text depends on that
/// timezone, so nothing is claimed of it.
#[verifier::external_body]
pub fn format_local_timestamp(secs: i64) -> (r: Option<String>)
    ensures
        0 <= secs <= 253402300799 ==> r is Some,
{
    match chrono::DateTime::from_timestamp(secs, 0) {
        Some(utc) => {
            let local: chrono::DateTime<chrono::Local> = chrono::DateTime::from(utc);
            Some(local.format("%Y-%m-%d %r").to_string())
        },
        None => None,
    }
}

} // verus!
