use log_ingest::auth::{authorize, Config};
use log_ingest::entry::{LogEntry, StorageError};
use log_ingest::reader::{plan_read, select, ReadPlan};
use log_ingest::request::{parse_all, validate_log, GivemeRequest, JsonValue, LogBody, ValidationError};
use log_ingest::response::{
    giveme_from, giveme_plan, giveme_response, log_into, log_request, log_response,
};
use log_ingest::table::LogTable;
use log_ingest::writer::new_row;

fn text(s: &str) -> Option<JsonValue> {
    Some(JsonValue::Text(s.to_string()))
}

fn object(s: &str) -> Option<JsonValue> {
    Some(JsonValue::Object(s.to_string()))
}

fn entry(id: u128, name: &str, created: i64) -> LogEntry {
    LogEntry::new(id, name.to_string(), "{}".to_string(), created)
}

fn config() -> Config {
    Config::new("secret".to_string(), 2)
}

fn names(v: &[LogEntry]) -> Vec<String> {
    v.iter().map(|e| e.name.clone()).collect()
}

fn table_with(rows: Vec<LogEntry>) -> LogTable {
    let mut t = LogTable::new();
    for r in rows {
        assert!(t.insert(r).is_ok());
    }
    t
}

fn read(table: &LogTable, key: Option<&str>, all: Option<bool>) -> log_ingest::response::Response {
    let req = GivemeRequest::new(key.map(|k| k.to_string()), all);
    giveme_from(table, req, &config())
}

#[test]
fn authorize_needs_exact_key() {
    let secret = "secret".to_string();
    assert!(authorize(&Some("secret".to_string()), &secret));
    assert!(!authorize(&Some("Secret".to_string()), &secret));
    assert!(!authorize(&Some("secret ".to_string()), &secret));
    assert!(!authorize(&Some(String::new()), &secret));
    assert!(!authorize(&None, &secret));
}

#[test]
fn validate_accepts_name_and_object() {
    let cmd = validate_log(LogBody::new(text("a"), object("{\"x\":1}"))).ok().unwrap();
    assert_eq!(cmd.name, "a");
    assert_eq!(cmd.data, "{\"x\":1}");
    let empty = validate_log(LogBody::new(text("a"), object("{}"))).ok().unwrap();
    assert_eq!(empty.data, "{}");
}

#[test]
fn validate_rejects_bad_name() {
    let cases = vec![
        LogBody::new(None, object("{}")),
        LogBody::new(text(""), object("{}")),
        LogBody::new(Some(JsonValue::Number("3".to_string())), object("{}")),
        LogBody::new(Some(JsonValue::Null), object("{}")),
        LogBody::new(None, None),
    ];
    for body in cases {
        assert_eq!(validate_log(body).err(), Some(ValidationError::Name));
    }
}

#[test]
fn validate_rejects_bad_data() {
    let cases = vec![
        LogBody::new(text("a"), None),
        LogBody::new(text("a"), text("{\"x\":1}")),
        LogBody::new(text("a"), Some(JsonValue::Array("[]".to_string()))),
        LogBody::new(text("a"), Some(JsonValue::Bool(true))),
    ];
    for body in cases {
        assert_eq!(validate_log(body).err(), Some(ValidationError::Data));
    }
}

#[test]
fn validation_messages() {
    assert_eq!(ValidationError::Name.message(), "name must be a non-empty string");
    assert_eq!(ValidationError::Data.message(), "data must be a JSON object");
}

#[test]
fn command_defaults_to_bounded() {
    assert!(!GivemeRequest::new(None, None).command().unbounded);
    assert!(!GivemeRequest::new(None, Some(false)).command().unbounded);
    let cmd = GivemeRequest::new(Some("k".to_string()), Some(true)).command();
    assert!(cmd.unbounded);
    assert_eq!(cmd.key, Some("k".to_string()));
}

#[test]
fn plan_follows_flag() {
    assert!(matches!(plan_read(true, 7), ReadPlan::All));
    assert!(matches!(plan_read(false, 7), ReadPlan::Recent(7)));
}

#[test]
fn select_orders_newest_first() {
    let rows = vec![entry(1, "a", 10), entry(2, "b", 30), entry(3, "c", 20)];
    let out = select(&rows, ReadPlan::All);
    assert_eq!(names(&out), vec!["b", "c", "a"]);
}

#[test]
fn select_breaks_ties_by_id_descending() {
    let rows = vec![entry(5, "low", 10), entry(9, "high", 10), entry(7, "mid", 10)];
    let out = select(&rows, ReadPlan::All);
    assert_eq!(names(&out), vec!["high", "mid", "low"]);
}

#[test]
fn select_caps_bounded_reads() {
    let rows = vec![entry(1, "a", 1), entry(2, "b", 2), entry(3, "c", 3)];
    assert_eq!(names(&select(&rows, ReadPlan::Recent(2))), vec!["c", "b"]);
    assert_eq!(names(&select(&rows, ReadPlan::Recent(5))), vec!["c", "b", "a"]);
    assert!(select(&rows, ReadPlan::Recent(0)).is_empty());
    assert!(select(&Vec::new(), ReadPlan::All).is_empty());
}

#[test]
fn insert_refuses_taken_id() {
    let mut t = table_with(vec![entry(1, "a", 1)]);
    assert_eq!(t.insert(entry(1, "b", 2)), Err(StorageError));
    assert_eq!(t.len(), 1);
    assert!(t.contains_id(1));
    assert!(!t.contains_id(2));
}

#[test]
fn new_rows_get_distinct_ids() {
    let mk = || log_ingest::request::NewLog { name: "same".to_string(), data: "{}".to_string() };
    let mut t = LogTable::new();
    let mut ids = Vec::new();
    for _ in 0..50 {
        ids.push(t.write(mk()).ok().unwrap());
    }
    let mut sorted = ids.clone();
    sorted.sort();
    sorted.dedup();
    assert_eq!(sorted.len(), 50);
    assert_eq!(t.len(), 50);
    let row = new_row(mk());
    assert_eq!(row.name, "same");
    assert_eq!(row.data, "{}");
    assert!(row.created > 0);
    assert!(!ids.contains(&row.id));
}

#[test]
fn written_entry_reads_back_verbatim() {
    let mut t = LogTable::new();
    let resp = log_into(&mut t, LogBody::new(text("event"), object("{\"k\":[1,2],\"n\":null}")));
    assert_eq!(resp.status, 200);
    assert_eq!(resp.message, "OK");
    let out = read(&t, Some("secret"), Some(true));
    assert_eq!(out.status, 200);
    let data = out.data.unwrap();
    assert!(data.iter().any(|e| e.name == "event" && e.data == "{\"k\":[1,2],\"n\":null}"));
}

#[test]
fn wrong_or_missing_key_is_unauthorized() {
    let t = table_with(vec![entry(1, "a", 1), entry(2, "b", 2)]);
    for (key, all) in [(None, None), (None, Some(true)), (Some("nope"), Some(true)), (Some("nope"), None)] {
        let out = read(&t, key, all);
        assert_eq!(out.status, 401);
        assert_eq!(out.message, "Unauthorized");
        assert!(out.data.is_none());
    }
    let empty = LogTable::new();
    assert_eq!(read(&empty, Some("x"), None).status, 401);
    let plan = giveme_plan(GivemeRequest::new(Some("wrong".to_string()), None), &config());
    assert_eq!(plan.err().unwrap().status, 401);
}

#[test]
fn bounded_read_respects_limit() {
    let t = table_with((1..=5).map(|i| entry(i, &format!("e{i}"), i as i64)).collect());
    let out = read(&t, Some("secret"), None);
    assert_eq!(out.status, 200);
    let data = out.data.unwrap();
    assert_eq!(names(&data), vec!["e5", "e4"]);
    let out = read(&t, Some("secret"), Some(false));
    assert_eq!(out.data.unwrap().len(), 2);
}

#[test]
fn unbounded_read_returns_everything() {
    let t = table_with((1..=5).map(|i| entry(i, &format!("e{i}"), i as i64)).collect());
    let out = read(&t, Some("secret"), Some(true));
    assert_eq!(names(&out.data.unwrap()), vec!["e5", "e4", "e3", "e2", "e1"]);
}

#[test]
fn two_writes_read_newest_first() {
    let mut t = LogTable::new();
    assert!(t.insert(LogEntry::new(11, "a".to_string(), "{\"x\":1}".to_string(), 1_000)).is_ok());
    assert!(t.insert(LogEntry::new(12, "b".to_string(), "{\"x\":2}".to_string(), 2_000)).is_ok());
    let out = read(&t, Some("secret"), Some(true)).data.unwrap();
    assert_eq!(out.len(), 2);
    assert_eq!(out[0].name, "b");
    assert_eq!(out[0].data, "{\"x\":2}");
    assert_eq!(out[1].name, "a");
    assert_eq!(out[1].data, "{\"x\":1}");
}

#[test]
fn malformed_write_is_rejected_and_stores_nothing() {
    let mut t = LogTable::new();
    let resp = log_into(&mut t, LogBody::new(text("a"), text("not an object")));
    assert_eq!(resp.status, 400);
    assert_eq!(resp.message, "data must be a JSON object");
    assert_eq!(t.len(), 0);
    let resp = log_into(&mut t, LogBody::new(text(""), object("{}")));
    assert_eq!(resp.status, 400);
    assert_eq!(resp.message, "name must be a non-empty string");
    assert_eq!(t.len(), 0);
}

#[test]
fn store_failure_on_write_is_500() {
    let resp = log_response(Err(StorageError));
    assert_eq!(resp.status, 500);
    assert_eq!(resp.message, "Could not log data");
    assert!(resp.data.is_none());
    let ok = log_response(Ok(()));
    assert_eq!(ok.status, 200);
    assert_eq!(ok.message, "OK");
}

#[test]
fn store_failure_on_read_is_500() {
    let resp = giveme_response(Err(StorageError), ReadPlan::All);
    assert_eq!(resp.status, 500);
    assert_eq!(resp.message, "Could not get data");
    assert!(resp.data.is_none());
}

#[test]
fn read_response_orders_store_rows() {
    let rows = vec![entry(1, "a", 1), entry(3, "c", 3), entry(2, "b", 2)];
    let resp = giveme_response(Ok(rows), ReadPlan::Recent(2));
    assert_eq!(resp.status, 200);
    assert_eq!(resp.message, "OK");
    assert_eq!(names(&resp.data.unwrap()), vec!["c", "b"]);
}

#[test]
fn log_request_builds_row_or_400() {
    let row = log_request(LogBody::new(text("a"), object("{\"x\":1}"))).ok().unwrap();
    assert_eq!(row.name, "a");
    assert_eq!(row.data, "{\"x\":1}");
    let resp = log_request(LogBody::new(text("a"), None)).err().unwrap();
    assert_eq!(resp.status, 400);
}

#[test]
fn all_flag_reads_only_exact_true() {
    assert_eq!(parse_all(None), None);
    assert_eq!(parse_all(Some("true".to_string())), Some(true));
    assert_eq!(parse_all(Some("false".to_string())), Some(false));
    assert_eq!(parse_all(Some("yes".to_string())), Some(false));
    assert_eq!(parse_all(Some("TRUE".to_string())), Some(false));
    assert_eq!(parse_all(Some(String::new())), Some(false));
    let t = table_with((1..=5).map(|i| entry(i, &format!("e{i}"), i as i64)).collect());
    let req = GivemeRequest::new(Some("secret".to_string()), parse_all(Some("yes".to_string())));
    let out = giveme_from(&t, req, &config());
    assert_eq!(out.status, 200);
    assert_eq!(out.data.unwrap().len(), 2);
}

#[test]
fn first_write_into_empty_table_succeeds() {
    let mut t = LogTable::new();
    let resp = log_into(&mut t, LogBody::new(text("n"), object("{\"d\":true}")));
    assert_eq!(resp.status, 200);
    assert_eq!(t.len(), 1);
    let mut t2 = LogTable::new();
    let cmd = log_ingest::request::NewLog { name: "n".to_string(), data: "{}".to_string() };
    assert!(t2.write(cmd).is_ok());
}

#[test]
fn identical_writes_get_distinct_ids() {
    let mut t = table_with(vec![entry(7, "old", 1)]);
    for _ in 0..20 {
        let resp = log_into(&mut t, LogBody::new(text("n"), object("{\"d\":1}")));
        assert_eq!(resp.status, 200);
    }
    let out = read(&t, Some("secret"), Some(true)).data.unwrap();
    assert_eq!(out.len(), 21);
    let mut ids: Vec<u128> = out.iter().map(|e| e.id).collect();
    ids.sort();
    ids.dedup();
    assert_eq!(ids.len(), 21);
    assert_eq!(out.iter().filter(|e| e.name == "n" && e.data == "{\"d\":1}").count(), 20);
}
