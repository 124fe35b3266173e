use opensheet::cache::{cache_key, ResponseCache};
use opensheet::limiter::client_identity;
use opensheet::models::{ErrorDetails, Failure, FailureKind, Sheet, SheetMetadata, SheetProperties, SheetsApiResponse};
use opensheet::resolver::{begin_resolve, classify_reference, decode_reference, select_sheet, sheet_titles, upstream_status, Resolution, SheetRef};
use opensheet::service::{metadata_url, values_range, values_rows, values_url, AppState, Gate};
use opensheet::transform::{process_sheet_data, Record};

fn s(x: &str) -> String {
    x.to_string()
}

fn grid(rows: &[&[&str]]) -> Vec<Vec<String>> {
    rows.iter().map(|r| r.iter().map(|c| s(c)).collect()).collect()
}

fn field(r: &Record, label: &str) -> Option<String> {
    r.get(&s(label))
}

fn metadata(titles: &[&str]) -> SheetMetadata {
    SheetMetadata {
        sheets: titles
            .iter()
            .map(|t| Sheet { properties: SheetProperties { title: s(t) } })
            .collect(),
        error: None,
    }
}

#[test]
fn transform_empty_grid() {
    assert!(process_sheet_data(&grid(&[])).is_empty());
}

#[test]
fn transform_header_only() {
    assert!(process_sheet_data(&grid(&[&["A", "B"]])).is_empty());
}

#[test]
fn transform_full_row() {
    let rows = process_sheet_data(&grid(&[&["A", "B"], &["1", "2"]]));
    assert_eq!(rows.len(), 1);
    assert_eq!(rows[0].len(), 2);
    assert_eq!(field(&rows[0], "A"), Some(s("1")));
    assert_eq!(field(&rows[0], "B"), Some(s("2")));
}

#[test]
fn transform_short_row() {
    let rows = process_sheet_data(&grid(&[&["A", "B"], &["1"]]));
    assert_eq!(rows.len(), 1);
    assert_eq!(rows[0].len(), 1);
    assert_eq!(field(&rows[0], "A"), Some(s("1")));
    assert_eq!(field(&rows[0], "B"), None);
}

#[test]
fn transform_extra_cell_dropped() {
    let rows = process_sheet_data(&grid(&[&["A", "B"], &["1", "2", "3"]]));
    assert_eq!(rows.len(), 1);
    assert_eq!(rows[0].len(), 2);
    assert_eq!(field(&rows[0], "A"), Some(s("1")));
    assert_eq!(field(&rows[0], "B"), Some(s("2")));
}

#[test]
fn transform_duplicate_label_keeps_last() {
    let rows = process_sheet_data(&grid(&[&["A", "A", "B"], &["1", "2", "3"], &[]]));
    assert_eq!(rows.len(), 2);
    assert_eq!(rows[0].len(), 2);
    assert_eq!(field(&rows[0], "A"), Some(s("2")));
    assert_eq!(field(&rows[0], "B"), Some(s("3")));
    assert_eq!(rows[1].len(), 0);
}

#[test]
fn record_insert_replaces() {
    let mut r = Record::new();
    r.insert(s("k"), s("v1"));
    r.insert(s("k"), s("v2"));
    r.insert(s("j"), s("w"));
    assert_eq!(r.len(), 2);
    assert_eq!(field(&r, "k"), Some(s("v2")));
    assert_eq!(field(&r, "j"), Some(s("w")));
}

#[test]
fn cache_key_joins_with_slash() {
    assert_eq!(cache_key("abc", "Sheet1"), "abc/Sheet1");
    assert_ne!(cache_key("abc", "1"), cache_key("abc", "Sheet1"));
}

#[test]
fn cache_hit_within_ttl() {
    let mut c = ResponseCache::new();
    c.put(s("id/1"), s("{\"x\":1}"), 1_000);
    assert_eq!(c.lookup_fresh(&s("id/1"), 1_000, 60_000), Some(s("{\"x\":1}")));
    assert_eq!(c.lookup_fresh(&s("id/1"), 60_999, 60_000), Some(s("{\"x\":1}")));
    assert_eq!(c.lookup_fresh(&s("id/2"), 1_000, 60_000), None);
}

#[test]
fn cache_stale_after_ttl_but_kept() {
    let mut c = ResponseCache::new();
    c.put(s("id/1"), s("old"), 1_000);
    assert_eq!(c.lookup_fresh(&s("id/1"), 61_000, 60_000), None);
    let e = c.get(&s("id/1")).unwrap();
    assert_eq!(e.data, "old");
    assert_eq!(e.timestamp, 1_000);
    c.put(s("id/1"), s("new"), 61_000);
    assert_eq!(c.lookup_fresh(&s("id/1"), 61_000, 60_000), Some(s("new")));
}

#[test]
fn zero_reference_is_invalid_ordinal() {
    match begin_resolve("0") {
        Resolution::Failed(f) => {
            assert_eq!(f.kind, FailureKind::InvalidOrdinal);
            assert_eq!(f.kind.status(), 400);
            assert_eq!(f.message, "Sheet number cannot be 0");
        }
        _ => panic!("expected a failure"),
    }
}

#[test]
fn title_reference_is_resolved_directly() {
    match begin_resolve("Sheet1") {
        Resolution::Resolved(t) => assert_eq!(t, "Sheet1"),
        _ => panic!("expected a title"),
    }
    match begin_resolve("My+Sheet%21") {
        Resolution::Resolved(t) => assert_eq!(t, "My Sheet!"),
        _ => panic!("expected a title"),
    }
}

#[test]
fn numeric_reference_needs_metadata() {
    assert!(matches!(begin_resolve("3"), Resolution::NeedsMetadata(3)));
    assert!(matches!(begin_resolve("-1"), Resolution::NeedsMetadata(-1)));
    assert!(matches!(classify_reference("%32"), SheetRef::Ordinal(2)));
    assert!(matches!(classify_reference("99999999999"), SheetRef::Title(_)));
}

#[test]
fn bad_escape_keeps_spaced_text() {
    assert_eq!(decode_reference("a+%FF"), "a %FF");
}

#[test]
fn ordinal_one_past_last_is_not_found() {
    let meta = metadata(&["One", "Two", "Three"]);
    match select_sheet(4, &meta) {
        Err(f) => {
            assert_eq!(f.kind, FailureKind::SheetNotFound);
            assert_eq!(f.kind.status(), 404);
            assert_eq!(f.message, "There is no sheet number 4");
        }
        Ok(_) => panic!("expected a failure"),
    }
    match select_sheet(-12, &meta) {
        Err(f) => assert_eq!(f.message, "There is no sheet number -12"),
        Ok(_) => panic!("expected a failure"),
    }
    assert_eq!(select_sheet(2, &meta).ok(), Some(s("Two")));
    assert_eq!(select_sheet(3, &meta).ok(), Some(s("Three")));
}

#[test]
fn metadata_error_is_propagated() {
    let meta = SheetMetadata {
        sheets: vec![],
        error: Some(ErrorDetails { message: s("denied"), status: Some(s("403")) }),
    };
    match select_sheet(1, &meta) {
        Err(f) => {
            assert_eq!(f.kind, FailureKind::UpstreamRejected(403));
            assert_eq!(f.message, "denied");
        }
        Ok(_) => panic!("expected a failure"),
    }
    assert!(sheet_titles(&meta).is_err());
}

#[test]
fn sheet_titles_in_order() {
    let titles = sheet_titles(&metadata(&["a", "b"])).ok().unwrap();
    assert_eq!(titles, vec![s("a"), s("b")]);
}

#[test]
fn upstream_status_defaults_to_400() {
    assert_eq!(upstream_status(&None), 400);
    assert_eq!(upstream_status(&Some(s("PERMISSION_DENIED"))), 400);
    assert_eq!(upstream_status(&Some(s("70000"))), 400);
    assert_eq!(upstream_status(&Some(s("404"))), 404);
    let resp = SheetsApiResponse {
        values: None,
        error: Some(ErrorDetails { message: s("bad"), status: None }),
    };
    match values_rows(&resp) {
        Err(f) => {
            assert_eq!(f.kind.status(), 400);
            let e = f.into_response(s("tx"));
            assert_eq!(e.status, 400);
            assert_eq!(e.error, "bad");
            assert_eq!(e.transaction_code, "tx");
        }
        Ok(_) => panic!("expected a failure"),
    }
}

#[test]
fn values_rows_without_grid_is_empty() {
    let resp = SheetsApiResponse { values: None, error: None };
    assert!(values_rows(&resp).ok().unwrap().is_empty());
    let resp = SheetsApiResponse { values: Some(grid(&[&["h"], &["v"]])), error: None };
    let rows = values_rows(&resp).ok().unwrap();
    assert_eq!(rows.len(), 1);
    assert_eq!(field(&rows[0], "h"), Some(s("v")));
}

#[test]
fn range_defaults_and_custom() {
    assert_eq!(values_range("Sheet1", &None), "Sheet1!A1:ZZ");
    assert_eq!(values_range("My Sheet", &Some(s("B2:C3"))), "My%20Sheet!B2:C3");
    assert_eq!(values_range("a/b", &Some(s("A:A"))), "a%2Fb!A:A");
}

#[test]
fn upstream_urls() {
    assert_eq!(metadata_url("id1", "k"), "https://sheets.googleapis.com/v4/spreadsheets/id1?key=k");
    assert_eq!(
        values_url("id1", "S!A1:ZZ", "k"),
        "https://sheets.googleapis.com/v4/spreadsheets/id1/values/S!A1:ZZ?key=k"
    );
}

#[test]
fn client_identity_falls_back_to_unknown() {
    assert_eq!(client_identity(None), "unknown");
    assert_eq!(client_identity(Some(s("10.0.0.1"))), "10.0.0.1");
}

#[test]
fn rate_limit_third_request_denied() {
    let state = AppState::new(s("key"), 60_000, 2);
    let a = s("1.2.3.4");
    assert!(state.check_client(&a));
    assert!(state.check_client(&a));
    assert!(!state.check_client(&a));
    assert!(state.check_client(&s("5.6.7.8")));
    match state.begin_request(&a, "id", "Sheet1", 0) {
        Gate::Denied(f) => assert_eq!(f.kind.status(), 429),
        _ => panic!("expected a denial"),
    }
}

#[test]
fn second_request_served_from_cache() {
    let mut state = AppState::new(s("key"), 60_000, 10);
    let ip = s("1.1.1.1");
    let key = match state.begin_request(&ip, "id", "Sheet1", 5_000) {
        Gate::Miss(k) => k,
        _ => panic!("expected a miss"),
    };
    assert_eq!(key, "id/Sheet1");
    state.store(key, s("payload"), 5_000);
    match state.begin_request(&ip, "id", "Sheet1", 6_000) {
        Gate::Hit(p) => assert_eq!(p, "payload"),
        _ => panic!("expected a hit"),
    }
    assert!(matches!(state.begin_request(&ip, "id", "1", 6_000), Gate::Miss(_)));
    assert!(matches!(state.begin_request(&ip, "id", "Sheet1", 65_000), Gate::Miss(_)));
}

#[test]
fn gate_denies_when_not_admitted() {
    let state = AppState::new(s("key"), 60_000, 1);
    match state.gate(false, "id", "Sheet1", 0) {
        Gate::Denied(f) => {
            assert_eq!(f.kind, FailureKind::RateLimited);
            assert_eq!(f.message, "Rate limit exceeded. Try again later.");
        }
        _ => panic!("expected a denial"),
    }
}

#[test]
fn failure_messages_and_statuses() {
    let t = Failure::transport("API request failed", "timed out");
    assert_eq!(t.kind.status(), 500);
    assert_eq!(t.message, "API request failed: timed out");
    let m = Failure::malformed("Failed to parse API response", "eof");
    assert_eq!(m.kind, FailureKind::MalformedUpstreamResponse);
    assert_eq!(m.message, "Failed to parse API response: eof");
    let s = Failure::serialization("bad");
    assert_eq!(s.kind.status(), 500);
    assert_eq!(s.message, "Failed to serialize response: bad");
}
