use tenant_params::auth::authenticate;
use tenant_params::decode::{decode_row, decode_rows, DbValue, RawRow};
use tenant_params::endpoint::contact_point;
use tenant_params::engine::{flatten, project, record_matches, OutValue};
use tenant_params::error::AppError;
use tenant_params::handler::{assemble, execute_rows, plan_request, Step};
use tenant_params::maps::{KvList, StrMap};
use tenant_params::record::TenantConfigRecord;
use tenant_params::request::{filter_label_key, filter_label_value, get_string_param, ReqParams, ReqValue};

fn s(x: &str) -> String {
    x.to_string()
}

fn str_map(pairs: &[(&str, &str)]) -> StrMap {
    let mut m: StrMap = KvList::new();
    for (k, v) in pairs {
        m.insert(s(k), s(v));
    }
    m
}

fn req_params(pairs: &[(&str, ReqValue)]) -> ReqParams {
    let mut m: ReqParams = KvList::new();
    for (k, v) in pairs {
        m.insert(s(k), v.clone());
    }
    m
}

fn record(
    tenant_id: &str,
    namespace: &str,
    cluster: &str,
    repo_url: &str,
    repo_path: &str,
    labels: Option<&[(&str, &str)]>,
    params: Option<&[(&str, &str)]>,
) -> TenantConfigRecord {
    TenantConfigRecord {
        tenant_id: s(tenant_id),
        namespace: s(namespace),
        target_cluster: s(cluster),
        repo_url: s(repo_url),
        repo_path: s(repo_path),
        labels: labels.map(str_map),
        params: params.map(str_map),
    }
}

fn raw_row(rec: &TenantConfigRecord) -> RawRow {
    RawRow {
        tenant_id: DbValue::Text(rec.tenant_id.clone()),
        namespace: DbValue::Text(rec.namespace.clone()),
        target_cluster: DbValue::Text(rec.target_cluster.clone()),
        repo_url: DbValue::Text(rec.repo_url.clone()),
        repo_path: DbValue::Text(rec.repo_path.clone()),
        labels: match &rec.labels {
            Some(m) => DbValue::Table(m.clone()),
            None => DbValue::Null,
        },
        params: match &rec.params {
            Some(m) => DbValue::Table(m.clone()),
            None => DbValue::Null,
        },
    }
}

#[test]
fn authenticate_missing_header_rejected() {
    assert!(!authenticate(None, &s("secret")));
}

#[test]
fn authenticate_wrong_token_rejected() {
    assert!(!authenticate(Some(&s("Bearer nope")), &s("secret")));
    assert!(!authenticate(Some(&s("Bearersecret")), &s("secret")));
    assert!(!authenticate(Some(&s("bearer secret")), &s("secret")));
    assert!(!authenticate(Some(&s("")), &s("secret")));
}

#[test]
fn authenticate_exact_token_accepted() {
    assert!(authenticate(Some(&s("Bearer secret")), &s("secret")));
}

#[test]
fn plan_request_rejects_without_query() {
    let params = req_params(&[]);
    let step = plan_request(None, &s("secret"), &params);
    assert_eq!(step, Step::Reject(AppError::Unauthorized));
    let step = plan_request(Some(&s("Bearer other")), &s("secret"), &params);
    assert_eq!(step, Step::Reject(AppError::Unauthorized));
}

#[test]
fn plan_request_extracts_filters() {
    let params = req_params(&[
        ("applicationSetName", ReqValue::Text(s("apps"))),
        ("filterLabelKey", ReqValue::Text(s("env"))),
        ("filterLabelValue", ReqValue::Text(s("prod"))),
        ("somethingElse", ReqValue::Other),
    ]);
    let step = plan_request(Some(&s("Bearer secret")), &s("secret"), &params);
    assert_eq!(
        step,
        Step::RunQuery { filter_key: Some(s("env")), filter_value: Some(s("prod")) }
    );
}

#[test]
fn unknown_and_non_string_parameters_are_ignored() {
    let params = req_params(&[
        ("filterLabelKey", ReqValue::Other),
        ("extra", ReqValue::Text(s("x"))),
    ]);
    assert_eq!(filter_label_key(&params), None);
    assert_eq!(filter_label_value(&params), None);
    assert_eq!(get_string_param(&params, &s("missing")), None);
    assert_eq!(get_string_param(&params, &s("extra")), Some(s("x")));
}

#[test]
fn no_filter_returns_every_row_in_order() {
    let a = record("a", "ns-a", "c1", "https://git/a", "apps/a", None, None);
    let b = record("b", "ns-b", "c2", "https://git/b", "apps/b", None, None);
    let outcome = Ok(vec![raw_row(&a), raw_row(&b)]);
    let resp = execute_rows(&None, &None, outcome).unwrap();
    let out = &resp.output.parameters;
    assert_eq!(out.len(), 2);
    assert_eq!(out[0].get(&s("tenantId")), Some(&OutValue::Text(s("a"))));
    assert_eq!(out[1].get(&s("tenantId")), Some(&OutValue::Text(s("b"))));
}

#[test]
fn half_specified_filter_is_no_filter() {
    let a = record("a", "ns", "c", "u", "p", Some(&[("env", "prod")]), None);
    let b = record("b", "ns", "c", "u", "p", None, None);
    let rows = vec![raw_row(&a), raw_row(&b)];
    let resp = execute_rows(&Some(s("env")), &None, Ok(rows.clone())).unwrap();
    assert_eq!(resp.output.parameters.len(), 2);
    let resp = execute_rows(&None, &Some(s("prod")), Ok(rows)).unwrap();
    assert_eq!(resp.output.parameters.len(), 2);
}

#[test]
fn label_filter_keeps_only_matching_records() {
    let keep = record("k", "ns", "c", "u", "p", Some(&[("env", "prod")]), None);
    let staging = record("s", "ns", "c", "u", "p", Some(&[("env", "staging")]), None);
    let unlabeled = record("n", "ns", "c", "u", "p", None, None);
    let rows = vec![raw_row(&keep), raw_row(&staging), raw_row(&unlabeled)];
    let resp = execute_rows(&Some(s("env")), &Some(s("prod")), Ok(rows)).unwrap();
    let out = &resp.output.parameters;
    assert_eq!(out.len(), 1);
    assert_eq!(out[0].get(&s("tenantId")), Some(&OutValue::Text(s("k"))));
}

#[test]
fn record_matches_is_exact_on_labels() {
    let rec = record("t", "ns", "c", "u", "p", Some(&[("env", "prod")]), None);
    assert!(record_matches(&rec, &s("env"), &s("prod")));
    assert!(!record_matches(&rec, &s("env"), &s("Prod")));
    assert!(!record_matches(&rec, &s("tier"), &s("prod")));
    let bare = record("t", "ns", "c", "u", "p", None, None);
    assert!(!record_matches(&bare, &s("env"), &s("prod")));
}

#[test]
fn flatten_copies_params_nested_and_top_level() {
    let rec = record("t", "ns", "c", "u", "p", None, Some(&[("replicas", "3")]));
    let flat = flatten(&rec);
    assert_eq!(flat.get(&s("replicas")), Some(&OutValue::Text(s("3"))));
    assert_eq!(
        flat.get(&s("params")),
        Some(&OutValue::Nested(str_map(&[("replicas", "3")])))
    );
}

#[test]
fn flatten_collision_lets_params_win() {
    let rec = record("real", "ns", "c", "u", "p", None, Some(&[("tenantId", "spoofed")]));
    let flat = flatten(&rec);
    assert_eq!(flat.get(&s("tenantId")), Some(&OutValue::Text(s("spoofed"))));
}

#[test]
fn flatten_sets_fixed_keys_and_labels_echo() {
    let rec = record(
        "t1",
        "ns1",
        "cl1",
        "https://git/repo",
        "apps/t1",
        Some(&[("env", "prod")]),
        None,
    );
    let flat = flatten(&rec);
    assert_eq!(flat.get(&s("tenantId")), Some(&OutValue::Text(s("t1"))));
    assert_eq!(flat.get(&s("namespace")), Some(&OutValue::Text(s("ns1"))));
    assert_eq!(flat.get(&s("cluster")), Some(&OutValue::Text(s("cl1"))));
    assert_eq!(flat.get(&s("repoURL")), Some(&OutValue::Text(s("https://git/repo"))));
    assert_eq!(flat.get(&s("path")), Some(&OutValue::Text(s("apps/t1"))));
    assert_eq!(
        flat.get(&s("labels")),
        Some(&OutValue::Nested(str_map(&[("env", "prod")])))
    );
    assert_eq!(flat.get(&s("params")), None);
}

#[test]
fn end_to_end_filtered_request_returns_matching_row() {
    let token = s("secret");
    let params = req_params(&[
        ("filterLabelKey", ReqValue::Text(s("env"))),
        ("filterLabelValue", ReqValue::Text(s("prod"))),
    ]);
    let step = plan_request(Some(&s("Bearer secret")), &token, &params);
    let (fk, fv) = match step {
        Step::RunQuery { filter_key, filter_value } => (filter_key, filter_value),
        Step::Reject(_) => panic!("request was rejected"),
    };
    let matching = record(
        "t1",
        "ns1",
        "cl1",
        "https://git/one",
        "apps/one",
        Some(&[("env", "prod")]),
        None,
    );
    let other = record(
        "t2",
        "ns2",
        "cl2",
        "https://git/two",
        "apps/two",
        Some(&[("env", "staging")]),
        None,
    );
    let resp = execute_rows(&fk, &fv, Ok(vec![raw_row(&matching), raw_row(&other)])).unwrap();
    let out = &resp.output.parameters;
    assert_eq!(out.len(), 1);
    assert_eq!(out[0].get(&s("tenantId")), Some(&OutValue::Text(s("t1"))));
    assert_eq!(out[0].get(&s("namespace")), Some(&OutValue::Text(s("ns1"))));
    assert_eq!(out[0].get(&s("cluster")), Some(&OutValue::Text(s("cl1"))));
    assert_eq!(out[0].get(&s("repoURL")), Some(&OutValue::Text(s("https://git/one"))));
    assert_eq!(out[0].get(&s("path")), Some(&OutValue::Text(s("apps/one"))));
}

#[test]
fn missing_mandatory_column_fails_whole_request() {
    let good = record("a", "ns", "c", "u", "p", None, None);
    let mut bad = raw_row(&good);
    bad.namespace = DbValue::Null;
    let outcome = Ok(vec![raw_row(&good), bad]);
    match execute_rows(&None, &None, outcome) {
        Err(AppError::Internal(_)) => {},
        other => panic!("expected an internal error, got {:?}", other),
    }
}

#[test]
fn mistyped_optional_column_fails_decode() {
    let good = record("a", "ns", "c", "u", "p", None, None);
    let mut bad = raw_row(&good);
    bad.labels = DbValue::Text(s("not-a-map"));
    assert!(decode_row(&bad).is_err());
    let mut wrong = raw_row(&good);
    wrong.tenant_id = DbValue::Other;
    assert!(decode_rows(&vec![wrong]).is_err());
}

#[test]
fn decode_row_keeps_columns_and_optionals() {
    let rec = record(
        "t",
        "ns",
        "c",
        "u",
        "p",
        Some(&[("env", "prod")]),
        Some(&[("replicas", "3")]),
    );
    let decoded = decode_row(&raw_row(&rec)).unwrap();
    assert_eq!(decoded, rec);
    let bare = record("t", "ns", "c", "u", "p", None, None);
    let decoded = decode_row(&raw_row(&bare)).unwrap();
    assert_eq!(decoded.labels, None);
    assert_eq!(decoded.params, None);
}

#[test]
fn database_failure_is_internal_error() {
    match execute_rows(&None, &None, Err(s("connection reset"))) {
        Err(AppError::Internal(msg)) => assert_eq!(msg, s("connection reset")),
        other => panic!("expected an internal error, got {:?}", other),
    }
}

#[test]
fn error_response_parts() {
    let (code, body) = AppError::Unauthorized.response_parts();
    assert_eq!(code, 403);
    assert_eq!(body, s("forbidden"));
    let (code, body) = AppError::Internal(s("detail")).response_parts();
    assert_eq!(code, 500);
    assert_eq!(body, s("internal error"));
}

#[test]
fn contact_point_splices_region() {
    assert_eq!(
        contact_point(&s("us-east-1")),
        s("cassandra.us-east-1.amazonaws.com:9142")
    );
}

#[test]
fn str_map_last_insert_wins() {
    let mut m: StrMap = KvList::new();
    m.insert(s("k"), s("first"));
    m.insert(s("k"), s("second"));
    assert_eq!(m.get(&s("k")), Some(&s("second")));
    assert_eq!(m.get(&s("absent")), None);
}

#[test]
fn project_preserves_arrival_order() {
    let a = record("a", "ns", "c", "u", "p", Some(&[("env", "prod")]), None);
    let b = record("b", "ns", "c", "u", "p", Some(&[("env", "prod")]), None);
    let maps = project(&vec![a, b], &Some(s("env")), &Some(s("prod")));
    assert_eq!(maps.len(), 2);
    assert_eq!(maps[0].get(&s("tenantId")), Some(&OutValue::Text(s("a"))));
    assert_eq!(maps[1].get(&s("tenantId")), Some(&OutValue::Text(s("b"))));
    let resp = assemble(maps);
    assert_eq!(resp.output.parameters.len(), 2);
}
