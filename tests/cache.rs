use serde_json::Value;
use status_aggregator::credential::token_from_reply;
use status_aggregator::poller::{JOBS_INTERVAL_MS, SHORT_INTERVAL_MS};
use status_aggregator::{
    healthz, AuthError, Category, Credential, Message, OidcConfig, PollError, Poller, Reply,
    Snapshot, TOKEN_TTL_SECS,
};

fn doc(text: &str) -> Value {
    serde_json::from_str(text).unwrap()
}

fn empty_object() -> Value {
    Value::Object(serde_json::Map::new())
}

fn ok_reply(status: u16, body: &str) -> Result<Reply, String> {
    Ok(Reply { status, body: body.to_string() })
}

fn field(s: &Snapshot, c: Category) -> &Value {
    match c {
        Category::Status => &s.status,
        Category::Capacities => &s.capacities,
        Category::Stats => &s.stats,
        Category::Jobs => &s.jobs,
    }
}

const ALL: [Category; 4] = [Category::Status, Category::Capacities, Category::Stats, Category::Jobs];

#[test]
fn healthz_is_fixed_ok() {
    assert_eq!(healthz(), (200, "OK"));
}

#[test]
fn new_snapshot_holds_empty_objects() {
    let s = Snapshot::new("t0".to_string());
    assert_eq!(s.date, "t0");
    for c in ALL {
        assert_eq!(field(&s, c), &empty_object());
    }
}

#[test]
fn apply_installs_document_unchanged() {
    for c in ALL {
        let mut s = Snapshot::new("t0".to_string());
        let d = doc(r#"{"items":[1,2,{"a":null}],"n":100}"#);
        s.apply(Message::new(c, d.clone()));
        for o in ALL {
            if o == c {
                assert_eq!(field(&s, o), &d);
            } else {
                assert_eq!(field(&s, o), &empty_object());
            }
        }
        assert_eq!(s.date, "t0");
    }
}

#[test]
fn later_message_of_same_category_wins() {
    let mut s = Snapshot::new("t0".to_string());
    s.apply(Message::new(Category::Stats, doc("[1]")));
    s.apply(Message::new(Category::Status, doc("true")));
    s.apply(Message::new(Category::Stats, doc("[2]")));
    assert_eq!(s.stats, doc("[2]"));
    assert_eq!(s.status, doc("true"));
    assert_eq!(s.jobs, empty_object());
}

#[test]
fn read_at_stamps_read_time() {
    let mut s = Snapshot::new("written".to_string());
    s.apply(Message::new(Category::Jobs, doc(r#"{"jobs":[]}"#)));
    let r = s.read_at("read".to_string());
    assert_eq!(r.date, "read");
    assert_eq!(r.jobs, doc(r#"{"jobs":[]}"#));
    assert_eq!(r.status, empty_object());
    assert_eq!(s.date, "written");
}

#[test]
fn read_stamps_current_time() {
    let s = Snapshot::new("never".to_string());
    let r = s.read_at(chrono::Utc::now().to_rfc3339());
    assert_ne!(r.date, "never");
    assert!(chrono::DateTime::parse_from_rfc3339(&r.date).is_ok());
    assert_eq!(r.capacities, empty_object());
}

#[test]
fn message_accessors() {
    let m = Message::new(Category::Capacities, doc("{\"x\":1}"));
    assert_eq!(m.category(), Category::Capacities);
    assert_eq!(m.into_document(), doc("{\"x\":1}"));
}

#[test]
fn poller_urls_and_intervals() {
    let base = "https://api.example.test";
    let p = Poller::new(Category::Status, base);
    assert_eq!(p.url, "https://api.example.test/landing/v2/status?n=100");
    assert_eq!(p.interval_ms, 100);
    assert!(!p.authenticated);
    let p = Poller::new(Category::Capacities, base);
    assert_eq!(p.url, "https://api.example.test/landing/v2/capacities?n=1");
    assert_eq!(p.interval_ms, SHORT_INTERVAL_MS);
    let p = Poller::new(Category::Stats, base);
    assert_eq!(p.url, "https://api.example.test/landing/v2/stats?n=1");
    assert!(!p.authenticated);
    let p = Poller::new(Category::Jobs, base);
    assert_eq!(
        p.url,
        "https://api.example.test/deploy/v1/jobs?pageSize=10&sortBy=createdAt&sortOrder=-1&excludeType=repairDeployment&excludeType=repairVm&excludeType=repairSm&excludeStatus=failed&excludeStatus=terminated&excludeStatus=pending"
    );
    assert_eq!(p.interval_ms, 300);
    assert_eq!(p.interval_ms, JOBS_INTERVAL_MS);
    assert!(p.authenticated);
    assert_eq!(p.category, Category::Jobs);
}

#[test]
fn handle_network_error() {
    let p = Poller::new(Category::Status, "http://h");
    match p.handle(Err("connection refused".to_string())) {
        Err(e) => assert_eq!(e, PollError::Network("connection refused".to_string())),
        Ok(_) => panic!("expected an error"),
    }
}

#[test]
fn handle_malformed_body() {
    let p = Poller::new(Category::Stats, "http://h");
    match p.handle(ok_reply(200, "{not json")) {
        Err(e) => assert_eq!(e, PollError::Malformed),
        Ok(_) => panic!("expected an error"),
    }
}

#[test]
fn handle_valid_body_passes_document_through() {
    let p = Poller::new(Category::Capacities, "http://h");
    let body = r#"{"cpu":{"free":12,"total":64},"regions":["a","b"]}"#;
    let m = p.handle(ok_reply(200, body)).ok().unwrap();
    assert_eq!(m.category(), Category::Capacities);
    assert_eq!(m.into_document(), doc(body));
}

#[test]
fn handle_jobs_client_error() {
    let p = Poller::new(Category::Jobs, "http://h");
    match p.handle(ok_reply(401, "{}")) {
        Err(e) => assert_eq!(e, PollError::ClientStatus(401)),
        Ok(_) => panic!("expected an error"),
    }
    let m = p.handle(ok_reply(200, "[]")).ok().unwrap();
    assert_eq!(m.category(), Category::Jobs);
}

#[test]
fn handle_unauthenticated_ignores_status_code() {
    let p = Poller::new(Category::Status, "http://h");
    let m = p.handle(ok_reply(404, "{\"error\":\"x\"}")).ok().unwrap();
    assert_eq!(m.into_document(), doc("{\"error\":\"x\"}"));
}

#[test]
fn failure_then_success_updates_field() {
    let p = Poller::new(Category::Stats, "http://h");
    let mut s = Snapshot::new("t".to_string());
    for outcome in [Err("timeout".to_string()), ok_reply(200, "<html>"), ok_reply(200, "{\"n\":7}")] {
        if let Ok(m) = p.handle(outcome) {
            s.apply(m);
        }
    }
    assert_eq!(s.stats, doc("{\"n\":7}"));
}

#[test]
fn credential_refresh_policy_at_ttl_boundary() {
    assert_eq!(TOKEN_TTL_SECS, 3600);
    let u = Credential::unset();
    assert!(u.needs_refresh(0));
    assert!(u.usable_token(0).is_none());
    let c = Credential { token: Some("tok".to_string()), fetched_at: 1000 };
    assert!(!c.needs_refresh(1000));
    assert!(!c.needs_refresh(4600));
    assert!(c.needs_refresh(4601));
    assert!(!c.needs_refresh(10));
    assert_eq!(c.usable_token(4600), Some("tok".to_string()));
    assert_eq!(c.usable_token(4601), None);
}

#[test]
fn complete_refresh_success_and_failure() {
    let mut c = Credential { token: Some("old".to_string()), fetched_at: 5 };
    let r = c.complete_refresh(Err(AuthError::MissingToken), 9000);
    assert_eq!(r, Err(AuthError::MissingToken));
    assert_eq!(c.token, Some("old".to_string()));
    assert_eq!(c.fetched_at, 5);
    let r = c.complete_refresh(Ok("new".to_string()), 9000);
    assert_eq!(r, Ok(()));
    assert_eq!(c.token, Some("new".to_string()));
    assert_eq!(c.fetched_at, 9000);
}

#[test]
fn token_form_fields() {
    let cfg = OidcConfig {
        client_id: "cid".to_string(),
        client_secret: "SECRET-REDACTED".to_string(),
        token_url: "https://idp/token".to_string(),
        username: "u".to_string(),
        password: "p".to_string(),
    };
    let f = cfg.token_form();
    let expect = [
        ("client_id", "cid"),
        ("client_secret", "SECRET-REDACTED"),
        ("grant_type", "password"),
        ("username", "u"),
        ("password", "p"),
    ];
    assert_eq!(f.len(), 5);
    for (i, (k, v)) in expect.iter().enumerate() {
        assert_eq!(f[i].0, *k);
        assert_eq!(f[i].1, *v);
    }
}

#[test]
fn token_reply_errors_and_success() {
    assert_eq!(token_from_reply(Err("dns".to_string())), Err(AuthError::Network("dns".to_string())));
    assert_eq!(
        token_from_reply(ok_reply(401, "invalid_grant")),
        Err(AuthError::Rejected("invalid_grant".to_string()))
    );
    assert_eq!(token_from_reply(ok_reply(200, "nope")), Err(AuthError::Malformed));
    assert_eq!(token_from_reply(ok_reply(200, "{\"token\":\"x\"}")), Err(AuthError::MissingToken));
    assert_eq!(token_from_reply(ok_reply(200, "{\"access_token\":5}")), Err(AuthError::MissingToken));
    assert_eq!(token_from_reply(ok_reply(200, "[\"access_token\"]")), Err(AuthError::MissingToken));
    assert_eq!(
        token_from_reply(ok_reply(200, "{\"access_token\":\"abc.def\",\"expires_in\":300}")),
        Ok("abc.def".to_string())
    );
}

#[test]
fn invalid_credentials_leave_jobs_stale() {
    let pollers: Vec<Poller> = ALL.iter().map(|c| Poller::new(*c, "http://h")).collect();
    let mut cred = Credential::unset();
    let mut s = Snapshot::new("t".to_string());
    let initial_jobs = s.jobs.clone();
    for tick in 0..5u64 {
        let now = 1_000 + tick * 4_000;
        for p in &pollers {
            if p.authenticated {
                if cred.needs_refresh(now) {
                    let got = token_from_reply(ok_reply(401, "bad"));
                    if cred.complete_refresh(got, now).is_err() {
                        continue;
                    }
                }
                assert!(cred.usable_token(now).is_none());
            } else {
                let body = format!("{{\"tick\":{}}}", tick);
                if let Ok(m) = p.handle(ok_reply(200, &body)) {
                    s.apply(m);
                }
            }
        }
    }
    assert_eq!(s.jobs, initial_jobs);
    assert_eq!(s.status, doc("{\"tick\":4}"));
    assert_eq!(s.capacities, doc("{\"tick\":4}"));
    assert_eq!(s.stats, doc("{\"tick\":4}"));
    assert!(cred.token.is_none());
}
