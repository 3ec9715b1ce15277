use webserver_rs::assets::{common_assets, favicon_ico, MemoryStream};
use webserver_rs::authorization::{
    expire_time, expire_time_at, gen_token, span_seconds, AuthGuard, AuthState, ExpireSpan, GuardAction,
};
use webserver_rs::config::{Config, Database, Log};
use webserver_rs::db::{get, PoolError};
use webserver_rs::db_pool::{get_db_pool, ConnectionPool};
use webserver_rs::error_catch::{self, Option2AnyHttpResult, Result2AnyHttpResult};
use webserver_rs::http_error::{AnyHttpError, HttpErrorKind};
use webserver_rs::log::{level_map, log_plan, parse_level, utc_offset, LogLevel};
use webserver_rs::route::{build_cros, hello_reply, hello_text, login_reply, router_path, CorsMethod, RouteStyle};
use webserver_rs::server::site_layout;
use webserver_rs::status::resolve_status_code;

fn html(text: &str) -> HttpErrorKind {
    HttpErrorKind::Html(text.to_string())
}

fn catch_html(text: &str) -> error_catch::HttpErrorKind {
    error_catch::HttpErrorKind::Html(text.to_string())
}

fn json_object(pairs: &[(&str, serde_json::Value)]) -> serde_json::Value {
    let mut map = serde_json::Map::new();
    for (key, value) in pairs {
        map.insert(key.to_string(), value.clone());
    }
    serde_json::Value::Object(map)
}

fn claims() -> String {
    json_object(&[
        ("username", serde_json::Value::from("a")),
        ("exp", serde_json::Value::from(4_000_000_000i64)),
    ])
    .to_string()
}

fn drain(mut stream: MemoryStream) -> Vec<Vec<u8>> {
    let mut out = Vec::new();
    while let Some(chunk) = stream.next_chunk() {
        out.push(chunk);
    }
    out
}

fn log_config(level: &str, utcoffset: [i8; 3]) -> Log {
    Log {
        dir: "logs".to_string(),
        prefix: "server".to_string(),
        utcoffset,
        level: level.to_string(),
    }
}

fn sample_config(route_root: &str) -> Config {
    Config {
        host: "0.0.0.0:8080".to_string(),
        pub_dir: "./public".to_string(),
        log: log_config("info", [8, 0, 0]),
        route_root: route_root.to_string(),
        secret_key: "secret".to_string(),
        assets_listing: true,
        database: Some(vec![Database { name: "main".to_string(), protocol: "sqlite::memory:".to_string() }]),
    }
}

#[test]
fn level_names_map_to_levels() {
    assert_eq!(level_map("trace"), LogLevel::Trace);
    assert_eq!(level_map("debug"), LogLevel::Debug);
    assert_eq!(level_map("info"), LogLevel::Info);
    assert_eq!(level_map("warn"), LogLevel::Warn);
    assert_eq!(level_map("error"), LogLevel::Error);
}

#[test]
fn unknown_level_names_are_refused() {
    assert_eq!(parse_level("INFO"), None);
    assert_eq!(parse_level("verbose"), None);
    assert_eq!(parse_level(""), None);
    assert_eq!(parse_level("warn"), Some(LogLevel::Warn));
}

#[test]
fn utc_offsets_follow_time() {
    assert_eq!(utc_offset(8, 0, 0), Some((8, 0, 0)));
    assert_eq!(utc_offset(1, -2, -3), Some((1, 2, 3)));
    assert_eq!(utc_offset(-1, 2, 3), Some((-1, -2, -3)));
    assert_eq!(utc_offset(0, -2, 3), Some((0, -2, -3)));
    assert_eq!(utc_offset(25, 59, 59), Some((25, 59, 59)));
    assert_eq!(utc_offset(26, 0, 0), None);
    assert_eq!(utc_offset(0, 60, 0), None);
    assert_eq!(utc_offset(0, 0, -60), None);
}

#[test]
fn log_plan_reads_the_config() {
    let plan = log_plan(&log_config("warn", [-5, 30, 0]));
    assert_eq!(plan.offset, (-5, -30, 0));
    assert_eq!(plan.level, LogLevel::Warn);
    assert_eq!(plan.dir, "logs");
    assert_eq!(plan.prefix, "server");
}

#[test]
fn status_codes_resolve_as_http_does() {
    assert_eq!(resolve_status_code(404), 404);
    assert_eq!(resolve_status_code(100), 100);
    assert_eq!(resolve_status_code(999), 999);
    assert_eq!(resolve_status_code(99), 400);
    assert_eq!(resolve_status_code(1000), 400);
    assert_eq!(resolve_status_code(0), 400);
}

#[test]
fn http_error_keeps_a_valid_status() {
    let err = AnyHttpError::new(404, html("missing"));
    assert_eq!(err.status(), Some(404));
    let (code, kind) = err.into_response();
    assert_eq!(code, 404);
    assert!(matches!(kind, HttpErrorKind::Html(ref t) if t == "missing"));
}

#[test]
fn http_error_with_a_bad_status_becomes_400() {
    let err = AnyHttpError::new(1000, html("oops"));
    assert_eq!(err.status(), Some(400));
    assert_eq!(err.into_response().0, 400);
}

#[test]
fn http_error_without_status_is_answered_400() {
    let err = AnyHttpError::new_msg(HttpErrorKind::Json(json_object(&[("msg", serde_json::Value::from("x"))])));
    assert_eq!(err.status(), None);
    let (code, kind) = err.into_response();
    assert_eq!(code, 400);
    match kind {
        HttpErrorKind::Json(v) => assert_eq!(v["msg"], "x"),
        HttpErrorKind::Html(_) => panic!("the message changed kind"),
    }
}

#[test]
fn catch_error_resolves_its_status() {
    assert_eq!(error_catch::AnyHttpError::new(401, catch_html("a")).status(), 401);
    assert_eq!(error_catch::AnyHttpError::new(42, catch_html("a")).status(), 400);
}

#[test]
fn option_to_result_passes_values_and_builds_errors() {
    let ok = Some(5).to_result(|| (404, catch_html("none")));
    assert!(matches!(ok, Ok(5)));
    let mut calls = 0;
    let err = None::<u8>.to_result(|| {
        calls += 1;
        (403, catch_html("none"))
    });
    assert_eq!(calls, 1);
    match err {
        Err(e) => {
            let (code, kind) = e.into_response();
            assert_eq!(code, 403);
            assert!(matches!(kind, error_catch::HttpErrorKind::Html(ref t) if t == "none"));
        }
        Ok(_) => panic!("None became a value"),
    }
}

#[test]
fn result_to_result_hands_over_the_error_text() {
    let ok: Result<u8, String> = Ok(1);
    assert!(matches!(ok.to_result(|_| (500, catch_html(""))), Ok(1)));
    let bad: Result<u8, String> = Err("broken".to_string());
    match bad.to_result(|text| (500, catch_html(&format!("<b>{text}</b>")))) {
        Err(e) => {
            assert_eq!(e.status(), 500);
            let (_, kind) = e.into_response();
            assert!(matches!(kind, error_catch::HttpErrorKind::Html(ref t) if t == "<b>broken</b>"));
        }
        Ok(_) => panic!("an error became a value"),
    }
    let odd: Result<u8, i32> = Err(7);
    match odd.to_result(|text| (2000, catch_html(&text))) {
        Err(e) => assert_eq!(e.status(), 400),
        Ok(_) => panic!("an error became a value"),
    }
}

#[test]
fn memory_stream_cuts_data_into_chunks() {
    let chunks = drain(MemoryStream::new(vec![1, 2, 3, 4, 5], 2));
    assert_eq!(chunks, vec![vec![1, 2], vec![3, 4], vec![5]]);
    let exact = drain(MemoryStream::new(vec![1, 2, 3, 4], 2));
    assert_eq!(exact, vec![vec![1, 2], vec![3, 4]]);
    let one = drain(MemoryStream::new(vec![9, 8, 7], 200));
    assert_eq!(one, vec![vec![9, 8, 7]]);
    assert!(drain(MemoryStream::new(Vec::new(), 3)).is_empty());
}

#[test]
fn memory_stream_hands_back_the_data() {
    let data: Vec<u8> = (0..=255u8).cycle().take(1000).collect();
    let chunks = drain(MemoryStream::new(data.clone(), 200));
    assert_eq!(chunks.len(), 5);
    assert_eq!(chunks.concat(), data);
    let mut stream = MemoryStream::new(vec![1], 1);
    assert_eq!(stream.next_chunk(), Some(vec![1]));
    assert_eq!(stream.next_chunk(), None);
    assert_eq!(stream.next_chunk(), None);
}

#[test]
fn pool_reads_what_was_written() {
    let mut pool = ConnectionPool::new();
    assert_eq!(pool.get("main"), None);
    pool.insert("main".to_string(), 1);
    pool.insert("logs".to_string(), 2);
    assert_eq!(pool.get("main"), Some(&1));
    assert_eq!(pool.get("logs"), Some(&2));
    pool.insert("main".to_string(), 3);
    assert_eq!(pool.get("main"), Some(&3));
    assert_eq!(pool.get("logs"), Some(&2));
    assert_eq!(pool.get("other"), None);
}

#[test]
fn get_db_pool_reports_missing_pool_and_names() {
    let mut pool = ConnectionPool::new();
    pool.insert("main".to_string(), 10);
    let found = get_db_pool(Some(&pool), &"main".to_string(), || {
        error_catch::AnyHttpError::new(500, catch_html("no db"))
    });
    assert!(matches!(found, Ok(&10)));
    let missing = get_db_pool(Some(&pool), &"other".to_string(), || {
        error_catch::AnyHttpError::new(500, catch_html("no db"))
    });
    assert!(matches!(missing, Err(ref e) if e.status() == 500));
    let no_pool = get_db_pool::<u8, _>(None, &"main".to_string(), || {
        error_catch::AnyHttpError::new(503, catch_html("down"))
    });
    assert!(matches!(no_pool, Err(ref e) if e.status() == 503));
}

#[test]
fn db_get_names_the_missing_connection() {
    let mut pool = ConnectionPool::new();
    pool.insert("main".to_string(), 'x');
    assert!(matches!(get(Some(&pool), "main"), Ok(&'x')));
    match get(Some(&pool), "users") {
        Err(e) => {
            assert!(matches!(e, PoolError::NotFound(ref k) if k == "users"));
            assert_eq!(e.message(), "`users` is not found in Database Connection Pool");
        }
        Ok(_) => panic!("found a name that was never inserted"),
    }
    match get::<char>(None, "main") {
        Err(e) => {
            assert!(matches!(e, PoolError::NotInitialized));
            assert_eq!(
                e.message(),
                "Database Connection Pool wasn't initialized when the program startup"
            );
        }
        Ok(_) => panic!("found a connection without a pool"),
    }
}

#[test]
fn guard_lets_authorized_requests_through() {
    let guard = AuthGuard::new(|_state| error_catch::AnyHttpError::new(418, catch_html("no")));
    assert!(matches!(guard.decide(AuthState::Authorized), GuardAction::CallNext));
}

#[test]
fn guard_answers_401_and_403_with_the_message() {
    let guard = AuthGuard::new(|state| {
        let text = if state == AuthState::Unauthorized { "who are you" } else { "not you" };
        error_catch::AnyHttpError::new(418, catch_html(text))
    });
    match guard.decide(AuthState::Unauthorized) {
        GuardAction::Reject(code, error_catch::HttpErrorKind::Html(t)) => {
            assert_eq!(code, 401);
            assert_eq!(t, "who are you");
        }
        _ => panic!("an unauthorized request was not refused with its message"),
    }
    match guard.decide(AuthState::Forbidden) {
        GuardAction::Reject(code, error_catch::HttpErrorKind::Html(t)) => {
            assert_eq!(code, 403);
            assert_eq!(t, "not you");
        }
        _ => panic!("a forbidden request was not refused with its message"),
    }
}

#[test]
fn spans_convert_to_seconds() {
    assert_eq!(span_seconds(ExpireSpan::Days(1)), Some(86400));
    assert_eq!(span_seconds(ExpireSpan::Weeks(2)), Some(1_209_600));
    assert_eq!(span_seconds(ExpireSpan::Hours(-3)), Some(-10800));
    assert_eq!(span_seconds(ExpireSpan::Minutes(5)), Some(300));
    assert_eq!(span_seconds(ExpireSpan::Seconds(i64::MAX)), Some(i64::MAX));
    assert_eq!(span_seconds(ExpireSpan::Days(i64::MAX)), None);
}

#[test]
fn expire_time_at_adds_the_span() {
    assert_eq!(expire_time_at(0, ExpireSpan::Days(1)), Some(86400));
    assert_eq!(expire_time_at(1_000_000_000, ExpireSpan::Hours(2)), Some(1_000_007_200));
    assert_eq!(expire_time_at(1_000_000_000, ExpireSpan::Minutes(-1)), Some(999_999_940));
    assert_eq!(expire_time_at(253_402_300_799, ExpireSpan::Seconds(0)), Some(253_402_300_799));
    assert_eq!(expire_time_at(253_402_300_799, ExpireSpan::Seconds(1)), None);
    assert_eq!(expire_time_at(0, ExpireSpan::Days(i64::MAX)), None);
    assert_eq!(expire_time_at(-377_705_116_800, ExpireSpan::Seconds(0)), Some(-377_705_116_800));
    assert_eq!(expire_time_at(-377_705_116_800, ExpireSpan::Seconds(-1)), None);
    assert_eq!(expire_time_at(-377_705_116_801, ExpireSpan::Seconds(10)), None);
    assert_eq!(expire_time_at(253_402_300_800, ExpireSpan::Seconds(-10)), None);
}

#[test]
fn expire_time_lies_ahead_of_now() {
    let now = std::time::SystemTime::now()
        .duration_since(std::time::UNIX_EPOCH)
        .unwrap()
        .as_secs() as i64;
    let exp = expire_time(ExpireSpan::Days(1)).unwrap();
    assert!(exp >= now + 86400 - 5 && exp <= now + 86400 + 5);
    assert_eq!(expire_time(ExpireSpan::Weeks(i64::MAX)), None);
    assert_eq!(expire_time(ExpireSpan::Seconds(i64::MAX)), None);
}

#[test]
fn tokens_are_signed_jwts() {
    let token = gen_token("secret".to_string(), &claims()).unwrap();
    let parts: Vec<&str> = token.split('.').collect();
    assert_eq!(parts.len(), 3);
    assert_eq!(parts[0], "eyJ0eXAiOiJKV1QiLCJhbGciOiJIUzI1NiJ9");
    let again = gen_token("secret".to_string(), &claims()).unwrap();
    assert_eq!(token, again);
    let other = gen_token("other".to_string(), &claims()).unwrap();
    assert_ne!(token, other);
    assert_eq!(parts[1], "eyJ1c2VybmFtZSI6ImEiLCJleHAiOjQwMDAwMDAwMDB9");
    assert!(gen_token("secret".to_string(), "{not json").is_err());
    let duplicate = gen_token("secret".to_string(), r#"{"a":1,"a":2}"#).unwrap();
    assert_eq!(duplicate.split('.').nth(1).unwrap(), "eyJhIjoxLCJhIjoyfQ");
    let big = gen_token("secret".to_string(), r#"{"n":123456789012345678901234567890}"#).unwrap();
    assert_eq!(big.split('.').nth(1).unwrap(), "eyJuIjoxMjM0NTY3ODkwMTIzNDU2Nzg5MDEyMzQ1Njc4OTB9");
}

#[test]
fn router_paths_follow_the_macro_forms() {
    let controller = vec!["ab".to_string(), "shop".to_string(), "show".to_string()];
    assert_eq!(router_path(&RouteStyle::Handler, &controller, None), "show");
    assert_eq!(router_path(&RouteStyle::FullPath, &controller, None), "ab/shop/show");
    assert_eq!(router_path(&RouteStyle::FullPath, &controller, Some("path")), "ab/shop/show/<**path>");
    let prefix = RouteStyle::Prefixed(vec!["b".to_string(), "c".to_string()]);
    assert_eq!(router_path(&prefix, &controller, Some("path")), "b/c/show/<**path>");
    assert_eq!(router_path(&RouteStyle::Handler, &vec!["hello".to_string()], Some("rest")), "hello/<**rest>");
    let user = RouteStyle::Prefixed(vec!["user".to_string()]);
    assert_eq!(router_path(&user, &vec!["login".to_string()], None), "user/login");
}

#[test]
fn cors_policy_allows_five_methods() {
    let policy = build_cros("*");
    assert_eq!(policy.allow_origin, "*");
    assert_eq!(
        policy.allow_methods,
        vec![CorsMethod::Get, CorsMethod::Post, CorsMethod::Delete, CorsMethod::Put, CorsMethod::Patch]
    );
}

#[test]
fn hello_greets_the_id() {
    assert_eq!(hello_text("world"), "hello, world");
    assert_eq!(hello_text(""), "hello, ");
}

#[test]
fn assets_are_served_under_public() {
    let route = common_assets("./static".to_string(), false);
    assert_eq!(route.path, "public/<**path>");
    assert_eq!(route.dir, "./static");
    assert_eq!(route.default_file, "index.html");
    assert!(!route.listing);
    assert_eq!(favicon_ico(), ("favicon.ico".to_string(), "./favicon.ico".to_string()));
}

#[test]
fn site_layout_mounts_under_the_root() {
    let top = site_layout(&sample_config(""));
    assert_eq!(top.root_path, None);
    assert_eq!(top.assets.dir, "./public");
    assert!(top.assets.listing);
    assert_eq!(top.host, "0.0.0.0:8080");
    let nested = site_layout(&sample_config("api"));
    assert_eq!(nested.root_path, Some("api".to_string()));
    assert_eq!(nested.favicon_path, "favicon.ico");
    assert_eq!(nested.pub_dir, "./public");
}

#[test]
fn hello_reply_greets_or_refuses() {
    assert_eq!(hello_reply(Some("x".to_string())), Ok("hello, x".to_string()));
    assert_eq!(hello_reply(None), Err((400, "id not found".to_string())));
}

#[test]
fn login_reply_hands_out_the_token_or_the_failure() {
    assert_eq!(login_reply(Some(Ok("t.o.k".to_string()))), Ok("t.o.k".to_string()));
    assert_eq!(login_reply(None), Err((400, "config not found".to_string())));
    assert_eq!(login_reply(Some(Err("bad key".to_string()))), Err((400, "bad key".to_string())));
}

#[test]
fn pool_from_entries_keeps_the_last_of_a_name() {
    let pool = ConnectionPool::from_entries(vec![
        ("main".to_string(), 1),
        ("logs".to_string(), 2),
        ("main".to_string(), 3),
    ]);
    assert_eq!(pool.get("main"), Some(&3));
    assert_eq!(pool.get("logs"), Some(&2));
    assert_eq!(pool.get("none"), None);
    assert!(std::ptr::eq(pool.get("main").unwrap(), pool.get("main").unwrap()));
}
