use kaserve::config::{create_config_from_cli, is_white_space, parse_header, trim, Cli, Config, HeaderFormatError, ServeConfig};
use kaserve::dispatch::{Dispatcher, Gate};
use kaserve::acl::{AccessCondition, AccessRule, Acl};
use kaserve::auth::BasicAuthenticator;
use kaserve::events::{RecordType, Role};
use kaserve::metrics::Metrics;
use kaserve::pattern::Matcher;
use kaserve::request::Request;
use kaserve::rewrite::{RewriteRule, Rewriter};
use kaserve::routing::{Route, Router};
use kaserve::server::{build_error_response, build_success_response, decimal, file_response, FileService};

fn big_css() -> Vec<u8> {
    (0..3000).map(|i| b"body{}"[i % 6]).collect()
}

#[test]
fn success_response_headers() {
    let mut config = ServeConfig::default();
    config.cors = true;
    let file = file_response("/srv/site.css", big_css(), Some(0));
    assert_eq!(file.mime, "text/css");
    let r = build_success_response(&config, Some("gzip"), file);
    assert_eq!(r.status(), 200);
    assert_eq!(r.header_value("Content-Type"), Some("text/css".to_string()));
    assert_eq!(r.header_value("content-encoding"), Some("gzip".to_string()));
    assert_eq!(r.header_value("cache-control"), Some("public, max-age=3600".to_string()));
    assert_eq!(r.header_value("last-modified"), Some("Thu, 01 Jan 1970 00:00:00 GMT".to_string()));
    assert_eq!(r.header_value("access-control-allow-origin"), Some("*".to_string()));
    assert_eq!(r.header_value("access-control-allow-methods"), Some("GET, HEAD, OPTIONS".to_string()));
    assert_eq!(r.header_value("access-control-allow-headers"), Some("*".to_string()));
    assert!(r.body().len() < 3000);
}

#[test]
fn custom_headers_override_automatic_ones() {
    let mut config = ServeConfig::default();
    config.headers = vec![
        ("Cache-Control".to_string(), "no-store".to_string()),
        ("X-Frame-Options".to_string(), "DENY".to_string()),
    ];
    let file = file_response("page.html", b"<p>hi</p>".to_vec(), None);
    let r = build_success_response(&config, None, file);
    assert_eq!(r.header_value("cache-control"), Some("no-store".to_string()));
    assert_eq!(r.header_value("x-frame-options"), Some("DENY".to_string()));
    assert_eq!(r.header_value("content-type"), Some("text/html".to_string()));
    assert_eq!(r.header_value("content-encoding"), None);
    assert_eq!(r.body().as_slice(), b"<p>hi</p>");
}

#[test]
fn no_cache_headers_for_html_or_when_disabled() {
    let config = ServeConfig::default();
    let r = build_success_response(&config, None, file_response("a.html", vec![1], Some(5)));
    assert_eq!(r.header_value("cache-control"), None);
    assert_eq!(r.header_value("last-modified"), None);
    let mut off = ServeConfig::default();
    off.cache = false;
    let r = build_success_response(&off, None, file_response("a.png", vec![1], Some(5)));
    assert_eq!(r.header_value("cache-control"), None);
    assert_eq!(r.header_value("access-control-allow-origin"), None);
}

#[test]
fn unknown_extension_is_octet_stream() {
    let f = file_response("/srv/blob.qqqzz", vec![], None);
    assert_eq!(f.mime, "application/octet-stream");
}

#[test]
fn error_page() {
    let mut config = ServeConfig::default();
    let r = build_error_response(404, "not here", &config);
    assert_eq!(r.status(), 404);
    assert_eq!(r.body().as_slice(), b"<h1>404 Error</h1><p>not here</p>");
    assert_eq!(r.header_value("access-control-allow-origin"), None);
    config.cors = true;
    let r = build_error_response(500, "boom", &config);
    assert_eq!(r.header_value("access-control-allow-origin"), Some("*".to_string()));
    assert_eq!(decimal(0), "0");
    assert_eq!(decimal(18446744073709551615), "18446744073709551615");
}

#[test]
fn file_service_paths() {
    let mut config = ServeConfig::default();
    config.directory = "/srv".to_string();
    config.spa = true;
    let svc = FileService::new(config);
    assert_eq!(svc.resolve_file_path("/", false), "/srv/index.html");
    assert_eq!(svc.resolve_file_path("/docs", true), "/srv/docs/index.html");
    assert_eq!(svc.resolve_file_path("/../a.txt", false), "/srv/a.txt");
    assert_eq!(svc.fallback_to_spa_if_enabled(), Some("/srv/index.html".to_string()));
    assert_eq!(svc.candidate_path("/x/../y"), "/srv/x/y");
}

#[test]
fn header_options() {
    assert_eq!(parse_header(" X-A : 1:2 ").unwrap(), ("X-A".to_string(), "1:2".to_string()));
    assert_eq!(parse_header("nocolon"), Err(HeaderFormatError::MissingSeparator));
    assert_eq!(trim("\u{3000} a b\t\n"), "a b");
    assert_eq!(parse_header("X-A: b:c").unwrap(), ("X-A".to_string(), "b:c".to_string()));
    assert_eq!(parse_header(" K :V ").unwrap(), ("K".to_string(), "V".to_string()));
    assert_eq!(parse_header(":").unwrap(), (String::new(), String::new()));
}

#[test]
fn white_space_agrees_with_std() {
    for c in (0u32..=0x10FFFF).filter_map(char::from_u32) {
        assert_eq!(is_white_space(c), c.is_whitespace(), "{:?}", c);
    }
}

#[test]
fn cli_options_become_settings() {
    let cli = Cli {
        port: 8080,
        host: "0.0.0.0".to_string(),
        directory: None,
        spa: true,
        no_compression: true,
        no_cache: false,
        cors: true,
        header: vec![("X".to_string(), "1".to_string())],
    };
    let c = create_config_from_cli(cli);
    assert_eq!(c.port, 8080);
    assert_eq!(c.directory, ".");
    assert!(c.spa && !c.compression && c.cache && c.cors);
    assert_eq!(c.headers, vec![("X".to_string(), "1".to_string())]);
}

#[test]
fn default_configuration() {
    let c = Config::default();
    assert_eq!(c.server.port, 8000);
    assert!(c.server.workers.unwrap() >= 1);
    assert_eq!(c.static_files.default_file.as_deref(), Some("index.html"));
    let s = ServeConfig::default();
    assert_eq!(s.port, 3000);
    assert!(s.compression && s.cache && !s.cors && !s.spa);
}

#[test]
fn metrics_count_and_report() {
    let mut m = Metrics::new();
    m.record_request(100);
    m.record_response(200, 10);
    m.record_response(404, 5);
    m.record_response(503, 1);
    m.record_response(302, 0);
    m.record_response(99, 0);
    assert_eq!(m.get_requests(), 1);
    assert_eq!(m.get_responses(), 5);
    assert_eq!((m.get_status_2xx(), m.get_status_3xx(), m.get_status_4xx(), m.get_status_5xx()), (1, 1, 1, 1));
    assert_eq!(m.get_bytes_sent(), 16);
    assert_eq!(m.get_bytes_received(), 100);
    let report = m.report_for(90061);
    assert_eq!(
        report,
        "Server Metrics:\n - Uptime: 1d 1h 1m 1s\n - Requests: 1\n - Responses: 5\n - 2xx Responses: 1\n - 3xx Responses: 1\n - 4xx Responses: 1\n - 5xx Responses: 1\n - Bytes Sent: 16\n - Bytes Received: 100\n"
    );
    assert!(m.get_report().starts_with("Server Metrics:\n - Uptime: 0d 0h 0m "));
}

#[test]
fn wire_codes() {
    assert_eq!(RecordType::BeginRequest.code(), 1);
    assert_eq!(RecordType::UnknownType.code(), 11);
    assert_eq!(Role::Filter.code(), 3);
}

fn dispatcher(acl: Acl, auth: Option<BasicAuthenticator>) -> Dispatcher {
    let mut rw = Rewriter::new();
    rw.add_rule(RewriteRule::new("^/old$", "/new").unwrap().redirect(true, 301));
    rw.add_rule(RewriteRule::new("^/blog/(.*)$", "/posts/$1").unwrap());
    let mut router = Router::empty();
    router.add_route(Route::new("/cgi-bin/*", "cgi").unwrap());
    router.add_route(Route::new("/*", "static").unwrap());
    Dispatcher::new(rw, router, acl, auth, "/srv/default")
}

#[test]
fn dispatch_redirects_and_serves() {
    let d = dispatcher(Acl::new(true), None);
    match d.dispatch(&Request::get("/old"), None) {
        Gate::Respond(r) => {
            assert_eq!(r.status(), 301);
            assert_eq!(r.header_value("Location"), Some("/new".to_string()));
        }
        _ => panic!("expected a redirect"),
    }
    match d.dispatch(&Request::get("/blog/x.html"), None) {
        Gate::Serve { root, path } => {
            assert_eq!(root, "/srv/default");
            assert_eq!(path, "/posts/x.html");
        }
        _ => panic!("expected static serving"),
    }
    match d.dispatch(&Request::get("/cgi-bin/run"), None) {
        Gate::Respond(r) => assert_eq!(r.status(), 500),
        _ => panic!("expected an error"),
    }
}

#[test]
fn dispatch_gates_access_and_credentials() {
    let mut acl = Acl::new(true);
    acl.add_rule(AccessRule::Deny(AccessCondition::Path(Matcher::new("^/private").unwrap())));
    let mut auth = BasicAuthenticator::new("r");
    auth.add_user("u", "p");
    let d = dispatcher(acl, Some(auth));
    match d.dispatch(&Request::get("/private/x"), None) {
        Gate::Respond(r) => assert_eq!(r.status(), 403),
        _ => panic!("expected denial"),
    }
    match d.dispatch(&Request::get("/public"), None) {
        Gate::Respond(r) => assert_eq!(r.status(), 401),
        _ => panic!("expected a challenge"),
    }
    let mut req = Request::get("/public");
    req.authorization = Some(format!("Basic {}", base64::encode("u:p")));
    assert!(matches!(d.dispatch(&req, None), Gate::Serve { .. }));
}
