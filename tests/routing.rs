use kaserve::config::{Config, VirtualHostConfig};
use kaserve::routing::{HandlerType, Route, Router, RouterError, VirtualHost};

fn custom_name(h: &HandlerType) -> Option<String> {
    match h {
        HandlerType::Custom(n) => Some(n.clone()),
        _ => None,
    }
}

#[test]
fn specific_route_listed_first_wins() {
    let mut router = Router::empty();
    router.add_route(Route::new("/api/*", "api").unwrap());
    router.add_route(Route::new("/*", "static").unwrap());
    let route = router.route(None, "/api/x").unwrap();
    assert_eq!(route.pattern(), "/api/*");
    assert_eq!(custom_name(route.handler_type()), Some("api".to_string()));
    let other = router.route(None, "/index.html").unwrap();
    assert!(matches!(other.handler_type(), HandlerType::StaticFile));
}

#[test]
fn catch_all_listed_first_shadows_specific_route() {
    let mut router = Router::empty();
    router.add_route(Route::new("/*", "static").unwrap());
    router.add_route(Route::new("/api/*", "api").unwrap());
    let route = router.route(None, "/api/x").unwrap();
    assert!(matches!(route.handler_type(), HandlerType::StaticFile));
}

#[test]
fn route_matches_whole_path_only() {
    let route = Route::new("/api", "static").unwrap();
    assert!(route.matches("/api"));
    assert!(!route.matches("/api/x"));
    assert!(!route.matches("/v1/api"));
}

#[test]
fn route_pattern_characters_are_literal() {
    let route = Route::new("/a.b/*", "static").unwrap();
    assert!(route.matches("/a.b/c"));
    assert!(!route.matches("/axb/c"));
    let plus = Route::new("/c++/*", "static").unwrap();
    assert!(plus.matches("/c++/x"));
    assert!(!plus.matches("/ccc/x"));
}

#[test]
fn no_route_is_an_error() {
    let mut router = Router::empty();
    router.add_route(Route::new("/api/*", "api").unwrap());
    assert_eq!(router.route(None, "/other").err(), Some(RouterError::NoMatchingRoute));
}

#[test]
fn wildcard_host_matches_one_label() {
    let vhost = VirtualHost::new("*.example.com", "/srv/www").unwrap();
    assert!(vhost.matches("a.example.com"));
    assert!(!vhost.matches("a.b.example.com"));
    assert!(!vhost.matches("example.com"));
}

#[test]
fn host_matching_ignores_case() {
    let vhost = VirtualHost::new("www.example.com", "/srv/www").unwrap();
    assert!(vhost.matches("WWW.Example.COM"));
    assert!(!vhost.matches("wwwxexample.com"));
}

#[test]
fn virtual_host_routes_come_before_defaults() {
    let mut router = Router::empty();
    let mut vhost = VirtualHost::new("api.example.com", "/srv/api").unwrap();
    vhost.add_route(Route::new("/v1/*", "proxy").unwrap());
    router.add_virtual_host(vhost);
    router.add_route(Route::new("/v1/*", "cgi").unwrap());
    let from_host = router.route(Some("api.example.com:8080"), "/v1/users").unwrap();
    assert!(matches!(from_host.handler_type(), HandlerType::StaticFile));
    let other_host = router.route(Some("www.example.com"), "/v1/users").unwrap();
    assert!(matches!(other_host.handler_type(), HandlerType::CGI));
    let no_host = router.route(None, "/v1/users").unwrap();
    assert!(matches!(no_host.handler_type(), HandlerType::CGI));
}

#[test]
fn resolve_strips_port_and_picks_first_host() {
    let mut router = Router::empty();
    router.add_virtual_host(VirtualHost::new("*.example.com", "/srv/first").unwrap());
    router.add_virtual_host(VirtualHost::new("a.example.com", "/srv/second").unwrap());
    let v = router.resolve(Some("a.example.com:443")).unwrap();
    assert_eq!(v.document_root(), "/srv/first");
    assert_eq!(v.hostname(), "*.example.com");
    assert!(router.resolve(Some("example.org")).is_none());
    assert!(router.resolve(None).is_none());
}

#[test]
fn virtual_host_has_static_catch_all() {
    let vhost = VirtualHost::new("example.com", "/srv").unwrap();
    let route = vhost.match_route("/anything/here").unwrap();
    assert_eq!(route.pattern(), "/*");
    assert!(matches!(route.handler_type(), HandlerType::StaticFile));
}

#[test]
fn router_from_config_builds_hosts() {
    let mut config = Config::default();
    config.virtual_hosts = Some(vec![VirtualHostConfig {
        host: "blog.example.com".to_string(),
        root_dir: "/srv/blog".to_string(),
        tls: None,
    }]);
    let router = Router::new(&config).unwrap();
    let v = router.resolve(Some("blog.example.com")).unwrap();
    assert_eq!(v.document_root(), "/srv/blog");
    let route = router.route(Some("other.org"), "/x").unwrap();
    assert_eq!(route.pattern(), "/*");
}

#[test]
fn handler_names_round_trip() {
    for name in ["static", "fastcgi", "cgi", "proxy", "php"] {
        let h = HandlerType::from_str(name).unwrap();
        assert_eq!(h.as_str(), name);
    }
    assert!(matches!(HandlerType::from_str("fastcgi"), Some(HandlerType::FastCGI)));
    assert_eq!(custom_name(&HandlerType::from_str("php").unwrap()), Some("php".to_string()));
}

#[test]
fn route_params_are_kept() {
    let route = Route::new("/app/*", "fastcgi").unwrap().with_params("127.0.0.1:9000");
    assert_eq!(route.handler_params(), Some("127.0.0.1:9000"));
    assert!(Route::new("/x", "static").unwrap().handler_params().is_none());
}

#[test]
fn router_error_messages() {
    assert_eq!(RouterError::NoMatchingRoute.message(), "No matching route found");
    assert_eq!(RouterError::InvalidRoutePattern.message(), "Invalid route pattern");
}

#[test]
fn default_config_router_has_catch_all_only() {
    let router = Router::new(&Config::default()).unwrap();
    assert!(router.resolve(Some("example.com")).is_none());
    let route = router.route(None, "/any/path").unwrap();
    assert_eq!(route.pattern(), "/*");
    assert!(matches!(route.handler_type(), HandlerType::StaticFile));
}
