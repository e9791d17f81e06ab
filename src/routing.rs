//! Routes, virtual hosts and the router that picks a route for a request.
//! Every list is scanned in order and the first match wins.
use vstd::prelude::*;
use crate::pattern::{Matcher, regex_finds, route_regex, host_regex, route_regex_of, host_regex_of};
use crate::config::{Config, VirtualHostConfig};
use crate::text::{find_char, find_char_from, same_text};

verus! {

/// Errors of route construction and routing.
#[derive(Debug, PartialEq, Eq, Structural, Clone, Copy)]
pub enum RouterError {
    NoMatchingRoute,
    InvalidRoutePattern,
}

impl RouterError {
    /// A short description of the error.
    pub fn message(&self) -> (r: &'static str)
        ensures
            *self == RouterError::NoMatchingRoute ==> r@ == "No matching route found"@,
            *self == RouterError::InvalidRoutePattern ==> r@ == "Invalid route pattern"@,
    {
        match self {
            RouterError::NoMatchingRoute => "No matching route found",
            RouterError::InvalidRoutePattern => "Invalid route pattern",
        }
    }
}

/// The kind of handler a route leads to.
#[derive(Debug)]
pub enum HandlerType {
    StaticFile,
    FastCGI,
    CGI,
    Proxy,
    Custom(String),
}

/// The meaning of a [`HandlerType`], with the custom name as characters.
pub enum HandlerKind {
    StaticFile,
    FastCGI,
    CGI,
    Proxy,
    Custom(Seq<char>),
}

impl View for HandlerType {
    type V = HandlerKind;

    open spec fn view(&self) -> HandlerKind {
        match self {
            HandlerType::StaticFile => HandlerKind::StaticFile,
            HandlerType::FastCGI => HandlerKind::FastCGI,
            HandlerType::CGI => HandlerKind::CGI,
            HandlerType::Proxy => HandlerKind::Proxy,
            HandlerType::Custom(n) => HandlerKind::Custom(n@),
        }
    }
}

/// The handler kind that the name `s` stands for; unknown names are custom.
pub open spec fn handler_kind_of(s: Seq<char>) -> HandlerKind {
    if s == "static"@ {
        HandlerKind::StaticFile
    } else if s == "fastcgi"@ {
        HandlerKind::FastCGI
    } else if s == "cgi"@ {
        HandlerKind::CGI
    } else if s == "proxy"@ {
        HandlerKind::Proxy
    } else {
        HandlerKind::Custom(s)
    }
}

/// The name of handler kind `k`.
pub open spec fn handler_name(k: HandlerKind) -> Seq<char> {
    match k {
        HandlerKind::StaticFile => "static"@,
        HandlerKind::FastCGI => "fastcgi"@,
        HandlerKind::CGI => "cgi"@,
        HandlerKind::Proxy => "proxy"@,
        HandlerKind::Custom(n) => n,
    }
}

impl HandlerType {
    /// The name of this handler kind.
    pub fn as_str(&self) -> (r: &str)
        ensures
            r@ == handler_name(self@),
    {
        match self {
            HandlerType::StaticFile => "static",
            HandlerType::FastCGI => "fastcgi",
            HandlerType::CGI => "cgi",
            HandlerType::Proxy => "proxy",
            HandlerType::Custom(name) => name.as_str(),
        }
    }

    /// The handler kind named `s`; every name is accepted, unknown ones as
    /// custom handlers.
    pub fn from_str(s: &str) -> (r: Option<Self>)
        ensures
            r matches Some(h) && h@ == handler_kind_of(s@),
    {
        if same_text(s, "static") {
            Some(HandlerType::StaticFile)
        } else if same_text(s, "fastcgi") {
            Some(HandlerType::FastCGI)
        } else if same_text(s, "cgi") {
            Some(HandlerType::CGI)
        } else if same_text(s, "proxy") {
            Some(HandlerType::Proxy)
        } else {
            Some(HandlerType::Custom(s.to_owned()))
        }
    }
}

/// A mapping from a URL pattern to a handler kind.
pub struct Route {
    pattern: String,
    matcher: Matcher,
    handler_type: HandlerType,
    handler_params: Option<String>,
}

impl Route {
    #[verifier::type_invariant]
    spec fn inv(&self) -> bool {
        self.matcher.source() == route_regex(self.pattern@)
    }

    /// The URL pattern: literal characters, `*` for any sequence.
    pub closed spec fn spec_pattern(&self) -> Seq<char> {
        self.pattern@
    }

    /// The handler kind.
    pub closed spec fn spec_handler(&self) -> HandlerKind {
        self.handler_type@
    }

    /// The handler parameters.
    pub closed spec fn spec_params(&self) -> Option<Seq<char>> {
        match self.handler_params {
            Some(p) => Some(p@),
            None => None,
        }
    }

    /// Whether this route accepts request path `path`: the whole path must
    /// match the pattern.
    pub open spec fn accepts(&self, path: Seq<char>) -> bool {
        regex_finds(route_regex(self.spec_pattern()), path)
    }

    /// A route from `pattern` to the handler named `handler_type`; it fails
    /// when the pattern's regular expression does not compile.
    pub fn new(pattern: &str, handler_type: &str) -> (r: Result<Self, RouterError>)
        ensures
            match r {
                Ok(route) => crate::pattern::regex_compiles(route_regex(pattern@))
                    && route.spec_pattern() == pattern@ && route.spec_handler() == handler_kind_of(
                    handler_type@,
                ) && route.spec_params() is None,
                Err(e) => !crate::pattern::regex_compiles(route_regex(pattern@)) && e
                    == RouterError::InvalidRoutePattern,
            },
    {
        let source = route_regex_of(pattern);
        match Matcher::new(source.as_str()) {
            Some(matcher) => {
                let handler = match HandlerType::from_str(handler_type) {
                    Some(h) => h,
                    None => HandlerType::Custom(handler_type.to_owned()),
                };
                Ok(
                    Route {
                        pattern: pattern.to_owned(),
                        matcher,
                        handler_type: handler,
                        handler_params: None,
                    },
                )
            },
            None => Err(RouterError::InvalidRoutePattern),
        }
    }

    /// Whether this route accepts request path `path`.
    pub fn matches(&self, path: &str) -> (r: bool)
        ensures
            r == self.accepts(path@),
    {
        proof {
            use_type_invariant(self);
        }
        self.matcher.is_match(path)
    }

    /// The same route with handler parameters `params`.
    pub fn with_params(self, params: &str) -> (r: Self)
        ensures
            r.spec_pattern() == self.spec_pattern(),
            r.spec_handler() == self.spec_handler(),
            r.spec_params() == Some(params@),
    {
        proof {
            use_type_invariant(&self);
        }
        Route { handler_params: Some(params.to_owned()), ..self }
    }

    /// The URL pattern.
    pub fn pattern(&self) -> (r: &str)
        ensures
            r@ == self.spec_pattern(),
    {
        self.pattern.as_str()
    }

    /// The handler kind.
    pub fn handler_type(&self) -> (r: &HandlerType)
        ensures
            r@ == self.spec_handler(),
    {
        &self.handler_type
    }

    /// The handler parameters, if any.
    pub fn handler_params(&self) -> (r: Option<&str>)
        ensures
            match r {
                Some(p) => self.spec_params() == Some(p@),
                None => self.spec_params() is None,
            },
    {
        match &self.handler_params {
            Some(p) => Some(p.as_str()),
            None => None,
        }
    }
}

/// Index of the first route from `i` on that accepts `path`.
pub open spec fn first_route_from(routes: Seq<Route>, path: Seq<char>, i: int) -> Option<int>
    decreases routes.len() - i,
{
    if i < 0 || i >= routes.len() {
        None
    } else if routes[i].accepts(path) {
        Some(i)
    } else {
        first_route_from(routes, path, i + 1)
    }
}

/// Index of the first route that accepts `path`.
pub open spec fn first_route(routes: Seq<Route>, path: Seq<char>) -> Option<int> {
    first_route_from(routes, path, 0)
}

proof fn lemma_first_route_from(routes: Seq<Route>, path: Seq<char>, i: int, k: int)
    requires
        0 <= k <= i < routes.len(),
        routes[i].accepts(path),
        forall|j: int| 0 <= j < i ==> !(#[trigger] routes[j]).accepts(path),
    ensures
        first_route_from(routes, path, k) == Some(i),
    decreases i - k,
{
    if k < i {
        lemma_first_route_from(routes, path, i, k + 1);
    }
}

/// The route chosen for `path` is the first in the list that accepts it, so
/// a specific route placed before a catch-all wins over it.
pub proof fn lemma_first_accepting_route_wins(routes: Seq<Route>, path: Seq<char>, i: int)
    requires
        0 <= i < routes.len(),
        routes[i].accepts(path),
        forall|j: int| 0 <= j < i ==> !(#[trigger] routes[j]).accepts(path),
    ensures
        first_route(routes, path) == Some(i),
{
    lemma_first_route_from(routes, path, i, 0);
}

/// The first route of `routes` that accepts `path`.
fn find_route<'a>(routes: &'a Vec<Route>, path: &str) -> (r: Option<&'a Route>)
    ensures
        match first_route(routes@, path@) {
            Some(i) => r == Some(&routes@[i]),
            None => r is None,
        },
{
    let mut i: usize = 0;
    while i < routes.len()
        invariant
            i <= routes@.len(),
            first_route(routes@, path@) == first_route_from(routes@, path@, i as int),
        decreases routes@.len() - i,
    {
        if routes[i].matches(path) {
            return Some(&routes[i]);
        }
        i = i + 1;
    }
    None
}

/// The routes a new host or router starts with: the catch-all `/*` to
/// static files, when its expression compiles, and nothing otherwise.
pub open spec fn is_catch_all_list(routes: Seq<Route>) -> bool {
    if crate::pattern::regex_compiles(route_regex("/*"@)) {
        routes.len() == 1 && routes[0].spec_pattern() == "/*"@ && routes[0].spec_handler()
            == HandlerKind::StaticFile && routes[0].spec_params() is None
    } else {
        routes.len() == 0
    }
}

/// Whether every host-name pattern of `configs` compiles.
pub open spec fn all_hosts_compile(configs: Seq<VirtualHostConfig>) -> bool {
    forall|i: int| 0 <= i < configs.len() ==> crate::pattern::regex_compiles(
        host_regex(#[trigger] configs[i].host@),
    )
}

/// The host-name patterns and document roots of `configs`, in order.
pub open spec fn config_summaries(configs: Seq<VirtualHostConfig>) -> Seq<(Seq<char>, Seq<char>)> {
    configs.map_values(|c: VirtualHostConfig| (c.host@, c.root_dir@))
}

/// The host-name patterns and document roots of `hosts`, in order.
pub open spec fn host_summaries(hosts: Seq<VirtualHost>) -> Seq<(Seq<char>, Seq<char>)> {
    hosts.map_values(|h: VirtualHost| (h.spec_hostname(), h.spec_root()))
}

/// A host-name pattern together with its compiled expression.
struct HostPattern {
    pattern: String,
    matcher: Matcher,
}

impl HostPattern {
    #[verifier::type_invariant]
    spec fn inv(&self) -> bool {
        self.matcher.source() == host_regex(self.pattern@)
    }
}

/// A host-name scoped document root with its own routes.
pub struct VirtualHost {
    host: HostPattern,
    document_root: String,
    routes: Vec<Route>,
}

impl VirtualHost {
    /// The host-name pattern: `*` stands for one label.
    pub closed spec fn spec_hostname(&self) -> Seq<char> {
        self.host.pattern@
    }

    /// The document root.
    pub closed spec fn spec_root(&self) -> Seq<char> {
        self.document_root@
    }

    /// The routes of this host, in order.
    pub closed spec fn spec_routes(&self) -> Seq<Route> {
        self.routes@
    }

    /// Whether this host's pattern accepts host name `name`, ignoring case.
    pub open spec fn accepts(&self, name: Seq<char>) -> bool {
        regex_finds(host_regex(self.spec_hostname()), name)
    }

    /// A virtual host for `hostname_pattern` serving `document_root`, with
    /// the catch-all route `/*` to static files when that route compiles.
    /// It fails when the pattern's regular expression does not compile.
    pub fn new(hostname_pattern: &str, document_root: &str) -> (r: Result<Self, RouterError>)
        ensures
            match r {
                Ok(v) => crate::pattern::regex_compiles(host_regex(hostname_pattern@))
                    && v.spec_hostname() == hostname_pattern@ && v.spec_root() == document_root@
                    && is_catch_all_list(v.spec_routes()),
                Err(e) => !crate::pattern::regex_compiles(host_regex(hostname_pattern@)) && e
                    == RouterError::InvalidRoutePattern,
            },
    {
        let source = host_regex_of(hostname_pattern);
        let matcher = match Matcher::new(source.as_str()) {
            Some(m) => m,
            None => {
                return Err(RouterError::InvalidRoutePattern);
            },
        };
        let mut routes: Vec<Route> = Vec::new();
        match Route::new("/*", "static") {
            Ok(route) => {
                proof {
                    reveal_strlit("static");
                    assert(handler_kind_of("static"@) == HandlerKind::StaticFile);
                }
                routes.push(route);
            },
            Err(_) => {},
        }
        Ok(
            VirtualHost {
                host: HostPattern { pattern: hostname_pattern.to_owned(), matcher },
                document_root: document_root.to_owned(),
                routes,
            },
        )
    }

    /// Appends `route` to this host's routes.
    pub fn add_route(&mut self, route: Route)
        ensures
            final(self).spec_hostname() == old(self).spec_hostname(),
            final(self).spec_root() == old(self).spec_root(),
            final(self).spec_routes() == old(self).spec_routes().push(route),
    {
        self.routes.push(route);
    }

    /// Whether this host's pattern accepts host name `hostname`.
    pub fn matches(&self, hostname: &str) -> (r: bool)
        ensures
            r == self.accepts(hostname@),
    {
        proof {
            use_type_invariant(&self.host);
        }
        self.host.matcher.is_match(hostname)
    }

    /// The host-name pattern.
    pub fn hostname(&self) -> (r: &str)
        ensures
            r@ == self.spec_hostname(),
    {
        self.host.pattern.as_str()
    }

    /// The document root.
    pub fn document_root(&self) -> (r: &str)
        ensures
            r@ == self.spec_root(),
    {
        self.document_root.as_str()
    }

    /// The first of this host's routes that accepts `path`.
    pub fn match_route(&self, path: &str) -> (r: Option<&Route>)
        ensures
            match first_route(self.spec_routes(), path@) {
                Some(i) => r == Some(&self.spec_routes()[i]),
                None => r is None,
            },
    {
        find_route(&self.routes, path)
    }
}

/// Index of the first virtual host from `i` on that accepts `name`.
pub open spec fn first_host_from(hosts: Seq<VirtualHost>, name: Seq<char>, i: int) -> Option<int>
    decreases hosts.len() - i,
{
    if i < 0 || i >= hosts.len() {
        None
    } else if hosts[i].accepts(name) {
        Some(i)
    } else {
        first_host_from(hosts, name, i + 1)
    }
}

/// The host name of a `Host` header: everything before the first `:`.
pub open spec fn host_name_of(header: Seq<char>) -> Seq<char> {
    match find_char_from(header, ':', 0) {
        Some(i) => header.subrange(0, i),
        None => header,
    }
}

/// The virtual host that a `Host` header selects, if any.
pub open spec fn selected_host(hosts: Seq<VirtualHost>, host: Option<Seq<char>>) -> Option<int> {
    match host {
        Some(h) => first_host_from(hosts, host_name_of(h), 0),
        None => None,
    }
}

/// The route for a request: the selected virtual host's first accepting
/// route, else the first accepting default route.
pub open spec fn routed(
    hosts: Seq<VirtualHost>,
    defaults: Seq<Route>,
    host: Option<Seq<char>>,
    path: Seq<char>,
) -> Option<Route> {
    let from_host = match selected_host(hosts, host) {
        Some(v) => match first_route(hosts[v].spec_routes(), path) {
            Some(i) => Some(hosts[v].spec_routes()[i]),
            None => None,
        },
        None => None,
    };
    match from_host {
        Some(r) => Some(r),
        None => match first_route(defaults, path) {
            Some(i) => Some(defaults[i]),
            None => None,
        },
    }
}

/// The host name of `Host` header `header`, without its port.
pub fn host_without_port(header: &str) -> (r: String)
    ensures
        r@ == host_name_of(header@),
{
    match find_char(header, ':') {
        Some(i) => {
            proof {
                crate::text::lemma_find_char_from_bound(header@, ':', 0);
            }
            header.substring_char(0, i).to_owned()
        },
        None => header.to_owned(),
    }
}

/// When no virtual host is selected, the route chosen for `path` is the
/// first default route that accepts it: a specific route added before a
/// catch-all wins, whatever routes follow.
pub proof fn lemma_earlier_default_route_wins(
    router: Router,
    host: Option<Seq<char>>,
    path: Seq<char>,
    i: int,
)
    requires
        selected_host(router.spec_hosts(), host) is None,
        0 <= i < router.spec_defaults().len(),
        router.spec_defaults()[i].accepts(path),
        forall|j: int| 0 <= j < i ==> !(#[trigger] router.spec_defaults()[j]).accepts(path),
    ensures
        routed(router.spec_hosts(), router.spec_defaults(), host, path) == Some(
            router.spec_defaults()[i],
        ),
{
    lemma_first_accepting_route_wins(router.spec_defaults(), path, i);
}

/// Picks the route for each request from virtual hosts and default routes.
pub struct Router {
    vhosts: Vec<VirtualHost>,
    default_routes: Vec<Route>,
}

impl Router {
    /// The virtual hosts, in order.
    pub closed spec fn spec_hosts(&self) -> Seq<VirtualHost> {
        self.vhosts@
    }

    /// The default routes, in order.
    pub closed spec fn spec_defaults(&self) -> Seq<Route> {
        self.default_routes@
    }

    /// A router with the catch-all default route `/*` to static files and
    /// one virtual host for each configured one, in configuration order. A
    /// pattern that does not compile makes the configuration invalid.
    pub fn new(config: &Config) -> (r: Result<Self, RouterError>)
        ensures
            r is Ok <==> crate::pattern::regex_compiles(route_regex("/*"@)) && match config.virtual_hosts {
                Some(vs) => all_hosts_compile(vs@),
                None => true,
            },
            r is Err ==> r == Err::<Router, _>(RouterError::InvalidRoutePattern),
            r matches Ok(router) ==> {
                &&& is_catch_all_list(router.spec_defaults())
                &&& router.spec_defaults().len() == 1
                &&& host_summaries(router.spec_hosts()) == match config.virtual_hosts {
                    Some(vs) => config_summaries(vs@),
                    None => Seq::empty(),
                }
                &&& forall|i: int|
                    0 <= i < router.spec_hosts().len() ==> is_catch_all_list(
                        #[trigger] router.spec_hosts()[i].spec_routes(),
                    )
            },
    {
        let mut default_routes: Vec<Route> = Vec::new();
        match Route::new("/*", "static") {
            Ok(route) => {
                proof {
                    reveal_strlit("static");
                }
                default_routes.push(route);
            },
            Err(e) => {
                return Err(e);
            },
        }
        let mut vhosts: Vec<VirtualHost> = Vec::new();
        match &config.virtual_hosts {
            Some(configs) => {
                let mut i: usize = 0;
                while i < configs.len()
                    invariant
                        i <= configs@.len(),
                        config.virtual_hosts matches Some(vs) && vs@ == configs@,
                        forall|k: int|
                            0 <= k < i ==> crate::pattern::regex_compiles(
                                host_regex(#[trigger] configs@[k].host@),
                            ),
                        host_summaries(vhosts@) == config_summaries(configs@.subrange(0, i as int)),
                        forall|k: int|
                            0 <= k < vhosts@.len() ==> is_catch_all_list(
                                #[trigger] vhosts@[k].spec_routes(),
                            ),
                    decreases configs@.len() - i,
                {
                    let ghost before = vhosts@;
                    match VirtualHost::new(configs[i].host.as_str(), configs[i].root_dir.as_str()) {
                        Ok(v) => {
                            vhosts.push(v);
                            assert(host_summaries(vhosts@) =~= host_summaries(before).push(
                                (v.spec_hostname(), v.spec_root()),
                            ));
                            assert(config_summaries(configs@.subrange(0, i + 1))
                                =~= config_summaries(configs@.subrange(0, i as int)).push(
                                (configs@[i as int].host@, configs@[i as int].root_dir@),
                            ));
                        },
                        Err(e) => {
                            assert(!crate::pattern::regex_compiles(
                                host_regex(configs@[i as int].host@),
                            ));
                            assert(!all_hosts_compile(configs@));
                            return Err(e);
                        },
                    }
                    i = i + 1;
                }
                assert(configs@.subrange(0, i as int) =~= configs@);
            },
            None => {
                assert(host_summaries(vhosts@) =~= Seq::empty());
            },
        }
        Ok(Router { vhosts, default_routes })
    }

    /// An empty router: no virtual hosts and no default routes.
    pub fn empty() -> (r: Self)
        ensures
            r.spec_hosts().len() == 0,
            r.spec_defaults().len() == 0,
    {
        Router { vhosts: Vec::new(), default_routes: Vec::new() }
    }

    /// Appends `route` to the default routes.
    pub fn add_route(&mut self, route: Route)
        ensures
            final(self).spec_hosts() == old(self).spec_hosts(),
            final(self).spec_defaults() == old(self).spec_defaults().push(route),
    {
        self.default_routes.push(route);
    }

    /// Appends `vhost` to the virtual hosts.
    pub fn add_virtual_host(&mut self, vhost: VirtualHost)
        ensures
            final(self).spec_hosts() == old(self).spec_hosts().push(vhost),
            final(self).spec_defaults() == old(self).spec_defaults(),
    {
        self.vhosts.push(vhost);
    }

    /// The virtual host that `Host` header `host` selects: the first whose
    /// pattern accepts the header's host name (its port removed).
    pub fn resolve(&self, host: Option<&str>) -> (r: Option<&VirtualHost>)
        ensures
            match selected_host(
                self.spec_hosts(),
                match host {
                    Some(h) => Some(h@),
                    None => None,
                },
            ) {
                Some(i) => r == Some(&self.spec_hosts()[i]),
                None => r is None,
            },
    {
        match host {
            Some(h) => {
                let name = host_without_port(h);
                let mut i: usize = 0;
                while i < self.vhosts.len()
                    invariant
                        i <= self.vhosts@.len(),
                        host == Some(h),
                        name@ == host_name_of(h@),
                        first_host_from(self.vhosts@, name@, 0) == first_host_from(
                            self.vhosts@,
                            name@,
                            i as int,
                        ),
                    decreases self.vhosts@.len() - i,
                {
                    if self.vhosts[i].matches(name.as_str()) {
                        assert(first_host_from(self.vhosts@, name@, i as int) == Some(i as int));
                        assert(selected_host(self.vhosts@, Some(h@)) == Some(i as int));
                        let found = &self.vhosts[i];
                        return Some(found);
                    }
                    i = i + 1;
                }
                None
            },
            None => None,
        }
    }

    /// The route for a request with `Host` header `host` and path `path`:
    /// the selected virtual host's first accepting route, else the first
    /// accepting default route, else `NoMatchingRoute`.
    pub fn route(&self, host: Option<&str>, path: &str) -> (r: Result<&Route, RouterError>)
        ensures
            match routed(
                self.spec_hosts(),
                self.spec_defaults(),
                match host {
                    Some(h) => Some(h@),
                    None => None,
                },
                path@,
            ) {
                Some(route) => r matches Ok(x) && *x == route,
                None => r == Err::<&Route, _>(RouterError::NoMatchingRoute),
            },
    {
        match self.resolve(host) {
            Some(v) => match v.match_route(path) {
                Some(route) => {
                    return Ok(route);
                },
                None => {},
            },
            None => {},
        }
        match find_route(&self.default_routes, path) {
            Some(route) => Ok(route),
            None => Err(RouterError::NoMatchingRoute),
        }
    }
}

} // verus!
