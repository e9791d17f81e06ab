//! The per-request pipeline up to the filesystem: rewrite, virtual host,
//! route, access control and authentication. Each stage either passes the
//! request on or ends it with a response.
use vstd::prelude::*;
use crate::rewrite::{Rewriter, rewritten};
use crate::routing::{Router, HandlerKind, routed, selected_host, HandlerType};
use crate::acl::{Acl, access_allowed, DENIAL_BODY};
use crate::auth::{BasicAuthenticator, basic_outcome};
use crate::request::{Request, IpAddress, opt_view, opt_str};
use crate::response::{Response, text_bytes};

verus! {

/// How a request continues after the gates.
pub enum Gate {
    /// The request ends with this response.
    Respond(Response),
    /// Serve static content for `path` below `root`.
    Serve { root: String, path: String },
}

/// The body sent for a route whose handler kind is not served here.
pub const UNKNOWN_HANDLER_BODY: &'static str = "Internal Server Error: Unknown handler type";

/// The request path after rewriting, when no redirect ends the request.
pub open spec fn working_path(d: Dispatcher, path: Seq<char>) -> Seq<char> {
    match rewritten(d.spec_rewriter().spec_rules(), path) {
        Some(o) => o.new_path,
        None => path,
    }
}

/// The pipeline's components, built once at start-up.
pub struct Dispatcher {
    rewriter: Rewriter,
    router: Router,
    acl: Acl,
    auth: Option<BasicAuthenticator>,
    default_root: String,
}

impl Dispatcher {
    pub closed spec fn spec_rewriter(&self) -> Rewriter {
        self.rewriter
    }

    pub closed spec fn spec_router(&self) -> Router {
        self.router
    }

    pub closed spec fn spec_acl(&self) -> Acl {
        self.acl
    }

    pub closed spec fn spec_auth(&self) -> Option<BasicAuthenticator> {
        self.auth
    }

    pub closed spec fn spec_default_root(&self) -> Seq<char> {
        self.default_root@
    }

    /// A pipeline from its components; `default_root` serves requests that
    /// no virtual host claims.
    pub fn new(
        rewriter: Rewriter,
        router: Router,
        acl: Acl,
        auth: Option<BasicAuthenticator>,
        default_root: &str,
    ) -> (r: Self)
        ensures
            r.spec_rewriter() == rewriter,
            r.spec_router() == router,
            r.spec_acl() == acl,
            r.spec_auth() == auth,
            r.spec_default_root() == default_root@,
    {
        Dispatcher { rewriter, router, acl, auth, default_root: default_root.to_owned() }
    }

    /// Takes `req` from client `client_ip` through the gates:
    /// - a matching redirect rule answers with its status (302 when it has
    ///   none) and a `Location` header;
    /// - a denying access rule answers 403;
    /// - failed authentication answers with the 401 challenge;
    /// - a route to a handler other than static files answers 500;
    /// - otherwise the rewritten path is served below the document root of
    ///   the selected virtual host, or the default root.
    pub fn dispatch(&self, req: &Request, client_ip: Option<IpAddress>) -> (r: Gate)
        ensures
            ({
                let rw = rewritten(self.spec_rewriter().spec_rules(), req.path@);
                let path = working_path(*self, req.path@);
                let routed_to = routed(
                    self.spec_router().spec_hosts(),
                    self.spec_router().spec_defaults(),
                    opt_view(req.host),
                    path,
                );
                let root = match selected_host(self.spec_router().spec_hosts(), opt_view(req.host)) {
                    Some(i) => self.spec_router().spec_hosts()[i].spec_root(),
                    None => self.spec_default_root(),
                };
                let redirect = match rw {
                    Some(o) => if o.is_redirect {
                        Some(o)
                    } else {
                        None
                    },
                    None => None,
                };
                match redirect {
                    Some(o) => r matches Gate::Respond(resp) && resp.spec_status() == match o.redirect_status {
                        Some(s) => s,
                        None => 302u16,
                    } && resp.spec_header("location"@) == Some(o.new_path),
                    None => if !access_allowed(
                        self.spec_acl().spec_rules(),
                        self.spec_acl().spec_default_allow(),
                        path,
                        opt_view(req.user_agent),
                        client_ip,
                    ) {
                        r matches Gate::Respond(resp) && resp.spec_status() == 403
                            && resp.spec_body() == vstd::utf8::encode_utf8(DENIAL_BODY@)
                    } else if self.spec_auth() matches Some(a) && basic_outcome(
                        a.spec_credentials(),
                        opt_view(req.authorization),
                    ) is Err {
                        r matches Gate::Respond(resp) && resp.spec_status() == 401
                            && resp.spec_header("www-authenticate"@) == Some(
                            "Basic realm=\""@ + self.spec_auth()->Some_0.spec_realm() + "\""@,
                        )
                    } else if routed_to matches Some(route) && route.spec_handler()
                        != HandlerKind::StaticFile {
                        r matches Gate::Respond(resp) && resp.spec_status() == 500
                            && resp.spec_body() == vstd::utf8::encode_utf8(UNKNOWN_HANDLER_BODY@)
                    } else {
                        r matches Gate::Serve { root: x, path: p } && x@ == root && p@ == path
                    },
                }
            }),
    {
        let rw = self.rewriter.process(req.path.as_str());
        let path = match rw {
            Some(res) => {
                if res.is_redirect {
                    let status = match res.redirect_status {
                        Some(s) => s,
                        None => 302,
                    };
                    let mut resp = Response::new(status);
                    resp.set_header("location", res.new_path.as_str());
                    proof {
                        reveal_strlit("location");
                        assert(crate::text::ascii_lower("location"@) =~= "location"@);
                    }
                    return Gate::Respond(resp);
                }
                res.new_path
            },
            None => req.path.clone(),
        };
        let host = opt_str(&req.host);
        let root = match self.router.resolve(host) {
            Some(v) => v.document_root().to_owned(),
            None => self.default_root.clone(),
        };
        let route = self.router.route(host, path.as_str());
        let gated = Request {
            method: req.method.clone(),
            path: path.clone(),
            host: None,
            user_agent: req.user_agent.clone(),
            accept_encoding: None,
            authorization: None,
        };
        if self.acl.check_access(&gated, client_ip).is_err() {
            return Gate::Respond(self.acl.denial_response());
        }
        match &self.auth {
            Some(a) => {
                if a.authenticate(opt_str(&req.authorization)).is_err() {
                    return Gate::Respond(a.challenge_response());
                }
            },
            None => {},
        }
        match route {
            Ok(rt) => match rt.handler_type() {
                HandlerType::StaticFile => {},
                _ => {
                    let mut resp = Response::new(500);
                    resp.set_body(text_bytes(UNKNOWN_HANDLER_BODY));
                    return Gate::Respond(resp);
                },
            },
            Err(_) => {},
        }
        Gate::Serve { root, path }
    }
}

} // verus!
