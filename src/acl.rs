//! Access control: an ordered list of allow and deny rules where the first
//! rule whose condition holds decides, and a default for when none does.
use vstd::prelude::*;
use crate::pattern::{Matcher, regex_finds};
use crate::request::{IpAddress, Request, opt_view, opt_str};
use crate::response::Response;

verus! {

/// Errors of access control.
#[derive(Debug, PartialEq, Eq, Structural, Clone, Copy)]
pub enum AclError {
    AccessDenied,
    ConfigurationError,
}

impl AclError {
    /// A short description of the error.
    pub fn message(&self) -> (r: &'static str)
        ensures
            *self == AclError::AccessDenied ==> r@ == "Access denied"@,
            *self == AclError::ConfigurationError ==> r@ == "ACL configuration error"@,
    {
        match self {
            AclError::AccessDenied => "Access denied",
            AclError::ConfigurationError => "ACL configuration error",
        }
    }
}

/// An IP network: a base address and how many leading bits must agree.
#[derive(Clone, Copy, Debug)]
pub struct Cidr {
    network: IpAddress,
    prefix_len: u8,
}

/// Whether the first `bits` bits of `a` and `b` agree.
pub open spec fn leading_bits_agree(a: Seq<u8>, b: Seq<u8>, bits: nat) -> bool {
    let whole = (bits / 8) as int;
    let rest = (bits % 8) as u8;
    &&& forall|i: int| 0 <= i < whole ==> a[i] == b[i]
    &&& rest != 0 ==> (a[whole] >> ((8 - rest) as u8)) == (b[whole] >> ((8 - rest) as u8))
}

impl Cidr {
    #[verifier::type_invariant]
    spec fn inv(&self) -> bool {
        self.prefix_len as nat <= 8 * self.network.octets().len()
    }

    /// The base address.
    pub closed spec fn spec_network(&self) -> IpAddress {
        self.network
    }

    /// The number of leading bits that must agree.
    pub closed spec fn spec_prefix_len(&self) -> nat {
        self.prefix_len as nat
    }

    /// Whether `ip` lies in this network: same family, and its first
    /// prefix-length bits agree with the base address.
    pub open spec fn holds(&self, ip: IpAddress) -> bool {
        (ip is V4 <==> self.spec_network() is V4) && leading_bits_agree(
            ip.octets(),
            self.spec_network().octets(),
            self.spec_prefix_len(),
        )
    }

    /// The network `network`/`prefix_len`, or `None` when the prefix is
    /// longer than the address.
    pub fn new(network: IpAddress, prefix_len: u8) -> (r: Option<Cidr>)
        ensures
            r is Some <==> prefix_len as nat <= 8 * network.octets().len(),
            r matches Some(c) ==> c.spec_network() == network && c.spec_prefix_len()
                == prefix_len as nat,
    {
        let limit: u8 = match network {
            IpAddress::V4(_) => 32,
            IpAddress::V6(_) => 128,
        };
        if prefix_len <= limit {
            Some(Cidr { network, prefix_len })
        } else {
            None
        }
    }

    /// Whether `ip` lies in this network.
    pub fn contains(&self, ip: &IpAddress) -> (r: bool)
        ensures
            r == self.holds(*ip),
    {
        proof {
            use_type_invariant(self);
        }
        match (ip, &self.network) {
            (IpAddress::V4(a), IpAddress::V4(b)) => prefix_agrees(a, b, self.prefix_len),
            (IpAddress::V6(a), IpAddress::V6(b)) => prefix_agrees(a, b, self.prefix_len),
            _ => false,
        }
    }
}

/// Whether the first `bits` bits of `a` and `b` agree.
fn prefix_agrees(a: &[u8], b: &[u8], bits: u8) -> (r: bool)
    requires
        a@.len() == b@.len(),
        bits as nat <= 8 * a@.len(),
    ensures
        r == leading_bits_agree(a@, b@, bits as nat),
{
    let whole: usize = (bits / 8) as usize;
    let rest: u8 = bits % 8;
    let mut i: usize = 0;
    while i < whole
        invariant
            a@.len() == b@.len(),
            whole as int == (bits / 8) as int,
            whole <= a@.len(),
            i <= whole,
            forall|k: int| 0 <= k < i ==> a@[k] == b@[k],
        decreases whole - i,
    {
        if a[i] != b[i] {
            return false;
        }
        i = i + 1;
    }
    if rest == 0 {
        return true;
    }
    let shift: u8 = 8 - rest;
    (a[whole] >> shift) == (b[whole] >> shift)
}

/// What an access condition tests.
pub enum AccessCondition {
    /// The client address is this one.
    Ip(IpAddress),
    /// The client address lies in this network.
    Network(Cidr),
    /// The request path matches this expression.
    Path(Matcher),
    /// The `User-Agent` header is present and matches this expression.
    UserAgent(Matcher),
    /// Every request.
    All,
}

/// Whether condition `c` holds of a request with path `path`, `User-Agent`
/// header `ua` and client address `ip`.
pub open spec fn condition_holds(
    c: AccessCondition,
    path: Seq<char>,
    ua: Option<Seq<char>>,
    ip: Option<IpAddress>,
) -> bool {
    match c {
        AccessCondition::Ip(a) => ip matches Some(x) && x.same_as(a),
        AccessCondition::Network(n) => ip matches Some(x) && n.holds(x),
        AccessCondition::Path(m) => regex_finds(m.source(), path),
        AccessCondition::UserAgent(m) => ua matches Some(u) && regex_finds(m.source(), u),
        AccessCondition::All => true,
    }
}

impl AccessCondition {
    /// Whether this condition holds of `req` from client address `client_ip`;
    /// an absent `User-Agent` header or client address never matches.
    pub fn matches(&self, req: &Request, client_ip: Option<IpAddress>) -> (r: bool)
        ensures
            r == condition_holds(*self, req.path@, opt_view(req.user_agent), client_ip),
    {
        match self {
            AccessCondition::Ip(ip) => match client_ip {
                Some(client) => client.equals(ip),
                None => false,
            },
            AccessCondition::Network(cidr) => match client_ip {
                Some(client) => cidr.contains(&client),
                None => false,
            },
            AccessCondition::Path(pattern) => pattern.is_match(req.path.as_str()),
            AccessCondition::UserAgent(pattern) => match opt_str(&req.user_agent) {
                Some(ua) => pattern.is_match(ua),
                None => false,
            },
            AccessCondition::All => true,
        }
    }
}

/// An access rule: a condition and what happens when it holds.
pub enum AccessRule {
    Allow(AccessCondition),
    Deny(AccessCondition),
}

/// The condition of rule `r`.
pub open spec fn rule_condition(r: AccessRule) -> AccessCondition {
    match r {
        AccessRule::Allow(c) => c,
        AccessRule::Deny(c) => c,
    }
}

impl AccessRule {
    /// Whether this rule's condition holds of `req` from `client_ip`.
    pub fn matches(&self, req: &Request, client_ip: Option<IpAddress>) -> (r: bool)
        ensures
            r == condition_holds(
                rule_condition(*self),
                req.path@,
                opt_view(req.user_agent),
                client_ip,
            ),
    {
        match self {
            AccessRule::Allow(c) => c.matches(req, client_ip),
            AccessRule::Deny(c) => c.matches(req, client_ip),
        }
    }

    /// Whether this rule allows access.
    pub fn allows(&self) -> (r: bool)
        ensures
            r == (*self is Allow),
    {
        match self {
            AccessRule::Allow(_) => true,
            AccessRule::Deny(_) => false,
        }
    }
}

/// The decision of `rules` from index `i` on: the first rule whose condition
/// holds decides, and `default_allow` when none does.
pub open spec fn access_allowed_from(
    rules: Seq<AccessRule>,
    default_allow: bool,
    path: Seq<char>,
    ua: Option<Seq<char>>,
    ip: Option<IpAddress>,
    i: int,
) -> bool
    decreases rules.len() - i,
{
    if i < 0 || i >= rules.len() {
        default_allow
    } else if condition_holds(rule_condition(rules[i]), path, ua, ip) {
        rules[i] is Allow
    } else {
        access_allowed_from(rules, default_allow, path, ua, ip, i + 1)
    }
}

/// The decision of `rules` for a request.
pub open spec fn access_allowed(
    rules: Seq<AccessRule>,
    default_allow: bool,
    path: Seq<char>,
    ua: Option<Seq<char>>,
    ip: Option<IpAddress>,
) -> bool {
    access_allowed_from(rules, default_allow, path, ua, ip, 0)
}

proof fn lemma_decision_from(
    rules: Seq<AccessRule>,
    default_allow: bool,
    path: Seq<char>,
    ua: Option<Seq<char>>,
    ip: Option<IpAddress>,
    i: int,
    k: int,
)
    requires
        0 <= k <= i < rules.len(),
        condition_holds(rule_condition(rules[i]), path, ua, ip),
        forall|j: int| 0 <= j < i ==> !condition_holds(#[trigger] rule_condition(rules[j]), path, ua, ip),
    ensures
        access_allowed_from(rules, default_allow, path, ua, ip, k) == rules[i] is Allow,
    decreases i - k,
{
    if k < i {
        lemma_decision_from(rules, default_allow, path, ua, ip, i, k + 1);
    }
}

/// The first rule whose condition holds decides, whatever its effect and
/// whatever rules follow it: order, not specificity, breaks ties.
pub proof fn lemma_first_matching_rule_decides(
    rules: Seq<AccessRule>,
    default_allow: bool,
    path: Seq<char>,
    ua: Option<Seq<char>>,
    ip: Option<IpAddress>,
    i: int,
)
    requires
        0 <= i < rules.len(),
        condition_holds(rule_condition(rules[i]), path, ua, ip),
        forall|j: int| 0 <= j < i ==> !condition_holds(#[trigger] rule_condition(rules[j]), path, ua, ip),
    ensures
        access_allowed(rules, default_allow, path, ua, ip) == rules[i] is Allow,
{
    lemma_decision_from(rules, default_allow, path, ua, ip, i, 0);
}

/// The body of the answer to a denied request.
pub const DENIAL_BODY: &'static str = "403 Forbidden: Access denied";

/// An ordered list of access rules with a default.
pub struct Acl {
    rules: Vec<AccessRule>,
    default_allow: bool,
}

impl Acl {
    /// The rules, in order.
    pub closed spec fn spec_rules(&self) -> Seq<AccessRule> {
        self.rules@
    }

    /// What happens when no rule matches.
    pub closed spec fn spec_default_allow(&self) -> bool {
        self.default_allow
    }

    /// An empty list whose default is `default_allow`.
    pub fn new(default_allow: bool) -> (r: Self)
        ensures
            r.spec_rules().len() == 0,
            r.spec_default_allow() == default_allow,
    {
        Acl { rules: Vec::new(), default_allow }
    }

    /// Appends `rule` after the existing rules.
    pub fn add_rule(&mut self, rule: AccessRule)
        ensures
            final(self).spec_rules() == old(self).spec_rules().push(rule),
            final(self).spec_default_allow() == old(self).spec_default_allow(),
    {
        self.rules.push(rule);
    }

    /// Whether `req` from `client_ip` may proceed: the first rule whose
    /// condition holds decides; when none holds, the default does.
    pub fn check_access(&self, req: &Request, client_ip: Option<IpAddress>) -> (r: Result<(), AclError>)
        ensures
            r is Ok <==> access_allowed(
                self.spec_rules(),
                self.spec_default_allow(),
                req.path@,
                opt_view(req.user_agent),
                client_ip,
            ),
            r is Err ==> r == Err::<(), _>(AclError::AccessDenied),
    {
        let mut i: usize = 0;
        while i < self.rules.len()
            invariant
                i <= self.rules@.len(),
                access_allowed(
                    self.rules@,
                    self.default_allow,
                    req.path@,
                    opt_view(req.user_agent),
                    client_ip,
                ) == access_allowed_from(
                    self.rules@,
                    self.default_allow,
                    req.path@,
                    opt_view(req.user_agent),
                    client_ip,
                    i as int,
                ),
            decreases self.rules@.len() - i,
        {
            let rule = &self.rules[i];
            if rule.matches(req, client_ip) {
                if rule.allows() {
                    return Ok(());
                } else {
                    return Err(AclError::AccessDenied);
                }
            }
            i = i + 1;
        }
        if self.default_allow {
            Ok(())
        } else {
            Err(AclError::AccessDenied)
        }
    }

    /// The answer to a denied request: 403 with a fixed body.
    pub fn denial_response(&self) -> (r: Response)
        ensures
            r.spec_status() == 403,
            r.spec_body() == vstd::utf8::encode_utf8(DENIAL_BODY@),
    {
        let mut r = Response::new(403);
        r.set_body(crate::response::text_bytes(DENIAL_BODY));
        r
    }
}

} // verus!
