use kaserve::acl::{AccessCondition, AccessRule, Acl, AclError, Cidr};
use kaserve::pattern::Matcher;
use kaserve::request::{IpAddress, Request};

fn path_rule_deny(pattern: &str) -> AccessRule {
    AccessRule::Deny(AccessCondition::Path(Matcher::new(pattern).unwrap()))
}

#[test]
fn first_matching_rule_decides() {
    let mut acl = Acl::new(false);
    acl.add_rule(path_rule_deny("^/admin"));
    acl.add_rule(AccessRule::Allow(AccessCondition::All));
    assert_eq!(acl.check_access(&Request::get("/admin/x"), None), Err(AclError::AccessDenied));
    assert_eq!(acl.check_access(&Request::get("/public"), None), Ok(()));
}

#[test]
fn reordered_rules_allow_admin() {
    let mut acl = Acl::new(false);
    acl.add_rule(AccessRule::Allow(AccessCondition::All));
    acl.add_rule(path_rule_deny("^/admin"));
    assert_eq!(acl.check_access(&Request::get("/admin/x"), None), Ok(()));
}

#[test]
fn default_decides_when_no_rule_matches() {
    let mut deny_all = Acl::new(false);
    deny_all.add_rule(path_rule_deny("^/admin"));
    assert_eq!(deny_all.check_access(&Request::get("/public"), None), Err(AclError::AccessDenied));
    let allow_all = Acl::new(true);
    assert_eq!(allow_all.check_access(&Request::get("/public"), None), Ok(()));
}

#[test]
fn ip_rule_needs_client_address() {
    let mut acl = Acl::new(true);
    acl.add_rule(AccessRule::Deny(AccessCondition::Ip(IpAddress::V4([10, 0, 0, 1]))));
    let req = Request::get("/");
    assert_eq!(acl.check_access(&req, Some(IpAddress::V4([10, 0, 0, 1]))), Err(AclError::AccessDenied));
    assert_eq!(acl.check_access(&req, Some(IpAddress::V4([10, 0, 0, 2]))), Ok(()));
    assert_eq!(acl.check_access(&req, None), Ok(()));
}

#[test]
fn network_rule_checks_prefix_bits() {
    let net = Cidr::new(IpAddress::V4([192, 168, 1, 0]), 24).unwrap();
    assert!(net.contains(&IpAddress::V4([192, 168, 1, 77])));
    assert!(!net.contains(&IpAddress::V4([192, 168, 2, 1])));
    let odd = Cidr::new(IpAddress::V4([10, 0, 0, 0]), 12).unwrap();
    assert!(odd.contains(&IpAddress::V4([10, 15, 255, 255])));
    assert!(!odd.contains(&IpAddress::V4([10, 16, 0, 0])));
    let all = Cidr::new(IpAddress::V4([0, 0, 0, 0]), 0).unwrap();
    assert!(all.contains(&IpAddress::V4([8, 8, 8, 8])));
    assert!(!all.contains(&IpAddress::V6([0; 16])));
    assert!(Cidr::new(IpAddress::V4([10, 0, 0, 0]), 33).is_none());
    let mut v6 = [0u8; 16];
    v6[0] = 0xfe;
    v6[1] = 0x80;
    let link_local = Cidr::new(IpAddress::V6(v6), 10).unwrap();
    let mut inside = [0u8; 16];
    inside[0] = 0xfe;
    inside[1] = 0xbf;
    assert!(link_local.contains(&IpAddress::V6(inside)));
    inside[1] = 0xc0;
    assert!(!link_local.contains(&IpAddress::V6(inside)));
}

#[test]
fn network_rule_in_acl() {
    let mut acl = Acl::new(false);
    acl.add_rule(AccessRule::Allow(AccessCondition::Network(
        Cidr::new(IpAddress::V4([127, 0, 0, 0]), 8).unwrap(),
    )));
    let req = Request::get("/");
    assert_eq!(acl.check_access(&req, Some(IpAddress::V4([127, 1, 2, 3]))), Ok(()));
    assert_eq!(acl.check_access(&req, Some(IpAddress::V4([128, 0, 0, 1]))), Err(AclError::AccessDenied));
}

#[test]
fn absent_user_agent_never_matches() {
    let mut acl = Acl::new(true);
    acl.add_rule(AccessRule::Deny(AccessCondition::UserAgent(Matcher::new("(?i)bot").unwrap())));
    let mut req = Request::get("/");
    assert_eq!(acl.check_access(&req, None), Ok(()));
    req.user_agent = Some("GoodBot/1.0".to_string());
    assert_eq!(acl.check_access(&req, None), Err(AclError::AccessDenied));
    req.user_agent = Some("Mozilla/5.0".to_string());
    assert_eq!(acl.check_access(&req, None), Ok(()));
}

#[test]
fn denial_is_forbidden() {
    let acl = Acl::new(false);
    let r = acl.denial_response();
    assert_eq!(r.status(), 403);
    assert_eq!(r.body().as_slice(), b"403 Forbidden: Access denied");
    assert_eq!(AclError::AccessDenied.message(), "Access denied");
}

#[test]
fn rule_kinds() {
    assert!(AccessRule::Allow(AccessCondition::All).allows());
    assert!(!AccessRule::Deny(AccessCondition::All).allows());
}
