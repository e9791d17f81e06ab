use kaserve::rewrite::{RewriteError, RewriteRule, Rewriter};

#[test]
fn no_rule_matches_gives_none() {
    let mut rw = Rewriter::new();
    rw.add_rule(RewriteRule::new("^/old/(.*)$", "/new/$1").unwrap());
    assert!(rw.process("/other").is_none());
}

#[test]
fn rule_rewrites_with_captures() {
    let rule = RewriteRule::new("^/old/(.*)$", "/new/$1").unwrap();
    let res = rule.apply("/old/page.html").unwrap();
    assert_eq!(res.new_path, "/new/page.html");
    assert!(!res.is_last);
    assert!(!res.is_redirect);
    assert_eq!(res.redirect_status, None);
}

#[test]
fn later_rules_see_rewritten_path_and_last_result_wins() {
    let mut rw = Rewriter::new();
    rw.add_rule(RewriteRule::new("^/a$", "/b").unwrap().redirect(true, 301));
    rw.add_rule(RewriteRule::new("^/b$", "/c").unwrap());
    let res = rw.process("/a").unwrap();
    assert_eq!(res.new_path, "/c");
    assert!(!res.is_redirect);
}

#[test]
fn last_rule_stops_processing() {
    let mut rw = Rewriter::new();
    rw.add_rule(RewriteRule::new("^/a$", "/b").unwrap().last(true));
    rw.add_rule(RewriteRule::new("^/b$", "/c").unwrap());
    let res = rw.process("/a").unwrap();
    assert_eq!(res.new_path, "/b");
    assert!(res.is_last);
}

#[test]
fn redirect_rule_keeps_its_status() {
    let mut rw = Rewriter::new();
    rw.add_rule(RewriteRule::new("^/old$", "/new").unwrap().redirect(true, 302));
    let res = rw.process("/old").unwrap();
    assert!(res.is_redirect);
    assert_eq!(res.redirect_status, Some(302));
    assert_eq!(res.new_path, "/new");
}

#[test]
fn invalid_pattern_is_rejected() {
    assert_eq!(RewriteRule::new("(unclosed", "/x").err(), Some(RewriteError::InvalidPattern));
    assert_eq!(RewriteError::InvalidPattern.message(), "Invalid rewrite pattern");
    assert_eq!(RewriteError::InvalidReplacement.message(), "Invalid rewrite replacement");
}
