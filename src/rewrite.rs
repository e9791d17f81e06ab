//! URL rewriting: an ordered list of pattern and replacement rules applied
//! to a request path before routing.
use vstd::prelude::*;
use crate::pattern::{Matcher, regex_finds, regex_replaced, regex_compiles};

verus! {

/// Errors of rule construction.
#[derive(Debug, PartialEq, Eq, Structural, Clone, Copy)]
pub enum RewriteError {
    InvalidPattern,
    InvalidReplacement,
}

impl RewriteError {
    /// A short description of the error.
    pub fn message(&self) -> (r: &'static str)
        ensures
            *self == RewriteError::InvalidPattern ==> r@ == "Invalid rewrite pattern"@,
            *self == RewriteError::InvalidReplacement ==> r@ == "Invalid rewrite replacement"@,
    {
        match self {
            RewriteError::InvalidPattern => "Invalid rewrite pattern",
            RewriteError::InvalidReplacement => "Invalid rewrite replacement",
        }
    }
}

/// The outcome of a matching rule.
#[derive(Debug)]
pub struct RewriteResult {
    pub new_path: String,
    pub is_last: bool,
    pub is_redirect: bool,
    pub redirect_status: Option<u16>,
}

/// The meaning of a [`RewriteResult`], with the path as characters.
pub struct RewriteOutcome {
    pub new_path: Seq<char>,
    pub is_last: bool,
    pub is_redirect: bool,
    pub redirect_status: Option<u16>,
}

impl View for RewriteResult {
    type V = RewriteOutcome;

    open spec fn view(&self) -> RewriteOutcome {
        RewriteOutcome {
            new_path: self.new_path@,
            is_last: self.is_last,
            is_redirect: self.is_redirect,
            redirect_status: self.redirect_status,
        }
    }
}

/// A rewrite rule: a regular expression, its replacement, and what a match
/// means for the rules after it and for the client.
pub struct RewriteRule {
    pattern: Matcher,
    replacement: String,
    last: bool,
    redirect: bool,
    redirect_status: Option<u16>,
}

impl RewriteRule {
    /// The regular expression.
    pub closed spec fn spec_pattern(&self) -> Seq<char> {
        self.pattern.source()
    }

    /// The replacement, where `$1`, `$name` refer to capture groups.
    pub closed spec fn spec_replacement(&self) -> Seq<char> {
        self.replacement@
    }

    /// Whether a match stops the rules after this one.
    pub closed spec fn spec_last(&self) -> bool {
        self.last
    }

    /// Whether a match sends the client elsewhere.
    pub closed spec fn spec_redirect(&self) -> bool {
        self.redirect
    }

    /// The status of the redirect.
    pub closed spec fn spec_redirect_status(&self) -> Option<u16> {
        self.redirect_status
    }

    /// Whether this rule matches `path`.
    pub open spec fn applies(&self, path: Seq<char>) -> bool {
        regex_finds(self.spec_pattern(), path)
    }

    /// The outcome of this rule on `path`, which it matches.
    pub open spec fn outcome(&self, path: Seq<char>) -> RewriteOutcome {
        RewriteOutcome {
            new_path: regex_replaced(self.spec_pattern(), path, self.spec_replacement()),
            is_last: self.spec_last(),
            is_redirect: self.spec_redirect(),
            redirect_status: self.spec_redirect_status(),
        }
    }

    /// A rule rewriting matches of `pattern` to `replacement`; it fails when
    /// `pattern` is not a valid regular expression.
    pub fn new(pattern: &str, replacement: &str) -> (r: Result<Self, RewriteError>)
        ensures
            match r {
                Ok(rule) => regex_compiles(pattern@) && rule.spec_pattern() == pattern@
                    && rule.spec_replacement() == replacement@ && !rule.spec_last()
                    && !rule.spec_redirect() && rule.spec_redirect_status() is None,
                Err(e) => !regex_compiles(pattern@) && e == RewriteError::InvalidPattern,
            },
    {
        match Matcher::new(pattern) {
            Some(m) => Ok(
                RewriteRule {
                    pattern: m,
                    replacement: replacement.to_owned(),
                    last: false,
                    redirect: false,
                    redirect_status: None,
                },
            ),
            None => Err(RewriteError::InvalidPattern),
        }
    }

    /// The same rule, stopping later rules on a match when `last` is set.
    pub fn last(self, last: bool) -> (r: Self)
        ensures
            r.spec_pattern() == self.spec_pattern(),
            r.spec_replacement() == self.spec_replacement(),
            r.spec_last() == last,
            r.spec_redirect() == self.spec_redirect(),
            r.spec_redirect_status() == self.spec_redirect_status(),
    {
        RewriteRule { last, ..self }
    }

    /// The same rule, answering a match with a redirect of status `status`
    /// when `redirect` is set.
    pub fn redirect(self, redirect: bool, status: u16) -> (r: Self)
        ensures
            r.spec_pattern() == self.spec_pattern(),
            r.spec_replacement() == self.spec_replacement(),
            r.spec_last() == self.spec_last(),
            r.spec_redirect() == redirect,
            r.spec_redirect_status() == Some(status),
    {
        RewriteRule { redirect, redirect_status: Some(status), ..self }
    }

    /// The outcome of this rule on `path`, or `None` when it does not match.
    pub fn apply(&self, path: &str) -> (r: Option<RewriteResult>)
        ensures
            match r {
                Some(res) => self.applies(path@) && res@ == self.outcome(path@),
                None => !self.applies(path@),
            },
    {
        if self.pattern.is_match(path) {
            let new_path = self.pattern.replace_all(path, self.replacement.as_str());
            Some(
                RewriteResult {
                    new_path,
                    is_last: self.last,
                    is_redirect: self.redirect,
                    redirect_status: self.redirect_status,
                },
            )
        } else {
            None
        }
    }
}

/// The outcome of `rules` from index `i` on, for working path `path`, when
/// `acc` is the outcome recorded so far: each matching rule rewrites the
/// working path and is recorded; a matching last rule stops the walk.
pub open spec fn rewrite_from(
    rules: Seq<RewriteRule>,
    i: int,
    path: Seq<char>,
    acc: Option<RewriteOutcome>,
) -> Option<RewriteOutcome>
    decreases rules.len() - i,
{
    if i < 0 || i >= rules.len() {
        acc
    } else if rules[i].applies(path) {
        let res = rules[i].outcome(path);
        if res.is_last {
            Some(res)
        } else {
            rewrite_from(rules, i + 1, res.new_path, Some(res))
        }
    } else {
        rewrite_from(rules, i + 1, path, acc)
    }
}

/// The outcome of `rules` on `path`: the last recorded match, or `None`.
pub open spec fn rewritten(rules: Seq<RewriteRule>, path: Seq<char>) -> Option<RewriteOutcome> {
    rewrite_from(rules, 0, path, None)
}

/// An ordered list of rewrite rules.
pub struct Rewriter {
    rules: Vec<RewriteRule>,
}

impl Rewriter {
    /// The rules, in order.
    pub closed spec fn spec_rules(&self) -> Seq<RewriteRule> {
        self.rules@
    }

    /// An empty list.
    pub fn new() -> (r: Self)
        ensures
            r.spec_rules().len() == 0,
    {
        Rewriter { rules: Vec::new() }
    }

    /// Appends `rule` after the existing rules.
    pub fn add_rule(&mut self, rule: RewriteRule)
        ensures
            final(self).spec_rules() == old(self).spec_rules().push(rule),
    {
        self.rules.push(rule);
    }

    /// Runs the rules over request path `path`: each matching rule rewrites
    /// the working path; a matching last rule stops. The outcome of the last
    /// matching rule is returned, `None` when no rule matched.
    pub fn process(&self, path: &str) -> (r: Option<RewriteResult>)
        ensures
            match r {
                Some(res) => rewritten(self.spec_rules(), path@) == Some(res@),
                None => rewritten(self.spec_rules(), path@) is None,
            },
    {
        let mut current = path.to_owned();
        let mut result: Option<RewriteResult> = None;
        let mut i: usize = 0;
        while i < self.rules.len()
            invariant
                i <= self.rules@.len(),
                rewritten(self.rules@, path@) == rewrite_from(
                    self.rules@,
                    i as int,
                    current@,
                    match result {
                        Some(res) => Some(res@),
                        None => None,
                    },
                ),
            decreases self.rules@.len() - i,
        {
            match self.rules[i].apply(current.as_str()) {
                Some(res) => {
                    current = res.new_path.clone();
                    let stop = res.is_last;
                    result = Some(res);
                    if stop {
                        return result;
                    }
                },
                None => {},
            }
            i = i + 1;
        }
        result
    }
}

} // verus!
