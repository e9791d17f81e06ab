//! Compiled text patterns. Matching itself is done by the `regex` crate; what
//! this module states is which regular expression each pattern becomes.
use vstd::prelude::*;
use crate::text::push_char;

verus! {

/// Whether `source` is a regular expression that the `regex` crate accepts.
pub uninterp spec fn regex_compiles(source: Seq<char>) -> bool;

/// Whether the regular expression `source` matches somewhere in `text`.
pub uninterp spec fn regex_finds(source: Seq<char>, text: Seq<char>) -> bool;

/// `text` with every match of `source` replaced by `replacement`, where
/// `$name` and `${name}` in the replacement stand for capture groups.
pub uninterp spec fn regex_replaced(
    source: Seq<char>,
    text: Seq<char>,
    replacement: Seq<char>,
) -> Seq<char>;

/// Relies on `regex::Regex::new`: it accepts or rejects `source`, depending
/// on `source` alone.
#[verifier::external_body]
fn regex_accepts(source: &str) -> (r: bool)
    ensures
        r == regex_compiles(source@),
{
    regex::Regex::new(source).is_ok()
}

/// Relies on `regex::Regex::is_match`: whether the compiled `source` matches
/// somewhere in `text`.
#[verifier::external_body]
fn regex_is_match(source: &str, text: &str) -> (r: bool)
    requires
        regex_compiles(source@),
    ensures
        r == regex_finds(source@, text@),
{
    match regex::Regex::new(source) {
        Ok(re) => re.is_match(text),
        Err(_) => false,
    }
}

/// Relies on `regex::Regex::replace_all`: every match of the compiled
/// `source` in `text` replaced by `replacement`, capture references expanded.
#[verifier::external_body]
fn regex_replace_all(source: &str, text: &str, replacement: &str) -> (r: String)
    requires
        regex_compiles(source@),
    ensures
        r@ == regex_replaced(source@, text@, replacement@),
{
    match regex::Regex::new(source) {
        Ok(re) => re.replace_all(text, replacement).into_owned(),
        Err(_) => text.to_owned(),
    }
}

/// A regular expression known to compile.
pub struct Matcher {
    source: String,
}

impl Matcher {
    #[verifier::type_invariant]
    spec fn inv(&self) -> bool {
        regex_compiles(self.source@)
    }

    /// The regular expression.
    pub closed spec fn source(&self) -> Seq<char> {
        self.source@
    }

    /// The matcher for `source`, or `None` when it does not compile.
    pub fn new(source: &str) -> (r: Option<Matcher>)
        ensures
            r is Some <==> regex_compiles(source@),
            r matches Some(m) ==> m.source() == source@,
    {
        if regex_accepts(source) {
            Some(Matcher { source: source.to_owned() })
        } else {
            None
        }
    }

    /// Whether the expression matches somewhere in `text`.
    pub fn is_match(&self, text: &str) -> (r: bool)
        ensures
            r == regex_finds(self.source(), text@),
    {
        proof {
            use_type_invariant(self);
        }
        regex_is_match(self.source.as_str(), text)
    }

    /// `text` with every match replaced by `replacement`.
    pub fn replace_all(&self, text: &str, replacement: &str) -> (r: String)
        ensures
            r@ == regex_replaced(self.source(), text@, replacement@),
    {
        proof {
            use_type_invariant(self);
        }
        regex_replace_all(self.source.as_str(), text, replacement)
    }
}

/// The characters that have a meaning of their own in a regular expression.
pub open spec fn is_regex_meta(c: char) -> bool {
    c == '\\' || c == '.' || c == '+' || c == '*' || c == '?' || c == '(' || c == ')' || c == '|'
        || c == '[' || c == ']' || c == '{' || c == '}' || c == '^' || c == '$' || c == '#' || c
        == '&' || c == '-' || c == '~'
}

/// `pattern` as the body of a regular expression: `*` becomes `any`, every
/// other character stands for itself.
pub open spec fn glob_body(pattern: Seq<char>, any: Seq<char>) -> Seq<char>
    decreases pattern.len(),
{
    if pattern.len() == 0 {
        Seq::empty()
    } else {
        let prev = glob_body(pattern.drop_last(), any);
        let c = pattern.last();
        if c == '*' {
            prev + any
        } else if is_regex_meta(c) {
            prev.push('\\').push(c)
        } else {
            prev.push(c)
        }
    }
}

/// The regular expression of a route pattern: the whole path must match, and
/// `*` stands for any sequence of characters.
pub open spec fn route_regex(pattern: Seq<char>) -> Seq<char> {
    "^"@ + glob_body(pattern, ".*"@) + "$"@
}

/// The regular expression of a host-name pattern: the whole name must match,
/// letters in any case, and `*` stands for one label (no dots).
pub open spec fn host_regex(pattern: Seq<char>) -> Seq<char> {
    "(?i)^"@ + glob_body(pattern, "[^.]*"@) + "$"@
}

fn is_meta(c: char) -> (r: bool)
    ensures
        r == is_regex_meta(c),
{
    c == '\\' || c == '.' || c == '+' || c == '*' || c == '?' || c == '(' || c == ')' || c == '|'
        || c == '[' || c == ']' || c == '{' || c == '}' || c == '^' || c == '$' || c == '#' || c
        == '&' || c == '-' || c == '~'
}

/// Appends the body of `pattern` to `out`, `*` written as `any`.
fn append_glob(out: &mut String, pattern: &str, any: &str)
    ensures
        final(out)@ == old(out)@ + glob_body(pattern@, any@),
{
    let n = pattern.unicode_len();
    let ghost start = out@;
    let mut i: usize = 0;
    while i < n
        invariant
            n == pattern@.len(),
            i <= n,
            out@ == start + glob_body(pattern@.subrange(0, i as int), any@),
        decreases n - i,
    {
        let c = pattern.get_char(i);
        assert(pattern@.subrange(0, i + 1).drop_last() =~= pattern@.subrange(0, i as int));
        if c == '*' {
            out.append(any);
        } else if is_meta(c) {
            push_char(out, '\\');
            push_char(out, c);
        } else {
            push_char(out, c);
        }
        i = i + 1;
        assert(out@ =~= start + glob_body(pattern@.subrange(0, i as int), any@));
    }
    assert(pattern@.subrange(0, n as int) =~= pattern@);
}

/// The regular expression of route pattern `pattern`.
pub fn route_regex_of(pattern: &str) -> (r: String)
    ensures
        r@ == route_regex(pattern@),
{
    let mut r = "^".to_owned();
    append_glob(&mut r, pattern, ".*");
    r.append("$");
    r
}

/// The regular expression of host-name pattern `pattern`.
pub fn host_regex_of(pattern: &str) -> (r: String)
    ensures
        r@ == host_regex(pattern@),
{
    let mut r = "(?i)^".to_owned();
    append_glob(&mut r, pattern, "[^.]*");
    r.append("$");
    r
}

} // verus!
