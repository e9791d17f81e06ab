//! The parts of an HTTP request that the pipeline reads, as plain values.
use vstd::prelude::*;

verus! {

/// An IP address as its bytes in network order.
#[derive(Clone, Copy, Debug)]
pub enum IpAddress {
    V4([u8; 4]),
    V6([u8; 16]),
}

impl IpAddress {
    /// The address bytes, most significant first.
    pub open spec fn octets(&self) -> Seq<u8> {
        match self {
            IpAddress::V4(a) => a@,
            IpAddress::V6(a) => a@,
        }
    }

    /// Whether `self` and `other` are the same address of the same family.
    pub open spec fn same_as(&self, other: IpAddress) -> bool {
        (self is V4 <==> other is V4) && self.octets() == other.octets()
    }

    /// Whether `self` and `other` are the same address of the same family.
    pub fn equals(&self, other: &IpAddress) -> (r: bool)
        ensures
            r == self.same_as(*other),
    {
        match (self, other) {
            (IpAddress::V4(a), IpAddress::V4(b)) => bytes_equal(a, b),
            (IpAddress::V6(a), IpAddress::V6(b)) => bytes_equal(a, b),
            _ => false,
        }
    }
}

/// Whether `a` and `b` hold the same bytes.
pub fn bytes_equal(a: &[u8], b: &[u8]) -> (r: bool)
    ensures
        r == (a@ == b@),
{
    if a.len() != b.len() {
        return false;
    }
    let mut i: usize = 0;
    while i < a.len()
        invariant
            a@.len() == b@.len(),
            i <= a@.len(),
            forall|k: int| 0 <= k < i ==> a@[k] == b@[k],
        decreases a@.len() - i,
    {
        if a[i] != b[i] {
            return false;
        }
        i = i + 1;
    }
    assert(a@ =~= b@);
    true
}

/// A request as the pipeline sees it: its path and the headers it reads.
pub struct Request {
    pub method: String,
    pub path: String,
    pub host: Option<String>,
    pub user_agent: Option<String>,
    pub accept_encoding: Option<String>,
    pub authorization: Option<String>,
}

/// The characters of an optional text.
pub open spec fn opt_view(s: Option<String>) -> Option<Seq<char>> {
    match s {
        Some(v) => Some(v@),
        None => None,
    }
}

impl Request {
    /// A `GET` request for `path` without headers.
    pub fn get(path: &str) -> (r: Self)
        ensures
            r.method@ == "GET"@,
            r.path@ == path@,
            r.host is None,
            r.user_agent is None,
            r.accept_encoding is None,
            r.authorization is None,
    {
        Request {
            method: "GET".to_owned(),
            path: path.to_owned(),
            host: None,
            user_agent: None,
            accept_encoding: None,
            authorization: None,
        }
    }
}

/// The text of an optional header, borrowed.
pub fn opt_str(s: &Option<String>) -> (r: Option<&str>)
    ensures
        match r {
            Some(v) => opt_view(*s) == Some(v@),
            None => s is None,
        },
{
    match s {
        Some(v) => Some(v.as_str()),
        None => None,
    }
}

} // verus!
