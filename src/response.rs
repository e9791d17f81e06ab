//! The wire response that the pipeline produces: a status, headers in the
//! order they were set, and a body.
use vstd::prelude::*;
use vstd::utf8::encode_utf8;
use crate::text::{ascii_lower, to_ascii_lower};

verus! {

/// Value of the header named `key` (already lower-case): the last entry with
/// that name wins.
pub open spec fn header_get(hs: Seq<(String, String)>, key: Seq<char>) -> Option<Seq<char>>
    decreases hs.len(),
{
    if hs.len() == 0 {
        None
    } else if hs.last().0@ == key {
        Some(hs.last().1@)
    } else {
        header_get(hs.drop_last(), key)
    }
}

/// An HTTP response under construction or ready to be sent.
pub struct Response {
    status: u16,
    headers: Vec<(String, String)>,
    body: Vec<u8>,
}

impl Response {
    pub closed spec fn spec_status(&self) -> u16 {
        self.status
    }

    pub closed spec fn spec_body(&self) -> Seq<u8> {
        self.body@
    }

    /// Value of header `name`, compared without regard to ASCII case.
    pub closed spec fn spec_header(&self, name: Seq<char>) -> Option<Seq<char>> {
        header_get(self.headers@, ascii_lower(name))
    }

    /// A response with the given status, no headers and an empty body.
    pub fn new(status: u16) -> (r: Self)
        ensures
            r.spec_status() == status,
            r.spec_body() == Seq::<u8>::empty(),
            forall|n: Seq<char>| r.spec_header(n) is None,
    {
        Response { status, headers: Vec::new(), body: Vec::new() }
    }

    /// Sets header `name` to `value`, replacing any earlier value of it.
    pub fn set_header(&mut self, name: &str, value: &str)
        ensures
            final(self).spec_status() == old(self).spec_status(),
            final(self).spec_body() == old(self).spec_body(),
            forall|n: Seq<char>|
                #[trigger] final(self).spec_header(n) == if ascii_lower(n) == ascii_lower(name@) {
                    Some(value@)
                } else {
                    old(self).spec_header(n)
                },
    {
        let key = to_ascii_lower(name);
        let v = value.to_owned();
        self.headers.push((key, v));
        assert(self.headers@.drop_last() =~= old(self).headers@);
    }

    /// Replaces the body.
    pub fn set_body(&mut self, body: Vec<u8>)
        ensures
            final(self).spec_status() == old(self).spec_status(),
            final(self).spec_body() == body@,
            forall|n: Seq<char>| #[trigger] final(self).spec_header(n) == old(self).spec_header(n),
    {
        self.body = body;
    }

    /// The status code.
    pub fn status(&self) -> (r: u16)
        ensures
            r == self.spec_status(),
    {
        self.status
    }

    /// The body bytes.
    pub fn body(&self) -> (r: &Vec<u8>)
        ensures
            r@ == self.spec_body(),
    {
        &self.body
    }

    /// The headers in the order they were set; a later entry for a name
    /// overrides an earlier one.
    pub fn headers(&self) -> (r: &Vec<(String, String)>)
        ensures
            forall|n: Seq<char>| #[trigger] header_get(r@, ascii_lower(n)) == self.spec_header(n),
    {
        &self.headers
    }

    /// Current value of header `name`, if set.
    pub fn header_value(&self, name: &str) -> (r: Option<String>)
        ensures
            match r {
                Some(v) => self.spec_header(name@) == Some(v@),
                None => self.spec_header(name@) is None,
            },
    {
        let key = to_ascii_lower(name);
        let mut found: Option<String> = None;
        let mut i: usize = 0;
        while i < self.headers.len()
            invariant
                i <= self.headers@.len(),
                key@ == ascii_lower(name@),
                match found {
                    Some(v) => header_get(self.headers@.subrange(0, i as int), key@) == Some(v@),
                    None => header_get(self.headers@.subrange(0, i as int), key@) is None,
                },
            decreases self.headers@.len() - i,
        {
            assert(self.headers@.subrange(0, i + 1).drop_last() =~= self.headers@.subrange(
                0,
                i as int,
            ));
            if self.headers[i].0 == key {
                found = Some(self.headers[i].1.clone());
            }
            i = i + 1;
        }
        assert(self.headers@.subrange(0, i as int) =~= self.headers@);
        found
    }

    /// A response of the given status whose body is the text `body`, with
    /// `Content-Type: text/html`.
    pub fn html(status: u16, body: &str) -> (r: Self)
        ensures
            r.spec_status() == status,
            r.spec_body() == encode_utf8(body@),
            forall|n: Seq<char>|
                #[trigger] r.spec_header(n) == if ascii_lower(n) == ascii_lower(
                    "content-type"@,
                ) {
                    Some("text/html"@)
                } else {
                    None::<Seq<char>>
                },
    {
        let mut r = Response::new(status);
        r.set_header("content-type", "text/html");
        r.set_body(text_bytes(body));
        r
    }
}

/// The body of the not-found page.
pub const NOT_FOUND_BODY: &'static str = "<h1>404 Not Found</h1><p>The requested resource was not found on this server.</p>";

impl Response {
    /// The not-found page: 404 with an HTML body.
    pub fn not_found() -> (r: Self)
        ensures
            r.spec_status() == 404,
            r.spec_body() == encode_utf8(NOT_FOUND_BODY@),
            r.spec_header("content-type"@) == Some("text/html"@),
    {
        Response::html(404, NOT_FOUND_BODY)
    }

    /// The internal-error page: 500 with an HTML body naming `message`, or
    /// `Internal Server Error` without one.
    pub fn server_error(message: Option<&str>) -> (r: Self)
        ensures
            r.spec_status() == 500,
            r.spec_body() == encode_utf8(
                "<h1>500 Internal Server Error</h1><p>"@ + match message {
                    Some(m) => m@,
                    None => "Internal Server Error"@,
                } + "</p>"@,
            ),
            r.spec_header("content-type"@) == Some("text/html"@),
    {
        let mut page = "<h1>500 Internal Server Error</h1><p>".to_owned();
        match message {
            Some(m) => page.append(m),
            None => page.append("Internal Server Error"),
        }
        page.append("</p>");
        Response::html(500, page.as_str())
    }
}

/// The UTF-8 bytes of `s`.
pub fn text_bytes(s: &str) -> (r: Vec<u8>)
    ensures
        r@ == encode_utf8(s@),
{
    vstd::slice::slice_to_vec(s.as_bytes())
}

} // verus!
