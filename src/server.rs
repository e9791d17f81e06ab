//! Response assembly for served files: content type, negotiated encoding,
//! cache headers, CORS headers and configured headers, in that order.
use vstd::prelude::*;
use crate::text::{ascii_lower, push_char};
use crate::response::{Response, text_bytes};
use crate::compression::{
    negotiated,
    sent_body,
    sent_label,
    cacheable,
    compression_choice,
    compress,
    finish_compression,
    is_cacheable,
    CompressionType,
};
use crate::config::ServeConfig;
use crate::static_files::resolve_path;

verus! {

/// The MIME type that the extension of `path` suggests, or
/// `application/octet-stream` when it suggests none.
pub uninterp spec fn guessed_mime(path: Seq<char>) -> Seq<char>;

/// The IMF-fixdate text (`Fri, 15 May 2015 15:34:21 GMT`) of the instant
/// `secs` seconds after the Unix epoch.
pub uninterp spec fn http_date_of(secs: u64) -> Seq<char>;

/// Instants from the year 10000 on have no HTTP date.
pub const MAX_HTTP_DATE_SECS: u64 = 253402300800;

/// Relies on `mime_guess::from_path(..).first_or_octet_stream()`: the type
/// registered for the extension of `path`.
#[verifier::external_body]
fn mime_for_path(path: &str) -> (r: String)
    ensures
        r@ == guessed_mime(path@),
{
    mime_guess::from_path(path).first_or_octet_stream().to_string()
}

/// Relies on `httpdate::fmt_http_date`, which panics from the year 10000 on.
#[verifier::external_body]
fn http_date(secs: u64) -> (r: String)
    requires
        secs < MAX_HTTP_DATE_SECS,
    ensures
        r@ == http_date_of(secs),
{
    httpdate::fmt_http_date(std::time::UNIX_EPOCH + std::time::Duration::from_secs(secs))
}

/// A file read for a response.
pub struct FileResponse {
    pub content: Vec<u8>,
    pub mime: String,
    /// Last modification, in seconds since the Unix epoch, when known.
    pub modified: Option<u64>,
}

/// The response record for file `path` with `content`, its type guessed
/// from the extension.
pub fn file_response(path: &str, content: Vec<u8>, modified: Option<u64>) -> (r: FileResponse)
    ensures
        r.content@ == content@,
        r.mime@ == guessed_mime(path@),
        r.modified == modified,
{
    FileResponse { content, mime: mime_for_path(path), modified }
}

/// The value of the last configured header whose name is `key` in any case.
pub open spec fn custom_get(hs: Seq<(String, String)>, key: Seq<char>) -> Option<Seq<char>>
    decreases hs.len(),
{
    if hs.len() == 0 {
        None
    } else if ascii_lower(hs.last().0@) == key {
        Some(hs.last().1@)
    } else {
        custom_get(hs.drop_last(), key)
    }
}

/// The value cache headers give: `Cache-Control` and `Last-Modified` for
/// cacheable types when caching is on.
pub open spec fn cache_header(cache: bool, mime: Seq<char>, modified: Option<u64>, key: Seq<char>) -> Option<Seq<char>> {
    if !cache || !cacheable(mime) {
        None
    } else if key == "cache-control"@ {
        Some("public, max-age=3600"@)
    } else if key == "last-modified"@ {
        match modified {
            Some(s) => if s < MAX_HTTP_DATE_SECS {
                Some(http_date_of(s))
            } else {
                None
            },
            None => None,
        }
    } else {
        None
    }
}

/// The value CORS headers give when CORS is on.
pub open spec fn cors_header(cors: bool, key: Seq<char>) -> Option<Seq<char>> {
    if !cors {
        None
    } else if key == "access-control-allow-origin"@ {
        Some("*"@)
    } else if key == "access-control-allow-methods"@ {
        Some("GET, HEAD, OPTIONS"@)
    } else if key == "access-control-allow-headers"@ {
        Some("*"@)
    } else {
        None
    }
}

/// The header named `key` (lower case) that the pipeline itself sets on a
/// file response of type `mime` sent with encoding label `label`.
pub open spec fn automatic_header(
    cache: bool,
    cors: bool,
    mime: Seq<char>,
    modified: Option<u64>,
    label: Option<Seq<char>>,
    key: Seq<char>,
) -> Option<Seq<char>> {
    if key == "content-type"@ {
        Some(mime)
    } else if key == "content-encoding"@ {
        label
    } else if key == "cache-control"@ || key == "last-modified"@ {
        cache_header(cache, mime, modified, key)
    } else {
        cors_header(cors, key)
    }
}

/// The header named `key` (lower case) of a file response: a configured
/// header wins over the pipeline's own.
pub open spec fn success_header(
    config: ServeConfig,
    mime: Seq<char>,
    modified: Option<u64>,
    label: Option<Seq<char>>,
    key: Seq<char>,
) -> Option<Seq<char>> {
    match custom_get(config.headers@, key) {
        Some(v) => Some(v),
        None => automatic_header(config.cache, config.cors, mime, modified, label, key),
    }
}

proof fn lemma_lower_fixed(s: Seq<char>)
    requires
        forall|i: int| 0 <= i < s.len() ==> !('A' <= #[trigger] s[i] && s[i] <= 'Z'),
    ensures
        ascii_lower(s) == s,
{
    assert(ascii_lower(s) =~= s);
}

proof fn lemma_header_names()
    ensures
        ascii_lower("content-type"@) == "content-type"@,
        ascii_lower("content-encoding"@) == "content-encoding"@,
        ascii_lower("cache-control"@) == "cache-control"@,
        ascii_lower("last-modified"@) == "last-modified"@,
        ascii_lower("access-control-allow-origin"@) == "access-control-allow-origin"@,
        ascii_lower("access-control-allow-methods"@) == "access-control-allow-methods"@,
        ascii_lower("access-control-allow-headers"@) == "access-control-allow-headers"@,
        "content-type"@ != "content-encoding"@,
        "content-type"@ != "cache-control"@,
        "content-type"@ != "last-modified"@,
        "content-encoding"@ != "cache-control"@,
        "content-encoding"@ != "last-modified"@,
        "cache-control"@ != "last-modified"@,
        "access-control-allow-origin"@ != "access-control-allow-methods"@,
        "access-control-allow-origin"@ != "access-control-allow-headers"@,
        "access-control-allow-methods"@ != "access-control-allow-headers"@,
        "access-control-allow-origin"@ != "content-type"@,
        "access-control-allow-origin"@ != "content-encoding"@,
        "access-control-allow-origin"@ != "cache-control"@,
        "access-control-allow-origin"@ != "last-modified"@,
        "access-control-allow-methods"@ != "content-type"@,
        "access-control-allow-methods"@ != "content-encoding"@,
        "access-control-allow-methods"@ != "cache-control"@,
        "access-control-allow-methods"@ != "last-modified"@,
        "access-control-allow-headers"@ != "content-type"@,
        "access-control-allow-headers"@ != "content-encoding"@,
        "access-control-allow-headers"@ != "cache-control"@,
        "access-control-allow-headers"@ != "last-modified"@,
{
    reveal_strlit("content-type");
    reveal_strlit("content-encoding");
    reveal_strlit("cache-control");
    reveal_strlit("last-modified");
    reveal_strlit("access-control-allow-origin");
    reveal_strlit("access-control-allow-methods");
    reveal_strlit("access-control-allow-headers");
    lemma_lower_fixed("content-type"@);
    lemma_lower_fixed("content-encoding"@);
    lemma_lower_fixed("cache-control"@);
    lemma_lower_fixed("last-modified"@);
    lemma_lower_fixed("access-control-allow-origin"@);
    lemma_lower_fixed("access-control-allow-methods"@);
    lemma_lower_fixed("access-control-allow-headers"@);
    assert("access-control-allow-methods"@[21] != "access-control-allow-headers"@[21]);
    assert("content-type"@.len() != "content-encoding"@.len());
    assert("cache-control"@[0] != "last-modified"@[0]);
    assert("content-type"@[0] != "last-modified"@[0]);
    assert("content-encoding"@[0] != "last-modified"@[0]);
    assert("content-type"@.len() != "cache-control"@.len());
    assert("content-encoding"@.len() != "cache-control"@.len());
}

/// Sets the cache headers of a response of type `mime`.
fn add_cache_headers(r: &mut Response, config: &ServeConfig, mime: &str, modified: Option<u64>)
    ensures
        final(r).spec_status() == old(r).spec_status(),
        final(r).spec_body() == old(r).spec_body(),
        forall|n: Seq<char>|
            #![trigger final(r).spec_header(n)]
            (ascii_lower(n) == "cache-control"@ || ascii_lower(n) == "last-modified"@)
                ==> final(r).spec_header(n) == match cache_header(config.cache, mime@, modified, ascii_lower(n)) {
                Some(v) => Some(v),
                None => old(r).spec_header(n),
            },
        forall|n: Seq<char>|
            #![trigger final(r).spec_header(n)]
            !(ascii_lower(n) == "cache-control"@ || ascii_lower(n) == "last-modified"@)
                ==> final(r).spec_header(n) == old(r).spec_header(n),
{
    proof {
        lemma_header_names();
    }
    if !config.cache || !is_cacheable(mime) {
        return;
    }
    r.set_header("cache-control", "public, max-age=3600");
    match modified {
        Some(secs) => {
            if secs < MAX_HTTP_DATE_SECS {
                let date = http_date(secs);
                r.set_header("last-modified", date.as_str());
            }
        },
        None => {},
    }
}

/// Sets the CORS headers when CORS is on.
fn add_cors_headers(r: &mut Response, config: &ServeConfig)
    ensures
        final(r).spec_status() == old(r).spec_status(),
        final(r).spec_body() == old(r).spec_body(),
        forall|n: Seq<char>|
            #![trigger final(r).spec_header(n)]
            final(r).spec_header(n) == match cors_header(config.cors, ascii_lower(n)) {
                Some(v) => Some(v),
                None => old(r).spec_header(n),
            },
{
    proof {
        lemma_header_names();
    }
    if !config.cors {
        return;
    }
    r.set_header("access-control-allow-origin", "*");
    r.set_header("access-control-allow-methods", "GET, HEAD, OPTIONS");
    r.set_header("access-control-allow-headers", "*");
}

/// Sets the configured headers, in order.
fn add_custom_headers(r: &mut Response, config: &ServeConfig)
    ensures
        final(r).spec_status() == old(r).spec_status(),
        final(r).spec_body() == old(r).spec_body(),
        forall|n: Seq<char>|
            #![trigger final(r).spec_header(n)]
            final(r).spec_header(n) == match custom_get(config.headers@, ascii_lower(n)) {
                Some(v) => Some(v),
                None => old(r).spec_header(n),
            },
{
    let ghost start = *r;
    let mut i: usize = 0;
    while i < config.headers.len()
        invariant
            i <= config.headers@.len(),
            r.spec_status() == start.spec_status(),
            r.spec_body() == start.spec_body(),
            forall|n: Seq<char>|
                #![trigger r.spec_header(n)]
                r.spec_header(n) == match custom_get(
                    config.headers@.subrange(0, i as int),
                    ascii_lower(n),
                ) {
                    Some(v) => Some(v),
                    None => start.spec_header(n),
                },
        decreases config.headers@.len() - i,
    {
        let (name, value) = (&config.headers[i].0, &config.headers[i].1);
        r.set_header(name.as_str(), value.as_str());
        assert(config.headers@.subrange(0, i + 1).drop_last() =~= config.headers@.subrange(
            0,
            i as int,
        ));
        i = i + 1;
    }
    assert(config.headers@.subrange(0, i as int) =~= config.headers@);
}

/// The response for `file`, sent to a client whose `Accept-Encoding` header
/// is `accept_encoding`: status 200, the file's type, the negotiated
/// encoding, cache and CORS headers as configured, then the configured
/// headers, which override the others. When the encoder fails the content
/// goes out unencoded and without `Content-Encoding`.
pub fn build_success_response(config: &ServeConfig, accept_encoding: Option<&str>, file: FileResponse) -> (r: Response)
    ensures
        r.spec_status() == 200,
        ({
            let choice = negotiated(
                config.compression,
                file.content@.len(),
                file.mime@,
                match accept_encoding {
                    Some(h) => Some(h@),
                    None => None,
                },
            );
            &&& r.spec_body() == sent_body(choice, file.content@)
            &&& forall|n: Seq<char>|
                #[trigger] r.spec_header(n) == success_header(
                    *config,
                    file.mime@,
                    file.modified,
                    sent_label(choice, file.content@),
                    ascii_lower(n),
                )
        }),
{
    proof {
        lemma_header_names();
    }
    let mut r = Response::new(200);
    r.set_header("content-type", file.mime.as_str());
    let choice = compression_choice(
        config.compression,
        file.content.len(),
        file.mime.as_str(),
        accept_encoding,
    );
    let result = compress(file.content.as_slice(), choice);
    let (body, label) = finish_compression(file.content.as_slice(), choice, result);
    match label {
        Some(l) => r.set_header("content-encoding", l),
        None => {},
    }
    let ghost label_view: Option<Seq<char>> = match label {
        Some(l) => Some(l@),
        None => None,
    };
    add_cache_headers(&mut r, config, file.mime.as_str(), file.modified);
    add_cors_headers(&mut r, config);
    add_custom_headers(&mut r, config);
    r.set_body(body);
    assert forall|n: Seq<char>|
        #[trigger] r.spec_header(n) == success_header(
            *config,
            file.mime@,
            file.modified,
            label_view,
            ascii_lower(n),
        ) by {}
    r
}

/// The decimal digits of `n`.
pub open spec fn decimal_text(n: nat) -> Seq<char>
    decreases n,
{
    if n < 10 {
        seq![digit_char((n % 10) as nat)]
    } else {
        decimal_text(n / 10).push(digit_char((n % 10) as nat))
    }
}

/// The character of decimal digit `d`.
pub open spec fn digit_char(d: nat) -> char {
    (('0' as u8) + (d % 10) as u8) as char
}

/// The decimal digits of `n`.
pub fn decimal(n: u64) -> (r: String)
    ensures
        r@ == decimal_text(n as nat),
    decreases n,
{
    let d = (n % 10) as u8;
    let c = (('0' as u8) + d) as char;
    assert(c == digit_char((n % 10) as nat));
    if n < 10 {
        let mut r = String::new();
        push_char(&mut r, c);
        assert(r@ =~= seq![c]);
        r
    } else {
        let mut r = decimal(n / 10);
        push_char(&mut r, c);
        r
    }
}

/// The body of an error page for `status` explaining `message`.
pub open spec fn error_page(status: u16, message: Seq<char>) -> Seq<char> {
    "<h1>"@ + decimal_text(status as nat) + " Error</h1><p>"@ + message + "</p>"@
}

/// The answer to a failed request: an HTML page naming the status and
/// `message`, with the CORS origin header when CORS is on.
pub fn build_error_response(status: u16, message: &str, config: &ServeConfig) -> (r: Response)
    ensures
        r.spec_status() == status,
        r.spec_body() == vstd::utf8::encode_utf8(error_page(status, message@)),
        r.spec_header("content-type"@) == Some("text/html"@),
        r.spec_header("access-control-allow-origin"@) == if config.cors {
            Some("*"@)
        } else {
            None::<Seq<char>>
        },
{
    proof {
        lemma_header_names();
    }
    let mut page = "<h1>".to_owned();
    let code = decimal(status as u64);
    page.append(code.as_str());
    page.append(" Error</h1><p>");
    page.append(message);
    page.append("</p>");
    let mut r = Response::new(status);
    if config.cors {
        r.set_header("access-control-allow-origin", "*");
    }
    r.set_header("content-type", "text/html");
    r.set_body(text_bytes(page.as_str()));
    r
}

/// The single-root file service: where a request path is found on disk.
pub struct FileService {
    config: ServeConfig,
    root_dir: String,
}

impl FileService {
    /// The document root.
    pub closed spec fn spec_root(&self) -> Seq<char> {
        self.root_dir@
    }

    /// Whether single-page fallback is on.
    pub closed spec fn spec_spa(&self) -> bool {
        self.config.spa
    }

    /// A service over `config.directory`.
    pub fn new(config: ServeConfig) -> (r: Self)
        ensures
            r.spec_root() == config.directory@,
            r.spec_spa() == config.spa,
    {
        let root_dir = config.directory.clone();
        FileService { config, root_dir }
    }

    /// Where request path `req_path` lies below the root.
    pub fn candidate_path(&self, req_path: &str) -> (r: String)
        ensures
            r@ == crate::static_files::resolve_below(self.spec_root(), req_path@),
    {
        resolve_path(self.root_dir.as_str(), req_path)
    }

    /// The file to read for `req_path`: `index.html` of the root for the
    /// root itself, `index.html` inside a directory (`is_dir`), else the
    /// resolved path.
    pub fn resolve_file_path(&self, req_path: &str, is_dir: bool) -> (r: String)
        ensures
            ({
                let p = crate::static_files::resolve_below(self.spec_root(), req_path@);
                r@ == if p == self.spec_root() || is_dir {
                    crate::static_files::with_separator(p) + "index.html"@
                } else {
                    p
                }
            }),
    {
        let p = resolve_path(self.root_dir.as_str(), req_path);
        if p == self.root_dir || is_dir {
            let mut r = p;
            let name = "index.html".to_owned();
            crate::static_files::append_below(&mut r, &name);
            r
        } else {
            p
        }
    }

    /// The page to read instead when a file cannot be read: the root's
    /// `index.html` with single-page fallback on, else none.
    pub fn fallback_to_spa_if_enabled(&self) -> (r: Option<String>)
        ensures
            self.spec_spa() ==> (r matches Some(p) && p@ == crate::static_files::with_separator(
                self.spec_root(),
            ) + "index.html"@),
            !self.spec_spa() ==> r is None,
    {
        if self.config.spa {
            let mut r = self.root_dir.clone();
            let name = "index.html".to_owned();
            crate::static_files::append_below(&mut r, &name);
            Some(r)
        } else {
            None
        }
    }
}

} // verus!
