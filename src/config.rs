//! Configuration records, read once at start-up and never changed after.
use vstd::prelude::*;
use crate::text::find_char;

verus! {

/// Listener settings.
pub struct ServerConfig {
    pub host: String,
    pub port: u16,
    pub workers: Option<usize>,
    pub max_connections: Option<usize>,
    pub connection_timeout: Option<u64>,
}

/// Static-file settings.
pub struct StaticFilesConfig {
    pub root_dir: String,
    pub directory_listing: Option<bool>,
    pub default_file: Option<String>,
    pub cache_control: Option<String>,
}

/// TLS settings.
pub struct TlsConfig {
    pub enabled: bool,
    pub cert_file: Option<String>,
    pub key_file: Option<String>,
}

/// One virtual host: a host-name pattern and its document root.
pub struct VirtualHostConfig {
    pub host: String,
    pub root_dir: String,
    pub tls: Option<TlsConfig>,
}

/// The whole server configuration.
pub struct Config {
    pub server: ServerConfig,
    pub static_files: StaticFilesConfig,
    pub tls: Option<TlsConfig>,
    pub virtual_hosts: Option<Vec<VirtualHostConfig>>,
}

/// Relies on `num_cpus::get`, which is documented to return at least one.
#[verifier::external_body]
fn cpu_count() -> (r: usize)
    ensures
        r >= 1,
{
    num_cpus::get()
}

impl Config {
    /// The configuration used when none is given: 127.0.0.1:8000, one worker
    /// per CPU, files from `./public` with `index.html` as default file and
    /// listing off, no TLS and no virtual hosts.
    pub fn default() -> (r: Self)
        ensures
            r.server.host@ == "127.0.0.1"@,
            r.server.port == 8000,
            r.server.workers matches Some(w) && w >= 1,
            r.server.max_connections == Some(1024usize),
            r.server.connection_timeout == Some(60u64),
            r.static_files.root_dir@ == "./public"@,
            r.static_files.directory_listing == Some(false),
            r.static_files.default_file matches Some(f) && f@ == "index.html"@,
            r.static_files.cache_control matches Some(c) && c@ == "public, max-age=3600"@,
            r.tls is None,
            r.virtual_hosts is None,
    {
        Config {
            server: ServerConfig {
                host: "127.0.0.1".to_owned(),
                port: 8000,
                workers: Some(cpu_count()),
                max_connections: Some(1024),
                connection_timeout: Some(60),
            },
            static_files: StaticFilesConfig {
                root_dir: "./public".to_owned(),
                directory_listing: Some(false),
                default_file: Some("index.html".to_owned()),
                cache_control: Some("public, max-age=3600".to_owned()),
            },
            tls: None,
            virtual_hosts: None,
        }
    }
}

/// Settings of the single-root file server.
pub struct ServeConfig {
    pub port: u16,
    pub host: String,
    pub directory: String,
    pub spa: bool,
    pub compression: bool,
    pub cache: bool,
    pub cors: bool,
    /// Extra response headers, applied in order; a later entry for a name
    /// overrides an earlier one.
    pub headers: Vec<(String, String)>,
}

impl Default for ServeConfig {
    fn default() -> (r: Self)
        ensures
            r.port == 3000,
            r.host@ == "127.0.0.1"@,
            r.directory@ == "."@,
            !r.spa,
            r.compression,
            r.cache,
            !r.cors,
            r.headers@.len() == 0,
    {
        ServeConfig {
            port: 3000,
            host: "127.0.0.1".to_owned(),
            directory: ".".to_owned(),
            spa: false,
            compression: true,
            cache: true,
            cors: false,
            headers: Vec::new(),
        }
    }
}

/// Command-line options of the single-root file server.
pub struct Cli {
    pub port: u16,
    pub host: String,
    pub directory: Option<String>,
    pub spa: bool,
    pub no_compression: bool,
    pub no_cache: bool,
    pub cors: bool,
    pub header: Vec<(String, String)>,
}

/// The settings that command-line options `cli` ask for; the directory is
/// `.` when none is given.
pub fn create_config_from_cli(cli: Cli) -> (r: ServeConfig)
    ensures
        r.port == cli.port,
        r.host == cli.host,
        match cli.directory {
            Some(d) => r.directory == d,
            None => r.directory@ == "."@,
        },
        r.spa == cli.spa,
        r.compression == !cli.no_compression,
        r.cache == !cli.no_cache,
        r.cors == cli.cors,
        r.headers == cli.header,
{
    let directory = match cli.directory {
        Some(d) => d,
        None => ".".to_owned(),
    };
    ServeConfig {
        port: cli.port,
        host: cli.host,
        directory,
        spa: cli.spa,
        compression: !cli.no_compression,
        cache: !cli.no_cache,
        cors: cli.cors,
        headers: cli.header,
    }
}

/// Whether `c` has Unicode's White_Space property: tab, line feed, line
/// tabulation, form feed, carriage return, space, next line, no-break space,
/// ogham space mark, the spaces U+2000 to U+200A, line and paragraph
/// separators, narrow no-break space, medium mathematical space and
/// ideographic space.
pub open spec fn unicode_white_space(c: char) -> bool {
    ('\u{9}' <= c && c <= '\u{d}') || c == ' ' || c == '\u{85}' || c == '\u{a0}' || c
        == '\u{1680}' || ('\u{2000}' <= c && c <= '\u{200a}') || c == '\u{2028}' || c
        == '\u{2029}' || c == '\u{202f}' || c == '\u{205f}' || c == '\u{3000}'
}

/// Whether `c` is white space in Unicode's sense.
pub fn is_white_space(c: char) -> (r: bool)
    ensures
        r == unicode_white_space(c),
{
    ('\u{9}' <= c && c <= '\u{d}') || c == ' ' || c == '\u{85}' || c == '\u{a0}' || c
        == '\u{1680}' || ('\u{2000}' <= c && c <= '\u{200a}') || c == '\u{2028}' || c
        == '\u{2029}' || c == '\u{202f}' || c == '\u{205f}' || c == '\u{3000}'
}

/// `s` without leading white space.
pub open spec fn trim_start(s: Seq<char>) -> Seq<char>
    decreases s.len(),
{
    if s.len() > 0 && unicode_white_space(s[0]) {
        trim_start(s.drop_first())
    } else {
        s
    }
}

/// `s` without trailing white space.
pub open spec fn trim_end(s: Seq<char>) -> Seq<char>
    decreases s.len(),
{
    if s.len() > 0 && unicode_white_space(s.last()) {
        trim_end(s.drop_last())
    } else {
        s
    }
}

/// `s` without leading and trailing white space.
pub open spec fn trimmed(s: Seq<char>) -> Seq<char> {
    trim_end(trim_start(s))
}

/// `s` without leading and trailing white space.
pub fn trim(s: &str) -> (r: String)
    ensures
        r@ == trimmed(s@),
{
    let n = s.unicode_len();
    let mut a: usize = 0;
    assert(s@.skip(0) =~= s@);
    while a < n && is_white_space(s.get_char(a))
        invariant
            n == s@.len(),
            a <= n,
            trim_start(s@) == trim_start(s@.skip(a as int)),
        decreases n - a,
    {
        assert(s@.skip(a as int).drop_first() =~= s@.skip(a + 1));
        a = a + 1;
    }
    let t = s.substring_char(a, n);
    assert(t@ =~= s@.skip(a as int));
    let mut b: usize = n - a;
    assert(t@.subrange(0, b as int) =~= t@);
    while b > 0 && is_white_space(t.get_char(b - 1))
        invariant
            b <= t@.len(),
            trim_end(t@) == trim_end(t@.subrange(0, b as int)),
        decreases b,
    {
        assert(t@.subrange(0, b as int).drop_last() =~= t@.subrange(0, b - 1));
        b = b - 1;
    }
    t.substring_char(0, b).to_owned()
}

/// A header option that is not of the form `Key:Value`.
#[derive(Debug, PartialEq, Eq, Structural)]
pub enum HeaderFormatError {
    MissingSeparator,
}

/// The name and value of a `Key:Value` header option, each trimmed; the
/// value is everything after the first `:`.
pub fn parse_header(s: &str) -> (r: Result<(String, String), HeaderFormatError>)
    ensures
        match crate::text::find_char_from(s@, ':', 0) {
            Some(i) => r matches Ok((k, v)) && k@ == trimmed(s@.subrange(0, i)) && v@ == trimmed(
                s@.subrange(i + 1, s@.len() as int),
            ),
            None => r == Err::<(String, String), _>(HeaderFormatError::MissingSeparator),
        },
{
    match find_char(s, ':') {
        Some(i) => {
            proof {
                crate::text::lemma_find_char_from_bound(s@, ':', 0);
            }
            let n = s.unicode_len();
            let key = s.substring_char(0, i);
            let value = s.substring_char(i + 1, n);
            Ok((trim(key), trim(value)))
        },
        None => Err(HeaderFormatError::MissingSeparator),
    }
}

} // verus!
