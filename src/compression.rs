//! Content negotiation: which encoding a response gets, and whether its
//! type may be compressed or cached. The encoders are the `brotli` and
//! `flate2` crates.
use vstd::prelude::*;
use crate::text::{ascii_lower, has_prefix, has_substring, to_ascii_lower, contains, starts_with};

verus! {

/// The outcome of the brotli encoder at its default settings on `data`: the
/// encoded bytes, or `None` when the encoder reports an error.
pub uninterp spec fn brotli_result(data: Seq<u8>) -> Option<Seq<u8>>;

/// The outcome of the gzip encoder at the default level on `data`.
pub uninterp spec fn gzip_result(data: Seq<u8>) -> Option<Seq<u8>>;

/// The outcome of the raw deflate encoder at the default level on `data`.
pub uninterp spec fn deflate_result(data: Seq<u8>) -> Option<Seq<u8>>;

/// The bytes of an optional buffer.
pub open spec fn bytes_view(r: Option<Vec<u8>>) -> Option<Seq<u8>> {
    match r {
        Some(v) => Some(v@),
        None => None,
    }
}

/// Relies on `brotli::BrotliCompress` with default parameters, reading from
/// a slice and writing into a `Vec`: the outcome depends on `data` alone.
#[verifier::external_body]
fn brotli_encode(data: &[u8]) -> (r: Option<Vec<u8>>)
    ensures
        bytes_view(r) == brotli_result(data@),
{
    let params = brotli::enc::BrotliEncoderParams::default();
    let mut input = std::io::Cursor::new(data);
    let mut output: Vec<u8> = Vec::new();
    match brotli::BrotliCompress(&mut input, &mut output, &params) {
        Ok(_) => Some(output),
        Err(_) => None,
    }
}

/// Relies on `flate2::write::GzEncoder` at the default level over a `Vec`:
/// the outcome of `write_all` and `finish` depends on `data` alone.
#[verifier::external_body]
fn gzip_encode(data: &[u8]) -> (r: Option<Vec<u8>>)
    ensures
        bytes_view(r) == gzip_result(data@),
{
    let mut encoder = flate2::write::GzEncoder::new(Vec::new(), flate2::Compression::default());
    match std::io::Write::write_all(&mut encoder, data) {
        Ok(()) => encoder.finish().ok(),
        Err(_) => None,
    }
}

/// Relies on `flate2::write::DeflateEncoder` at the default level over a
/// `Vec`: the outcome of `write_all` and `finish` depends on `data` alone.
#[verifier::external_body]
fn deflate_encode(data: &[u8]) -> (r: Option<Vec<u8>>)
    ensures
        bytes_view(r) == deflate_result(data@),
{
    let mut encoder = flate2::write::DeflateEncoder::new(Vec::new(), flate2::Compression::default());
    match std::io::Write::write_all(&mut encoder, data) {
        Ok(()) => encoder.finish().ok(),
        Err(_) => None,
    }
}

/// Payloads shorter than this are sent as they are.
pub const MIN_COMPRESS_SIZE: usize = 1024;

/// A content encoding.
#[derive(PartialEq, Eq, Structural, Clone, Copy, Debug)]
pub enum CompressionType {
    /// Sent as it is.
    Identity,
    Gzip,
    Brotli,
    Deflate,
}

/// The encoding that an `Accept-Encoding` header asks for: brotli before
/// gzip before deflate, each found as a piece of the header in any case.
pub open spec fn preferred_encoding(header: Option<Seq<char>>) -> CompressionType {
    match header {
        None => CompressionType::Identity,
        Some(h) => {
            let l = ascii_lower(h);
            if has_substring(l, "br"@) {
                CompressionType::Brotli
            } else if has_substring(l, "gzip"@) {
                CompressionType::Gzip
            } else if has_substring(l, "deflate"@) {
                CompressionType::Deflate
            } else {
                CompressionType::Identity
            }
        },
    }
}

/// The `Content-Encoding` label of encoding `c`.
pub open spec fn encoding_label(c: CompressionType) -> Option<Seq<char>> {
    match c {
        CompressionType::Identity => None,
        CompressionType::Gzip => Some("gzip"@),
        CompressionType::Brotli => Some("br"@),
        CompressionType::Deflate => Some("deflate"@),
    }
}

/// The outcome of encoding `data` with `c`; no encoding always succeeds.
pub open spec fn encoder_outcome(c: CompressionType, data: Seq<u8>) -> Option<Seq<u8>> {
    match c {
        CompressionType::Identity => Some(data),
        CompressionType::Gzip => gzip_result(data),
        CompressionType::Brotli => brotli_result(data),
        CompressionType::Deflate => deflate_result(data),
    }
}

/// The bytes sent for `data` when encoding `c` was chosen: the encoded bytes
/// when the encoder succeeds, else `data` as it is.
pub open spec fn sent_body(c: CompressionType, data: Seq<u8>) -> Seq<u8> {
    match encoder_outcome(c, data) {
        Some(v) => v,
        None => data,
    }
}

/// The `Content-Encoding` label sent for `data` when encoding `c` was
/// chosen: the label of `c` when its encoder succeeds, else none.
pub open spec fn sent_label(c: CompressionType, data: Seq<u8>) -> Option<Seq<char>> {
    match encoder_outcome(c, data) {
        Some(_) => encoding_label(c),
        None => None,
    }
}

/// The view of an optional static label.
pub open spec fn label_view(l: Option<&'static str>) -> Option<Seq<char>> {
    match l {
        Some(s) => Some(s@),
        None => None,
    }
}

impl CompressionType {
    /// The encoding that `Accept-Encoding` header `header` asks for.
    pub fn from_accept_encoding(header: Option<&str>) -> (r: Self)
        ensures
            r == preferred_encoding(
                match header {
                    Some(h) => Some(h@),
                    None => None,
                },
            ),
    {
        match header {
            None => CompressionType::Identity,
            Some(h) => {
                let l = to_ascii_lower(h);
                if contains(l.as_str(), "br") {
                    CompressionType::Brotli
                } else if contains(l.as_str(), "gzip") {
                    CompressionType::Gzip
                } else if contains(l.as_str(), "deflate") {
                    CompressionType::Deflate
                } else {
                    CompressionType::Identity
                }
            },
        }
    }

    /// The `Content-Encoding` label, absent for no encoding.
    pub fn content_encoding(&self) -> (r: Option<&'static str>)
        ensures
            match r {
                Some(s) => encoding_label(*self) == Some(s@),
                None => encoding_label(*self) is None,
            },
    {
        match self {
            CompressionType::Identity => None,
            CompressionType::Gzip => Some("gzip"),
            CompressionType::Brotli => Some("br"),
            CompressionType::Deflate => Some("deflate"),
        }
    }
}

/// `data` in encoding `compression_type`, or `None` when the encoder fails.
pub fn compress(data: &[u8], compression_type: CompressionType) -> (r: Option<Vec<u8>>)
    ensures
        bytes_view(r) == encoder_outcome(compression_type, data@),
{
    match compression_type {
        CompressionType::Identity => Some(vstd::slice::slice_to_vec(data)),
        CompressionType::Gzip => gzip_encode(data),
        CompressionType::Brotli => brotli_encode(data),
        CompressionType::Deflate => deflate_encode(data),
    }
}

/// Types worth compressing: text, JSON, JavaScript, XML, SVG, WebAssembly.
pub open spec fn compressible(mime: Seq<char>) -> bool {
    has_prefix(mime, "text/"@) || has_prefix(mime, "application/json"@) || has_prefix(
        mime,
        "application/javascript"@,
    ) || has_prefix(mime, "application/xml"@) || has_prefix(mime, "image/svg+xml"@) || has_prefix(
        mime,
        "application/wasm"@,
    )
}

/// Types that may be cached: style sheets, scripts, images and fonts.
pub open spec fn cacheable(mime: Seq<char>) -> bool {
    has_prefix(mime, "text/css"@) || has_prefix(mime, "text/javascript"@) || has_prefix(
        mime,
        "application/javascript"@,
    ) || has_prefix(mime, "image/"@) || has_prefix(mime, "font/"@) || has_prefix(
        mime,
        "application/font"@,
    )
}

/// Whether content of type `mime` is worth compressing.
pub fn should_compress(mime: &str) -> (r: bool)
    ensures
        r == compressible(mime@),
{
    starts_with(mime, "text/") || starts_with(mime, "application/json") || starts_with(
        mime,
        "application/javascript",
    ) || starts_with(mime, "application/xml") || starts_with(mime, "image/svg+xml")
        || starts_with(mime, "application/wasm")
}

/// Whether content of type `mime` may be cached.
pub fn is_cacheable(mime: &str) -> (r: bool)
    ensures
        r == cacheable(mime@),
{
    starts_with(mime, "text/css") || starts_with(mime, "text/javascript") || starts_with(
        mime,
        "application/javascript",
    ) || starts_with(mime, "image/") || starts_with(mime, "font/") || starts_with(
        mime,
        "application/font",
    )
}

/// The encoding a response gets: none when compression is off, the payload
/// is under [`MIN_COMPRESS_SIZE`] bytes or its type is not compressible;
/// otherwise what the client's `Accept-Encoding` header prefers.
pub open spec fn negotiated(
    enabled: bool,
    len: nat,
    mime: Seq<char>,
    accept: Option<Seq<char>>,
) -> CompressionType {
    if !enabled || len < MIN_COMPRESS_SIZE || !compressible(mime) {
        CompressionType::Identity
    } else {
        preferred_encoding(accept)
    }
}

/// A payload under [`MIN_COMPRESS_SIZE`] bytes is never encoded, whatever
/// its type and whatever encodings the client accepts.
pub proof fn lemma_small_payloads_stay_unencoded(
    enabled: bool,
    len: nat,
    mime: Seq<char>,
    accept: Option<Seq<char>>,
)
    requires
        len < MIN_COMPRESS_SIZE,
    ensures
        negotiated(enabled, len, mime, accept) == CompressionType::Identity,
{
}

/// The encoding a response gets.
pub fn compression_choice(enabled: bool, len: usize, mime: &str, accept_encoding: Option<&str>) -> (r: CompressionType)
    ensures
        r == negotiated(
            enabled,
            len as nat,
            mime@,
            match accept_encoding {
                Some(h) => Some(h@),
                None => None,
            },
        ),
{
    if !enabled || len < MIN_COMPRESS_SIZE || !should_compress(mime) {
        CompressionType::Identity
    } else {
        CompressionType::from_accept_encoding(accept_encoding)
    }
}

/// The payload and encoding label to send, given the encoder's outcome
/// `result` for encoding `choice`: the encoded bytes and the label when it
/// succeeded, else `data` unchanged and no label.
pub fn finish_compression(data: &[u8], choice: CompressionType, result: Option<Vec<u8>>) -> (r: (
    Vec<u8>,
    Option<&'static str>,
))
    ensures
        match result {
            Some(v) => choice != CompressionType::Identity ==> (r.0@ == v@ && (r.1 matches Some(l)
                && encoding_label(choice) == Some(l@))),
            None => r.0@ == data@ && r.1 is None,
        },
        choice == CompressionType::Identity ==> r.0@ == data@ && r.1 is None,
{
    if choice == CompressionType::Identity {
        return (vstd::slice::slice_to_vec(data), None);
    }
    match result {
        Some(v) => (v, choice.content_encoding()),
        None => (vstd::slice::slice_to_vec(data), None),
    }
}

/// The payload and encoding label for `data` of type `mime_type` sent to a
/// client whose `Accept-Encoding` header is `accept_encoding`. When an
/// encoding is chosen but its encoder fails, `data` goes out as it is.
pub fn compress_if_needed(data: &[u8], mime_type: &str, accept_encoding: &str) -> (r: (
    Vec<u8>,
    Option<&'static str>,
))
    ensures
        ({
            let choice = negotiated(true, data@.len(), mime_type@, Some(accept_encoding@));
            &&& r.0@ == sent_body(choice, data@)
            &&& label_view(r.1) == sent_label(choice, data@)
        }),
{
    let choice = compression_choice(true, data.len(), mime_type, Some(accept_encoding));
    if choice == CompressionType::Identity {
        return (vstd::slice::slice_to_vec(data), None);
    }
    let result = compress(data, choice);
    finish_compression(data, choice, result)
}

} // verus!
