//! Authentication. Basic authentication is implemented: the credentials in
//! the `Authorization` header are compared with a configured user list, as
//! plain text.
use vstd::prelude::*;
use crate::text::{has_prefix, find_char, find_char_from, starts_with, slice_chars, same_text};
use crate::response::Response;

verus! {

/// The bytes that the standard base64 alphabet encodes in `s`, or `None`
/// when `s` is not valid base64.
pub uninterp spec fn base64_decoded(s: Seq<char>) -> Option<Seq<u8>>;

/// The text of `bytes` read as UTF-8, invalid sequences replaced by U+FFFD.
pub uninterp spec fn utf8_lossy(bytes: Seq<u8>) -> Seq<char>;

/// Relies on `base64::decode` (standard alphabet, padded): the decoded bytes,
/// or `None` on malformed input.
#[verifier::external_body]
fn base64_decode(s: &str) -> (r: Option<Vec<u8>>)
    ensures
        match r {
            Some(v) => base64_decoded(s@) == Some(v@),
            None => base64_decoded(s@) is None,
        },
{
    base64::decode(s).ok()
}

/// Relies on `String::from_utf8_lossy`: `bytes` as text, invalid UTF-8
/// replaced.
#[verifier::external_body]
fn text_of_bytes(bytes: &[u8]) -> (r: String)
    ensures
        r@ == utf8_lossy(bytes@),
{
    String::from_utf8_lossy(bytes).into_owned()
}

/// Errors of authentication.
#[derive(Debug, PartialEq, Eq, Structural, Clone, Copy)]
pub enum AuthError {
    InvalidCredentials,
    MissingCredentials,
    ConfigurationError,
}

impl AuthError {
    /// A short description of the error.
    pub fn message(&self) -> (r: &'static str)
        ensures
            *self == AuthError::InvalidCredentials ==> r@ == "Invalid credentials"@,
            *self == AuthError::MissingCredentials ==> r@ == "Missing credentials"@,
            *self == AuthError::ConfigurationError ==> r@ == "Authentication configuration error"@,
    {
        match self {
            AuthError::InvalidCredentials => "Invalid credentials",
            AuthError::MissingCredentials => "Missing credentials",
            AuthError::ConfigurationError => "Authentication configuration error",
        }
    }
}

/// Authentication schemes.
#[derive(Debug, PartialEq, Eq, Structural, Clone, Copy)]
pub enum AuthMethod {
    Basic,
    Digest,
    Bearer,
}

/// The password stored for `user`: the last entry for that name wins.
pub open spec fn password_of(creds: Seq<(String, String)>, user: Seq<char>) -> Option<Seq<char>>
    decreases creds.len(),
{
    if creds.len() == 0 {
        None
    } else if creds.last().0@ == user {
        Some(creds.last().1@)
    } else {
        password_of(creds.drop_last(), user)
    }
}

/// The user name and password in decoded credentials `d`: the text before
/// and after its first `:`.
pub open spec fn split_credentials_spec(d: Seq<char>) -> Option<(Seq<char>, Seq<char>)> {
    match find_char_from(d, ':', 0) {
        Some(i) => Some((d.subrange(0, i), d.subrange(i + 1, d.len() as int))),
        None => None,
    }
}

/// The outcome of decoded credentials `d` against `creds`.
pub open spec fn credentials_outcome(creds: Seq<(String, String)>, d: Seq<char>) -> Result<
    bool,
    AuthError,
> {
    match split_credentials_spec(d) {
        None => Err(AuthError::InvalidCredentials),
        Some((user, pass)) => if password_of(creds, user) == Some(pass) {
            Ok(true)
        } else {
            Err(AuthError::InvalidCredentials)
        },
    }
}

/// The decoded text of a `Basic` `Authorization` header.
pub open spec fn basic_payload(header: Seq<char>) -> Option<Seq<char>> {
    if has_prefix(header, "Basic "@) {
        match base64_decoded(header.subrange(6, header.len() as int)) {
            Some(b) => Some(utf8_lossy(b)),
            None => None,
        }
    } else {
        None
    }
}

/// The outcome of a request whose `Authorization` header is `header`.
pub open spec fn basic_outcome(creds: Seq<(String, String)>, header: Option<Seq<char>>) -> Result<
    bool,
    AuthError,
> {
    match header {
        None => Err(AuthError::MissingCredentials),
        Some(h) => match basic_payload(h) {
            None => Err(AuthError::InvalidCredentials),
            Some(d) => credentials_outcome(creds, d),
        },
    }
}

proof fn lemma_find_char_in_concat(u: Seq<char>, rest: Seq<char>, i: int)
    requires
        0 <= i <= u.len(),
        forall|k: int| 0 <= k < u.len() ==> u[k] != ':',
    ensures
        find_char_from(u + seq![':'] + rest, ':', i) == Some(u.len() as int),
    decreases u.len() - i,
{
    let d = u + seq![':'] + rest;
    if i < u.len() {
        assert(d[i] == u[i]);
        lemma_find_char_in_concat(u, rest, i + 1);
    } else {
        assert(d[i] == ':');
    }
}

/// Credentials `user:pass`, where the user name holds no `:`, are accepted
/// exactly when `pass` is the password stored for `user`; any other
/// password, a single changed character included, is rejected as invalid.
pub proof fn lemma_credentials_decide(creds: Seq<(String, String)>, user: Seq<char>, pass: Seq<char>)
    requires
        forall|k: int| 0 <= k < user.len() ==> user[k] != ':',
    ensures
        credentials_outcome(creds, user + seq![':'] + pass) == if password_of(creds, user) == Some(
            pass,
        ) {
            Ok::<bool, AuthError>(true)
        } else {
            Err(AuthError::InvalidCredentials)
        },
{
    let d = user + seq![':'] + pass;
    lemma_find_char_in_concat(user, pass, 0);
    assert(d.subrange(0, user.len() as int) =~= user);
    assert(d.subrange(user.len() as int + 1, d.len() as int) =~= pass);
}

/// Basic authentication against a list of users and passwords.
pub struct BasicAuthenticator {
    realm: String,
    credentials: Vec<(String, String)>,
}

/// The body of the challenge answer.
pub const CHALLENGE_BODY: &'static str = "401 Unauthorized: Authentication required";

/// The authenticator for `method` in realm `realm`: only Basic is
/// implemented, the others are a configuration error.
pub fn authenticator_for(method: AuthMethod, realm: &str) -> (r: Result<BasicAuthenticator, AuthError>)
    ensures
        method == AuthMethod::Basic ==> (r matches Ok(a) && a.spec_realm() == realm@ && a.spec_credentials().len() == 0),
        method != AuthMethod::Basic ==> r matches Err(AuthError::ConfigurationError),
{
    match method {
        AuthMethod::Basic => Ok(BasicAuthenticator::new(realm)),
        _ => Err(AuthError::ConfigurationError),
    }
}

impl BasicAuthenticator {
    /// The realm named in challenges.
    pub closed spec fn spec_realm(&self) -> Seq<char> {
        self.realm@
    }

    /// The users and passwords, in the order they were added.
    pub closed spec fn spec_credentials(&self) -> Seq<(String, String)> {
        self.credentials@
    }

    /// An authenticator for `realm` with no users.
    pub fn new(realm: &str) -> (r: Self)
        ensures
            r.spec_realm() == realm@,
            r.spec_credentials().len() == 0,
    {
        BasicAuthenticator { realm: realm.to_owned(), credentials: Vec::new() }
    }

    /// Adds user `username` with `password`, replacing an earlier password.
    pub fn add_user(&mut self, username: &str, password: &str)
        ensures
            final(self).spec_realm() == old(self).spec_realm(),
            forall|u: Seq<char>|
                #[trigger] password_of(final(self).spec_credentials(), u) == if u == username@ {
                    Some(password@)
                } else {
                    password_of(old(self).spec_credentials(), u)
                },
    {
        self.credentials.push((username.to_owned(), password.to_owned()));
        assert(self.credentials@.drop_last() =~= old(self).credentials@);
    }

    /// The scheme of this authenticator.
    pub fn method(&self) -> (r: AuthMethod)
        ensures
            r == AuthMethod::Basic,
    {
        AuthMethod::Basic
    }

    /// The password stored for `user`, if any.
    fn stored_password(&self, user: &str) -> (r: Option<&String>)
        ensures
            match r {
                Some(p) => password_of(self.credentials@, user@) == Some(p@),
                None => password_of(self.credentials@, user@) is None,
            },
    {
        let mut found: Option<&String> = None;
        let mut i: usize = 0;
        while i < self.credentials.len()
            invariant
                i <= self.credentials@.len(),
                match found {
                    Some(p) => password_of(self.credentials@.subrange(0, i as int), user@) == Some(
                        p@,
                    ),
                    None => password_of(self.credentials@.subrange(0, i as int), user@) is None,
                },
            decreases self.credentials@.len() - i,
        {
            assert(self.credentials@.subrange(0, i + 1).drop_last() =~= self.credentials@.subrange(
                0,
                i as int,
            ));
            if same_text(self.credentials[i].0.as_str(), user) {
                found = Some(&self.credentials[i].1);
            }
            i = i + 1;
        }
        assert(self.credentials@.subrange(0, i as int) =~= self.credentials@);
        found
    }

    /// The user name and password in decoded credentials `decoded`: the
    /// text before and after its first `:`.
    pub fn split_credentials(decoded: &str) -> (r: Result<(String, String), AuthError>)
        ensures
            match split_credentials_spec(decoded@) {
                Some((u, p)) => r matches Ok((a, b)) && a@ == u && b@ == p,
                None => r == Err::<(String, String), _>(AuthError::InvalidCredentials),
            },
    {
        let n = decoded.unicode_len();
        match find_char(decoded, ':') {
            Some(i) => {
                proof {
                    crate::text::lemma_find_char_from_bound(decoded@, ':', 0);
                }
                Ok((slice_chars(decoded, 0, i), slice_chars(decoded, i + 1, n)))
            },
            None => Err(AuthError::InvalidCredentials),
        }
    }

    /// The decoded credentials of `Authorization` header `auth_header`: it
    /// must start with `Basic ` and the rest must be valid base64.
    pub fn parse_basic_auth(&self, auth_header: &str) -> (r: Result<(String, String), AuthError>)
        ensures
            match basic_payload(auth_header@) {
                Some(d) => match split_credentials_spec(d) {
                    Some((u, p)) => r matches Ok((a, b)) && a@ == u && b@ == p,
                    None => r == Err::<(String, String), _>(AuthError::InvalidCredentials),
                },
                None => r == Err::<(String, String), _>(AuthError::InvalidCredentials),
            },
    {
        match Self::decode_payload(auth_header) {
            Some(decoded) => Self::split_credentials(decoded.as_str()),
            None => Err(AuthError::InvalidCredentials),
        }
    }

    /// The decoded text of a `Basic` header.
    fn decode_payload(auth_header: &str) -> (r: Option<String>)
        ensures
            match r {
                Some(d) => basic_payload(auth_header@) == Some(d@),
                None => basic_payload(auth_header@) is None,
            },
    {
        if !starts_with(auth_header, "Basic ") {
            return None;
        }
        proof {
            reveal_strlit("Basic ");
        }
        let n = auth_header.unicode_len();
        let encoded = auth_header.substring_char(6, n);
        match base64_decode(encoded) {
            Some(bytes) => Some(text_of_bytes(bytes.as_slice())),
            None => None,
        }
    }

    /// The outcome for decoded credentials `decoded`: `Ok(true)` when the
    /// password is the one stored for the user, else `InvalidCredentials`.
    pub fn check_decoded(&self, decoded: &str) -> (r: Result<bool, AuthError>)
        ensures
            r == credentials_outcome(self.spec_credentials(), decoded@),
    {
        match Self::split_credentials(decoded) {
            Ok((user, pass)) => match self.stored_password(user.as_str()) {
                Some(stored) => if same_text(stored.as_str(), pass.as_str()) {
                    Ok(true)
                } else {
                    Err(AuthError::InvalidCredentials)
                },
                None => Err(AuthError::InvalidCredentials),
            },
            Err(e) => Err(e),
        }
    }

    /// The outcome for a request whose `Authorization` header is
    /// `authorization`: `MissingCredentials` without one, `Ok(true)` for the
    /// stored password of the user, `InvalidCredentials` otherwise.
    pub fn authenticate(&self, authorization: Option<&str>) -> (r: Result<bool, AuthError>)
        ensures
            r == basic_outcome(
                self.spec_credentials(),
                match authorization {
                    Some(h) => Some(h@),
                    None => None,
                },
            ),
    {
        match authorization {
            None => Err(AuthError::MissingCredentials),
            Some(h) => match Self::decode_payload(h) {
                Some(decoded) => self.check_decoded(decoded.as_str()),
                None => Err(AuthError::InvalidCredentials),
            },
        }
    }

    /// The answer asking for credentials: 401 with a `WWW-Authenticate`
    /// header naming the realm.
    pub fn challenge_response(&self) -> (r: Response)
        ensures
            r.spec_status() == 401,
            r.spec_header("www-authenticate"@) == Some(
                "Basic realm=\""@ + self.spec_realm() + "\""@,
            ),
            r.spec_body() == vstd::utf8::encode_utf8(CHALLENGE_BODY@),
    {
        let mut value = "Basic realm=\"".to_owned();
        value.append(self.realm.as_str());
        value.append("\"");
        let mut r = Response::new(401);
        r.set_header("WWW-Authenticate", value.as_str());
        r.set_body(crate::response::text_bytes(CHALLENGE_BODY));
        proof {
            reveal_strlit("www-authenticate");
            reveal_strlit("WWW-Authenticate");
            assert(crate::text::ascii_lower("www-authenticate"@) =~= crate::text::ascii_lower(
                "WWW-Authenticate"@,
            ));
        }
        r
    }
}

} // verus!
