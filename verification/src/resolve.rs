use vstd::prelude::*;
use vstd::slice::slice_index_get;
use vstd::utf8::{encode_utf8, encode_utf8_decode_utf8};

use crate::error::GopherError;

verus! {

/// Whether the url crate accepts the string as a URL.
pub uninterp spec fn url_accepts(s: Seq<char>) -> bool;

/// The scheme that the url crate reads from the string, lower-cased and
/// without the `:` delimiter.
pub uninterp spec fn url_scheme(s: Seq<char>) -> Seq<char>;

/// The host serialization that the url crate reads from the string, if the
/// URL has a host component.
pub uninterp spec fn url_host(s: Seq<char>) -> Option<Seq<char>>;

/// The port that the url crate reads from the string, if one is given.
pub uninterp spec fn url_port(s: Seq<char>) -> Option<u16>;

/// The parts of a parsed URL that endpoint resolution looks at.
struct UrlParts {
    scheme: String,
    host: Option<String>,
    port: Option<u16>,
}

/// Relies on `url::Url::parse` for the parse verdict, and on `Url::scheme`,
/// `Url::host_str` and `Url::port` to read the parts of an accepted URL.
/// The parts are a function of the input string alone because parsing is
/// deterministic. A present host is non-empty: the url crate maps an empty
/// host to the no-host representation before `host_str` can see it.
#[verifier::external_body]
fn parse_url_parts(endpoint: &str) -> (r: Result<UrlParts, url::ParseError>)
    ensures
        r is Ok <==> url_accepts(endpoint@),
        r matches Ok(p) ==> p.scheme@ == url_scheme(endpoint@),
        r matches Ok(p) ==> p.host.deep_view() == url_host(endpoint@),
        r matches Ok(p) ==> p.port == url_port(endpoint@),
        r matches Ok(p) ==> (p.host is Some ==> p.host->0@.len() > 0),
{
    let url = url::Url::parse(endpoint)?;
    Ok(UrlParts {
        scheme: url.scheme().to_string(),
        host: url.host_str().map(|h| h.to_string()),
        port: url.port(),
    })
}

/// String equality, decided byte for byte: two strings are equal exactly
/// when their UTF-8 encodings are.
fn str_eq(a: &str, b: &str) -> (r: bool)
    ensures
        r == (a@ == b@),
{
    let ab: &[u8] = a.as_bytes();
    let bb: &[u8] = b.as_bytes();
    if ab.len() != bb.len() {
        return false;
    }
    let mut i: usize = 0;
    while i < ab.len()
        invariant
            ab@ == encode_utf8(a@),
            bb@ == encode_utf8(b@),
            ab@.len() == bb@.len(),
            i <= ab@.len(),
            forall|j: int| 0 <= j < i ==> ab@[j] == bb@[j],
        decreases ab@.len() - i,
    {
        if *slice_index_get(ab, i) != *slice_index_get(bb, i) {
            return false;
        }
        i = i + 1;
    }
    proof {
        assert(ab@ =~= bb@);
        encode_utf8_decode_utf8(a@);
        encode_utf8_decode_utf8(b@);
    }
    true
}

/// The standard Gopher port, used when the endpoint gives none.
pub const DEFAULT_PORT: u16 = 70;

/// Whether the endpoint string resolves: it parses as a URL, has a host,
/// and uses one of the two recognised schemes.
pub open spec fn resolves(s: Seq<char>) -> bool {
    &&& url_accepts(s)
    &&& url_host(s) is Some
    &&& (url_scheme(s) == "gopher"@ || url_scheme(s) == "gophers"@)
}

/// The port a resolved endpoint uses: the explicit one, else 70.
pub open spec fn resolved_port(s: Seq<char>) -> u16 {
    match url_port(s) {
        Some(p) => p,
        None => DEFAULT_PORT,
    }
}

/// Whether a resolved endpoint asks for an encrypted transport: exactly
/// when its scheme is `gophers`.
pub open spec fn resolved_tls(s: Seq<char>) -> bool {
    url_scheme(s) == "gophers"@
}

/// What [`Gopher::new`] builds from an endpoint string it accepts.
pub open spec fn resolution(s: Seq<char>) -> GopherView {
    GopherView { host: url_host(s)->0, port: resolved_port(s), tls: resolved_tls(s) }
}

/// A resolved endpoint, ready to connect: where to dial and whether the
/// transport is encrypted.
pub struct Gopher {
    host: String,
    port: u16,
    tls: bool,
}

/// The mathematical content of a [`Gopher`] value.
pub struct GopherView {
    pub host: Seq<char>,
    pub port: u16,
    pub tls: bool,
}

impl View for Gopher {
    type V = GopherView;

    closed spec fn view(&self) -> GopherView {
        GopherView { host: self.host@, port: self.port, tls: self.tls }
    }
}

impl Gopher {
    /// A well-formed endpoint names a host.
    pub open spec fn wf(&self) -> bool {
        self@.host.len() > 0
    }

    /// Resolve an endpoint string of the form `scheme://host[:port]`.
    ///
    /// Succeeds exactly on strings that parse as a URL, carry a host, and
    /// use the scheme `gopher` (plain transport) or `gophers` (encrypted
    /// transport); the port defaults to 70 when the string gives none.
    pub fn new(endpoint: &str) -> (r: Result<Self, GopherError>)
        ensures
            r is Ok <==> resolves(endpoint@),
            r matches Ok(g) ==> g@ == resolution(endpoint@) && g.wf(),
            !url_accepts(endpoint@) ==> (r matches Err(e) && e is UrlParseError),
            url_accepts(endpoint@) && url_host(endpoint@) is None ==> (r matches Err(e) && e is InvalidHost),
            url_accepts(endpoint@) && url_host(endpoint@) is Some && !resolves(endpoint@) ==> (r matches Err(e)
                && e is UnsupportedProtocol),
    {
        proof {
            reveal_strlit("gopher");
            reveal_strlit("gophers");
            assert("gopher"@.len() == 6);
            assert("gophers"@.len() == 7);
            assert("gopher"@ != "gophers"@);
        }
        let parts = match parse_url_parts(endpoint) {
            Ok(p) => p,
            Err(e) => return Err(GopherError::UrlParseError(e)),
        };
        let host = match parts.host {
            Some(h) => h,
            None => return Err(GopherError::InvalidHost),
        };
        let tls: bool = if str_eq(parts.scheme.as_str(), "gopher") {
            false
        } else if str_eq(parts.scheme.as_str(), "gophers") {
            true
        } else {
            return Err(GopherError::UnsupportedProtocol);
        };
        let port: u16 = match parts.port {
            Some(p) => p,
            None => DEFAULT_PORT,
        };
        Ok(Gopher { host, port, tls })
    }

    /// The host to dial.
    pub fn host(&self) -> (h: &String)
        ensures
            h@ == self@.host,
    {
        &self.host
    }

    /// The port to dial.
    pub fn port(&self) -> (p: u16)
        ensures
            p == self@.port,
    {
        self.port
    }

    /// Whether the connection is to be encrypted.
    pub fn tls(&self) -> (t: bool)
        ensures
            t == self@.tls,
    {
        self.tls
    }
}

/// A resolved endpoint is encrypted exactly when its scheme is `gophers`,
/// and unencrypted exactly when it is `gopher`.
pub proof fn lemma_scheme_encryption(s: Seq<char>)
    requires
        resolves(s),
    ensures
        resolved_tls(s) <==> url_scheme(s) == "gophers"@,
        !resolved_tls(s) <==> url_scheme(s) == "gopher"@,
{
    reveal_strlit("gopher");
    reveal_strlit("gophers");
    assert("gopher"@.len() == 6);
    assert("gophers"@.len() == 7);
    assert("gopher"@ != "gophers"@);
}

/// An endpoint that gives no explicit port resolves to port 70.
pub proof fn lemma_default_port(s: Seq<char>)
    requires
        url_port(s) is None,
    ensures
        resolved_port(s) == DEFAULT_PORT,
{
}

} // verus!
