//! Client for the TensorZero inference gateway: URL handling and response
//! classification. The HTTP exchanges themselves are performed by the caller.

use vstd::prelude::*;
use crate::json::push_char;
use crate::text::chars_of;
use crate::tensorzero::error::TensorZeroError;

verus! {

#[verifier::external_type_specification]
#[verifier::external_body]
pub struct ExHttpClient(reqwest::Client);

/// Whether `s` begins with `prefix`.
pub open spec fn spec_starts_with(s: Seq<char>, prefix: Seq<char>) -> bool {
    prefix.len() <= s.len() && s.subrange(0, prefix.len() as int) == prefix
}

/// `s` with every trailing `/` removed.
pub open spec fn spec_trim_trailing_slashes(s: Seq<char>) -> Seq<char>
    decreases s.len(),
{
    if s.len() > 0 && s.last() == '/' {
        spec_trim_trailing_slashes(s.drop_last())
    } else {
        s
    }
}

/// A base URL after trimming does not end with `/`, is the start of the URL it was
/// trimmed from, and trimming it again changes nothing.
pub proof fn trimmed_base_url(s: Seq<char>)
    ensures
        spec_trim_trailing_slashes(s).len() == 0 || spec_trim_trailing_slashes(s).last() != '/',
        spec_starts_with(s, spec_trim_trailing_slashes(s)),
        spec_trim_trailing_slashes(spec_trim_trailing_slashes(s)) == spec_trim_trailing_slashes(s),
    decreases s.len(),
{
    if s.len() > 0 && s.last() == '/' {
        let t = spec_trim_trailing_slashes(s.drop_last());
        trimmed_base_url(s.drop_last());
        assert(s.subrange(0, t.len() as int) =~= s.drop_last().subrange(0, t.len() as int));
    } else {
        assert(s.subrange(0, s.len() as int) =~= s);
    }
}

/// Whether a base URL names the `http` or `https` scheme.
pub open spec fn spec_valid_base_url(s: Seq<char>) -> bool {
    spec_starts_with(s, "http://"@) || spec_starts_with(s, "https://"@)
}

/// Whether `s` begins with `prefix`.
pub(crate) fn str_starts_with(s: &str, prefix: &str) -> (r: bool)
    ensures
        r == spec_starts_with(s@, prefix@),
{
    let sc = chars_of(s);
    let pc = chars_of(prefix);
    if pc.len() > sc.len() {
        return false;
    }
    let mut i: usize = 0;
    while i < pc.len()
        invariant
            sc@ == s@,
            pc@ == prefix@,
            pc@.len() <= sc@.len(),
            i <= pc@.len(),
            forall|j: int| 0 <= j < i ==> sc@[j] == pc@[j],
        decreases pc@.len() - i,
    {
        if sc[i] != pc[i] {
            assert(s@.subrange(0, prefix@.len() as int)[i as int] == s@[i as int]);
            return false;
        }
        i = i + 1;
    }
    assert(s@.subrange(0, prefix@.len() as int) =~= prefix@);
    true
}

/// `s` with every trailing `/` removed.
fn trim_trailing_slashes(s: &str) -> (r: String)
    ensures
        r@ == spec_trim_trailing_slashes(s@),
{
    let ghost t = s@;
    let chars = chars_of(s);
    assert(t.take(t.len() as int) =~= t);
    let mut n: usize = chars.len();
    while n > 0 && chars[n - 1] == '/'
        invariant
            chars@ == t,
            n <= t.len(),
            spec_trim_trailing_slashes(t) == spec_trim_trailing_slashes(t.take(n as int)),
        decreases n,
    {
        assert(t.take(n as int).drop_last() =~= t.take(n - 1));
        n = n - 1;
    }
    let mut r = String::new();
    let mut i: usize = 0;
    while i < n
        invariant
            chars@ == t,
            i <= n <= t.len(),
            r@ == t.take(i as int),
        decreases n - i,
    {
        push_char(&mut r, chars[i]);
        assert(r@ =~= t.take(i + 1));
        i = i + 1;
    }
    r
}

/// `reqwest::Client::builder().build()`: builds an HTTP client with default settings.
/// Whether it succeeds depends on the platform (TLS initialisation), so nothing is stated.
#[verifier::external_body]
fn build_http_client() -> (r: Result<reqwest::Client, String>) {
    match reqwest::Client::builder().build() {
        Ok(c) => Ok(c),
        Err(e) => Err(e.to_string()),
    }
}

/// Whether an HTTP status code reports success (200 to 299).
pub open spec fn spec_is_success(status: u16) -> bool {
    200 <= status <= 299
}

/// `reqwest::Client::clone`: a handle to the same connection pool. Nothing is stated
/// of the returned handle.
pub assume_specification[ <reqwest::Client as Clone>::clone ](c: &reqwest::Client) -> reqwest::Client;

/// Client for the TensorZero inference gateway.
pub struct TensorZeroClient {
    client: reqwest::Client,
    base_url: String,
}

impl Clone for TensorZeroClient {
    fn clone(&self) -> (r: Self)
        ensures
            r.spec_base_url() == self.spec_base_url(),
    {
        TensorZeroClient { client: self.client.clone(), base_url: self.base_url.clone() }
    }
}

impl TensorZeroClient {
    /// The base URL held by the client.
    pub closed spec fn spec_base_url(&self) -> Seq<char> {
        self.base_url@
    }

    /// Create a new client for the gateway at `base_url`. The URL must start with
    /// `http://` or `https://`; trailing slashes are removed.
    pub fn new(base_url: &str) -> (r: Result<Self, TensorZeroError>)
        ensures
            !spec_valid_base_url(base_url@) <==> r matches Err(TensorZeroError::InvalidUrl { .. }),
            r matches Err(TensorZeroError::InvalidUrl { url }) ==> url@ == base_url@,
            r matches Err(e) ==> (e is InvalidUrl || e is ClientBuild),
            r matches Ok(c) ==> c.spec_base_url() == spec_trim_trailing_slashes(base_url@),
    {
        if !str_starts_with(base_url, "http://") && !str_starts_with(base_url, "https://") {
            return Err(TensorZeroError::InvalidUrl { url: base_url.to_string() });
        }
        match build_http_client() {
            Ok(client) => Ok(TensorZeroClient { client, base_url: trim_trailing_slashes(base_url) }),
            Err(message) => Err(TensorZeroError::ClientBuild { message }),
        }
    }

    /// Create a new client with a given HTTP client. The URL must start with
    /// `http://` or `https://`; trailing slashes are removed.
    pub fn with_client(base_url: &str, client: reqwest::Client) -> (r: Result<Self, TensorZeroError>)
        ensures
            r is Ok <==> spec_valid_base_url(base_url@),
            r matches Err(e) ==> (e matches TensorZeroError::InvalidUrl { url } && url@ == base_url@),
            r matches Ok(c) ==> c.spec_base_url() == spec_trim_trailing_slashes(base_url@),
    {
        if !str_starts_with(base_url, "http://") && !str_starts_with(base_url, "https://") {
            return Err(TensorZeroError::InvalidUrl { url: base_url.to_string() });
        }
        Ok(TensorZeroClient { client, base_url: trim_trailing_slashes(base_url) })
    }

    /// The base URL of this client.
    pub fn base_url(&self) -> (r: &str)
        ensures
            r@ == self.spec_base_url(),
    {
        self.base_url.as_str()
    }

    /// The HTTP client held by the client.
    pub closed spec fn spec_http_client(&self) -> reqwest::Client {
        self.client
    }

    /// The underlying HTTP client.
    pub fn http_client(&self) -> (r: &reqwest::Client)
        ensures
            *r == self.spec_http_client(),
    {
        &self.client
    }

    /// The URL of the inference endpoint: the base URL followed by `/inference`.
    pub fn inference_url(&self) -> (r: String)
        ensures
            r@ == self.spec_base_url() + "/inference"@,
    {
        let mut r = self.base_url.clone();
        r.append("/inference");
        r
    }

    /// The URL of the health endpoint: the base URL followed by `/health`.
    pub fn health_url(&self) -> (r: String)
        ensures
            r@ == self.spec_base_url() + "/health"@,
    {
        let mut r = self.base_url.clone();
        r.append("/health");
        r
    }
}

/// Classifies a gateway reply: a success status hands the body on; any other status
/// becomes a server error carrying the status and the body as its message.
pub fn check_status(status: u16, body: String) -> (r: Result<String, TensorZeroError>)
    ensures
        r is Ok <==> spec_is_success(status),
        r matches Ok(b) ==> b == body,
        r matches Err(e) ==> (e matches TensorZeroError::ServerError { status_code, message }
            && status_code == status && message == body),
{
    if 200 <= status && status <= 299 {
        Ok(body)
    } else {
        Err(TensorZeroError::ServerError { status_code: status, message: body })
    }
}

/// Whether the data of a server-sent event carries a chunk: empty data and the
/// `[DONE]` marker are skipped.
pub fn is_chunk_data(data: &str) -> (r: bool)
    ensures
        r <==> (data@.len() > 0 && data@ != "[DONE]"@),
{
    if data.is_empty() {
        return false;
    }
    !str_equals(data, "[DONE]")
}

/// Whether two strings hold the same characters.
pub(crate) fn str_equals(a: &str, b: &str) -> (r: bool)
    ensures
        r == (a@ == b@),
{
    let ac = chars_of(a);
    let bc = chars_of(b);
    if ac.len() != bc.len() {
        return false;
    }
    let mut i: usize = 0;
    while i < ac.len()
        invariant
            ac@ == a@,
            bc@ == b@,
            ac@.len() == bc@.len(),
            i <= ac@.len(),
            forall|j: int| 0 <= j < i ==> ac@[j] == bc@[j],
        decreases ac@.len() - i,
    {
        if ac[i] != bc[i] {
            return false;
        }
        i = i + 1;
    }
    assert(a@ =~= b@);
    true
}

} // verus!
