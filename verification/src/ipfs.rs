//! Client for a Kubo-compatible IPFS node: the URLs it calls and the reading
//! of its answers. The HTTP exchange itself is the caller's.

use serde_json::Value;
use url::Url;
use reqwest::Error as HttpError;
use vstd::prelude::*;
use vstd::std_specs::convert::FromSpecImpl;

verus! {

const ADD_PATH: &'static str = "api/v0/add";
const CAT_PATH: &'static str = "api/v0/cat";

/// `reqwest::Client`, carried through as an opaque value.
#[verifier::external_type_specification]
#[verifier::external_body]
pub struct ExHttpClient(reqwest::Client);

/// `HttpError`, carried through as an opaque value.
#[verifier::external_type_specification]
#[verifier::external_body]
pub struct ExHttpError(HttpError);

/// `url::ParseError`, carried through as an opaque value.
#[verifier::external_type_specification]
#[verifier::external_body]
pub struct ExUrlParseError(url::ParseError);

/// `serde_json::Value`, carried through as an opaque value.
#[verifier::external_type_specification]
#[verifier::external_body]
pub struct ExJsonValue(Value);

/// The JSON string stored under `key` in `json`: `Some` exactly when `json`
/// is an object whose value under `key` is a JSON string.
pub uninterp spec fn json_string_at(json: Value, key: Seq<char>) -> Option<Seq<char>>;

/// `Index<&str>` on `serde_json::Value` followed by `Value::as_str`: the string
/// stored under `key` if `json` is an object holding a JSON string there. The
/// contract claims that the answer is the named string. (Indexing a non-object
/// or a missing key gives `Null`; it does not panic.)
#[verifier::external_body]
fn json_str_field(json: &Value, key: &str) -> (r: Option<String>)
    ensures
        r is Some <==> json_string_at(*json, key@) is Some,
        r matches Some(s) ==> json_string_at(*json, key@) == Some(s@),
{
    json[key].as_str().map(str::to_string)
}

/// `reqwest::Client::new`. Nothing is claimed of the client. (It panics where
/// no TLS backend or resolver configuration can be loaded.)
#[verifier::external_body]
fn http_client_new() -> reqwest::Client {
    reqwest::Client::new()
}

/// What `Url::join` makes of `input` resolved against `base`: the URL, or
/// the parse error.
pub uninterp spec fn url_joined(base: Url, input: Seq<char>) -> Result<Url, url::ParseError>;

/// Whether `url` has a fragment (`Url::fragment` is `Some`).
pub uninterp spec fn url_has_fragment(url: Url) -> bool;

/// The length in bytes of the serialization of `url` (`Url::as_str`).
pub uninterp spec fn url_serialized_len(url: Url) -> nat;

/// What appending the pair `name=value` (form-urlencoded) to the query of
/// `url` makes of it.
pub uninterp spec fn url_with_query_pair(url: Url, name: Seq<char>, value: Seq<char>) -> Url;

/// `Url::join`: resolves `input` against `base`. The contract claims that the
/// result is the named join, and that a URL joined from an input without `#`
/// carries no fragment (the fragment of a join comes from the input).
#[verifier::external_body]
fn url_join(base: &Url, input: &str) -> (r: Result<Url, url::ParseError>)
    ensures
        r == url_joined(*base, input@),
        !input@.contains('#') ==> (r matches Ok(u) ==> !url_has_fragment(u)),
{
    base.join(input)
}

/// `Url::as_str` followed by `str::len`: the length in bytes of the URL's
/// serialization, which the contract claims is the named length.
#[verifier::external_body]
fn url_len(url: &Url) -> (n: usize)
    ensures
        n == url_serialized_len(*url),
{
    url.as_str().len()
}

/// `form_urlencoded::Serializer::append_pair` on `Url::query_pairs_mut`:
/// appends `name=value` to the query of `url`. The contract claims that the
/// URL becomes the named one, no shorter than before. The URL crate keeps
/// query and fragment offsets as `u32` and unwraps them: a URL that has a
/// fragment, or whose serialization exceeds `u32::MAX` bytes, can make it
/// panic, so `requires` leaves both out.
#[verifier::external_body]
fn url_append_query_pair(url: &mut Url, name: &str, value: &str)
    requires
        !url_has_fragment(*old(url)),
        url_serialized_len(*old(url)) <= u32::MAX,
    ensures
        *final(url) == url_with_query_pair(*old(url), name@, value@),
        url_serialized_len(*final(url)) >= url_serialized_len(*old(url)),
{
    url.query_pairs_mut().append_pair(name, value);
}

/// Errors of talking to the IPFS node.
#[derive(Debug)]
pub enum IpfsError {
    /// The HTTP exchange failed (also an undecodable JSON answer).
    Transport(HttpError),
    /// The endpoint URL could not be built.
    Url(url::ParseError),
    /// The answer to an add carried no `Hash` string.
    MissingHash,
}

impl From<HttpError> for IpfsError {
    fn from(e: HttpError) -> (r: Self) {
        IpfsError::Transport(e)
    }
}

impl FromSpecImpl<HttpError> for IpfsError {
    open spec fn obeys_from_spec() -> bool {
        true
    }

    open spec fn from_spec(e: HttpError) -> Self {
        IpfsError::Transport(e)
    }
}

pub struct IpfsClient {
    http: reqwest::Client,
    base: Url,
}

impl IpfsClient {
    /// The base URL that the client's endpoints are joined onto.
    pub closed spec fn base_url(&self) -> Url {
        self.base
    }

    /// `base` must have a trailing slash; relative paths are joined onto it.
    pub fn new(base: Url) -> (client: Self)
        ensures
            client.base_url() == base,
    {
        IpfsClient { http: http_client_new(), base }
    }

    /// The HTTP client that carries the client's requests.
    pub closed spec fn http_client(&self) -> reqwest::Client {
        self.http
    }

    /// The HTTP client that carries the requests.
    pub fn http(&self) -> (http: &reqwest::Client)
        ensures
            *http == self.http_client(),
    {
        &self.http
    }

    /// The base URL.
    pub fn base(&self) -> (base: &Url)
        ensures
            *base == self.base_url(),
    {
        &self.base
    }

    /// The URL of the `add` endpoint: `api/v0/add` joined onto the base; a
    /// failure to join is `IpfsError::Url`.
    pub fn add_url(&self) -> (r: Result<Url, IpfsError>)
        ensures
            match url_joined(self.base_url(), "api/v0/add"@) {
                Ok(u) => r matches Ok(v) && v == u,
                Err(e) => r matches Err(IpfsError::Url(e2)) && e2 == e,
            },
    {
        Self::endpoint_url(url_join(&self.base, ADD_PATH))
    }

    /// Whether the `cat` URL can be built without overflowing the URL crate's
    /// offsets: joining may fail, but a joined URL must fit in `u32::MAX` bytes.
    pub open spec fn cat_url_fits(&self) -> bool {
        url_joined(self.base_url(), "api/v0/cat"@) matches Ok(u) ==> url_serialized_len(u) <= u32::MAX
    }

    /// The URL of the `cat` endpoint for `cid`: `api/v0/cat` joined onto the
    /// base, with `cid` as the `arg` query pair; a failure to join is
    /// `IpfsError::Url`.
    pub fn cat_url(&self, cid: &str) -> (r: Result<Url, IpfsError>)
        requires
            self.cat_url_fits(),
        ensures
            match url_joined(self.base_url(), "api/v0/cat"@) {
                Ok(u) => r matches Ok(v) && v == url_with_query_pair(u, "arg"@, cid@),
                Err(e) => r matches Err(IpfsError::Url(e2)) && e2 == e,
            },
    {
        proof {
            reveal_strlit("api/v0/cat");
            assert(!"api/v0/cat"@.contains('#'));
        }
        match url_join(&self.base, CAT_PATH) {
            Ok(url) => {
                let mut url = url;
                url_append_query_pair(&mut url, "arg", cid);
                Ok(url)
            },
            Err(e) => Err(IpfsError::Url(e)),
        }
    }

    /// The `cat` URL for `cid` where it fits the URL crate's offsets (see
    /// [`IpfsClient::cat_url`]); `None` where the joined URL is longer than
    /// `u32::MAX` bytes, on which appending the query pair would panic.
    pub fn checked_cat_url(&self, cid: &str) -> (r: Option<Result<Url, IpfsError>>)
        ensures
            r is None <==> !self.cat_url_fits(),
            match url_joined(self.base_url(), "api/v0/cat"@) {
                Ok(u) => r is None || (r matches Some(Ok(v)) && v == url_with_query_pair(u, "arg"@, cid@)),
                Err(e) => r matches Some(Err(IpfsError::Url(e2))) && e2 == e,
            },
    {
        match url_join(&self.base, CAT_PATH) {
            Ok(url) => {
                if url_len(&url) > 0xFFFF_FFFFusize {
                    return None;
                }
            },
            Err(_) => {},
        }
        Some(self.cat_url(cid))
    }

    /// The endpoint URL that joining onto the base gave, or the join's failure
    /// as `IpfsError::Url`.
    pub fn endpoint_url(joined: Result<Url, url::ParseError>) -> (r: Result<Url, IpfsError>)
        ensures
            match joined {
                Ok(url) => r matches Ok(u) && u == url,
                Err(e) => r matches Err(IpfsError::Url(e2)) && e2 == e,
            },
    {
        match joined {
            Ok(url) => Ok(url),
            Err(e) => Err(IpfsError::Url(e)),
        }
    }

    /// The CID that the `Hash` lookup found, or `IpfsError::MissingHash` where
    /// it found none.
    pub fn cid_or_missing(hash: Option<String>) -> (r: Result<String, IpfsError>)
        ensures
            match hash {
                Some(h) => r matches Ok(cid) && cid == h,
                None => r matches Err(e) && e is MissingHash,
            },
    {
        match hash {
            Some(h) => Ok(h),
            None => Err(IpfsError::MissingHash),
        }
    }

    /// Reads the CID out of the JSON answer to an add: the `Hash` string, or
    /// `IpfsError::MissingHash` where there is none.
    pub fn hash_from_add_response(json: &Value) -> (r: Result<String, IpfsError>)
        ensures
            r is Ok <==> json_string_at(*json, "Hash"@) is Some,
            r matches Ok(cid) ==> json_string_at(*json, "Hash"@) == Some(cid@),
            r matches Err(e) ==> e is MissingHash,
    {
        Self::cid_or_missing(json_str_field(json, "Hash"))
    }
}

} // verus!
