//! The client: its configuration, how a request is built from it, and how
//! what comes back is read.

use vstd::prelude::*;
use vstd::string::*;
use vstd::utf8::{decode_utf8, encode_utf8, valid_utf8};

use crate::dns::{RecordMessage, ToRecordMessage};
use crate::envelope::TokenStatus;
use crate::error::{ApiError, ApiResult};
use crate::foreign::{
    header_value_accepted, header_value_error, normalized_url, uri_error, uri_rejection,
    url_normal_form, utf8_text,
};
use crate::path::{
    compose, composed, record_path, record_path_of, records_path, records_path_of,
};
use crate::request::{Call, Method, PerformOptions, Request, RequestView};
use crate::text::{opt_text, Text};
use crate::Version;

verus! {

/// The address of the API, before it is brought into its normal form.
pub const DEFAULT_BASE_URL: &'static str = "https://api.cloudflare.com";

/// The name of the header that carries the credential.
pub const AUTHORIZATION: &'static str = "Authorization";

/// The configuration of a client: which version of the API it speaks, where
/// the API is, and the credentials. A configuration is never changed in
/// place; each call works on a copy.
#[derive(Debug)]
pub struct Cloudflare {
    version: Version,
    base_url: String,
    email: String,
    auth_key: String,
}

/// The value of a `Cloudflare`.
pub ghost struct CloudflareView {
    pub version: Version,
    pub base_url: Text,
    pub email: Text,
    pub auth_key: Text,
}

impl View for Cloudflare {
    type V = CloudflareView;

    closed spec fn view(&self) -> CloudflareView {
        CloudflareView {
            version: self.version,
            base_url: self.base_url@,
            email: self.email@,
            auth_key: self.auth_key@,
        }
    }
}

impl Clone for Cloudflare {
    fn clone(&self) -> (copy: Self)
        ensures
            copy@ == self@,
    {
        Cloudflare {
            version: self.version,
            base_url: self.base_url.clone(),
            email: self.email.clone(),
            auth_key: self.auth_key.clone(),
        }
    }
}

/// The value of an outcome whose success is a text.
pub open spec fn text_outcome(outcome: ApiResult<String>) -> Result<Text, Text> {
    match outcome {
        Ok(text) => Ok(text@),
        Err(error) => Err(error@),
    }
}

/// The value of an outcome whose success is a request.
pub open spec fn request_outcome(outcome: ApiResult<Request>) -> Result<RequestView, Text> {
    match outcome {
        Ok(request) => Ok(request@),
        Err(error) => Err(error@),
    }
}

/// The value of a body that may be absent.
pub open spec fn opt_bytes(body: Option<Vec<u8>>) -> Option<Seq<u8>> {
    match body {
        Some(bytes) => Some(bytes@),
        None => None,
    }
}

/// The body that a call is sent with. Where the call has no body nothing is
/// sent. Where it has one, its JSON text is sent; a body that could not be
/// put into JSON is sent as nothing, and the call goes on.
pub open spec fn body_of(encoded: Option<Option<String>>) -> Option<Seq<u8>> {
    match encoded {
        None => None,
        Some(None) => Some(Seq::empty()),
        Some(Some(json)) => Some(encode_utf8(json@)),
    }
}

/// What is read from the bytes of a reply: the text that they encode. Bytes
/// that are no UTF-8, and a reply whose body could not be had, read as the
/// empty text.
pub open spec fn text_of(collected: Option<Seq<u8>>) -> Text {
    match collected {
        Some(bytes) => if valid_utf8(bytes) {
            decode_utf8(bytes)
        } else {
            Seq::empty()
        },
        None => Seq::empty(),
    }
}

impl CloudflareView {
    /// The configuration that a client starts from, given what the URL
    /// parser made of the API's address: version 4, no credentials, and the
    /// address in its normal form (as it was written, should the parser
    /// refuse it).
    pub open spec fn initial(normal_form: Option<Text>) -> CloudflareView {
        CloudflareView {
            version: Version::V4,
            base_url: match normal_form {
                Some(text) => text,
                None => DEFAULT_BASE_URL@,
            },
            email: Seq::empty(),
            auth_key: Seq::empty(),
        }
    }

    /// The value of the `Authorization` header: the credential as a bearer
    /// token.
    pub open spec fn bearer(self) -> Text {
        "Bearer "@ + self.auth_key
    }

    /// The address of the resource at `path`.
    pub open spec fn address(self, path: Text) -> Text {
        composed(self.base_url, self.version.tag(), path)
    }

    /// The address of the resource at `path`, checked: the address itself
    /// where it can be the target of a request, and else the parser's
    /// complaint.
    pub open spec fn url(self, path: Text) -> Result<Text, Text> {
        Self::checked(self.address(path), uri_rejection(self.address(path)))
    }

    /// An address after its check: the address where nothing was found
    /// wrong with it, and else what was found.
    pub open spec fn checked(address: Text, rejection: Option<Text>) -> Result<Text, Text> {
        match rejection {
            None => Ok(address),
            Some(words) => Err(words),
        }
    }

    /// The request for `path`: it goes to the checked address, carries the
    /// credential in one `Authorization` header and no other header, and has
    /// the given body, or an empty one. No request is made where the address
    /// is refused, or where the credential cannot stand in a header.
    pub open spec fn request(self, method: Method, path: Text, body: Option<Seq<u8>>) -> Result<
        RequestView,
        Text,
    > {
        match self.url(path) {
            Err(words) => Err(words),
            Ok(address) => if header_value_accepted(self.bearer()) {
                Ok(
                    RequestView {
                        method,
                        uri: address,
                        headers: seq![(AUTHORIZATION@, self.bearer())],
                        body: match body {
                            Some(bytes) => bytes,
                            None => Seq::empty(),
                        },
                    },
                )
            } else {
                Err("failed to parse header value"@)
            },
        }
    }
}

impl Cloudflare {
    /// The starting configuration, given what the URL parser made of the
    /// API's address.
    pub fn from_base_url(normal_form: Option<String>) -> (client: Self)
        ensures
            client@ == CloudflareView::initial(opt_text(normal_form)),
    {
        let base_url = match normal_form {
            Some(text) => text,
            None => DEFAULT_BASE_URL.to_string(),
        };
        Cloudflare { version: Version::V4, base_url, email: String::new(), auth_key: String::new() }
    }

    /// Where the API is.
    pub fn base_url(&self) -> (base_url: &str)
        ensures
            base_url@ == self@.base_url,
    {
        self.base_url.as_str()
    }

    pub fn with_email(self, email: &str) -> (client: Self)
        ensures
            client@ == (CloudflareView { email: email@, ..self@ }),
    {
        let mut s = self;
        s.email = email.to_string();
        s
    }

    pub fn with_token(self, tok: &str) -> (client: Self)
        ensures
            client@ == (CloudflareView { auth_key: tok@, ..self@ }),
    {
        let mut s = self;
        s.auth_key = tok.to_string();
        s
    }

    /// The credential as it stands in the `Authorization` header.
    pub fn bearer_token(&self) -> (token: String)
        ensures
            token@ == self@.bearer(),
    {
        let mut token = "Bearer ".to_string();
        token.append(self.auth_key.as_str());
        token
    }

    /// The standing of the credential. Nothing is asked of the server: the
    /// answer is the empty one.
    pub fn verify_token(self) -> (status: ApiResult<TokenStatus>)
        ensures
            status matches Ok(token) && token.result.id@ == Seq::<char>::empty()
                && token.result.status@ == Seq::<char>::empty(),
    {
        Ok(TokenStatus::default())
    }

    /// The DNS operations of this client, on a copy of its configuration.
    pub fn dns(&self) -> (dns: CloudflareDns)
        ensures
            dns@ == self@,
    {
        CloudflareDns { c: self.clone() }
    }

    /// An address after its check by the request-target parser: `rejection`
    /// is what the parser said of `address`.
    pub fn checked_address(address: String, rejection: Option<String>) -> (outcome: ApiResult<
        String,
    >)
        ensures
            text_outcome(outcome) == CloudflareView::checked(address@, opt_text(rejection)),
    {
        match rejection {
            None => Ok(address),
            Some(words) => Err(ApiError::new(words.as_str())),
        }
    }

    /// The address of the resource at `path`, or the error that says why it
    /// cannot be the target of a request.
    pub fn url(&self, path: &str) -> (outcome: ApiResult<String>)
        ensures
            text_outcome(outcome) == self@.url(path@),
    {
        let address = compose(self.base_url.as_str(), self.version, path);
        let rejection = uri_error(address.as_str());
        Self::checked_address(address, rejection)
    }

    /// Builds the request for `path`. Nothing is sent.
    pub fn perform(&self, method: Method, path: &str, body: Option<Vec<u8>>) -> (outcome: ApiResult<
        Request,
    >)
        ensures
            request_outcome(outcome) == self@.request(method, path@, opt_bytes(body)),
    {
        let req_body = match body {
            Some(b) => b,
            None => Vec::new(),
        };
        let uri = match self.url(path) {
            Ok(address) => address,
            Err(error) => {
                return Err(error);
            },
        };
        let tok = self.bearer_token();
        match header_value_error(tok.as_str()) {
            Some(words) => Err(ApiError::new(words.as_str())),
            None => {
                let mut headers: Vec<(String, String)> = Vec::new();
                headers.push((AUTHORIZATION.to_string(), tok));
                let request = Request { method, uri, headers, body: req_body };
                assert(request.headers.deep_view() == seq![(AUTHORIZATION@, self@.bearer())]);
                Ok(request)
            },
        }
    }

    /// Builds the request for a call whose body, if it has one, was put into
    /// JSON by the caller: `Some(text)` where that worked, `None` where it
    /// did not.
    pub fn perform_json(&self, method: Method, opts: PerformOptions<Option<String>>) -> (outcome:
        ApiResult<Request>)
        ensures
            request_outcome(outcome) == self@.request(method, opts.path@, body_of(opts.body)),
    {
        let body = match opts.body {
            Some(encoded) => {
                let json = match encoded {
                    Some(text) => text,
                    None => String::new(),
                };
                Some(json.as_str().as_bytes_vec())
            },
            None => None,
        };
        self.perform(method, opts.path.as_str(), body)
    }
}

impl Default for Cloudflare {
    fn default() -> (client: Self)
        ensures
            client@ == CloudflareView::initial(url_normal_form(DEFAULT_BASE_URL@)),
    {
        Cloudflare::from_base_url(normalized_url(DEFAULT_BASE_URL))
    }
}

/// Reads the body of a reply as text. `collected` holds the bytes of the
/// body, or nothing if the body could not be had.
pub fn response_text(collected: Option<Vec<u8>>) -> (text: String)
    ensures
        text@ == text_of(opt_bytes(collected)),
{
    let bytes = match collected {
        Some(b) => b,
        None => Vec::new(),
    };
    match utf8_text(bytes) {
        Some(text) => text,
        None => String::new(),
    }
}

/// Turns what the JSON parser made of a reply into the outcome of the call:
/// the parsed value, or an error that holds the parser's complaint.
pub fn decoded<T>(parsed: Result<T, String>) -> (outcome: ApiResult<T>)
    ensures
        match parsed {
            Ok(value) => outcome == Ok::<T, ApiError>(value),
            Err(words) => outcome matches Err(error) && error@ == "error parsing json:"@ + words@,
        },
{
    match parsed {
        Ok(value) => Ok(value),
        Err(words) => {
            let mut message = "error parsing json:".to_string();
            message.append(words.as_str());
            Err(ApiError::new(message.as_str()))
        },
    }
}

/// What is needed to list the records of a zone.
pub struct ListRecordsRequest {
    pub zone_id: String,
    pub page: usize,
}

/// The DNS operations of a client. Each is one call; nothing is kept from
/// one call to the next.
pub struct CloudflareDns {
    c: Cloudflare,
}

impl View for CloudflareDns {
    type V = CloudflareView;

    closed spec fn view(&self) -> CloudflareView {
        self.c@
    }
}

impl CloudflareDns {
    /// The call that lists the records of a zone. The page number is taken
    /// and not used: the call asks for no particular page.
    pub fn list_records(&self, request: ListRecordsRequest) -> (call: Call<()>)
        ensures
            call.client@ == self@,
            call.method == Method::Get,
            call.options.path@ == records_path(request.zone_id@),
            call.options.params is None,
            call.options.body is None,
    {
        let ListRecordsRequest { zone_id, page: _ } = request;
        Call {
            client: self.c.clone(),
            method: Method::Get,
            options: PerformOptions { path: records_path_of(zone_id.as_str()), params: None, body: None },
        }
    }

    /// The call that fetches one record.
    pub fn get_record(&self, zone_id: &str, record_id: &str) -> (call: Call<()>)
        ensures
            call.client@ == self@,
            call.method == Method::Get,
            call.options.path@ == record_path(zone_id@, record_id@),
            call.options.params is None,
            call.options.body is None,
    {
        Call {
            client: self.c.clone(),
            method: Method::Get,
            options: PerformOptions {
                path: record_path_of(zone_id, record_id),
                params: None,
                body: None,
            },
        }
    }

    /// The call that overwrites one record. Its body is the given record
    /// without the fields that the server owns.
    pub fn overwrite_record<R: ToRecordMessage>(self, zone_id: &str, record_id: &str, record: R) -> (call:
        Call<RecordMessage>)
        ensures
            call.client@ == self@,
            call.method == Method::Put,
            call.options.path@ == record_path(zone_id@, record_id@),
            call.options.params is None,
            call.options.body matches Some(body) && body@ == record.message().for_update(),
    {
        let record = record.to_record_message().for_update();
        Call {
            client: self.c,
            method: Method::Put,
            options: PerformOptions {
                path: record_path_of(zone_id, record_id),
                params: None,
                body: Some(record),
            },
        }
    }
}

} // verus!
