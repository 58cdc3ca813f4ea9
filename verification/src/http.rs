//! The request/response protocol layer: request descriptions and
//! response-envelope decoding.
//!
//! A request is described by [`RequestParts`], a plain value the
//! embedding application turns into an HTTP call. A response comes back
//! as a status code and a body string; the envelope decoders here turn
//! that into either a payload or a classified [`UnifiedError`], exactly
//! as the specification functions state.

use vstd::prelude::*;

verus! {

use vstd::string::StringExecFns;

use crate::error::{ErrV, UnifiedError};
use crate::json::{Json, JsonV, json_parse, jv_get, sp_get_str, sp_parse};

/// HTTP scheme to be used for the connection to the Unifi controller.
#[derive(Clone, Copy, Debug, PartialEq, Eq, Structural)]
pub enum Scheme {
    Http,
    Https,
}

/// Text of a scheme.
pub open spec fn scheme_chars(s: Scheme) -> Seq<char> {
    match s {
        Scheme::Http => seq!['h', 't', 't', 'p'],
        Scheme::Https => seq!['h', 't', 't', 'p', 's'],
    }
}

impl Scheme {
    /// The scheme's name.
    pub fn as_str(&self) -> (r: &'static str)
        ensures
            r@ == scheme_chars(*self),
    {
        proof {
            reveal_strlit("http");
            reveal_strlit("https");
        }
        match self {
            Scheme::Http => {
                let r = "http";
                proof {
                    assert(r@ =~= scheme_chars(*self));
                }
                r
            },
            Scheme::Https => {
                let r = "https";
                proof {
                    assert(r@ =~= scheme_chars(*self));
                }
                r
            },
        }
    }
}

/// HTTP verb of a request.
#[derive(Clone, Copy, Debug, PartialEq, Eq, Structural)]
pub enum Method {
    Get,
    Post,
    Put,
    Delete,
}

/// Text of a verb.
pub open spec fn method_chars(m: Method) -> Seq<char> {
    match m {
        Method::Get => seq!['G', 'E', 'T'],
        Method::Post => seq!['P', 'O', 'S', 'T'],
        Method::Put => seq!['P', 'U', 'T'],
        Method::Delete => seq!['D', 'E', 'L', 'E', 'T', 'E'],
    }
}

impl Method {
    /// The verb's name.
    pub fn as_str(&self) -> (r: &'static str)
        ensures
            r@ == method_chars(*self),
    {
        proof {
            reveal_strlit("GET");
            reveal_strlit("POST");
            reveal_strlit("PUT");
            reveal_strlit("DELETE");
        }
        match self {
            Method::Get => {
                let r = "GET";
                proof {
                    assert(r@ =~= method_chars(*self));
                }
                r
            },
            Method::Post => {
                let r = "POST";
                proof {
                    assert(r@ =~= method_chars(*self));
                }
                r
            },
            Method::Put => {
                let r = "PUT";
                proof {
                    assert(r@ =~= method_chars(*self));
                }
                r
            },
            Method::Delete => {
                let r = "DELETE";
                proof {
                    assert(r@ =~= method_chars(*self));
                }
                r
            },
        }
    }
}

/// Everything the transport needs to perform one request: the verb, the
/// full URL, the session headers, whether to verify TLS certificates,
/// and an optional JSON body.
pub struct RequestParts {
    pub method: Method,
    pub url: String,
    /// Value for the `cookie` header: the session token.
    pub cookie: String,
    /// Value for the `x-csrf-token` header, on the gateway-integrated
    /// variant.
    pub csrf: Option<String>,
    pub tls_verify: bool,
    pub body: Option<String>,
}

/// The path `/api/s/{site}{tail}` of the per-site endpoints.
pub fn site_path(site: &str, tail: &str) -> (r: String)
    ensures
        r@ == "/api/s/"@ + site@ + tail@,
{
    let mut p = String::new();
    p.append("/api/s/");
    p.append(site);
    p.append(tail);
    proof {
        assert(p@ =~= "/api/s/"@ + site@ + tail@);
    }
    p
}

/// The path `/api/s/{site}{mid}{id}` of the per-item endpoints.
pub fn site_item_path(site: &str, mid: &str, id: &str) -> (r: String)
    ensures
        r@ == "/api/s/"@ + site@ + mid@ + id@,
{
    let mut p = String::new();
    p.append("/api/s/");
    p.append(site);
    p.append(mid);
    p.append(id);
    proof {
        assert(p@ =~= "/api/s/"@ + site@ + mid@ + id@);
    }
    p
}

/// The path `/v2/api/site/{site}{tail}` of the second sub-API.
pub fn v2_site_path(site: &str, tail: &str) -> (r: String)
    ensures
        r@ == "/v2/api/site/"@ + site@ + tail@,
{
    let mut p = String::new();
    p.append("/v2/api/site/");
    p.append(site);
    p.append(tail);
    proof {
        assert(p@ =~= "/v2/api/site/"@ + site@ + tail@);
    }
    p
}

impl RequestParts {
    /// Attaches a JSON payload to the request.
    pub fn with_json(self, j: &Json) -> (r: RequestParts)
        ensures
            r.body matches Some(b) && b@ == crate::json::sp_ser(j@),
            r.method == self.method,
            r.url == self.url,
            r.cookie == self.cookie,
            r.csrf == self.csrf,
            r.tls_verify == self.tls_verify,
    {
        RequestParts { body: Some(crate::json::json_ser(j)), ..self }
    }
}

// ------------------------------------------------------------------
// Envelope decoding.
// ------------------------------------------------------------------

/// A status that short-circuits decoding: above 299 and not the
/// tolerated bad-request status, whose body may still carry a
/// meaningful error envelope.
pub open spec fn sp_status_err(status: u16) -> bool {
    status > 299 && status != 400
}

/// `meta` of an envelope: the `rc` code and the optional `msg`.
/// `None`: the body does not have the metadata shape.
pub open spec fn sp_meta_of(v: JsonV) -> Option<(Seq<char>, Option<Seq<char>>)> {
    match jv_get(v, "meta"@) {
        Some(m) => match sp_get_str(m, "rc"@) {
            Some(code) => match jv_get(m, "msg"@) {
                None => Some((code, None)),
                Some(JsonV::Null) => Some((code, None)),
                Some(JsonV::Str(s)) => Some((code, Some(s))),
                Some(_) => None,
            },
            None => None,
        },
        None => None,
    }
}

/// The failure-translation step shared by the metadata envelopes: a code
/// other than exactly `ok` is a server-reported failure, carrying the
/// message when one is present.
pub open spec fn sp_catch(code: Seq<char>, msg: Option<Seq<char>>) -> Option<ErrV> {
    if code == "ok"@ {
        None
    } else {
        match msg {
            Some(m) => Some(ErrV::Unifi(m)),
            None => Some(ErrV::Unknown),
        }
    }
}

/// Decoding a metadata-tagged envelope with a payload: status check,
/// parse, shape check, failure translation, then payload extraction —
/// a server-reported failure needs no payload member.
pub open spec fn sp_decode_v1(status: u16, body: Seq<char>) -> Result<JsonV, ErrV> {
    if sp_status_err(status) {
        Err(ErrV::Http(status))
    } else {
        match sp_parse(body) {
            None => Err(ErrV::Network),
            Some(v) => match sp_meta_of(v) {
                None => Err(ErrV::Network),
                Some((code, msg)) => match sp_catch(code, msg) {
                    Some(e) => Err(e),
                    None => match jv_get(v, "data"@) {
                        None => Err(ErrV::Network),
                        Some(data) => Ok(data),
                    },
                },
            },
        }
    }
}

/// Decoding a metadata-tagged envelope without a payload.
pub open spec fn sp_decode_v1_nodata(status: u16, body: Seq<char>) -> Result<(), ErrV> {
    if sp_status_err(status) {
        Err(ErrV::Http(status))
    } else {
        match sp_parse(body) {
            None => Err(ErrV::Network),
            Some(v) => match sp_meta_of(v) {
                None => Err(ErrV::Network),
                Some((code, msg)) => match sp_catch(code, msg) {
                    Some(e) => Err(e),
                    None => Ok(()),
                },
            },
        }
    }
}

/// Decoding the transparent envelope of the second, more modern sub-API:
/// the body is the payload itself; success whenever it parses.
pub open spec fn sp_decode_v2(status: u16, body: Seq<char>) -> Result<JsonV, ErrV> {
    if sp_status_err(status) {
        Err(ErrV::Http(status))
    } else {
        match sp_parse(body) {
            None => Err(ErrV::Network),
            Some(v) => Ok(v),
        }
    }
}

/// The error-list strings of the gateway-integrated login response:
/// `None` when the body is not an object or an `errors` member is not a
/// list of strings; otherwise the strings (an absent or null `errors`
/// member is the empty-marker `None` inside).
pub open spec fn sp_errors_of(v: JsonV) -> Option<Option<Seq<Seq<char>>>> {
    match v {
        JsonV::Obj(_) => match jv_get(v, "errors"@) {
            None => Some(None),
            Some(JsonV::Null) => Some(None),
            Some(JsonV::Arr(items)) => if forall|i: int|
                0 <= i < items.len() ==> #[trigger] items[i] is Str {
                Some(Some(Seq::new(items.len(), |i: int| items[i]->Str_0)))
            } else {
                None
            },
            Some(_) => None,
        },
        _ => None,
    }
}

/// Decoding the error-list envelope of the gateway-integrated login: an
/// `errors` list present means failure with its first message, or an
/// unspecified failure when the list is empty.
pub open spec fn sp_decode_udm_auth(status: u16, body: Seq<char>) -> Result<(), ErrV> {
    if sp_status_err(status) {
        Err(ErrV::Http(status))
    } else {
        match sp_parse(body) {
            None => Err(ErrV::Network),
            Some(v) => match sp_errors_of(v) {
                None => Err(ErrV::Network),
                Some(None) => Ok(()),
                Some(Some(errors)) => if errors.len() > 0 {
                    Err(ErrV::Unifi(errors[0]))
                } else {
                    Err(ErrV::Unknown)
                },
            },
        }
    }
}

// ------------------------------------------------------------------
// Envelope decoding, executable level.
// ------------------------------------------------------------------

/// Metadata of the standard envelope: the `rc` status code string and
/// the optional `msg` message.
pub struct ResponseMeta {
    pub code: String,
    pub message: Option<String>,
}

impl View for ResponseMeta {
    type V = (Seq<char>, Option<Seq<char>>);

    open spec fn view(&self) -> (Seq<char>, Option<Seq<char>>) {
        (
            self.code@,
            match self.message {
                Some(m) => Some(m@),
                None => None,
            },
        )
    }
}

/// The metadata-tagged envelope with a payload. The payload member is
/// optional at this stage: a server-reported failure carries none.
pub struct ApiV1 {
    pub meta: ResponseMeta,
    pub data: Option<Json>,
}

/// The metadata-tagged envelope without a payload.
pub struct ApiV1NoData {
    pub meta: ResponseMeta,
}

/// The transparent envelope of the second, more modern sub-API.
pub struct ApiV2 {
    pub data: Json,
}

/// The error-list envelope of the gateway-integrated login response.
pub struct UdmProAuthResponse {
    pub errors: Option<Vec<String>>,
}

/// The views of a vector of strings.
pub open spec fn strings_view(v: Seq<String>) -> Seq<Seq<char>> {
    Seq::new(v.len(), |i: int| v[i]@)
}

/// Deserialisation of the standard metadata part and the optional
/// payload member.
pub open spec fn sp_v1_deser(status: u16, body: Seq<char>) -> Result<
    ((Seq<char>, Option<Seq<char>>), Option<JsonV>),
    ErrV,
> {
    if sp_status_err(status) {
        Err(ErrV::Http(status))
    } else {
        match sp_parse(body) {
            None => Err(ErrV::Network),
            Some(v) => match sp_meta_of(v) {
                None => Err(ErrV::Network),
                Some(mv) => Ok((mv, jv_get(v, "data"@))),
            },
        }
    }
}

/// Extracts the envelope metadata from a decoded body.
fn meta_from(v: &Json) -> (r: Option<ResponseMeta>)
    ensures
        match sp_meta_of(v@) {
            None => r is None,
            Some(mv) => r matches Some(m) && m@ == mv,
        },
{
    let m = match v.get("meta") {
        Some(m) => m,
        None => {
            return None;
        },
    };
    let code = match m.get_str("rc") {
        Some(c) => c,
        None => {
            return None;
        },
    };
    let message = match m.get("msg") {
        None => None,
        Some(Json::Null) => None,
        Some(Json::Str(s)) => Some(s.clone()),
        Some(_) => {
            return None;
        },
    };
    Some(ResponseMeta { code, message })
}

impl ApiV1 {
    /// Checks the transport status and reads the envelope shape.
    pub fn deserialize(status: u16, body: &str) -> (r: Result<ApiV1, UnifiedError>)
        ensures
            match sp_v1_deser(status, body@) {
                Err(e) => r matches Err(x) && x@ == e,
                Ok((mv, d)) => r matches Ok(a) && a.meta@ == mv && (match (a.data, d) {
                    (Some(j), Some(dv)) => j@ == dv,
                    (None, None) => true,
                    _ => false,
                }),
            },
    {
        if status > 299 && status != 400 {
            return Err(UnifiedError::HttpError(status));
        }
        let v = match json_parse(body) {
            Some(v) => v,
            None => {
                return Err(UnifiedError::NetworkError);
            },
        };
        let meta = match meta_from(&v) {
            Some(m) => m,
            None => {
                return Err(UnifiedError::NetworkError);
            },
        };
        let data = v.take("data");
        Ok(ApiV1 { meta, data })
    }

    /// Translates server-reported failure, or yields the payload; a
    /// successful envelope must carry one.
    pub fn catch(self) -> (r: Result<Json, UnifiedError>)
        ensures
            match sp_catch(self.meta@.0, self.meta@.1) {
                Some(e) => r matches Err(x) && x@ == e,
                None => match self.data {
                    Some(j) => r matches Ok(out) && out == j,
                    None => r matches Err(x) && x@ == ErrV::Network,
                },
            },
    {
        if crate::text::str_eq(self.meta.code.as_str(), "ok") {
            match self.data {
                Some(j) => Ok(j),
                None => Err(UnifiedError::NetworkError),
            }
        } else {
            match self.meta.message {
                Some(m) => Err(UnifiedError::UnifiError(m)),
                None => Err(UnifiedError::Unknown),
            }
        }
    }
}

impl ApiV1NoData {
    /// Checks the transport status and reads the envelope shape.
    pub fn deserialize(status: u16, body: &str) -> (r: Result<ApiV1NoData, UnifiedError>)
        ensures
            (match r {
                Err(x) => {
                    if sp_status_err(status) {
                        x@ == ErrV::Http(status)
                    } else {
                        x@ == ErrV::Network && (sp_parse(body@) is None || sp_meta_of(
                            sp_parse(body@)->Some_0,
                        ) is None)
                    }
                },
                Ok(a) => !sp_status_err(status) && (sp_parse(body@) matches Some(v) && (
                sp_meta_of(v) matches Some(mv) && a.meta@ == mv)),
            }),
            r is Err <==> (sp_status_err(status) || sp_parse(body@) is None || sp_meta_of(
                sp_parse(body@)->Some_0,
            ) is None),
    {
        if status > 299 && status != 400 {
            return Err(UnifiedError::HttpError(status));
        }
        let v = match json_parse(body) {
            Some(v) => v,
            None => {
                return Err(UnifiedError::NetworkError);
            },
        };
        let meta = match meta_from(&v) {
            Some(m) => m,
            None => {
                return Err(UnifiedError::NetworkError);
            },
        };
        Ok(ApiV1NoData { meta })
    }

    /// Translates server-reported failure.
    pub fn catch(self) -> (r: Result<(), UnifiedError>)
        ensures
            match sp_catch(self.meta@.0, self.meta@.1) {
                Some(e) => r matches Err(x) && x@ == e,
                None => r is Ok,
            },
    {
        if crate::text::str_eq(self.meta.code.as_str(), "ok") {
            Ok(())
        } else {
            match self.meta.message {
                Some(m) => Err(UnifiedError::UnifiError(m)),
                None => Err(UnifiedError::Unknown),
            }
        }
    }
}

impl ApiV2 {
    /// Checks the transport status and reads the body as the payload.
    pub fn deserialize(status: u16, body: &str) -> (r: Result<ApiV2, UnifiedError>)
        ensures
            match sp_decode_v2(status, body@) {
                Err(e) => r matches Err(x) && x@ == e,
                Ok(d) => r matches Ok(a) && a.data@ == d,
            },
    {
        if status > 299 && status != 400 {
            return Err(UnifiedError::HttpError(status));
        }
        match json_parse(body) {
            Some(v) => Ok(ApiV2 { data: v }),
            None => Err(UnifiedError::NetworkError),
        }
    }

    /// The transparent envelope always succeeds.
    pub fn catch(self) -> (r: Result<Json, UnifiedError>)
        ensures
            r matches Ok(j) && j == self.data,
    {
        Ok(self.data)
    }
}

impl UdmProAuthResponse {
    /// Checks the transport status and reads the error-list shape.
    #[verifier::loop_isolation(false)]
    pub fn deserialize(status: u16, body: &str) -> (r: Result<UdmProAuthResponse, UnifiedError>)
        ensures
            (match r {
                Err(x) => {
                    if sp_status_err(status) {
                        x@ == ErrV::Http(status)
                    } else {
                        x@ == ErrV::Network
                    }
                },
                Ok(a) => !sp_status_err(status) && (sp_parse(body@) matches Some(v) && match sp_errors_of(
                    v,
                ) {
                    Some(None) => a.errors is None,
                    Some(Some(es)) => a.errors matches Some(list) && strings_view(list@) == es,
                    None => false,
                }),
            }),
            r is Err <==> (sp_status_err(status) || sp_parse(body@) is None || sp_errors_of(
                sp_parse(body@)->Some_0,
            ) is None),
    {
        if status > 299 && status != 400 {
            return Err(UnifiedError::HttpError(status));
        }
        let v = match json_parse(body) {
            Some(v) => v,
            None => {
                return Err(UnifiedError::NetworkError);
            },
        };
        match &v {
            Json::Obj(_) => {},
            _ => {
                return Err(UnifiedError::NetworkError);
            },
        }
        let errors: Option<Vec<String>> = match v.get("errors") {
            None => None,
            Some(Json::Null) => None,
            Some(Json::Arr(items)) => {
                let ghost iv = crate::json::json_seq_view(items@);
                proof {
                    crate::json::lemma_json_seq_view(items@);
                }
                let mut out: Vec<String> = Vec::new();
                let n = items.len();
                let mut k: usize = 0;
                while k < n
                    invariant
                        k <= n,
                        out@.len() == k,
                        forall|i: int| 0 <= i < k ==> #[trigger] iv[i] is Str,
                        forall|i: int| 0 <= i < k ==> #[trigger] out@[i]@ == iv[i]->Str_0,
                    decreases n - k,
                {
                    proof {
                        assert(iv[k as int] == items@[k as int]@);
                    }
                    match &items[k] {
                        Json::Str(s) => {
                            proof {
                                assert(items@[k as int]@ is Str);
                            }
                            out.push(s.clone());
                        },
                        _ => {
                            proof {
                                assert(!(items@[k as int]@ is Str));
                            }
                            return Err(UnifiedError::NetworkError);
                        },
                    }
                    k = k + 1;
                }
                proof {
                    assert(strings_view(out@) =~= Seq::new(iv.len(), |i: int| iv[i]->Str_0));
                }
                Some(out)
            },
            Some(_) => {
                return Err(UnifiedError::NetworkError);
            },
        };
        Ok(UdmProAuthResponse { errors })
    }

    /// An error list present means failure: its first message, or an
    /// unspecified failure when it is empty.
    pub fn catch(self) -> (r: Result<(), UnifiedError>)
        ensures
            match self.errors {
                None => r is Ok,
                Some(list) => if list@.len() > 0 {
                    r matches Err(x) && x@ == ErrV::Unifi(list@[0]@)
                } else {
                    r matches Err(x) && x@ == ErrV::Unknown
                },
            },
    {
        match self.errors {
            None => Ok(()),
            Some(list) => {
                if list.len() > 0 {
                    Err(UnifiedError::UnifiError(list[0].clone()))
                } else {
                    Err(UnifiedError::Unknown)
                }
            },
        }
    }
}

// ------------------------------------------------------------------
// The combined decoders used by the resource accessors.
// ------------------------------------------------------------------

/// Decodes a metadata-tagged response with a payload, exactly as
/// [`sp_decode_v1`] states.
pub fn decode_v1(status: u16, body: &str) -> (r: Result<Json, UnifiedError>)
    ensures
        match sp_decode_v1(status, body@) {
            Ok(d) => r matches Ok(j) && j@ == d,
            Err(e) => r matches Err(x) && x@ == e,
        },
{
    match ApiV1::deserialize(status, body) {
        Err(e) => Err(e),
        Ok(a) => a.catch(),
    }
}

/// Decodes a metadata-tagged response without a payload, exactly as
/// [`sp_decode_v1_nodata`] states.
pub fn decode_v1_nodata(status: u16, body: &str) -> (r: Result<(), UnifiedError>)
    ensures
        match sp_decode_v1_nodata(status, body@) {
            Ok(_) => r is Ok,
            Err(e) => r matches Err(x) && x@ == e,
        },
{
    match ApiV1NoData::deserialize(status, body) {
        Err(e) => Err(e),
        Ok(a) => a.catch(),
    }
}

/// Decodes a transparent response, exactly as [`sp_decode_v2`] states.
pub fn decode_v2(status: u16, body: &str) -> (r: Result<Json, UnifiedError>)
    ensures
        match sp_decode_v2(status, body@) {
            Ok(d) => r matches Ok(j) && j@ == d,
            Err(e) => r matches Err(x) && x@ == e,
        },
{
    match ApiV2::deserialize(status, body) {
        Err(e) => Err(e),
        Ok(a) => a.catch(),
    }
}

/// Decodes the gateway-integrated login response, exactly as
/// [`sp_decode_udm_auth`] states.
pub fn decode_udm_auth(status: u16, body: &str) -> (r: Result<(), UnifiedError>)
    ensures
        match sp_decode_udm_auth(status, body@) {
            Ok(_) => r is Ok,
            Err(e) => r matches Err(x) && x@ == e,
        },
{
    match UdmProAuthResponse::deserialize(status, body) {
        Err(e) => Err(e),
        Ok(a) => a.catch(),
    }
}

} // verus!
