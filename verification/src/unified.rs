//! Session and credential management: the [`Unified`] handle.
//!
//! A handle is configured fluently, authenticated once, and then
//! consumed read-only by every request. The network call itself is left
//! to the embedding application: [`Unified::auth_request`] describes
//! the login request, and [`Unified::auth_outcome`] turns the raw
//! response (status, body, `set-cookie` headers, CSRF header) into an
//! authenticated handle or a classified error.

use vstd::prelude::*;

verus! {

use vstd::string::StringExecFns;

use crate::error::{ErrV, UnifiedError};
use crate::http::{Method, RequestParts, Scheme, scheme_chars, sp_decode_udm_auth,
    sp_decode_v1_nodata, strings_view};
use crate::json::{Json, JsonV, json_ser, sp_ser};

/// Handle to an authenticated connection to a Unifi controller.
pub struct Unified {
    pub scheme: Scheme,
    pub host: String,
    /// Session token: the joined login cookies.
    pub token: String,
    /// CSRF token, captured at login on the gateway-integrated variant.
    pub csrf: String,
    pub tls_verify: bool,
    /// Whether the controller is the gateway-integrated variant.
    pub is_udm_pro: bool,
}

impl Unified {
    /// Creates a handle for the given controller host, with HTTPS,
    /// certificate verification, the standalone variant and no token.
    pub fn new(host: &str) -> (r: Unified)
        ensures
            r.scheme == Scheme::Https,
            r.host@ == host@,
            r.token@ == Seq::<char>::empty(),
            r.csrf@ == Seq::<char>::empty(),
            r.tls_verify,
            !r.is_udm_pro,
    {
        Unified {
            scheme: Scheme::Https,
            host: host.to_owned(),
            token: String::new(),
            csrf: String::new(),
            tls_verify: true,
            is_udm_pro: false,
        }
    }

    /// Use HTTP instead of HTTPS for the connection to the controller.
    pub fn plaintext(self) -> (r: Unified)
        ensures
            (r == Unified { scheme: Scheme::Http, ..self }),
    {
        Unified { scheme: Scheme::Http, ..self }
    }

    /// Accept self-signed certificates.
    pub fn no_tls_verify(self) -> (r: Unified)
        ensures
            (r == Unified { tls_verify: false, ..self }),
    {
        Unified { tls_verify: false, ..self }
    }

    /// The controller runs on a Unifi Dream Machine Pro.
    pub fn udm_pro(self) -> (r: Unified)
        ensures
            (r == Unified { is_udm_pro: true, ..self }),
    {
        Unified { is_udm_pro: true, ..self }
    }

    /// Use a previously acquired token.
    pub fn set_token(self, token: &str) -> (r: Unified)
        ensures
            r.token@ == token@,
            r.scheme == self.scheme,
            r.host == self.host,
            r.csrf == self.csrf,
            r.tls_verify == self.tls_verify,
            r.is_udm_pro == self.is_udm_pro,
    {
        Unified { token: token.to_owned(), ..self }
    }

    /// The full URL for a request path: scheme, host, the
    /// variant-specific prefix, then the path.
    pub open spec fn url_chars(&self, path: Seq<char>) -> Seq<char> {
        scheme_chars(self.scheme) + "://"@ + self.host@ + (if self.is_udm_pro {
            "/proxy/network"@
        } else {
            Seq::<char>::empty()
        }) + path
    }

    /// Describes a request for the given verb and path, pre-populated
    /// with the session credentials and variant-specific routing.
    pub fn request_parts(&self, method: Method, path: &str) -> (r: RequestParts)
        ensures
            r.method == method,
            r.url@ == self.url_chars(path@),
            r.cookie@ == self.token@,
            self.is_udm_pro ==> (r.csrf matches Some(c) && c@ == self.csrf@),
            !self.is_udm_pro ==> r.csrf is None,
            r.tls_verify == self.tls_verify,
            r.body is None,
    {
        let mut url = String::new();
        url.append(self.scheme.as_str());
        url.append("://");
        url.append(self.host.as_str());
        if self.is_udm_pro {
            url.append("/proxy/network");
        }
        url.append(path);
        proof {
            assert(url@ =~= self.url_chars(path@));
        }
        RequestParts {
            method,
            url,
            cookie: self.token.clone(),
            csrf: if self.is_udm_pro {
                Some(self.csrf.clone())
            } else {
                None
            },
            tls_verify: self.tls_verify,
            body: None,
        }
    }

    /// The JSON body of a login request.
    pub open spec fn login_body_v(username: Seq<char>, password: Seq<char>) -> JsonV {
        JsonV::Obj(
            seq![
                ("username"@, JsonV::Str(username)),
                ("password"@, JsonV::Str(password)),
                ("remember"@, JsonV::Bool(true)),
            ],
        )
    }

    /// Describes the login request: a POST to the variant-specific
    /// login path with the credentials as a JSON body, before any
    /// session credentials exist.
    pub fn auth_request(&self, username: &str, password: &str) -> (r: RequestParts)
        ensures
            r.method == Method::Post,
            r.url@ == scheme_chars(self.scheme) + "://"@ + self.host@ + (if self.is_udm_pro {
                "/api/auth/login"@
            } else {
                "/api/login"@
            }),
            r.cookie@ == Seq::<char>::empty(),
            r.csrf is None,
            r.tls_verify == self.tls_verify,
            r.body matches Some(b) && b@ == sp_ser(
                Unified::login_body_v(username@, password@),
            ),
    {
        let mut url = String::new();
        url.append(self.scheme.as_str());
        url.append("://");
        url.append(self.host.as_str());
        if self.is_udm_pro {
            url.append("/api/auth/login");
        } else {
            url.append("/api/login");
        }
        proof {
            if self.is_udm_pro {
                assert(url@ =~= scheme_chars(self.scheme) + "://"@ + self.host@
                    + "/api/auth/login"@);
            } else {
                assert(url@ =~= scheme_chars(self.scheme) + "://"@ + self.host@ + "/api/login"@);
            }
        }
        let mut entries: Vec<(String, Json)> = Vec::new();
        entries.push(("username".to_owned(), Json::Str(username.to_owned())));
        entries.push(("password".to_owned(), Json::Str(password.to_owned())));
        entries.push(("remember".to_owned(), Json::Bool(true)));
        let ghost ev = entries@;
        let body = Json::Obj(entries);
        proof {
            crate::json::lemma_json_entry_seq_view(ev);
            assert(ev.len() == 3);
            assert(ev[0].0@ == "username"@ && ev[0].1@ == JsonV::Str(username@));
            assert(ev[1].0@ == "password"@ && ev[1].1@ == JsonV::Str(password@));
            assert(ev[2].0@ == "remember"@ && ev[2].1@ == JsonV::Bool(true));
            assert(crate::json::json_entry_seq_view(ev) =~= Unified::login_body_v(
                username@,
                password@,
            )->Obj_0);
        }
        RequestParts {
            method: Method::Post,
            url,
            cookie: String::new(),
            csrf: None,
            tls_verify: self.tls_verify,
            body: Some(json_ser(&body)),
        }
    }
}

// ------------------------------------------------------------------
// Session-token derivation from `set-cookie` headers.
// ------------------------------------------------------------------

/// What the `cookie` crate parses a `set-cookie` header value to: the
/// cookie's name and value, when the header is well formed.
pub uninterp spec fn cookie_of(s: Seq<char>) -> Option<(Seq<char>, Seq<char>)>;

/// Relies on `cookie::Cookie::parse`: splits a header value into the
/// cookie's name and value (attributes after the first `;` dropped,
/// the pair split at its first `=`, surrounding whitespace trimmed;
/// fails without a `=` or with an empty name).
#[verifier::external_body]
fn parse_cookie_raw(s: &str) -> (r: Option<(String, String)>)
    ensures
        r is Some <==> cookie_of(s@) is Some,
        r matches Some(p) ==> cookie_of(s@) == Some((p.0@, p.1@)),
{
    match cookie::Cookie::parse(s) {
        Ok(c) => Some((c.name().to_string(), c.value().to_string())),
        Err(_) => None,
    }
}

/// The `name=value` strings of the headers that parse as cookies, from
/// index `i` on.
pub open spec fn sp_cookie_pairs(hs: Seq<Seq<char>>, i: int) -> Seq<Seq<char>>
    decreases hs.len() - i,
{
    if !(0 <= i && i < hs.len()) {
        Seq::empty()
    } else {
        match cookie_of(hs[i]) {
            Some(p) => seq![p.0 + seq!['='] + p.1] + sp_cookie_pairs(hs, i + 1),
            None => sp_cookie_pairs(hs, i + 1),
        }
    }
}

/// Parts joined with `; `, from index `k` on, each preceded by the
/// separator.
pub open spec fn sp_join_rest(parts: Seq<Seq<char>>, k: int) -> Seq<char>
    decreases parts.len() - k,
{
    if !(0 <= k && k < parts.len()) {
        Seq::empty()
    } else {
        seq![';', ' '] + parts[k] + sp_join_rest(parts, k + 1)
    }
}

/// Parts joined with `; `.
pub open spec fn sp_join(parts: Seq<Seq<char>>) -> Seq<char> {
    if parts.len() == 0 {
        Seq::empty()
    } else {
        parts[0] + sp_join_rest(parts, 1)
    }
}

/// The session token derived from the `set-cookie` headers of a login
/// response: each well-formed cookie as `name=value`, joined with `; `.
pub open spec fn sp_token_of(hs: Seq<Seq<char>>) -> Seq<char> {
    sp_join(sp_cookie_pairs(hs, 0))
}

/// Derives the session token from `set-cookie` header values.
#[verifier::loop_isolation(false)]
pub fn session_token(cookies: &Vec<String>) -> (r: String)
    ensures
        r@ == sp_token_of(strings_view(cookies@)),
{
    let ghost hs = strings_view(cookies@);
    let mut pairs: Vec<String> = Vec::new();
    let n = cookies.len();
    let mut k: usize = 0;
    while k < n
        invariant
            k <= n,
            hs.len() == n,
            sp_cookie_pairs(hs, 0) == strings_view(pairs@) + sp_cookie_pairs(hs, k as int),
        decreases n - k,
    {
        let ghost prev = pairs@;
        match parse_cookie_raw(cookies[k].as_str()) {
            Some((name, value)) => {
                let mut pair = name;
                pair.append("=");
                pair.append(value.as_str());
                proof {
                    reveal_strlit("=");
                    assert(pair@ =~= cookie_of(hs[k as int])->Some_0.0 + seq!['='] + cookie_of(
                        hs[k as int],
                    )->Some_0.1);
                }
                pairs.push(pair);
                proof {
                    assert(strings_view(pairs@) =~= strings_view(prev) + seq![pair@]);
                    assert(strings_view(prev) + (seq![pair@] + sp_cookie_pairs(hs, k as int + 1))
                        =~= strings_view(pairs@) + sp_cookie_pairs(hs, k as int + 1));
                }
            },
            None => {},
        }
        k = k + 1;
    }
    proof {
        assert(sp_cookie_pairs(hs, n as int) =~= Seq::<Seq<char>>::empty());
        assert(strings_view(pairs@) + Seq::<Seq<char>>::empty() =~= strings_view(pairs@));
    }
    let ghost pv = strings_view(pairs@);
    let mut out: Vec<char> = Vec::new();
    if pairs.len() > 0 {
        let mut first = crate::text::str_chars(pairs[0].as_str());
        out.append(&mut first);
        proof {
            assert(out@ =~= pv[0]);
        }
        let m = pairs.len();
        let mut j: usize = 1;
        while j < m
            invariant
                1 <= j <= m,
                sp_join(pv) == out@ + sp_join_rest(pv, j as int),
            decreases m - j,
        {
            let ghost pre = out@;
            out.push(';');
            out.push(' ');
            let mut next = crate::text::str_chars(pairs[j].as_str());
            out.append(&mut next);
            proof {
                assert(out@ =~= pre + (seq![';', ' '] + pv[j as int]));
                assert(pre + (seq![';', ' '] + pv[j as int]) + sp_join_rest(pv, j as int + 1)
                    =~= pre + sp_join_rest(pv, j as int));
            }
            j = j + 1;
        }
        proof {
            assert(sp_join_rest(pv, m as int) =~= Seq::<char>::empty());
            assert(out@ + Seq::<char>::empty() =~= out@);
            assert(out@ =~= sp_join(pv));
        }
    }
    crate::text::chars_string(&out)
}

// ------------------------------------------------------------------
// Login outcome.
// ------------------------------------------------------------------

impl Unified {
    /// Turns the raw login response into an authenticated handle.
    ///
    /// `cookies` are the values of all `set-cookie` response headers;
    /// `csrf_header` is the value of the `x-csrf-token` response
    /// header, when present.
    pub fn auth_outcome(
        self,
        status: u16,
        body: &str,
        cookies: &Vec<String>,
        csrf_header: Option<&str>,
    ) -> (r: Result<Unified, UnifiedError>)
        ensures
            status == 401 ==> (r matches Err(e) && e@ == ErrV::BadCreds),
            status != 401 && self.is_udm_pro ==> match sp_decode_udm_auth(status, body@) {
                Err(e) => r matches Err(x) && x@ == e,
                Ok(_) => r matches Ok(s) && s.token@ == sp_token_of(strings_view(cookies@))
                    && s.csrf@ == (match csrf_header {
                    Some(h) => h@,
                    None => self.csrf@,
                }) && s.scheme == self.scheme && s.host == self.host && s.tls_verify
                    == self.tls_verify && s.is_udm_pro == self.is_udm_pro,
            },
            status != 401 && !self.is_udm_pro ==> match sp_decode_v1_nodata(status, body@) {
                Err(e) => r matches Err(x) && x@ == e,
                Ok(_) => r matches Ok(s) && s.token@ == sp_token_of(strings_view(cookies@))
                    && s.csrf == self.csrf && s.scheme == self.scheme && s.host == self.host
                    && s.tls_verify == self.tls_verify && s.is_udm_pro == self.is_udm_pro,
            },
    {
        if status == 401 {
            return Err(UnifiedError::InvalidCredentials);
        }
        let mut csrf = self.csrf;
        if self.is_udm_pro {
            match crate::http::decode_udm_auth(status, body) {
                Err(e) => {
                    return Err(e);
                },
                Ok(_) => {},
            }
            if let Some(h) = csrf_header {
                csrf = h.to_owned();
            }
        } else {
            match crate::http::decode_v1_nodata(status, body) {
                Err(e) => {
                    return Err(e);
                },
                Ok(_) => {},
            }
        }
        let token = session_token(cookies);
        Ok(
            Unified {
                scheme: self.scheme,
                host: self.host,
                token,
                csrf,
                tls_verify: self.tls_verify,
                is_udm_pro: self.is_udm_pro,
            },
        )
    }
}

} // verus!
