//! Alerts raised on a site.

use vstd::prelude::*;

verus! {

use crate::clients::opt_str_view;
use crate::error::{ErrV, UnifiedError};
use crate::http::{Method, RequestParts, sp_decode_v1};
use crate::json::{Json, JsonV, json_seq_view, lemma_json_seq_view, sp_digits_of};
use crate::text::upper_of;
use crate::unified::Unified;
use crate::wire::{sp_opt_str, sp_req_bool, sp_req_i64, sp_req_str};

/// An alert raised on a site.
pub struct Alert {
    /// Milliseconds since the epoch at which the alert was raised.
    pub time_ms: i64,
    /// Subsystem that raised the alert, upper-cased.
    pub subsystem: String,
    /// Name of the device concerned, if any.
    pub device: Option<String>,
    /// Alert message.
    pub message: String,
    /// Has the alert been archived?
    pub archived: bool,
}

/// Model of an [`Alert`].
pub struct AlertV {
    pub time_ms: int,
    pub subsystem: Seq<char>,
    pub device: Option<Seq<char>>,
    pub message: Seq<char>,
    pub archived: bool,
}

impl View for Alert {
    type V = AlertV;

    open spec fn view(&self) -> AlertV {
        AlertV {
            time_ms: self.time_ms as int,
            subsystem: self.subsystem@,
            device: opt_str_view(self.device),
            message: self.message@,
            archived: self.archived,
        }
    }
}

/// The views of a vector of alerts.
pub open spec fn alerts_view(v: Seq<Alert>) -> Seq<AlertV> {
    Seq::new(v.len(), |i: int| v[i]@)
}

/// One wire record as an alert: the device is the first of the switch,
/// access-point or gateway name present.
pub open spec fn sp_alert_of(v: JsonV) -> Result<AlertV, ErrV> {
    match (
        sp_req_i64(v, "time"@),
        sp_req_str(v, "subsystem"@),
        sp_req_str(v, "msg"@),
        sp_req_bool(v, "archived"@),
    ) {
        (Some(time_ms), Some(subsystem), Some(message), Some(archived)) => match (
            sp_opt_str(v, "sw_name"@),
            sp_opt_str(v, "ap_name"@),
            sp_opt_str(v, "gw_name"@),
        ) {
            (Some(sw), Some(ap), Some(gw)) => Ok(
                AlertV {
                    time_ms,
                    subsystem: upper_of(subsystem),
                    device: match sw {
                        Some(x) => Some(x),
                        None => match ap {
                            Some(x) => Some(x),
                            None => gw,
                        },
                    },
                    message,
                    archived,
                },
            ),
            _ => Err(ErrV::Network),
        },
        _ => Err(ErrV::Network),
    }
}

/// The wire records from index `k` on, each as an alert.
pub open spec fn sp_alerts_map(items: Seq<JsonV>, k: int) -> Result<Seq<AlertV>, ErrV>
    decreases items.len() - k,
{
    if !(0 <= k && k < items.len()) {
        Ok(Seq::empty())
    } else {
        match sp_alert_of(items[k]) {
            Err(e) => Err(e),
            Ok(a) => match sp_alerts_map(items, k + 1) {
                Err(e) => Err(e),
                Ok(rest) => Ok(seq![a] + rest),
            },
        }
    }
}

/// The full decode of an alert listing response.
pub open spec fn sp_alerts_decode(status: u16, body: Seq<char>) -> Result<Seq<AlertV>, ErrV> {
    match sp_decode_v1(status, body) {
        Err(e) => Err(e),
        Ok(d) => match d {
            JsonV::Arr(items) => sp_alerts_map(items, 0),
            _ => Err(ErrV::Network),
        },
    }
}

/// The alert listing path, with an optional result-count limit.
pub open spec fn alerts_path_chars(site: Seq<char>, limit: Option<int>) -> Seq<char> {
    match limit {
        Some(n) => "/api/s/"@ + site + "/stat/alarm?_limit="@ + sp_digits_of(n),
        None => "/api/s/"@ + site + "/stat/alarm"@,
    }
}

/// Describes the alert listing request for a site.
pub fn alerts_request(session: &Unified, site: &str, limit: Option<u64>) -> (r: RequestParts)
    ensures
        r.method == Method::Get,
        r.url@ == session.url_chars(
            alerts_path_chars(
                site@,
                match limit {
                    Some(n) => Some(n as int),
                    None => None,
                },
            ),
        ),
        r.cookie@ == session.token@,
        session.is_udm_pro ==> (r.csrf matches Some(c) && c@ == session.csrf@),
        !session.is_udm_pro ==> r.csrf is None,
        r.tls_verify == session.tls_verify,
        r.body is None,
{
    let p = match limit {
        Some(n) => {
            let mut p = crate::http::site_path(site, "/stat/alarm?_limit=");
            let t = crate::json::num_text(n);
            p.append(t.as_str());
            proof {
                assert(p@ =~= alerts_path_chars(site@, Some(n as int)));
            }
            p
        },
        None => crate::http::site_path(site, "/stat/alarm"),
    };
    session.request_parts(Method::Get, p.as_str())
}

/// Extracts one alert from a wire record.
fn alert_of_json(v: &Json) -> (r: Result<Alert, UnifiedError>)
    ensures
        match sp_alert_of(v@) {
            Err(e) => r matches Err(x) && x@ == e,
            Ok(av) => r matches Ok(a) && a@ == av,
        },
{
    let time_ms = match v.req_i64("time") {
        Some(x) => x,
        None => {
            return Err(UnifiedError::NetworkError);
        },
    };
    let subsystem = match v.req_str("subsystem") {
        Some(x) => x,
        None => {
            return Err(UnifiedError::NetworkError);
        },
    };
    let message = match v.req_str("msg") {
        Some(x) => x,
        None => {
            return Err(UnifiedError::NetworkError);
        },
    };
    let archived = match v.req_bool("archived") {
        Some(x) => x,
        None => {
            return Err(UnifiedError::NetworkError);
        },
    };
    let sw = match v.opt_str("sw_name") {
        Some(x) => x,
        None => {
            return Err(UnifiedError::NetworkError);
        },
    };
    let ap = match v.opt_str("ap_name") {
        Some(x) => x,
        None => {
            return Err(UnifiedError::NetworkError);
        },
    };
    let gw = match v.opt_str("gw_name") {
        Some(x) => x,
        None => {
            return Err(UnifiedError::NetworkError);
        },
    };
    let device = match sw {
        Some(x) => Some(x),
        None => match ap {
            Some(x) => Some(x),
            None => gw,
        },
    };
    Ok(
        Alert {
            time_ms,
            subsystem: crate::text::to_upper(subsystem.as_str()),
            device,
            message,
            archived,
        },
    )
}

/// Decodes an alert listing response, exactly as [`sp_alerts_decode`]
/// states.
#[verifier::loop_isolation(false)]
pub fn alerts_decode(status: u16, body: &str) -> (r: Result<Vec<Alert>, UnifiedError>)
    ensures
        match sp_alerts_decode(status, body@) {
            Ok(avs) => r matches Ok(v) && alerts_view(v@) == avs,
            Err(e) => r matches Err(x) && x@ == e,
        },
{
    let data = match crate::http::decode_v1(status, body) {
        Ok(d) => d,
        Err(e) => {
            return Err(e);
        },
    };
    let items = match &data {
        Json::Arr(items) => items,
        _ => {
            return Err(UnifiedError::NetworkError);
        },
    };
    let ghost iv = json_seq_view(items@);
    proof {
        lemma_json_seq_view(items@);
    }
    let mut out: Vec<Alert> = Vec::new();
    let n = items.len();
    let mut k: usize = 0;
    while k < n
        invariant
            k <= n,
            out@.len() == k,
            sp_alerts_map(iv, 0) == (match sp_alerts_map(iv, k as int) {
                Err(e) => Err::<Seq<AlertV>, ErrV>(e),
                Ok(rest) => Ok(alerts_view(out@) + rest),
            }),
        decreases n - k,
    {
        let ghost pre = out@;
        match alert_of_json(&items[k]) {
            Ok(a) => {
                out.push(a);
                proof {
                    assert(alerts_view(out@) =~= alerts_view(pre) + seq![out@[k as int]@]);
                    if sp_alerts_map(iv, k as int + 1) is Ok {
                        let rest = sp_alerts_map(iv, k as int + 1)->Ok_0;
                        assert(alerts_view(pre) + (seq![out@[k as int]@] + rest) =~= alerts_view(
                            out@,
                        ) + rest);
                    }
                }
            },
            Err(e) => {
                return Err(e);
            },
        }
        k = k + 1;
    }
    proof {
        assert(alerts_view(out@) + Seq::<AlertV>::empty() =~= alerts_view(out@));
    }
    Ok(out)
}

} // verus!
