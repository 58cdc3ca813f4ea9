//! Events recorded on a site.

use vstd::prelude::*;

verus! {

use crate::clients::opt_str_view;
use crate::error::{ErrV, UnifiedError};
use crate::http::{Method, RequestParts, sp_decode_v1};
use crate::json::{Json, JsonV, json_seq_view, lemma_json_seq_view, sp_digits_of};
use crate::text::upper_of;
use crate::unified::Unified;
use crate::wire::{sp_opt_str, sp_req_i64, sp_req_str};

/// An event recorded on a site.
pub struct Event {
    /// Milliseconds since the epoch at which the event happened.
    pub time_ms: i64,
    /// Subsystem the event concerns, upper-cased; `AUTH` when the wire
    /// record names none.
    pub subsystem: String,
    /// Name of the device or client concerned, if any.
    pub device: Option<String>,
    /// SSID concerned, if any.
    pub ssid: Option<String>,
    /// Event message.
    pub message: String,
}

/// Model of an [`Event`].
pub struct EventV {
    pub time_ms: int,
    pub subsystem: Seq<char>,
    pub device: Option<Seq<char>>,
    pub ssid: Option<Seq<char>>,
    pub message: Seq<char>,
}

impl View for Event {
    type V = EventV;

    open spec fn view(&self) -> EventV {
        EventV {
            time_ms: self.time_ms as int,
            subsystem: self.subsystem@,
            device: opt_str_view(self.device),
            ssid: opt_str_view(self.ssid),
            message: self.message@,
        }
    }
}

/// The views of a vector of events.
pub open spec fn events_view(v: Seq<Event>) -> Seq<EventV> {
    Seq::new(v.len(), |i: int| v[i]@)
}

/// One wire record as an event: the device is the first of the
/// hostname, guest, switch, access-point or gateway name present.
pub open spec fn sp_event_of(v: JsonV) -> Result<EventV, ErrV> {
    match (sp_req_i64(v, "time"@), sp_req_str(v, "msg"@), sp_opt_str(v, "subsystem"@)) {
        (Some(time_ms), Some(message), Some(subsystem)) => match (
            sp_opt_str(v, "hostname"@),
            sp_opt_str(v, "guest"@),
            sp_opt_str(v, "sw_name"@),
            sp_opt_str(v, "ap_name"@),
            sp_opt_str(v, "gw_name"@),
            sp_opt_str(v, "ssid"@),
        ) {
            (Some(host), Some(guest), Some(sw), Some(ap), Some(gw), Some(ssid)) => Ok(
                EventV {
                    time_ms,
                    subsystem: match subsystem {
                        Some(s) => upper_of(s),
                        None => "AUTH"@,
                    },
                    device: match host {
                        Some(x) => Some(x),
                        None => match guest {
                            Some(x) => Some(x),
                            None => match sw {
                                Some(x) => Some(x),
                                None => match ap {
                                    Some(x) => Some(x),
                                    None => gw,
                                },
                            },
                        },
                    },
                    ssid,
                    message,
                },
            ),
            _ => Err(ErrV::Network),
        },
        _ => Err(ErrV::Network),
    }
}

/// The wire records from index `k` on, each as an event.
pub open spec fn sp_events_map(items: Seq<JsonV>, k: int) -> Result<Seq<EventV>, ErrV>
    decreases items.len() - k,
{
    if !(0 <= k && k < items.len()) {
        Ok(Seq::empty())
    } else {
        match sp_event_of(items[k]) {
            Err(e) => Err(e),
            Ok(ev) => match sp_events_map(items, k + 1) {
                Err(e) => Err(e),
                Ok(rest) => Ok(seq![ev] + rest),
            },
        }
    }
}

/// The full decode of an event listing response.
pub open spec fn sp_events_decode(status: u16, body: Seq<char>) -> Result<Seq<EventV>, ErrV> {
    match sp_decode_v1(status, body) {
        Err(e) => Err(e),
        Ok(d) => match d {
            JsonV::Arr(items) => sp_events_map(items, 0),
            _ => Err(ErrV::Network),
        },
    }
}

/// The event listing path, with an optional result-count limit.
pub open spec fn events_path_chars(site: Seq<char>, limit: Option<int>) -> Seq<char> {
    match limit {
        Some(n) => "/api/s/"@ + site + "/stat/event?_limit="@ + sp_digits_of(n),
        None => "/api/s/"@ + site + "/stat/event"@,
    }
}

/// Describes the event listing request for a site.
pub fn events_request(session: &Unified, site: &str, limit: Option<u64>) -> (r: RequestParts)
    ensures
        r.method == Method::Get,
        r.url@ == session.url_chars(
            events_path_chars(
                site@,
                match limit {
                    Some(n) => Some(n as int),
                    None => None,
                },
            ),
        ),
        r.cookie@ == session.token@,
        session.is_udm_pro ==> (r.csrf matches Some(c) && c@ == session.csrf@),
        !session.is_udm_pro ==> r.csrf is None,
        r.tls_verify == session.tls_verify,
        r.body is None,
{
    let p = match limit {
        Some(n) => {
            let mut p = crate::http::site_path(site, "/stat/event?_limit=");
            let t = crate::json::num_text(n);
            p.append(t.as_str());
            proof {
                assert(p@ =~= events_path_chars(site@, Some(n as int)));
            }
            p
        },
        None => crate::http::site_path(site, "/stat/event"),
    };
    session.request_parts(Method::Get, p.as_str())
}

/// Extracts one event from a wire record.
fn event_of_json(v: &Json) -> (r: Result<Event, UnifiedError>)
    ensures
        match sp_event_of(v@) {
            Err(e) => r matches Err(x) && x@ == e,
            Ok(ev) => r matches Ok(a) && a@ == ev,
        },
{
    let time_ms = match v.req_i64("time") {
        Some(x) => x,
        None => {
            return Err(UnifiedError::NetworkError);
        },
    };
    let message = match v.req_str("msg") {
        Some(x) => x,
        None => {
            return Err(UnifiedError::NetworkError);
        },
    };
    let subsystem_s = match v.opt_str("subsystem") {
        Some(x) => x,
        None => {
            return Err(UnifiedError::NetworkError);
        },
    };
    let host = match v.opt_str("hostname") {
        Some(x) => x,
        None => {
            return Err(UnifiedError::NetworkError);
        },
    };
    let guest = match v.opt_str("guest") {
        Some(x) => x,
        None => {
            return Err(UnifiedError::NetworkError);
        },
    };
    let sw = match v.opt_str("sw_name") {
        Some(x) => x,
        None => {
            return Err(UnifiedError::NetworkError);
        },
    };
    let ap = match v.opt_str("ap_name") {
        Some(x) => x,
        None => {
            return Err(UnifiedError::NetworkError);
        },
    };
    let gw = match v.opt_str("gw_name") {
        Some(x) => x,
        None => {
            return Err(UnifiedError::NetworkError);
        },
    };
    let ssid = match v.opt_str("ssid") {
        Some(x) => x,
        None => {
            return Err(UnifiedError::NetworkError);
        },
    };
    let subsystem = match &subsystem_s {
        Some(s) => crate::text::to_upper(s.as_str()),
        None => {
            let a = "AUTH".to_owned();
            a
        },
    };
    let device = match host {
        Some(x) => Some(x),
        None => match guest {
            Some(x) => Some(x),
            None => match sw {
                Some(x) => Some(x),
                None => match ap {
                    Some(x) => Some(x),
                    None => gw,
                },
            },
        },
    };
    Ok(Event { time_ms, subsystem, device, ssid, message })
}

/// Decodes an event listing response, exactly as [`sp_events_decode`]
/// states.
#[verifier::loop_isolation(false)]
pub fn events_decode(status: u16, body: &str) -> (r: Result<Vec<Event>, UnifiedError>)
    ensures
        match sp_events_decode(status, body@) {
            Ok(evs) => r matches Ok(v) && events_view(v@) == evs,
            Err(e) => r matches Err(x) && x@ == e,
        },
{
    let data = match crate::http::decode_v1(status, body) {
        Ok(d) => d,
        Err(e) => {
            return Err(e);
        },
    };
    let items = match &data {
        Json::Arr(items) => items,
        _ => {
            return Err(UnifiedError::NetworkError);
        },
    };
    let ghost iv = json_seq_view(items@);
    proof {
        lemma_json_seq_view(items@);
    }
    let mut out: Vec<Event> = Vec::new();
    let n = items.len();
    let mut k: usize = 0;
    while k < n
        invariant
            k <= n,
            out@.len() == k,
            sp_events_map(iv, 0) == (match sp_events_map(iv, k as int) {
                Err(e) => Err::<Seq<EventV>, ErrV>(e),
                Ok(rest) => Ok(events_view(out@) + rest),
            }),
        decreases n - k,
    {
        let ghost pre = out@;
        match event_of_json(&items[k]) {
            Ok(ev) => {
                out.push(ev);
                proof {
                    assert(events_view(out@) =~= events_view(pre) + seq![out@[k as int]@]);
                    if sp_events_map(iv, k as int + 1) is Ok {
                        let rest = sp_events_map(iv, k as int + 1)->Ok_0;
                        assert(events_view(pre) + (seq![out@[k as int]@] + rest) =~= events_view(
                            out@,
                        ) + rest);
                    }
                }
            },
            Err(e) => {
                return Err(e);
            },
        }
        k = k + 1;
    }
    proof {
        assert(events_view(out@) + Seq::<EventV>::empty() =~= events_view(out@));
    }
    Ok(out)
}

} // verus!
