//! Sites: the locations a controller manages.

use vstd::prelude::*;

verus! {

use crate::error::{ErrV, UnifiedError};
use crate::http::{Method, RequestParts, sp_decode_v1};
use crate::json::{Json, JsonV, json_seq_view, lemma_json_seq_view};
use crate::unified::Unified;
use crate::wire::{sp_req_str, sp_req_u64};

/// Representation of the attribute used to select a site.
pub enum SiteRef<'r> {
    /// Select the site by its internal ID.
    Id(&'r str),
    /// Select the site by its slug.
    Name(&'r str),
    /// Select the site by its human-friendly name (description).
    Description(&'r str),
}

/// Model of a [`SiteRef`].
pub enum SiteRefV {
    Id(Seq<char>),
    Name(Seq<char>),
    Description(Seq<char>),
}

impl<'r> View for SiteRef<'r> {
    type V = SiteRefV;

    open spec fn view(&self) -> SiteRefV {
        match self {
            SiteRef::Id(x) => SiteRefV::Id(x@),
            SiteRef::Name(x) => SiteRefV::Name(x@),
            SiteRef::Description(x) => SiteRefV::Description(x@),
        }
    }
}

/// Various data about overall health of a Unifi site.
#[derive(Clone, Copy, Debug, PartialEq, Eq, Structural)]
pub struct SiteHealth {
    /// State of the Internet access.
    pub www: bool,
    /// State of the upstream WAN connection.
    pub wan: bool,
    /// State of the LAN network.
    pub lan: bool,
    /// State of the wireless network.
    pub wlan: bool,
    /// State of your VPN networks.
    pub vpn: bool,
}

/// A location where Unifi hardware operates.
pub struct Site {
    /// Internal ID.
    pub id: String,
    /// Site slug ID (called "name" in the controller).
    pub name: String,
    /// Site description (called "description" in the controller).
    pub description: String,
    /// Number of active alerts for the network.
    pub alarms: u64,
    /// Health information about the network.
    pub health: SiteHealth,
}

/// Model of a [`Site`].
pub struct SiteV {
    pub id: Seq<char>,
    pub name: Seq<char>,
    pub description: Seq<char>,
    pub alarms: int,
    pub health: SiteHealth,
}

impl View for Site {
    type V = SiteV;

    open spec fn view(&self) -> SiteV {
        SiteV {
            id: self.id@,
            name: self.name@,
            description: self.description@,
            alarms: self.alarms as int,
            health: self.health,
        }
    }
}

/// The views of a vector of sites.
pub open spec fn sites_view(v: Seq<Site>) -> Seq<SiteV> {
    Seq::new(v.len(), |i: int| v[i]@)
}

/// One health entry applied to the accumulated health: the entry's
/// `subsystem` names the flag, its `status` equal to `ok` sets it.
/// `None`: the entry lacks either string.
pub open spec fn sp_health_apply(acc: SiteHealth, v: JsonV) -> Option<SiteHealth> {
    match (sp_req_str(v, "subsystem"@), sp_req_str(v, "status"@)) {
        (Some(sub), Some(st)) => {
            let ok = st == "ok"@;
            if sub == "www"@ {
                Some(SiteHealth { www: ok, ..acc })
            } else if sub == "wan"@ {
                Some(SiteHealth { wan: ok, ..acc })
            } else if sub == "lan"@ {
                Some(SiteHealth { lan: ok, ..acc })
            } else if sub == "wlan"@ {
                Some(SiteHealth { wlan: ok, ..acc })
            } else if sub == "vpn"@ {
                Some(SiteHealth { vpn: ok, ..acc })
            } else {
                Some(acc)
            }
        },
        _ => None,
    }
}

/// The health entries from index `i` on, folded over `acc`.
pub open spec fn sp_health_fold(items: Seq<JsonV>, i: int, acc: SiteHealth) -> Option<SiteHealth>
    decreases items.len() - i,
{
    if !(0 <= i && i < items.len()) {
        Some(acc)
    } else {
        match sp_health_apply(acc, items[i]) {
            None => None,
            Some(acc2) => sp_health_fold(items, i + 1, acc2),
        }
    }
}

/// All health flags clear.
pub open spec fn sp_health_zero() -> SiteHealth {
    SiteHealth { www: false, wan: false, lan: false, wlan: false, vpn: false }
}

/// One wire record as a site. `None`: a required field is missing or of
/// the wrong shape.
pub open spec fn sp_site_of(v: JsonV) -> Option<SiteV> {
    match (
        sp_req_str(v, "_id"@),
        sp_req_str(v, "name"@),
        sp_req_str(v, "desc"@),
        sp_req_u64(v, "num_new_alarms"@),
    ) {
        (Some(id), Some(name), Some(description), Some(alarms)) => match jv_get_arr(v, "health"@) {
            Some(items) => match sp_health_fold(items, 0, sp_health_zero()) {
                Some(health) => Some(SiteV { id, name, description, alarms, health }),
                None => None,
            },
            None => None,
        },
        _ => None,
    }
}

/// The array behind `key`, required.
pub open spec fn jv_get_arr(v: JsonV, key: Seq<char>) -> Option<Seq<JsonV>> {
    crate::json::sp_get_arr(v, key)
}

/// The wire records from index `k` on, each as a site.
pub open spec fn sp_sites_map(items: Seq<JsonV>, k: int) -> Option<Seq<SiteV>>
    decreases items.len() - k,
{
    if !(0 <= k && k < items.len()) {
        Some(Seq::empty())
    } else {
        match sp_site_of(items[k]) {
            None => None,
            Some(s) => match sp_sites_map(items, k + 1) {
                None => None,
                Some(rest) => Some(seq![s] + rest),
            },
        }
    }
}

/// The full decode of a site listing response: envelope, then an array
/// of records, then each record.
pub open spec fn sp_sites_decode(status: u16, body: Seq<char>) -> Result<Seq<SiteV>, ErrV> {
    match sp_decode_v1(status, body) {
        Err(e) => Err(e),
        Ok(d) => match d {
            JsonV::Arr(items) => match sp_sites_map(items, 0) {
                None => Err(ErrV::Network),
                Some(ss) => Ok(ss),
            },
            _ => Err(ErrV::Network),
        },
    }
}

/// Whether a site matches a selector: exact, case-sensitive equality on
/// the selected attribute.
pub open spec fn sp_site_matches(s: SiteV, sel: SiteRefV) -> bool {
    match sel {
        SiteRefV::Id(x) => s.id == x,
        SiteRefV::Name(x) => s.name == x,
        SiteRefV::Description(x) => s.description == x,
    }
}

/// The first site matching the selector, if any.
pub open spec fn sp_find_site(ss: Seq<SiteV>, sel: SiteRefV) -> Option<SiteV>
    decreases ss.len(),
{
    if ss.len() == 0 {
        None
    } else if sp_site_matches(ss[0], sel) {
        Some(ss[0])
    } else {
        sp_find_site(ss.drop_first(), sel)
    }
}

/// Describes the site listing request.
pub fn sites_request(session: &Unified) -> (r: RequestParts)
    ensures
        r.method == Method::Get,
        r.url@ == session.url_chars("/api/stat/sites"@),
        r.cookie@ == session.token@,
        session.is_udm_pro ==> (r.csrf matches Some(c) && c@ == session.csrf@),
        !session.is_udm_pro ==> r.csrf is None,
        r.tls_verify == session.tls_verify,
        r.body is None,
{
    session.request_parts(Method::Get, "/api/stat/sites")
}

/// Extracts one site from a wire record.
#[verifier::loop_isolation(false)]
fn site_of_json(v: &Json) -> (r: Option<Site>)
    ensures
        match sp_site_of(v@) {
            None => r is None,
            Some(sv) => r matches Some(s) && s@ == sv,
        },
{
    let id = match v.req_str("_id") {
        Some(x) => x,
        None => {
            return None;
        },
    };
    let name = match v.req_str("name") {
        Some(x) => x,
        None => {
            return None;
        },
    };
    let description = match v.req_str("desc") {
        Some(x) => x,
        None => {
            return None;
        },
    };
    let alarms = match v.req_u64("num_new_alarms") {
        Some(x) => x,
        None => {
            return None;
        },
    };
    let items = match v.get_arr("health") {
        Some(x) => x,
        None => {
            return None;
        },
    };
    let ghost iv = json_seq_view(items@);
    proof {
        lemma_json_seq_view(items@);
    }
    let mut health = SiteHealth { www: false, wan: false, lan: false, wlan: false, vpn: false };
    let n = items.len();
    let mut k: usize = 0;
    while k < n
        invariant
            k <= n == items@.len(),
            iv == json_seq_view(items@),
            iv.len() == n,
            forall|i: int| 0 <= i < n ==> iv[i] == #[trigger] items@[i]@,
            sp_health_fold(iv, 0, sp_health_zero()) == sp_health_fold(iv, k as int, health),
        decreases n - k,
    {
        let ghost h0 = health;
        let item = &items[k];
        let sub = match item.req_str("subsystem") {
            Some(x) => x,
            None => {
                proof {
                    assert(sp_health_apply(health, iv[k as int]) is None);
                    assert(sp_health_fold(iv, k as int, health) is None);
                }
                return None;
            },
        };
        let st = match item.req_str("status") {
            Some(x) => x,
            None => {
                proof {
                    assert(sp_health_apply(health, iv[k as int]) is None);
                    assert(sp_health_fold(iv, k as int, health) is None);
                }
                return None;
            },
        };
        let ok = crate::text::str_eq(st.as_str(), "ok");
        if crate::text::str_eq(sub.as_str(), "www") {
            health = SiteHealth { www: ok, ..health };
        } else if crate::text::str_eq(sub.as_str(), "wan") {
            health = SiteHealth { wan: ok, ..health };
        } else if crate::text::str_eq(sub.as_str(), "lan") {
            health = SiteHealth { lan: ok, ..health };
        } else if crate::text::str_eq(sub.as_str(), "wlan") {
            health = SiteHealth { wlan: ok, ..health };
        } else if crate::text::str_eq(sub.as_str(), "vpn") {
            health = SiteHealth { vpn: ok, ..health };
        }
        proof {
            assert(sp_health_apply(h0, iv[k as int]) == Some(health));
            assert(sp_health_fold(iv, k as int, h0) == sp_health_fold(iv, k as int + 1, health));
        }
        k = k + 1;
    }
    Some(Site { id, name, description, alarms, health })
}

/// Decodes a site listing response, exactly as [`sp_sites_decode`]
/// states.
#[verifier::loop_isolation(false)]
pub fn sites_decode(status: u16, body: &str) -> (r: Result<Vec<Site>, UnifiedError>)
    ensures
        match sp_sites_decode(status, body@) {
            Ok(svs) => r matches Ok(v) && sites_view(v@) == svs,
            Err(e) => r matches Err(x) && x@ == e,
        },
{
    let data = match crate::http::decode_v1(status, body) {
        Ok(d) => d,
        Err(e) => {
            return Err(e);
        },
    };
    let items = match &data {
        Json::Arr(items) => items,
        _ => {
            return Err(UnifiedError::NetworkError);
        },
    };
    let ghost iv = json_seq_view(items@);
    proof {
        lemma_json_seq_view(items@);
    }
    let mut out: Vec<Site> = Vec::new();
    let n = items.len();
    let mut k: usize = 0;
    while k < n
        invariant
            k <= n,
            out@.len() == k,
            sp_sites_map(iv, 0) == (match sp_sites_map(iv, k as int) {
                None => None::<Seq<SiteV>>,
                Some(rest) => Some(sites_view(out@) + rest),
            }),
        decreases n - k,
    {
        let ghost pre = out@;
        match site_of_json(&items[k]) {
            Some(s) => {
                out.push(s);
                proof {
                    assert(sites_view(out@) =~= sites_view(pre) + seq![out@[k as int]@]);
                    if sp_sites_map(iv, k as int + 1) is Some {
                        let rest = sp_sites_map(iv, k as int + 1)->Some_0;
                        assert(sites_view(pre) + (seq![out@[k as int]@] + rest) =~= sites_view(
                            out@,
                        ) + rest);
                    }
                }
            },
            None => {
                return Err(UnifiedError::NetworkError);
            },
        }
        k = k + 1;
    }
    proof {
        assert(sites_view(out@) + Seq::<SiteV>::empty() =~= sites_view(out@));
    }
    Ok(out)
}

/// Returns the first site matching the selector, out of a listing.
#[verifier::loop_isolation(false)]
pub fn find_site(mut list: Vec<Site>, sel: &SiteRef) -> (r: Option<Site>)
    ensures
        match sp_find_site(sites_view(list@), sel@) {
            None => r is None,
            Some(sv) => r matches Some(s) && s@ == sv,
        },
{
    let ghost lv = sites_view(list@);
    proof {
        assert(lv.subrange(0, lv.len() as int) =~= lv);
    }
    let n = list.len();
    let mut k: usize = 0;
    while k < n
        invariant
            k <= n == list@.len(),
            list@.len() == lv.len(),
            forall|i: int| 0 <= i < n ==> lv[i] == #[trigger] list@[i]@,
            sp_find_site(lv, sel@) == sp_find_site(lv.subrange(k as int, n as int), sel@),
        decreases n - k,
    {
        let ghost suffix = lv.subrange(k as int, n as int);
        proof {
            assert(suffix[0] == lv[k as int]);
            assert(suffix.drop_first() =~= lv.subrange(k as int + 1, n as int));
        }
        let site = &list[k];
        proof {
            assert(list@[k as int]@ == lv[k as int]);
        }
        let hit = match sel {
            SiteRef::Id(x) => {
                let b = crate::text::str_eq(site.id.as_str(), x);
                proof {
                    assert(b == sp_site_matches(lv[k as int], sel@));
                }
                b
            },
            SiteRef::Name(x) => {
                let b = crate::text::str_eq(site.name.as_str(), x);
                proof {
                    assert(b == sp_site_matches(lv[k as int], sel@));
                }
                b
            },
            SiteRef::Description(x) => {
                let b = crate::text::str_eq(site.description.as_str(), x);
                proof {
                    assert(b == sp_site_matches(lv[k as int], sel@));
                }
                b
            },
        };
        if hit {
            proof {
                assert(sp_site_matches(suffix[0], sel@));
                assert(sp_find_site(suffix, sel@) == Some(suffix[0]));
            }
            return Some(list.swap_remove(k));
        }
        proof {
            assert(!sp_site_matches(suffix[0], sel@));
        }
        k = k + 1;
    }
    proof {
        assert(lv.subrange(n as int, n as int) =~= Seq::<SiteV>::empty());
    }
    None
}

} // verus!
