//! Wireless networks and access-point groups.

use vstd::prelude::*;

verus! {

use crate::clients::opt_str_view;
use crate::error::{ErrV, UnifiedError};
use crate::http::{Method, RequestParts, sp_decode_v1, sp_decode_v2, strings_view};
use crate::json::{Json, JsonV, json_entry_seq_view, json_seq_view, lemma_json_seq_view,
    sp_digits_of, sp_ser};
use crate::unified::Unified;
use crate::wire::{sp_def_bool, sp_opt_str, sp_parse_u16, sp_req_bool, sp_req_str, sp_req_str_arr};

/// Representation of the attribute used to select a wireless network.
pub enum WirelessNetworkRef<'r> {
    /// Select the wireless network by its internal ID.
    Id(&'r str),
    /// Select the wireless network by its SSID.
    Ssid(&'r str),
}

/// Model of a [`WirelessNetworkRef`].
pub enum WirelessNetworkRefV {
    Id(Seq<char>),
    Ssid(Seq<char>),
}

impl<'r> View for WirelessNetworkRef<'r> {
    type V = WirelessNetworkRefV;

    open spec fn view(&self) -> WirelessNetworkRefV {
        match self {
            WirelessNetworkRef::Id(x) => WirelessNetworkRefV::Id(x@),
            WirelessNetworkRef::Ssid(x) => WirelessNetworkRefV::Ssid(x@),
        }
    }
}

/// Wireless band a network is broadcast on.
#[derive(Clone, Copy, Debug, PartialEq, Eq, Structural)]
pub enum WirelessBand {
    /// No band; never sent.
    Invalid,
    Band2G,
    Band5G,
    Both,
}

/// The wire name of a band.
pub open spec fn band_chars(b: WirelessBand) -> Seq<char> {
    match b {
        WirelessBand::Invalid => "invalid"@,
        WirelessBand::Band2G => "2g"@,
        WirelessBand::Band5G => "5g"@,
        WirelessBand::Both => "both"@,
    }
}

/// The band a wire name names; anything unknown is
/// [`WirelessBand::Invalid`].
pub open spec fn sp_band_of(s: Seq<char>) -> WirelessBand {
    if s == "2g"@ {
        WirelessBand::Band2G
    } else if s == "5g"@ {
        WirelessBand::Band5G
    } else if s == "both"@ {
        WirelessBand::Both
    } else {
        WirelessBand::Invalid
    }
}

impl WirelessBand {
    /// The band a wire name names.
    pub fn from_str(s: &str) -> (r: WirelessBand)
        ensures
            r == sp_band_of(s@),
    {
        if crate::text::str_eq(s, "2g") {
            WirelessBand::Band2G
        } else if crate::text::str_eq(s, "5g") {
            WirelessBand::Band5G
        } else if crate::text::str_eq(s, "both") {
            WirelessBand::Both
        } else {
            WirelessBand::Invalid
        }
    }

    /// The band's wire name.
    pub fn label(&self) -> (r: &'static str)
        ensures
            r@ == band_chars(*self),
    {
        match self {
            WirelessBand::Invalid => "invalid",
            WirelessBand::Band2G => "2g",
            WirelessBand::Band5G => "5g",
            WirelessBand::Both => "both",
        }
    }
}

/// Security type of a wireless network.
#[derive(Clone, Copy, Debug, PartialEq, Eq, Structural)]
pub enum WirelessNetworkSecurity {
    /// No security type; rejected by the builder.
    Invalid,
    Open,
    Wep,
    Wpa2,
    WpaEap,
}

/// The wire name of a security type.
pub open spec fn security_chars(s: WirelessNetworkSecurity) -> Seq<char> {
    match s {
        WirelessNetworkSecurity::Invalid => "invalid"@,
        WirelessNetworkSecurity::Open => "open"@,
        WirelessNetworkSecurity::Wep => "wep"@,
        WirelessNetworkSecurity::Wpa2 => "wpapsk"@,
        WirelessNetworkSecurity::WpaEap => "wpaeap"@,
    }
}

/// The security type a wire name names; anything unknown is
/// [`WirelessNetworkSecurity::Invalid`].
pub open spec fn sp_security_of(s: Seq<char>) -> WirelessNetworkSecurity {
    if s == "open"@ {
        WirelessNetworkSecurity::Open
    } else if s == "wep"@ {
        WirelessNetworkSecurity::Wep
    } else if s == "wpapsk"@ {
        WirelessNetworkSecurity::Wpa2
    } else if s == "wpaeap"@ {
        WirelessNetworkSecurity::WpaEap
    } else {
        WirelessNetworkSecurity::Invalid
    }
}

impl WirelessNetworkSecurity {
    /// The security type a wire name names.
    pub fn from_str(s: &str) -> (r: WirelessNetworkSecurity)
        ensures
            r == sp_security_of(s@),
    {
        if crate::text::str_eq(s, "open") {
            WirelessNetworkSecurity::Open
        } else if crate::text::str_eq(s, "wep") {
            WirelessNetworkSecurity::Wep
        } else if crate::text::str_eq(s, "wpapsk") {
            WirelessNetworkSecurity::Wpa2
        } else if crate::text::str_eq(s, "wpaeap") {
            WirelessNetworkSecurity::WpaEap
        } else {
            WirelessNetworkSecurity::Invalid
        }
    }

    /// The security type's wire name.
    pub fn label(&self) -> (r: &'static str)
        ensures
            r@ == security_chars(*self),
    {
        match self {
            WirelessNetworkSecurity::Invalid => "invalid",
            WirelessNetworkSecurity::Open => "open",
            WirelessNetworkSecurity::Wep => "wep",
            WirelessNetworkSecurity::Wpa2 => "wpapsk",
            WirelessNetworkSecurity::WpaEap => "wpaeap",
        }
    }
}

/// WPA versions.
#[derive(Clone, Copy, Debug, PartialEq, Eq, Structural)]
pub enum WirelessNetworkWpaMode {
    /// No mode; produced for an absent or unknown wire value.
    Invalid,
    /// WPA version 1.
    Wpa1,
    /// WPA version 2.
    Wpa2,
    /// WPA version 1 and 2.
    Both,
}

/// The wire name of a WPA mode.
pub open spec fn wpa_mode_chars(m: WirelessNetworkWpaMode) -> Seq<char> {
    match m {
        WirelessNetworkWpaMode::Invalid => "invalid"@,
        WirelessNetworkWpaMode::Wpa1 => "wpa1"@,
        WirelessNetworkWpaMode::Wpa2 => "wpa2"@,
        WirelessNetworkWpaMode::Both => "both"@,
    }
}

/// The WPA mode a wire name names; anything unknown is
/// [`WirelessNetworkWpaMode::Invalid`].
pub open spec fn sp_wpa_mode_of(s: Seq<char>) -> WirelessNetworkWpaMode {
    if s == "wpa1"@ {
        WirelessNetworkWpaMode::Wpa1
    } else if s == "wpa2"@ {
        WirelessNetworkWpaMode::Wpa2
    } else if s == "both"@ {
        WirelessNetworkWpaMode::Both
    } else {
        WirelessNetworkWpaMode::Invalid
    }
}

impl WirelessNetworkWpaMode {
    /// The WPA mode a wire name names.
    pub fn from_str(s: &str) -> (r: WirelessNetworkWpaMode)
        ensures
            r == sp_wpa_mode_of(s@),
    {
        if crate::text::str_eq(s, "wpa1") {
            WirelessNetworkWpaMode::Wpa1
        } else if crate::text::str_eq(s, "wpa2") {
            WirelessNetworkWpaMode::Wpa2
        } else if crate::text::str_eq(s, "both") {
            WirelessNetworkWpaMode::Both
        } else {
            WirelessNetworkWpaMode::Invalid
        }
    }

    /// The WPA mode's wire name.
    pub fn label(&self) -> (r: &'static str)
        ensures
            r@ == wpa_mode_chars(*self),
    {
        match self {
            WirelessNetworkWpaMode::Invalid => "invalid",
            WirelessNetworkWpaMode::Wpa1 => "wpa1",
            WirelessNetworkWpaMode::Wpa2 => "wpa2",
            WirelessNetworkWpaMode::Both => "both",
        }
    }
}

/// The WPA security settings for a wireless network.
pub struct WirelessNetworkWpa {
    /// Supported WPA versions.
    pub mode: WirelessNetworkWpaMode,
    /// Encryption method (only `ccmp` is supported as of now).
    pub encryption: String,
}

/// Model of a [`WirelessNetworkWpa`].
pub struct WirelessNetworkWpaV {
    pub mode: WirelessNetworkWpaMode,
    pub encryption: Seq<char>,
}

impl View for WirelessNetworkWpa {
    type V = WirelessNetworkWpaV;

    open spec fn view(&self) -> WirelessNetworkWpaV {
        WirelessNetworkWpaV { mode: self.mode, encryption: self.encryption@ }
    }
}

/// A configured wireless network.
pub struct WirelessNetwork {
    /// Site the wireless network belongs to.
    pub site: String,
    /// Internal ID.
    pub id: String,
    /// SSID for the wireless network.
    pub name: String,
    /// Is this network enabled?
    pub enabled: bool,
    /// Logical network traffic from this wireless network is put on.
    pub network: Option<String>,
    /// Access-point groups this wireless network is broadcast on.
    pub ap_groups: Vec<String>,
    /// Wireless band this network is broadcast on.
    pub band: Option<WirelessBand>,
    /// Should this SSID be advertised?
    pub advertised: bool,
    /// Security type for the wireless network.
    pub security: WirelessNetworkSecurity,
    /// Security configuration for WPA.
    pub wpa: Option<WirelessNetworkWpa>,
    /// Passphrase, if applicable.
    pub passphrase: Option<String>,
    /// VLAN ID traffic on this wireless network is tagged with.
    pub vlan: Option<u16>,
    /// RADIUS profile to use in case of 802.1x.
    pub radius_profile: Option<String>,
}

/// Model of a [`WirelessNetwork`].
pub struct WirelessNetworkV {
    pub site: Seq<char>,
    pub id: Seq<char>,
    pub name: Seq<char>,
    pub enabled: bool,
    pub network: Option<Seq<char>>,
    pub ap_groups: Seq<Seq<char>>,
    pub band: Option<WirelessBand>,
    pub advertised: bool,
    pub security: WirelessNetworkSecurity,
    pub wpa: Option<WirelessNetworkWpaV>,
    pub passphrase: Option<Seq<char>>,
    pub vlan: Option<int>,
    pub radius_profile: Option<Seq<char>>,
}

impl View for WirelessNetwork {
    type V = WirelessNetworkV;

    open spec fn view(&self) -> WirelessNetworkV {
        WirelessNetworkV {
            site: self.site@,
            id: self.id@,
            name: self.name@,
            enabled: self.enabled,
            network: opt_str_view(self.network),
            ap_groups: strings_view(self.ap_groups@),
            band: self.band,
            advertised: self.advertised,
            security: self.security,
            wpa: match self.wpa {
                Some(w) => Some(w@),
                None => None,
            },
            passphrase: opt_str_view(self.passphrase),
            vlan: match self.vlan {
                Some(n) => Some(n as int),
                None => None,
            },
            radius_profile: opt_str_view(self.radius_profile),
        }
    }
}

/// The views of a vector of wireless networks.
pub open spec fn wlans_view(v: Seq<WirelessNetwork>) -> Seq<WirelessNetworkV> {
    Seq::new(v.len(), |i: int| v[i]@)
}

/// One wire record as a wireless network. WPA settings exist exactly
/// for the WPA security types; the passphrase is hidden for 802.1x.
pub open spec fn sp_wlan_of(v: JsonV, site: Seq<char>) -> Result<WirelessNetworkV, ErrV> {
    match (
        sp_req_str(v, "_id"@),
        sp_req_str(v, "name"@),
        sp_req_bool(v, "enabled"@),
        sp_req_str(v, "security"@),
        sp_req_str_arr(v, "ap_group_ids"@),
    ) {
        (Some(id), Some(name), Some(enabled), Some(security), Some(ap_groups)) => match (
            sp_opt_str(v, "networkconf_id"@),
            sp_opt_str(v, "wlan_band"@),
            sp_opt_str(v, "wpa_mode"@),
            sp_opt_str(v, "wpa_enc"@),
            sp_opt_str(v, "x_passphrase"@),
        ) {
            (Some(network), Some(band), Some(wpa_mode), Some(wpa_enc), Some(passphrase)) => match (
                crate::networks::sp_vlan_field(v, "vlan"@),
                sp_def_bool(v, "hide_ssid"@, false),
                sp_opt_str(v, "radiusprofile_id"@),
            ) {
                (Some(vlan), Some(hide), Some(radius_profile)) => Ok(
                    WirelessNetworkV {
                        site,
                        id,
                        name,
                        enabled,
                        network,
                        ap_groups,
                        band: match band {
                            Some(b) => Some(sp_band_of(b)),
                            None => None,
                        },
                        advertised: !hide,
                        security: sp_security_of(security),
                        wpa: if security == "wpapsk"@ || security == "wpaeap"@ {
                            Some(
                                WirelessNetworkWpaV {
                                    mode: match wpa_mode {
                                        Some(m) => sp_wpa_mode_of(m),
                                        None => WirelessNetworkWpaMode::Invalid,
                                    },
                                    encryption: match wpa_enc {
                                        Some(e) => e,
                                        None => Seq::empty(),
                                    },
                                },
                            )
                        } else {
                            None
                        },
                        passphrase: if security == "wpaeap"@ {
                            None
                        } else {
                            passphrase
                        },
                        vlan,
                        radius_profile,
                    },
                ),
                _ => Err(ErrV::Network),
            },
            _ => Err(ErrV::Network),
        },
        _ => Err(ErrV::Network),
    }
}

/// The wire records from index `k` on, each as a wireless network.
pub open spec fn sp_wlans_map(items: Seq<JsonV>, site: Seq<char>, k: int) -> Result<
    Seq<WirelessNetworkV>,
    ErrV,
>
    decreases items.len() - k,
{
    if !(0 <= k && k < items.len()) {
        Ok(Seq::empty())
    } else {
        match sp_wlan_of(items[k], site) {
            Err(e) => Err(e),
            Ok(w) => match sp_wlans_map(items, site, k + 1) {
                Err(e) => Err(e),
                Ok(rest) => Ok(seq![w] + rest),
            },
        }
    }
}

/// The full decode of a wireless-network listing response.
pub open spec fn sp_wlans_decode(status: u16, body: Seq<char>, site: Seq<char>) -> Result<
    Seq<WirelessNetworkV>,
    ErrV,
> {
    match sp_decode_v1(status, body) {
        Err(e) => Err(e),
        Ok(d) => match d {
            JsonV::Arr(items) => sp_wlans_map(items, site, 0),
            _ => Err(ErrV::Network),
        },
    }
}

/// Whether a wireless network matches a selector.
pub open spec fn sp_wlan_matches(w: WirelessNetworkV, sel: WirelessNetworkRefV) -> bool {
    match sel {
        WirelessNetworkRefV::Id(x) => w.id == x,
        WirelessNetworkRefV::Ssid(x) => w.name == x,
    }
}

/// The first wireless network matching the selector, if any.
pub open spec fn sp_find_wlan(ws: Seq<WirelessNetworkV>, sel: WirelessNetworkRefV) -> Option<
    WirelessNetworkV,
>
    decreases ws.len(),
{
    if ws.len() == 0 {
        None
    } else if sp_wlan_matches(ws[0], sel) {
        Some(ws[0])
    } else {
        sp_find_wlan(ws.drop_first(), sel)
    }
}

/// Describes the wireless-network listing request for a site.
pub fn wireless_networks_request(session: &Unified, site: &str) -> (r: RequestParts)
    ensures
        r.method == Method::Get,
        r.url@ == session.url_chars("/api/s/"@ + site@ + "/rest/wlanconf"@),
        r.cookie@ == session.token@,
        session.is_udm_pro ==> (r.csrf matches Some(c) && c@ == session.csrf@),
        !session.is_udm_pro ==> r.csrf is None,
        r.tls_verify == session.tls_verify,
        r.body is None,
{
    let p = crate::http::site_path(site, "/rest/wlanconf");
    session.request_parts(Method::Get, p.as_str())
}

/// Extracts one wireless network from a wire record.
fn wlan_of_json(v: &Json, site: &str) -> (r: Result<WirelessNetwork, UnifiedError>)
    ensures
        match sp_wlan_of(v@, site@) {
            Err(e) => r matches Err(x) && x@ == e,
            Ok(wv) => r matches Ok(w) && w@ == wv,
        },
{
    let id = match v.req_str("_id") {
        Some(x) => x,
        None => {
            return Err(UnifiedError::NetworkError);
        },
    };
    let name = match v.req_str("name") {
        Some(x) => x,
        None => {
            return Err(UnifiedError::NetworkError);
        },
    };
    let enabled = match v.req_bool("enabled") {
        Some(x) => x,
        None => {
            return Err(UnifiedError::NetworkError);
        },
    };
    let security_s = match v.req_str("security") {
        Some(x) => x,
        None => {
            return Err(UnifiedError::NetworkError);
        },
    };
    let ap_groups = match v.req_str_arr("ap_group_ids") {
        Some(x) => x,
        None => {
            return Err(UnifiedError::NetworkError);
        },
    };
    let network = match v.opt_str("networkconf_id") {
        Some(x) => x,
        None => {
            return Err(UnifiedError::NetworkError);
        },
    };
    let band_s = match v.opt_str("wlan_band") {
        Some(x) => x,
        None => {
            return Err(UnifiedError::NetworkError);
        },
    };
    let wpa_mode_s = match v.opt_str("wpa_mode") {
        Some(x) => x,
        None => {
            return Err(UnifiedError::NetworkError);
        },
    };
    let wpa_enc_s = match v.opt_str("wpa_enc") {
        Some(x) => x,
        None => {
            return Err(UnifiedError::NetworkError);
        },
    };
    let passphrase_s = match v.opt_str("x_passphrase") {
        Some(x) => x,
        None => {
            return Err(UnifiedError::NetworkError);
        },
    };
    let vlan_s = match v.opt_str("vlan") {
        Some(x) => x,
        None => {
            return Err(UnifiedError::NetworkError);
        },
    };
    let hide = match v.def_bool("hide_ssid", false) {
        Some(x) => x,
        None => {
            return Err(UnifiedError::NetworkError);
        },
    };
    let radius_profile = match v.opt_str("radiusprofile_id") {
        Some(x) => x,
        None => {
            return Err(UnifiedError::NetworkError);
        },
    };
    let vlan = match &vlan_s {
        Some(s) => crate::wire::parse_u16(s.as_str()),
        None => None,
    };
    let is_wpa = crate::text::str_eq(security_s.as_str(), "wpapsk") || crate::text::str_eq(
        security_s.as_str(),
        "wpaeap",
    );
    let wpa = if is_wpa {
        Some(
            WirelessNetworkWpa {
                mode: match &wpa_mode_s {
                    Some(m) => WirelessNetworkWpaMode::from_str(m.as_str()),
                    None => WirelessNetworkWpaMode::Invalid,
                },
                encryption: match wpa_enc_s {
                    Some(e) => e,
                    None => String::new(),
                },
            },
        )
    } else {
        None
    };
    let passphrase = if crate::text::str_eq(security_s.as_str(), "wpaeap") {
        None
    } else {
        passphrase_s
    };
    Ok(
        WirelessNetwork {
            site: site.to_owned(),
            id,
            name,
            enabled,
            network,
            ap_groups,
            band: match &band_s {
                Some(b) => Some(WirelessBand::from_str(b.as_str())),
                None => None,
            },
            advertised: !hide,
            security: WirelessNetworkSecurity::from_str(security_s.as_str()),
            wpa,
            passphrase,
            vlan,
            radius_profile,
        },
    )
}

/// Decodes a wireless-network listing response, exactly as
/// [`sp_wlans_decode`] states.
#[verifier::loop_isolation(false)]
pub fn wireless_networks_decode(status: u16, body: &str, site: &str) -> (r: Result<
    Vec<WirelessNetwork>,
    UnifiedError,
>)
    ensures
        match sp_wlans_decode(status, body@, site@) {
            Ok(wvs) => r matches Ok(v) && wlans_view(v@) == wvs,
            Err(e) => r matches Err(x) && x@ == e,
        },
{
    let data = match crate::http::decode_v1(status, body) {
        Ok(d) => d,
        Err(e) => {
            return Err(e);
        },
    };
    let items = match &data {
        Json::Arr(items) => items,
        _ => {
            return Err(UnifiedError::NetworkError);
        },
    };
    let ghost iv = json_seq_view(items@);
    proof {
        lemma_json_seq_view(items@);
    }
    let mut out: Vec<WirelessNetwork> = Vec::new();
    let n = items.len();
    let mut k: usize = 0;
    while k < n
        invariant
            k <= n,
            out@.len() == k,
            sp_wlans_map(iv, site@, 0) == (match sp_wlans_map(iv, site@, k as int) {
                Err(e) => Err::<Seq<WirelessNetworkV>, ErrV>(e),
                Ok(rest) => Ok(wlans_view(out@) + rest),
            }),
        decreases n - k,
    {
        let ghost pre = out@;
        match wlan_of_json(&items[k], site) {
            Ok(w) => {
                out.push(w);
                proof {
                    assert(wlans_view(out@) =~= wlans_view(pre) + seq![out@[k as int]@]);
                    if sp_wlans_map(iv, site@, k as int + 1) is Ok {
                        let rest = sp_wlans_map(iv, site@, k as int + 1)->Ok_0;
                        assert(wlans_view(pre) + (seq![out@[k as int]@] + rest) =~= wlans_view(
                            out@,
                        ) + rest);
                    }
                }
            },
            Err(e) => {
                return Err(e);
            },
        }
        k = k + 1;
    }
    proof {
        assert(wlans_view(out@) + Seq::<WirelessNetworkV>::empty() =~= wlans_view(out@));
    }
    Ok(out)
}

/// Returns the first wireless network matching the selector, out of a
/// listing.
#[verifier::loop_isolation(false)]
pub fn find_wireless_network(mut list: Vec<WirelessNetwork>, sel: &WirelessNetworkRef) -> (r:
    Option<WirelessNetwork>)
    ensures
        match sp_find_wlan(wlans_view(list@), sel@) {
            None => r is None,
            Some(wv) => r matches Some(w) && w@ == wv,
        },
{
    let ghost lv = wlans_view(list@);
    proof {
        assert(lv.subrange(0, lv.len() as int) =~= lv);
    }
    let n = list.len();
    let mut k: usize = 0;
    while k < n
        invariant
            k <= n == list@.len(),
            list@.len() == lv.len(),
            forall|i: int| 0 <= i < n ==> lv[i] == #[trigger] list@[i]@,
            sp_find_wlan(lv, sel@) == sp_find_wlan(lv.subrange(k as int, n as int), sel@),
        decreases n - k,
    {
        let ghost suffix = lv.subrange(k as int, n as int);
        proof {
            assert(suffix[0] == lv[k as int]);
            assert(suffix.drop_first() =~= lv.subrange(k as int + 1, n as int));
            assert(list@[k as int]@ == lv[k as int]);
        }
        let w = &list[k];
        let hit = match sel {
            WirelessNetworkRef::Id(x) => {
                let b = crate::text::str_eq(w.id.as_str(), x);
                proof {
                    assert(b == sp_wlan_matches(lv[k as int], sel@));
                }
                b
            },
            WirelessNetworkRef::Ssid(x) => {
                let b = crate::text::str_eq(w.name.as_str(), x);
                proof {
                    assert(b == sp_wlan_matches(lv[k as int], sel@));
                }
                b
            },
        };
        if hit {
            proof {
                assert(sp_find_wlan(suffix, sel@) == Some(suffix[0]));
            }
            return Some(list.swap_remove(k));
        }
        proof {
            assert(!sp_wlan_matches(suffix[0], sel@));
        }
        k = k + 1;
    }
    proof {
        assert(lv.subrange(n as int, n as int) =~= Seq::<WirelessNetworkV>::empty());
    }
    None
}

// ------------------------------------------------------------------
// Wire representation, mutation requests, builder.
// ------------------------------------------------------------------

/// A JSON array of strings.
pub open spec fn strs_arr_v(ss: Seq<Seq<char>>) -> JsonV {
    JsonV::Arr(Seq::new(ss.len(), |i: int| JsonV::Str(ss[i])))
}

/// Builds a JSON array of strings.
#[verifier::loop_isolation(false)]
fn strings_to_json(v: &Vec<String>) -> (r: Json)
    ensures
        r@ == strs_arr_v(strings_view(v@)),
{
    let mut items: Vec<Json> = Vec::new();
    let n = v.len();
    let mut k: usize = 0;
    while k < n
        invariant
            k <= n,
            items@.len() == k,
            forall|i: int| 0 <= i < k ==> #[trigger] json_seq_view(items@)[i] == JsonV::Str(
                v@[i]@,
            ),
            json_seq_view(items@).len() == k,
        decreases n - k,
    {
        let ghost pre = items@;
        items.push(Json::Str(v[k].clone()));
        proof {
            lemma_json_seq_view(items@);
            assert forall|i: int|
                0 <= i < k + 1 implies #[trigger] json_seq_view(items@)[i] == JsonV::Str(
                v@[i]@,
            ) by {
                assert(json_seq_view(items@)[i] == items@[i]@);
                if i < k {
                    assert(items@[i] == pre[i]);
                    lemma_json_seq_view(pre);
                    assert(json_seq_view(pre)[i] == pre[i]@);
                }
            }
        }
        k = k + 1;
    }
    let ghost itv = items@;
    let r = Json::Arr(items);
    proof {
        lemma_json_seq_view(itv);
        assert(json_seq_view(itv) =~= strs_arr_v(strings_view(v@))->Arr_0);
    }
    r
}

/// The wire object sent when creating or updating a wireless network.
pub open spec fn sp_wlan_wire(w: WirelessNetworkV) -> JsonV {
    JsonV::Obj(
        seq![("name"@, JsonV::Str(w.name)), ("enabled"@, JsonV::Bool(w.enabled))]
            + crate::networks::seg_opt_str("networkconf_id"@, w.network) + seq![
            ("ap_group_ids"@, strs_arr_v(w.ap_groups)),
        ] + crate::networks::seg_opt_str(
            "wlan_band"@,
            match w.band {
                Some(b) => Some(band_chars(b)),
                None => None,
            },
        ) + seq![("security"@, JsonV::Str(security_chars(w.security)))]
            + crate::networks::seg_opt_str(
            "wpa_mode"@,
            match w.wpa {
                Some(wp) => Some(wpa_mode_chars(wp.mode)),
                None => None,
            },
        ) + crate::networks::seg_opt_str(
            "wpa_enc"@,
            match w.wpa {
                Some(wp) => Some(wp.encryption),
                None => None,
            },
        ) + crate::networks::seg_opt_str("x_passphrase"@, w.passphrase)
            + crate::networks::seg_opt_str(
            "vlan"@,
            match w.vlan {
                Some(x) => Some(sp_digits_of(x)),
                None => None,
            },
        ) + seq![("hide_ssid"@, JsonV::Bool(!w.advertised))] + crate::networks::seg_opt_str(
            "radiusprofile_id"@,
            w.radius_profile,
        ),
    )
}

impl WirelessNetwork {
    /// Builds the wire object for a create or update request.
    pub fn to_wire(&self) -> (r: Json)
        ensures
            r@ == sp_wlan_wire(self@),
    {
        let ghost wv = self@;
        let ghost c0 = seq![("name"@, JsonV::Str(wv.name)), ("enabled"@, JsonV::Bool(wv.enabled))];
        let ghost c1 = c0 + crate::networks::seg_opt_str("networkconf_id"@, wv.network);
        let ghost c2 = c1 + seq![("ap_group_ids"@, strs_arr_v(wv.ap_groups))];
        let ghost c3 = c2 + crate::networks::seg_opt_str(
            "wlan_band"@,
            match wv.band {
                Some(b) => Some(band_chars(b)),
                None => None,
            },
        );
        let ghost c4 = c3 + seq![("security"@, JsonV::Str(security_chars(wv.security)))];
        let ghost c5 = c4 + crate::networks::seg_opt_str(
            "wpa_mode"@,
            match wv.wpa {
                Some(wp) => Some(wpa_mode_chars(wp.mode)),
                None => None,
            },
        );
        let ghost c6 = c5 + crate::networks::seg_opt_str(
            "wpa_enc"@,
            match wv.wpa {
                Some(wp) => Some(wp.encryption),
                None => None,
            },
        );
        let ghost c7 = c6 + crate::networks::seg_opt_str("x_passphrase"@, wv.passphrase);
        let ghost c8 = c7 + crate::networks::seg_opt_str(
            "vlan"@,
            match wv.vlan {
                Some(x) => Some(sp_digits_of(x)),
                None => None,
            },
        );
        let ghost c9 = c8 + seq![("hide_ssid"@, JsonV::Bool(!wv.advertised))];
        let ghost c10 = c9 + crate::networks::seg_opt_str("radiusprofile_id"@, wv.radius_profile);
        let mut entries: Vec<(String, Json)> = Vec::new();
        crate::json::push_entry(&mut entries, "name", Json::Str(self.name.clone()));
        crate::json::push_entry(&mut entries, "enabled", Json::Bool(self.enabled));
        proof {
            assert(json_entry_seq_view(entries@) =~= c0);
        }
        match &self.network {
            Some(x) => {
                crate::json::push_entry(&mut entries, "networkconf_id", Json::Str(x.clone()));
                proof {
                    assert(json_entry_seq_view(entries@) =~= c1);
                }
            },
            None => {
                proof {
                    assert(json_entry_seq_view(entries@) =~= c1);
                }
            },
        }
        crate::json::push_entry(&mut entries, "ap_group_ids", strings_to_json(&self.ap_groups));
        proof {
            assert(json_entry_seq_view(entries@) =~= c2);
        }
        match self.band {
            Some(b) => {
                crate::json::push_entry(&mut entries, "wlan_band", Json::Str(b.label().to_owned()));
                proof {
                    assert(json_entry_seq_view(entries@) =~= c3);
                }
            },
            None => {
                proof {
                    assert(json_entry_seq_view(entries@) =~= c3);
                }
            },
        }
        crate::json::push_entry(
            &mut entries,
            "security",
            Json::Str(self.security.label().to_owned()),
        );
        proof {
            assert(json_entry_seq_view(entries@) =~= c4);
        }
        match &self.wpa {
            Some(wp) => {
                crate::json::push_entry(&mut entries, "wpa_mode", Json::Str(wp.mode.label().to_owned()));
                proof {
                    assert(json_entry_seq_view(entries@) =~= c5);
                }
                crate::json::push_entry(&mut entries, "wpa_enc", Json::Str(wp.encryption.clone()));
                proof {
                    assert(json_entry_seq_view(entries@) =~= c6);
                }
            },
            None => {
                proof {
                    assert(json_entry_seq_view(entries@) =~= c6);
                }
            },
        }
        match &self.passphrase {
            Some(p) => {
                crate::json::push_entry(&mut entries, "x_passphrase", Json::Str(p.clone()));
                proof {
                    assert(json_entry_seq_view(entries@) =~= c7);
                }
            },
            None => {
                proof {
                    assert(json_entry_seq_view(entries@) =~= c7);
                }
            },
        }
        match self.vlan {
            Some(x) => {
                crate::json::push_entry(
                    &mut entries,
                    "vlan",
                    Json::Str(crate::json::num_text(x as u64)),
                );
                proof {
                    assert(json_entry_seq_view(entries@) =~= c8);
                }
            },
            None => {
                proof {
                    assert(json_entry_seq_view(entries@) =~= c8);
                }
            },
        }
        crate::json::push_entry(&mut entries, "hide_ssid", Json::Bool(!self.advertised));
        proof {
            assert(json_entry_seq_view(entries@) =~= c9);
        }
        match &self.radius_profile {
            Some(p) => {
                crate::json::push_entry(&mut entries, "radiusprofile_id", Json::Str(p.clone()));
                proof {
                    assert(json_entry_seq_view(entries@) =~= c10);
                }
            },
            None => {
                proof {
                    assert(json_entry_seq_view(entries@) =~= c10);
                }
            },
        }
        let ghost ev = entries@;
        let r = Json::Obj(entries);
        proof {
            assert(json_entry_seq_view(ev) == c10);
            assert(sp_wlan_wire(wv)->Obj_0 =~= c10);
        }
        r
    }

    /// Describes the request that creates this wireless network.
    pub fn create_request(&self, session: &Unified) -> (r: RequestParts)
        ensures
            r.method == Method::Post,
            r.url@ == session.url_chars("/api/s/"@ + self.site@ + "/rest/wlanconf"@),
            r.body matches Some(b) && b@ == sp_ser(sp_wlan_wire(self@)),
            r.cookie@ == session.token@,
            r.tls_verify == session.tls_verify,
    {
        let p = crate::http::site_path(self.site.as_str(), "/rest/wlanconf");
        let body = self.to_wire();
        session.request_parts(Method::Post, p.as_str()).with_json(&body)
    }

    /// Describes the request that updates this wireless network.
    pub fn update_request(&self, session: &Unified) -> (r: RequestParts)
        ensures
            r.method == Method::Put,
            r.url@ == session.url_chars("/api/s/"@ + self.site@ + "/rest/wlanconf/"@ + self.id@),
            r.body matches Some(b) && b@ == sp_ser(sp_wlan_wire(self@)),
            r.cookie@ == session.token@,
            r.tls_verify == session.tls_verify,
    {
        let p = crate::http::site_item_path(
            self.site.as_str(),
            "/rest/wlanconf/",
            self.id.as_str(),
        );
        let body = self.to_wire();
        session.request_parts(Method::Put, p.as_str()).with_json(&body)
    }

    /// Describes the request that deletes this wireless network.
    pub fn delete_request(&self, session: &Unified) -> (r: RequestParts)
        ensures
            r.method == Method::Delete,
            r.url@ == session.url_chars("/api/s/"@ + self.site@ + "/rest/wlanconf/"@ + self.id@),
            r.body is None,
            r.cookie@ == session.token@,
            r.tls_verify == session.tls_verify,
    {
        let p = crate::http::site_item_path(
            self.site.as_str(),
            "/rest/wlanconf/",
            self.id.as_str(),
        );
        session.request_parts(Method::Delete, p.as_str())
    }

    /// The single-field patch body of a state change.
    pub open spec fn sp_state_body(state: bool) -> JsonV {
        JsonV::Obj(seq![("enabled"@, JsonV::Bool(state))])
    }

    /// Describes the minimal partial-update request that sets the
    /// enabled state, clobbering no other field.
    pub fn set_state_request(&self, session: &Unified, state: bool) -> (r: RequestParts)
        ensures
            r.method == Method::Put,
            r.url@ == session.url_chars("/api/s/"@ + self.site@ + "/rest/wlanconf/"@ + self.id@),
            r.body matches Some(b) && b@ == sp_ser(WirelessNetwork::sp_state_body(state)),
            r.cookie@ == session.token@,
            r.tls_verify == session.tls_verify,
    {
        let p = crate::http::site_item_path(
            self.site.as_str(),
            "/rest/wlanconf/",
            self.id.as_str(),
        );
        let mut entries: Vec<(String, Json)> = Vec::new();
        crate::json::push_entry(&mut entries, "enabled", Json::Bool(state));
        let ghost ev = entries@;
        let body = Json::Obj(entries);
        proof {
            assert(json_entry_seq_view(ev) =~= WirelessNetwork::sp_state_body(state)->Obj_0);
        }
        session.request_parts(Method::Put, p.as_str()).with_json(&body)
    }

    /// Describes the request that enables the wireless network.
    pub fn enable_request(&self, session: &Unified) -> (r: RequestParts)
        ensures
            r.method == Method::Put,
            r.body matches Some(b) && b@ == sp_ser(WirelessNetwork::sp_state_body(true)),
            r.url@ == session.url_chars("/api/s/"@ + self.site@ + "/rest/wlanconf/"@ + self.id@),
            r.cookie@ == session.token@,
            r.tls_verify == session.tls_verify,
    {
        self.set_state_request(session, true)
    }

    /// Describes the request that disables the wireless network.
    pub fn disable_request(&self, session: &Unified) -> (r: RequestParts)
        ensures
            r.method == Method::Put,
            r.body matches Some(b) && b@ == sp_ser(WirelessNetwork::sp_state_body(false)),
            r.url@ == session.url_chars("/api/s/"@ + self.site@ + "/rest/wlanconf/"@ + self.id@),
            r.cookie@ == session.token@,
            r.tls_verify == session.tls_verify,
    {
        self.set_state_request(session, false)
    }

    /// Creates a builder for a wireless network on a site.
    pub fn builder(site: &str, name: &str) -> (r: WirelessNetworkBuilder)
        ensures
            r.network.site@ == site@,
            r.network.name@ == name@,
            r.network.id@ == Seq::<char>::empty(),
            r.network.enabled,
            r.network.network is None,
            r.network.ap_groups@.len() == 0,
            r.network.band is None,
            r.network.advertised,
            r.network.security == WirelessNetworkSecurity::Invalid,
            r.network.wpa is None,
            r.network.passphrase is None,
            r.network.vlan is None,
            r.network.radius_profile is None,
    {
        WirelessNetworkBuilder {
            network: WirelessNetwork {
                site: site.to_owned(),
                id: String::new(),
                name: name.to_owned(),
                enabled: true,
                network: None,
                ap_groups: Vec::new(),
                band: None,
                advertised: true,
                security: WirelessNetworkSecurity::Invalid,
                wpa: None,
                passphrase: None,
                vlan: None,
                radius_profile: None,
            },
        }
    }
}

/// Builder used to configure a wireless network.
pub struct WirelessNetworkBuilder {
    pub network: WirelessNetwork,
}

impl WirelessNetworkBuilder {
    /// Set the state of the wireless network.
    pub fn enabled(self, enabled: bool) -> (r: WirelessNetworkBuilder)
        ensures
            r.network@ == (WirelessNetworkV { enabled, ..self.network@ }),
    {
        WirelessNetworkBuilder { network: WirelessNetwork { enabled, ..self.network } }
    }

    /// Configure the logical network this wireless network is attached
    /// to.
    pub fn network(self, network: &str) -> (r: WirelessNetworkBuilder)
        ensures
            r.network@ == (WirelessNetworkV { network: Some(network@), ..self.network@ }),
    {
        WirelessNetworkBuilder {
            network: WirelessNetwork { network: Some(network.to_owned()), ..self.network },
        }
    }

    /// Configure the wireless band this network is broadcast on.
    pub fn band(self, band: WirelessBand) -> (r: WirelessNetworkBuilder)
        ensures
            r.network@ == (WirelessNetworkV { band: Some(band), ..self.network@ }),
    {
        WirelessNetworkBuilder {
            network: WirelessNetwork { band: Some(band), ..self.network },
        }
    }

    /// Set the access-point groups this network is broadcast on.
    pub fn ap_groups(self, groups: Vec<String>) -> (r: WirelessNetworkBuilder)
        ensures
            r.network@ == (WirelessNetworkV {
                ap_groups: strings_view(groups@),
                ..self.network@
            }),
    {
        WirelessNetworkBuilder {
            network: WirelessNetwork { ap_groups: groups, ..self.network },
        }
    }

    /// Configure the type of security for this network.
    pub fn security(self, security: WirelessNetworkSecurity) -> (r: WirelessNetworkBuilder)
        ensures
            r.network@ == (WirelessNetworkV { security, ..self.network@ }),
    {
        WirelessNetworkBuilder { network: WirelessNetwork { security, ..self.network } }
    }

    /// Configure WPA security for this network, with the only supported
    /// encryption method.
    pub fn wpa(self, mode: WirelessNetworkWpaMode) -> (r: WirelessNetworkBuilder)
        ensures
            r.network@ == (WirelessNetworkV {
                wpa: Some(WirelessNetworkWpaV { mode, encryption: "ccmp"@ }),
                ..self.network@
            }),
    {
        WirelessNetworkBuilder {
            network: WirelessNetwork {
                wpa: Some(WirelessNetworkWpa { mode, encryption: "ccmp".to_owned() }),
                ..self.network
            },
        }
    }

    /// Set the passphrase (if applicable) for this network.
    pub fn passphrase(self, passphrase: &str) -> (r: WirelessNetworkBuilder)
        ensures
            r.network@ == (WirelessNetworkV {
                passphrase: Some(passphrase@),
                ..self.network@
            }),
    {
        WirelessNetworkBuilder {
            network: WirelessNetwork {
                passphrase: Some(passphrase.to_owned()),
                ..self.network
            },
        }
    }

    /// Set the VLAN ID for traffic on this network.
    pub fn vlan(self, vlan: u16) -> (r: WirelessNetworkBuilder)
        ensures
            r.network@ == (WirelessNetworkV { vlan: Some(vlan as int), ..self.network@ }),
    {
        WirelessNetworkBuilder {
            network: WirelessNetwork { vlan: Some(vlan), ..self.network },
        }
    }

    /// Set the state of advertisement for this SSID.
    pub fn advertised(self, advertised: bool) -> (r: WirelessNetworkBuilder)
        ensures
            r.network@ == (WirelessNetworkV { advertised, ..self.network@ }),
    {
        WirelessNetworkBuilder {
            network: WirelessNetwork { advertised, ..self.network },
        }
    }

    /// Set the RADIUS profile ID for 802.1x on this network.
    pub fn radius_profile(self, profile: &str) -> (r: WirelessNetworkBuilder)
        ensures
            r.network@ == (WirelessNetworkV {
                radius_profile: Some(profile@),
                ..self.network@
            }),
    {
        WirelessNetworkBuilder {
            network: WirelessNetwork {
                radius_profile: Some(profile.to_owned()),
                ..self.network
            },
        }
    }

    /// Validates the required fields and yields the wireless network: a
    /// logical network and at least one access-point group must have
    /// been set, the security type chosen, WPA settings given for the
    /// WPA security types, and a RADIUS profile for 802.1x — checked in
    /// that order.
    pub fn build(self) -> (r: Result<WirelessNetwork, UnifiedError>)
        ensures
            self.network@.network is None ==> (r matches Err(e) && e@ == ErrV::Missing(
                "network"@,
            )),
            self.network@.network is Some && self.network@.ap_groups.len() == 0 ==> (r matches Err(
                e,
            ) && e@ == ErrV::Missing("ap_groups"@)),
            self.network@.network is Some && self.network@.ap_groups.len() > 0
                && self.network@.security == WirelessNetworkSecurity::Invalid ==> (r matches Err(e)
                && e@ == ErrV::Missing("security"@)),
            self.network@.network is Some && self.network@.ap_groups.len() > 0
                && (self.network@.security == WirelessNetworkSecurity::Wpa2
                || self.network@.security == WirelessNetworkSecurity::WpaEap)
                && self.network@.wpa is None ==> (r matches Err(e) && e@ == ErrV::Missing(
                "wpa"@,
            )),
            self.network@.network is Some && self.network@.ap_groups.len() > 0
                && self.network@.security == WirelessNetworkSecurity::WpaEap
                && self.network@.wpa is Some && self.network@.radius_profile is None ==> (
            r matches Err(e) && e@ == ErrV::Missing("radius_profile"@)),
            self.network@.network is Some && self.network@.ap_groups.len() > 0
                && self.network@.security != WirelessNetworkSecurity::Invalid && ((
            self.network@.security == WirelessNetworkSecurity::Wpa2
                || self.network@.security == WirelessNetworkSecurity::WpaEap)
                ==> self.network@.wpa is Some) && (self.network@.security
                == WirelessNetworkSecurity::WpaEap ==> self.network@.radius_profile is Some) ==> (
            r matches Ok(w) && w@ == self.network@),
    {
        if self.network.network.is_none() {
            return Err(UnifiedError::MissingAttribute("network".to_owned()));
        }
        if self.network.ap_groups.len() == 0 {
            return Err(UnifiedError::MissingAttribute("ap_groups".to_owned()));
        }
        match self.network.security {
            WirelessNetworkSecurity::Invalid => {
                return Err(UnifiedError::MissingAttribute("security".to_owned()));
            },
            WirelessNetworkSecurity::Wpa2 | WirelessNetworkSecurity::WpaEap => {
                if self.network.wpa.is_none() {
                    return Err(UnifiedError::MissingAttribute("wpa".to_owned()));
                }
            },
            _ => {},
        }
        match self.network.security {
            WirelessNetworkSecurity::WpaEap => {
                if self.network.radius_profile.is_none() {
                    return Err(UnifiedError::MissingAttribute("radius_profile".to_owned()));
                }
            },
            _ => {},
        }
        Ok(self.network)
    }
}

// ------------------------------------------------------------------
// Access-point groups (second sub-API, transparent envelope).
// ------------------------------------------------------------------

/// A wire-level access-point group record, as listed by the second
/// sub-API.
pub struct RemoteApGroup {
    pub id: String,
    pub name: String,
}

impl RemoteApGroup {
    /// The domain object for this record, on a site.
    pub fn into_group(self, site: &str) -> (r: ApGroup)
        ensures
            r.site@ == site@,
            r.id == self.id,
            r.name == self.name,
    {
        ApGroup { site: site.to_owned(), id: self.id, name: self.name }
    }
}

/// Group of related wireless access points.
pub struct ApGroup {
    /// Site the group belongs to.
    pub site: String,
    /// Internal ID.
    pub id: String,
    /// Name for the access-point group.
    pub name: String,
}

/// Model of an [`ApGroup`].
pub struct ApGroupV {
    pub site: Seq<char>,
    pub id: Seq<char>,
    pub name: Seq<char>,
}

impl View for ApGroup {
    type V = ApGroupV;

    open spec fn view(&self) -> ApGroupV {
        ApGroupV { site: self.site@, id: self.id@, name: self.name@ }
    }
}

/// The views of a vector of groups.
pub open spec fn ap_groups_view(v: Seq<ApGroup>) -> Seq<ApGroupV> {
    Seq::new(v.len(), |i: int| v[i]@)
}

/// One wire record as a group.
pub open spec fn sp_ap_group_of(v: JsonV, site: Seq<char>) -> Option<ApGroupV> {
    match (sp_req_str(v, "_id"@), sp_req_str(v, "name"@)) {
        (Some(id), Some(name)) => Some(ApGroupV { site, id, name }),
        _ => None,
    }
}

/// The wire records from index `k` on, each as a group.
pub open spec fn sp_ap_groups_map(items: Seq<JsonV>, site: Seq<char>, k: int) -> Option<
    Seq<ApGroupV>,
>
    decreases items.len() - k,
{
    if !(0 <= k && k < items.len()) {
        Some(Seq::empty())
    } else {
        match sp_ap_group_of(items[k], site) {
            None => None,
            Some(g) => match sp_ap_groups_map(items, site, k + 1) {
                None => None,
                Some(rest) => Some(seq![g] + rest),
            },
        }
    }
}

/// The full decode of a group listing response (transparent envelope).
pub open spec fn sp_ap_groups_decode(status: u16, body: Seq<char>, site: Seq<char>) -> Result<
    Seq<ApGroupV>,
    ErrV,
> {
    match sp_decode_v2(status, body) {
        Err(e) => Err(e),
        Ok(d) => match d {
            JsonV::Arr(items) => match sp_ap_groups_map(items, site, 0) {
                None => Err(ErrV::Network),
                Some(gs) => Ok(gs),
            },
            _ => Err(ErrV::Network),
        },
    }
}

/// Describes the group listing request for a site.
pub fn ap_groups_request(session: &Unified, site: &str) -> (r: RequestParts)
    ensures
        r.method == Method::Get,
        r.url@ == session.url_chars("/v2/api/site/"@ + site@ + "/apgroups"@),
        r.cookie@ == session.token@,
        session.is_udm_pro ==> (r.csrf matches Some(c) && c@ == session.csrf@),
        !session.is_udm_pro ==> r.csrf is None,
        r.tls_verify == session.tls_verify,
        r.body is None,
{
    let p = crate::http::v2_site_path(site, "/apgroups");
    session.request_parts(Method::Get, p.as_str())
}

/// Decodes a group listing response, exactly as
/// [`sp_ap_groups_decode`] states.
#[verifier::loop_isolation(false)]
pub fn ap_groups_decode(status: u16, body: &str, site: &str) -> (r: Result<
    Vec<ApGroup>,
    UnifiedError,
>)
    ensures
        match sp_ap_groups_decode(status, body@, site@) {
            Ok(gvs) => r matches Ok(v) && ap_groups_view(v@) == gvs,
            Err(e) => r matches Err(x) && x@ == e,
        },
{
    let data = match crate::http::decode_v2(status, body) {
        Ok(d) => d,
        Err(e) => {
            return Err(e);
        },
    };
    let items = match &data {
        Json::Arr(items) => items,
        _ => {
            return Err(UnifiedError::NetworkError);
        },
    };
    let ghost iv = json_seq_view(items@);
    proof {
        lemma_json_seq_view(items@);
    }
    let mut out: Vec<ApGroup> = Vec::new();
    let n = items.len();
    let mut k: usize = 0;
    while k < n
        invariant
            k <= n,
            out@.len() == k,
            sp_ap_groups_map(iv, site@, 0) == (match sp_ap_groups_map(iv, site@, k as int) {
                None => None::<Seq<ApGroupV>>,
                Some(rest) => Some(ap_groups_view(out@) + rest),
            }),
        decreases n - k,
    {
        let ghost pre = out@;
        let item = &items[k];
        let id = match item.req_str("_id") {
            Some(x) => x,
            None => {
                return Err(UnifiedError::NetworkError);
            },
        };
        let name = match item.req_str("name") {
            Some(x) => x,
            None => {
                return Err(UnifiedError::NetworkError);
            },
        };
        let remote = RemoteApGroup { id, name };
        out.push(remote.into_group(site));
        proof {
            assert(ap_groups_view(out@) =~= ap_groups_view(pre) + seq![out@[k as int]@]);
            if sp_ap_groups_map(iv, site@, k as int + 1) is Some {
                let rest = sp_ap_groups_map(iv, site@, k as int + 1)->Some_0;
                assert(ap_groups_view(pre) + (seq![out@[k as int]@] + rest) =~= ap_groups_view(
                    out@,
                ) + rest);
            }
        }
        k = k + 1;
    }
    proof {
        assert(ap_groups_view(out@) + Seq::<ApGroupV>::empty() =~= ap_groups_view(out@));
    }
    Ok(out)
}

} // verus!
