//! Wired networks configured on the controller.

use vstd::prelude::*;

verus! {

use crate::addr::{IpAddr, IpCidr, cidr_chars, cidr_of_parts, ip_chars, ipnet_of, sp_parse_ip};
use crate::error::{ErrV, UnifiedError};
use crate::http::{Method, RequestParts, sp_decode_v1};
use crate::json::{Json, JsonV, json_entry_seq_view, json_seq_view, lemma_json_seq_view,
    sp_digits_of, sp_ser};
use crate::unified::Unified;
use crate::wire::{sp_def_bool, sp_opt_str, sp_opt_u64, sp_parse_u16, sp_req_str};

/// Representation of the attribute used to select a wired network.
pub enum NetworkRef<'r> {
    /// Select the network by its internal ID.
    Id(&'r str),
    /// Select the network by its name.
    Name(&'r str),
    /// Select the network by its domain name.
    Domain(&'r str),
    /// Select the network by its subnet.
    Subnet(&'r str),
}

/// A selector whose subnet text has been parsed; obtained through
/// [`network_selector`].
pub enum NetworkSel {
    Id(String),
    Name(String),
    Domain(String),
    Subnet(IpCidr),
}

/// Model of a [`NetworkSel`].
pub enum NetworkSelV {
    Id(Seq<char>),
    Name(Seq<char>),
    Domain(Seq<char>),
    Subnet(IpCidr),
}

impl View for NetworkSel {
    type V = NetworkSelV;

    open spec fn view(&self) -> NetworkSelV {
        match self {
            NetworkSel::Id(x) => NetworkSelV::Id(x@),
            NetworkSel::Name(x) => NetworkSelV::Name(x@),
            NetworkSel::Domain(x) => NetworkSelV::Domain(x@),
            NetworkSel::Subnet(c) => NetworkSelV::Subnet(*c),
        }
    }
}

/// Type of a network.
#[derive(Clone, Copy, Debug, PartialEq, Eq, Structural)]
pub enum NetworkPurpose {
    /// No purpose; rejected by the builder.
    Invalid,
    Corporate,
    Guest,
    Wan,
    VlanOnly,
    RemoteUserVpn,
    SiteToSiteVpn,
    VpnClient,
}

/// The wire name of a purpose.
pub open spec fn purpose_chars(p: NetworkPurpose) -> Seq<char> {
    match p {
        NetworkPurpose::Invalid => "invalid"@,
        NetworkPurpose::Corporate => "corporate"@,
        NetworkPurpose::Guest => "guest"@,
        NetworkPurpose::Wan => "wan"@,
        NetworkPurpose::VlanOnly => "vlan-only"@,
        NetworkPurpose::RemoteUserVpn => "remote-user-vpn"@,
        NetworkPurpose::SiteToSiteVpn => "site-vpn"@,
        NetworkPurpose::VpnClient => "vpn-client"@,
    }
}

/// The purpose a wire name names; anything unknown is
/// [`NetworkPurpose::Invalid`].
pub open spec fn sp_purpose_of(s: Seq<char>) -> NetworkPurpose {
    if s == "corporate"@ {
        NetworkPurpose::Corporate
    } else if s == "guest"@ {
        NetworkPurpose::Guest
    } else if s == "wan"@ {
        NetworkPurpose::Wan
    } else if s == "vlan-only"@ {
        NetworkPurpose::VlanOnly
    } else if s == "remote-user-vpn"@ {
        NetworkPurpose::RemoteUserVpn
    } else if s == "site-vpn"@ {
        NetworkPurpose::SiteToSiteVpn
    } else if s == "vpn-client"@ {
        NetworkPurpose::VpnClient
    } else {
        NetworkPurpose::Invalid
    }
}

impl NetworkPurpose {
    /// The purpose a wire name names.
    pub fn from_str(s: &str) -> (r: NetworkPurpose)
        ensures
            r == sp_purpose_of(s@),
    {
        if crate::text::str_eq(s, "corporate") {
            NetworkPurpose::Corporate
        } else if crate::text::str_eq(s, "guest") {
            NetworkPurpose::Guest
        } else if crate::text::str_eq(s, "wan") {
            NetworkPurpose::Wan
        } else if crate::text::str_eq(s, "vlan-only") {
            NetworkPurpose::VlanOnly
        } else if crate::text::str_eq(s, "remote-user-vpn") {
            NetworkPurpose::RemoteUserVpn
        } else if crate::text::str_eq(s, "site-vpn") {
            NetworkPurpose::SiteToSiteVpn
        } else if crate::text::str_eq(s, "vpn-client") {
            NetworkPurpose::VpnClient
        } else {
            NetworkPurpose::Invalid
        }
    }

    /// The purpose's wire name.
    pub fn label(&self) -> (r: &'static str)
        ensures
            r@ == purpose_chars(*self),
    {
        match self {
            NetworkPurpose::Invalid => "invalid",
            NetworkPurpose::Corporate => "corporate",
            NetworkPurpose::Guest => "guest",
            NetworkPurpose::Wan => "wan",
            NetworkPurpose::VlanOnly => "vlan-only",
            NetworkPurpose::RemoteUserVpn => "remote-user-vpn",
            NetworkPurpose::SiteToSiteVpn => "site-vpn",
            NetworkPurpose::VpnClient => "vpn-client",
        }
    }
}

/// Physical interface on which the network will operate.
pub enum NetworkGroup {
    /// No network group; rejected by the builder.
    Invalid,
    /// A LAN interface (LAN1, LAN2, ...).
    Lan(String),
    /// A WAN interface (WAN1, WAN2, ...).
    Wan(String),
}

/// Model of a [`NetworkGroup`].
pub enum NetworkGroupV {
    Invalid,
    Lan(Seq<char>),
    Wan(Seq<char>),
}

impl View for NetworkGroup {
    type V = NetworkGroupV;

    open spec fn view(&self) -> NetworkGroupV {
        match self {
            NetworkGroup::Invalid => NetworkGroupV::Invalid,
            NetworkGroup::Lan(g) => NetworkGroupV::Lan(g@),
            NetworkGroup::Wan(g) => NetworkGroupV::Wan(g@),
        }
    }
}

/// Type of a VPN configured on a network.
#[derive(Clone, Copy, Debug, PartialEq, Eq, Structural)]
pub enum VpnType {
    Pptp,
    L2tp,
}

/// The wire name of a VPN type.
pub open spec fn vpn_type_chars(t: VpnType) -> Seq<char> {
    match t {
        VpnType::Pptp => "pptp-server"@,
        VpnType::L2tp => "l2tp-server"@,
    }
}

/// The VPN type a wire name names; anything unknown is
/// [`VpnType::L2tp`].
pub open spec fn sp_vpn_type_of(s: Seq<char>) -> VpnType {
    if s == "pptp-server"@ {
        VpnType::Pptp
    } else {
        VpnType::L2tp
    }
}

impl VpnType {
    /// The VPN type a wire name names.
    pub fn from_str(s: &str) -> (r: VpnType)
        ensures
            r == sp_vpn_type_of(s@),
    {
        if crate::text::str_eq(s, "pptp-server") {
            VpnType::Pptp
        } else {
            VpnType::L2tp
        }
    }

    /// The VPN type's wire name.
    pub fn label(&self) -> (r: &'static str)
        ensures
            r@ == vpn_type_chars(*self),
    {
        match self {
            VpnType::Pptp => "pptp-server",
            VpnType::L2tp => "l2tp-server",
        }
    }
}

/// DHCP configuration of a network.
pub struct NetworkDhcp {
    pub enabled: bool,
    pub start: Option<IpAddr>,
    pub end: Option<IpAddr>,
    /// Lease time, in seconds.
    pub lease_seconds: Option<u64>,
}

/// Model of a [`NetworkDhcp`].
pub struct NetworkDhcpV {
    pub enabled: bool,
    pub start: Option<IpAddr>,
    pub end: Option<IpAddr>,
    pub lease_seconds: Option<int>,
}

impl View for NetworkDhcp {
    type V = NetworkDhcpV;

    open spec fn view(&self) -> NetworkDhcpV {
        NetworkDhcpV {
            enabled: self.enabled,
            start: self.start,
            end: self.end,
            lease_seconds: match self.lease_seconds {
                Some(n) => Some(n as int),
                None => None,
            },
        }
    }
}

/// VPN configuration of a network.
pub struct NetworkVpn {
    pub kind: VpnType,
    pub preshared_key: Option<String>,
}

/// Model of a [`NetworkVpn`].
pub struct NetworkVpnV {
    pub kind: VpnType,
    pub preshared_key: Option<Seq<char>>,
}

impl View for NetworkVpn {
    type V = NetworkVpnV;

    open spec fn view(&self) -> NetworkVpnV {
        NetworkVpnV {
            kind: self.kind,
            preshared_key: crate::clients::opt_str_view(self.preshared_key),
        }
    }
}

/// A wired network configured on your controller.
pub struct Network {
    /// Site the network belongs to.
    pub site: String,
    /// Network internal ID.
    pub id: String,
    /// Network name.
    pub name: String,
    /// Is the network enabled?
    pub enabled: bool,
    /// Type of network.
    pub purpose: NetworkPurpose,
    /// Physical interface for the network.
    pub group: NetworkGroup,
    /// Gateway/subnet for the network: the gateway address and the CIDR
    /// of its subnet (for example `10.0.0.254/24`).
    pub subnet: Option<IpCidr>,
    /// Domain name for the network.
    pub domain: Option<String>,
    /// Enable VLAN-tagging on the network.
    pub vlan_enabled: bool,
    /// VLAN ID for this network.
    pub vlan: Option<u16>,
    /// DHCP configuration.
    pub dhcp: Option<NetworkDhcp>,
    /// VPN configuration.
    pub vpn: Option<NetworkVpn>,
}

/// Model of a [`Network`].
pub struct NetworkV {
    pub site: Seq<char>,
    pub id: Seq<char>,
    pub name: Seq<char>,
    pub enabled: bool,
    pub purpose: NetworkPurpose,
    pub group: NetworkGroupV,
    pub subnet: Option<IpCidr>,
    pub domain: Option<Seq<char>>,
    pub vlan_enabled: bool,
    pub vlan: Option<int>,
    pub dhcp: Option<NetworkDhcpV>,
    pub vpn: Option<NetworkVpnV>,
}

impl View for Network {
    type V = NetworkV;

    open spec fn view(&self) -> NetworkV {
        NetworkV {
            site: self.site@,
            id: self.id@,
            name: self.name@,
            enabled: self.enabled,
            purpose: self.purpose,
            group: self.group@,
            subnet: self.subnet,
            domain: crate::clients::opt_str_view(self.domain),
            vlan_enabled: self.vlan_enabled,
            vlan: match self.vlan {
                Some(n) => Some(n as int),
                None => None,
            },
            dhcp: match self.dhcp {
                Some(d) => Some(d@),
                None => None,
            },
            vpn: match self.vpn {
                Some(v) => Some(v@),
                None => None,
            },
        }
    }
}

/// The views of a vector of networks.
pub open spec fn networks_view(v: Seq<Network>) -> Seq<NetworkV> {
    Seq::new(v.len(), |i: int| v[i]@)
}

/// An optional string field that is then parsed tolerantly as a subnet.
pub open spec fn sp_subnet_field(v: JsonV, key: Seq<char>) -> Option<Option<IpCidr>> {
    match sp_opt_str(v, key) {
        None => None,
        Some(None) => Some(None),
        Some(Some(s)) => Some(
            match ipnet_of(s) {
                Some(t) => Some(cidr_of_parts(t)),
                None => None,
            },
        ),
    }
}

/// An optional string field that is then parsed tolerantly as an IP.
pub open spec fn sp_ip_field(v: JsonV, key: Seq<char>) -> Option<Option<IpAddr>> {
    match sp_opt_str(v, key) {
        None => None,
        Some(None) => Some(None),
        Some(Some(s)) => Some(sp_parse_ip(s)),
    }
}

/// An optional string field that is then parsed tolerantly as a VLAN
/// number.
pub open spec fn sp_vlan_field(v: JsonV, key: Seq<char>) -> Option<Option<int>> {
    match sp_opt_str(v, key) {
        None => None,
        Some(None) => Some(None),
        Some(Some(s)) => Some(sp_parse_u16(s)),
    }
}

/// One wire record as a network.
pub open spec fn sp_network_of(v: JsonV, site: Seq<char>) -> Result<NetworkV, ErrV> {
    match (
        sp_req_str(v, "_id"@),
        sp_req_str(v, "name"@),
        sp_def_bool(v, "enabled"@, true),
        sp_req_str(v, "purpose"@),
    ) {
        (Some(id), Some(name), Some(enabled), Some(purpose)) => match (
            sp_opt_str(v, "networkgroup"@),
            sp_opt_str(v, "wan_networkgroup"@),
            sp_subnet_field(v, "ip_subnet"@),
            sp_opt_str(v, "domain_name"@),
            sp_def_bool(v, "vlan_enabled"@, false),
            sp_vlan_field(v, "vlan"@),
        ) {
            (Some(lan), Some(wan), Some(subnet), Some(domain), Some(vlan_enabled), Some(vlan)) => match (
                sp_def_bool(v, "dhcpd_enabled"@, false),
                sp_ip_field(v, "dhcpd_start"@),
                sp_ip_field(v, "dhcpd_stop"@),
                sp_opt_u64(v, "dhcpd_leasetime"@),
                sp_opt_str(v, "vpn_type"@),
                sp_opt_str(v, "x_ipsec_pre_shared_key"@),
            ) {
                (
                    Some(dhcp_on),
                    Some(dhcp_start),
                    Some(dhcp_end),
                    Some(lease),
                    Some(vpn_type),
                    Some(psk),
                ) => Ok(
                    NetworkV {
                        site,
                        id,
                        name,
                        enabled,
                        purpose: sp_purpose_of(purpose),
                        group: match (lan, wan) {
                            (Some(g), None) => NetworkGroupV::Lan(g),
                            (None, Some(g)) => NetworkGroupV::Wan(g),
                            _ => NetworkGroupV::Invalid,
                        },
                        subnet,
                        domain,
                        vlan_enabled,
                        vlan,
                        dhcp: Some(
                            NetworkDhcpV {
                                enabled: dhcp_on,
                                start: dhcp_start,
                                end: dhcp_end,
                                lease_seconds: lease,
                            },
                        ),
                        vpn: match vpn_type {
                            Some(t) => Some(
                                NetworkVpnV { kind: sp_vpn_type_of(t), preshared_key: psk },
                            ),
                            None => None,
                        },
                    },
                ),
                _ => Err(ErrV::Network),
            },
            _ => Err(ErrV::Network),
        },
        _ => Err(ErrV::Network),
    }
}

/// The wire records from index `k` on, each as a network.
pub open spec fn sp_networks_map(items: Seq<JsonV>, site: Seq<char>, k: int) -> Result<
    Seq<NetworkV>,
    ErrV,
>
    decreases items.len() - k,
{
    if !(0 <= k && k < items.len()) {
        Ok(Seq::empty())
    } else {
        match sp_network_of(items[k], site) {
            Err(e) => Err(e),
            Ok(n) => match sp_networks_map(items, site, k + 1) {
                Err(e) => Err(e),
                Ok(rest) => Ok(seq![n] + rest),
            },
        }
    }
}

/// The full decode of a network listing response.
pub open spec fn sp_networks_decode(status: u16, body: Seq<char>, site: Seq<char>) -> Result<
    Seq<NetworkV>,
    ErrV,
> {
    match sp_decode_v1(status, body) {
        Err(e) => Err(e),
        Ok(d) => match d {
            JsonV::Arr(items) => sp_networks_map(items, site, 0),
            _ => Err(ErrV::Network),
        },
    }
}

/// Whether a network matches a validated selector (an absent domain or
/// subnet matches no selector of that kind).
pub open spec fn sp_network_matches(n: NetworkV, sel: NetworkSelV) -> bool {
    match sel {
        NetworkSelV::Id(x) => n.id == x,
        NetworkSelV::Name(x) => n.name == x,
        NetworkSelV::Domain(x) => n.domain == Some(x),
        NetworkSelV::Subnet(c) => n.subnet == Some(c),
    }
}

/// The first network matching the selector, if any.
pub open spec fn sp_find_network(ns: Seq<NetworkV>, sel: NetworkSelV) -> Option<NetworkV>
    decreases ns.len(),
{
    if ns.len() == 0 {
        None
    } else if sp_network_matches(ns[0], sel) {
        Some(ns[0])
    } else {
        sp_find_network(ns.drop_first(), sel)
    }
}

/// Describes the network listing request for a site.
pub fn networks_request(session: &Unified, site: &str) -> (r: RequestParts)
    ensures
        r.method == Method::Get,
        r.url@ == session.url_chars("/api/s/"@ + site@ + "/rest/networkconf"@),
        r.cookie@ == session.token@,
        session.is_udm_pro ==> (r.csrf matches Some(c) && c@ == session.csrf@),
        !session.is_udm_pro ==> r.csrf is None,
        r.tls_verify == session.tls_verify,
        r.body is None,
{
    let p = crate::http::site_path(site, "/rest/networkconf");
    session.request_parts(Method::Get, p.as_str())
}

/// Extracts one network from a wire record.
fn network_of_json(v: &Json, site: &str) -> (r: Result<Network, UnifiedError>)
    ensures
        match sp_network_of(v@, site@) {
            Err(e) => r matches Err(x) && x@ == e,
            Ok(nv) => r matches Ok(n) && n@ == nv,
        },
{
    let id = match v.req_str("_id") {
        Some(x) => x,
        None => {
            return Err(UnifiedError::NetworkError);
        },
    };
    let name = match v.req_str("name") {
        Some(x) => x,
        None => {
            return Err(UnifiedError::NetworkError);
        },
    };
    let enabled = match v.def_bool("enabled", true) {
        Some(x) => x,
        None => {
            return Err(UnifiedError::NetworkError);
        },
    };
    let purpose_s = match v.req_str("purpose") {
        Some(x) => x,
        None => {
            return Err(UnifiedError::NetworkError);
        },
    };
    let lan = match v.opt_str("networkgroup") {
        Some(x) => x,
        None => {
            return Err(UnifiedError::NetworkError);
        },
    };
    let wan = match v.opt_str("wan_networkgroup") {
        Some(x) => x,
        None => {
            return Err(UnifiedError::NetworkError);
        },
    };
    let subnet_s = match v.opt_str("ip_subnet") {
        Some(x) => x,
        None => {
            return Err(UnifiedError::NetworkError);
        },
    };
    let domain = match v.opt_str("domain_name") {
        Some(x) => x,
        None => {
            return Err(UnifiedError::NetworkError);
        },
    };
    let vlan_enabled = match v.def_bool("vlan_enabled", false) {
        Some(x) => x,
        None => {
            return Err(UnifiedError::NetworkError);
        },
    };
    let vlan_s = match v.opt_str("vlan") {
        Some(x) => x,
        None => {
            return Err(UnifiedError::NetworkError);
        },
    };
    let dhcp_on = match v.def_bool("dhcpd_enabled", false) {
        Some(x) => x,
        None => {
            return Err(UnifiedError::NetworkError);
        },
    };
    let dhcp_start_s = match v.opt_str("dhcpd_start") {
        Some(x) => x,
        None => {
            return Err(UnifiedError::NetworkError);
        },
    };
    let dhcp_end_s = match v.opt_str("dhcpd_stop") {
        Some(x) => x,
        None => {
            return Err(UnifiedError::NetworkError);
        },
    };
    let lease = match v.opt_u64("dhcpd_leasetime") {
        Some(x) => x,
        None => {
            return Err(UnifiedError::NetworkError);
        },
    };
    let vpn_type_s = match v.opt_str("vpn_type") {
        Some(x) => x,
        None => {
            return Err(UnifiedError::NetworkError);
        },
    };
    let psk = match v.opt_str("x_ipsec_pre_shared_key") {
        Some(x) => x,
        None => {
            return Err(UnifiedError::NetworkError);
        },
    };
    let subnet = match &subnet_s {
        Some(s) => IpCidr::parse(s.as_str()),
        None => None,
    };
    let vlan = match &vlan_s {
        Some(s) => crate::wire::parse_u16(s.as_str()),
        None => None,
    };
    let dhcp_start = match &dhcp_start_s {
        Some(s) => crate::addr::parse_ip(s.as_str()),
        None => None,
    };
    let dhcp_end = match &dhcp_end_s {
        Some(s) => crate::addr::parse_ip(s.as_str()),
        None => None,
    };
    let group = match (lan, wan) {
        (Some(g), None) => NetworkGroup::Lan(g),
        (None, Some(g)) => NetworkGroup::Wan(g),
        _ => NetworkGroup::Invalid,
    };
    let vpn = match vpn_type_s {
        Some(t) => Some(
            NetworkVpn { kind: VpnType::from_str(t.as_str()), preshared_key: psk },
        ),
        None => None,
    };
    Ok(
        Network {
            site: site.to_owned(),
            id,
            name,
            enabled,
            purpose: NetworkPurpose::from_str(purpose_s.as_str()),
            group,
            subnet,
            domain,
            vlan_enabled,
            vlan,
            dhcp: Some(
                NetworkDhcp {
                    enabled: dhcp_on,
                    start: dhcp_start,
                    end: dhcp_end,
                    lease_seconds: lease,
                },
            ),
            vpn,
        },
    )
}

/// Decodes a network listing response, exactly as
/// [`sp_networks_decode`] states.
#[verifier::loop_isolation(false)]
pub fn networks_decode(status: u16, body: &str, site: &str) -> (r: Result<
    Vec<Network>,
    UnifiedError,
>)
    ensures
        match sp_networks_decode(status, body@, site@) {
            Ok(nvs) => r matches Ok(v) && networks_view(v@) == nvs,
            Err(e) => r matches Err(x) && x@ == e,
        },
{
    let data = match crate::http::decode_v1(status, body) {
        Ok(d) => d,
        Err(e) => {
            return Err(e);
        },
    };
    let items = match &data {
        Json::Arr(items) => items,
        _ => {
            return Err(UnifiedError::NetworkError);
        },
    };
    let ghost iv = json_seq_view(items@);
    proof {
        lemma_json_seq_view(items@);
    }
    let mut out: Vec<Network> = Vec::new();
    let n = items.len();
    let mut k: usize = 0;
    while k < n
        invariant
            k <= n,
            out@.len() == k,
            sp_networks_map(iv, site@, 0) == (match sp_networks_map(iv, site@, k as int) {
                Err(e) => Err::<Seq<NetworkV>, ErrV>(e),
                Ok(rest) => Ok(networks_view(out@) + rest),
            }),
        decreases n - k,
    {
        let ghost pre = out@;
        match network_of_json(&items[k], site) {
            Ok(nw) => {
                out.push(nw);
                proof {
                    assert(networks_view(out@) =~= networks_view(pre) + seq![out@[k as int]@]);
                    if sp_networks_map(iv, site@, k as int + 1) is Ok {
                        let rest = sp_networks_map(iv, site@, k as int + 1)->Ok_0;
                        assert(networks_view(pre) + (seq![out@[k as int]@] + rest)
                            =~= networks_view(out@) + rest);
                    }
                }
            },
            Err(e) => {
                return Err(e);
            },
        }
        k = k + 1;
    }
    proof {
        assert(networks_view(out@) + Seq::<NetworkV>::empty() =~= networks_view(out@));
    }
    Ok(out)
}

/// Validates a selector's text before any listing is fetched: a subnet
/// selector that does not parse fails eagerly.
pub fn network_selector(sel: &NetworkRef) -> (r: Result<NetworkSel, UnifiedError>)
    ensures
        match sel {
            NetworkRef::Id(x) => r matches Ok(s) && s@ == NetworkSelV::Id(x@),
            NetworkRef::Name(x) => r matches Ok(s) && s@ == NetworkSelV::Name(x@),
            NetworkRef::Domain(x) => r matches Ok(s) && s@ == NetworkSelV::Domain(x@),
            NetworkRef::Subnet(x) => match ipnet_of(x@) {
                Some(t) => r matches Ok(s) && s@ == NetworkSelV::Subnet(cidr_of_parts(t)),
                None => r matches Err(e) && e@ == ErrV::BadIp,
            },
        },
{
    match sel {
        NetworkRef::Id(x) => Ok(NetworkSel::Id((*x).to_owned())),
        NetworkRef::Name(x) => Ok(NetworkSel::Name((*x).to_owned())),
        NetworkRef::Domain(x) => Ok(NetworkSel::Domain((*x).to_owned())),
        NetworkRef::Subnet(x) => match IpCidr::parse(x) {
            Some(c) => Ok(NetworkSel::Subnet(c)),
            None => Err(UnifiedError::InvalidIpAddress),
        },
    }
}

// ------------------------------------------------------------------
// Wire representation and mutation requests.
// ------------------------------------------------------------------

/// The leading members of a network's wire object.
pub open spec fn seg_base(n: NetworkV) -> Seq<(Seq<char>, JsonV)> {
    seq![
        ("name"@, JsonV::Str(n.name)),
        ("enabled"@, JsonV::Bool(n.enabled)),
        ("purpose"@, JsonV::Str(purpose_chars(n.purpose))),
    ]
}

/// The group member: under the LAN or the WAN key, or absent.
pub open spec fn seg_group(g: NetworkGroupV) -> Seq<(Seq<char>, JsonV)> {
    match g {
        NetworkGroupV::Lan(x) => seq![("networkgroup"@, JsonV::Str(x))],
        NetworkGroupV::Wan(x) => seq![("wan_networkgroup"@, JsonV::Str(x))],
        NetworkGroupV::Invalid => Seq::empty(),
    }
}

/// An optional string-valued member.
pub open spec fn seg_opt_str(key: Seq<char>, s: Option<Seq<char>>) -> Seq<(Seq<char>, JsonV)> {
    match s {
        Some(x) => seq![(key, JsonV::Str(x))],
        None => Seq::empty(),
    }
}

/// The wire object sent when creating or updating a network: the
/// identifier is never sent; optional members are omitted when absent;
/// the subnet, addresses, and VLAN are sent as text; the lease time as
/// a number.
pub open spec fn sp_network_wire(n: NetworkV) -> JsonV {
    JsonV::Obj(
        seg_base(n) + seg_group(n.group) + seg_opt_str(
            "ip_subnet"@,
            match n.subnet {
                Some(c) => Some(cidr_chars(c)),
                None => None,
            },
        ) + seg_opt_str("domain_name"@, n.domain) + seq![
            ("vlan_enabled"@, JsonV::Bool(n.vlan_enabled)),
        ] + seg_opt_str(
            "vlan"@,
            match n.vlan {
                Some(x) => Some(sp_digits_of(x)),
                None => None,
            },
        ) + seq![
            (
                "dhcpd_enabled"@,
                JsonV::Bool(
                    match n.dhcp {
                        Some(d) => d.enabled,
                        None => false,
                    },
                ),
            ),
        ] + seg_opt_str(
            "dhcpd_start"@,
            match n.dhcp {
                Some(d) => match d.start {
                    Some(a) => Some(ip_chars(a)),
                    None => None,
                },
                None => None,
            },
        ) + seg_opt_str(
            "dhcpd_stop"@,
            match n.dhcp {
                Some(d) => match d.end {
                    Some(a) => Some(ip_chars(a)),
                    None => None,
                },
                None => None,
            },
        ) + (match n.dhcp {
            Some(d) => match d.lease_seconds {
                Some(t) => seq![("dhcpd_leasetime"@, JsonV::Num(t))],
                None => Seq::empty(),
            },
            None => Seq::empty(),
        }) + seg_opt_str(
            "vpn_type"@,
            match n.vpn {
                Some(vp) => Some(vpn_type_chars(vp.kind)),
                None => None,
            },
        ) + seg_opt_str(
            "x_ipsec_pre_shared_key"@,
            match n.vpn {
                Some(vp) => vp.preshared_key,
                None => None,
            },
        ),
    )
}

impl Network {
    /// Builds the wire object for a create or update request.
    pub fn to_wire(&self) -> (r: Json)
        ensures
            r@ == sp_network_wire(self@),
    {
        let ghost nv = self@;
        let ghost c0 = seg_base(nv);
        let ghost c1 = c0 + seg_group(nv.group);
        let ghost c2 = c1 + seg_opt_str(
            "ip_subnet"@,
            match nv.subnet {
                Some(c) => Some(cidr_chars(c)),
                None => None,
            },
        );
        let ghost c3 = c2 + seg_opt_str("domain_name"@, nv.domain);
        let ghost c4 = c3 + seq![("vlan_enabled"@, JsonV::Bool(nv.vlan_enabled))];
        let ghost c5 = c4 + seg_opt_str(
            "vlan"@,
            match nv.vlan {
                Some(x) => Some(sp_digits_of(x)),
                None => None,
            },
        );
        let ghost c6 = c5 + seq![
            (
                "dhcpd_enabled"@,
                JsonV::Bool(
                    match nv.dhcp {
                        Some(d) => d.enabled,
                        None => false,
                    },
                ),
            ),
        ];
        let ghost c7 = c6 + seg_opt_str(
            "dhcpd_start"@,
            match nv.dhcp {
                Some(d) => match d.start {
                    Some(a) => Some(ip_chars(a)),
                    None => None,
                },
                None => None,
            },
        );
        let ghost c8 = c7 + seg_opt_str(
            "dhcpd_stop"@,
            match nv.dhcp {
                Some(d) => match d.end {
                    Some(a) => Some(ip_chars(a)),
                    None => None,
                },
                None => None,
            },
        );
        let ghost c9 = c8 + (match nv.dhcp {
            Some(d) => match d.lease_seconds {
                Some(t) => seq![("dhcpd_leasetime"@, JsonV::Num(t))],
                None => Seq::<(Seq<char>, JsonV)>::empty(),
            },
            None => Seq::<(Seq<char>, JsonV)>::empty(),
        });
        let ghost c10 = c9 + seg_opt_str(
            "vpn_type"@,
            match nv.vpn {
                Some(vp) => Some(vpn_type_chars(vp.kind)),
                None => None,
            },
        );
        let ghost c11 = c10 + seg_opt_str(
            "x_ipsec_pre_shared_key"@,
            match nv.vpn {
                Some(vp) => vp.preshared_key,
                None => None,
            },
        );
        let mut entries: Vec<(String, Json)> = Vec::new();
        crate::json::push_entry(&mut entries, "name", Json::Str(self.name.clone()));
        crate::json::push_entry(&mut entries, "enabled", Json::Bool(self.enabled));
        crate::json::push_entry(&mut entries, "purpose", Json::Str(self.purpose.label().to_owned()));
        proof {
            assert(json_entry_seq_view(entries@) =~= c0);
        }
        match &self.group {
            NetworkGroup::Lan(g) => {
                crate::json::push_entry(&mut entries, "networkgroup", Json::Str(g.clone()));
                proof {
                    assert(json_entry_seq_view(entries@) =~= c1);
                }
            },
            NetworkGroup::Wan(g) => {
                crate::json::push_entry(&mut entries, "wan_networkgroup", Json::Str(g.clone()));
                proof {
                    assert(json_entry_seq_view(entries@) =~= c1);
                }
            },
            NetworkGroup::Invalid => {
                proof {
                    assert(json_entry_seq_view(entries@) =~= c1);
                }
            },
        }
        match &self.subnet {
            Some(c) => {
                crate::json::push_entry(&mut entries, "ip_subnet", Json::Str(c.to_text()));
                proof {
                    assert(json_entry_seq_view(entries@) =~= c2);
                }
            },
            None => {
                proof {
                    assert(json_entry_seq_view(entries@) =~= c2);
                }
            },
        }
        match &self.domain {
            Some(d) => {
                crate::json::push_entry(&mut entries, "domain_name", Json::Str(d.clone()));
                proof {
                    assert(json_entry_seq_view(entries@) =~= c3);
                }
            },
            None => {
                proof {
                    assert(json_entry_seq_view(entries@) =~= c3);
                }
            },
        }
        crate::json::push_entry(&mut entries, "vlan_enabled", Json::Bool(self.vlan_enabled));
        proof {
            assert(json_entry_seq_view(entries@) =~= c4);
        }
        match self.vlan {
            Some(x) => {
                crate::json::push_entry(&mut entries, "vlan", Json::Str(crate::json::num_text(x as u64)));
                proof {
                    assert(json_entry_seq_view(entries@) =~= c5);
                }
            },
            None => {
                proof {
                    assert(json_entry_seq_view(entries@) =~= c5);
                }
            },
        }
        let dhcp_on = match &self.dhcp {
            Some(d) => d.enabled,
            None => false,
        };
        crate::json::push_entry(&mut entries, "dhcpd_enabled", Json::Bool(dhcp_on));
        proof {
            assert(json_entry_seq_view(entries@) =~= c6);
        }
        match &self.dhcp {
            Some(d) => {
                match &d.start {
                    Some(a) => {
                        crate::json::push_entry(&mut entries, "dhcpd_start", Json::Str(a.to_text()));
                        proof {
                            assert(json_entry_seq_view(entries@) =~= c7);
                        }
                    },
                    None => {
                        proof {
                            assert(json_entry_seq_view(entries@) =~= c7);
                        }
                    },
                }
                match &d.end {
                    Some(a) => {
                        crate::json::push_entry(&mut entries, "dhcpd_stop", Json::Str(a.to_text()));
                        proof {
                            assert(json_entry_seq_view(entries@) =~= c8);
                        }
                    },
                    None => {
                        proof {
                            assert(json_entry_seq_view(entries@) =~= c8);
                        }
                    },
                }
                match d.lease_seconds {
                    Some(t) => {
                        crate::json::push_entry(&mut entries, "dhcpd_leasetime", Json::Num(t as i128));
                        proof {
                            assert(json_entry_seq_view(entries@) =~= c9);
                        }
                    },
                    None => {
                        proof {
                            assert(json_entry_seq_view(entries@) =~= c9);
                        }
                    },
                }
            },
            None => {
                proof {
                    assert(json_entry_seq_view(entries@) =~= c9);
                }
            },
        }
        match &self.vpn {
            Some(vp) => {
                crate::json::push_entry(&mut entries, "vpn_type", Json::Str(vp.kind.label().to_owned()));
                proof {
                    assert(json_entry_seq_view(entries@) =~= c10);
                }
                match &vp.preshared_key {
                    Some(p) => {
                        crate::json::push_entry(&mut entries, "x_ipsec_pre_shared_key", Json::Str(p.clone()));
                        proof {
                            assert(json_entry_seq_view(entries@) =~= c11);
                        }
                    },
                    None => {
                        proof {
                            assert(json_entry_seq_view(entries@) =~= c11);
                        }
                    },
                }
            },
            None => {
                proof {
                    assert(json_entry_seq_view(entries@) =~= c11);
                }
            },
        }
        let ghost ev = entries@;
        let r = Json::Obj(entries);
        proof {
            assert(r@ == JsonV::Obj(json_entry_seq_view(ev)));
            assert(json_entry_seq_view(ev) == c11);
            assert(sp_network_wire(nv)->Obj_0 =~= c11);
        }
        r
    }

    /// Describes the request that creates this network.
    pub fn create_request(&self, session: &Unified) -> (r: RequestParts)
        ensures
            r.method == Method::Post,
            r.url@ == session.url_chars("/api/s/"@ + self.site@ + "/rest/networkconf"@),
            r.body matches Some(b) && b@ == sp_ser(sp_network_wire(self@)),
            r.cookie@ == session.token@,
            r.tls_verify == session.tls_verify,
    {
        let p = crate::http::site_path(self.site.as_str(), "/rest/networkconf");
        let body = self.to_wire();
        session.request_parts(Method::Post, p.as_str()).with_json(&body)
    }

    /// Describes the request that updates this network.
    pub fn update_request(&self, session: &Unified) -> (r: RequestParts)
        ensures
            r.method == Method::Put,
            r.url@ == session.url_chars(
                "/api/s/"@ + self.site@ + "/rest/networkconf/"@ + self.id@,
            ),
            r.body matches Some(b) && b@ == sp_ser(sp_network_wire(self@)),
            r.cookie@ == session.token@,
            r.tls_verify == session.tls_verify,
    {
        let p = crate::http::site_item_path(
            self.site.as_str(),
            "/rest/networkconf/",
            self.id.as_str(),
        );
        let body = self.to_wire();
        session.request_parts(Method::Put, p.as_str()).with_json(&body)
    }

    /// Describes the request that deletes this network.
    pub fn delete_request(&self, session: &Unified) -> (r: RequestParts)
        ensures
            r.method == Method::Delete,
            r.url@ == session.url_chars(
                "/api/s/"@ + self.site@ + "/rest/networkconf/"@ + self.id@,
            ),
            r.body is None,
            r.cookie@ == session.token@,
            r.tls_verify == session.tls_verify,
    {
        let p = crate::http::site_item_path(
            self.site.as_str(),
            "/rest/networkconf/",
            self.id.as_str(),
        );
        session.request_parts(Method::Delete, p.as_str())
    }

    /// Creates a builder for a network on a site.
    pub fn builder(site: &str, name: &str) -> (r: NetworkBuilder)
        ensures
            r.network.site@ == site@,
            r.network.name@ == name@,
            r.network.id@ == Seq::<char>::empty(),
            r.network.enabled,
            r.network.purpose == NetworkPurpose::Invalid,
            r.network.group@ == NetworkGroupV::Invalid,
            r.network.subnet is None,
            r.network.domain is None,
            !r.network.vlan_enabled,
            r.network.vlan is None,
            r.network.dhcp is None,
            r.network.vpn is None,
    {
        NetworkBuilder {
            network: Network {
                site: site.to_owned(),
                id: String::new(),
                name: name.to_owned(),
                enabled: true,
                purpose: NetworkPurpose::Invalid,
                group: NetworkGroup::Invalid,
                subnet: None,
                domain: None,
                vlan_enabled: false,
                vlan: None,
                dhcp: None,
                vpn: None,
            },
        }
    }
}

/// Builder used to configure a network: a staged accumulator with a
/// terminal validating [`NetworkBuilder::build`].
pub struct NetworkBuilder {
    pub network: Network,
}

impl NetworkBuilder {
    /// Set the purpose (type) for the network.
    pub fn purpose(self, purpose: NetworkPurpose) -> (r: NetworkBuilder)
        ensures
            r.network@ == (NetworkV { purpose, ..self.network@ }),
    {
        NetworkBuilder { network: Network { purpose, ..self.network } }
    }

    /// Set the network group (physical interface) for the network.
    pub fn group(self, group: NetworkGroup) -> (r: NetworkBuilder)
        ensures
            r.network@ == (NetworkV { group: group@, ..self.network@ }),
    {
        NetworkBuilder { network: Network { group, ..self.network } }
    }

    /// Set the gateway-subnet for the network; fails on text the subnet
    /// parser rejects.
    pub fn subnet(self, subnet: &str) -> (r: Result<NetworkBuilder, UnifiedError>)
        ensures
            match ipnet_of(subnet@) {
                Some(t) => r matches Ok(b) && b.network@ == (NetworkV {
                    subnet: Some(cidr_of_parts(t)),
                    ..self.network@
                }),
                None => r matches Err(e) && e@ == ErrV::BadIp,
            },
    {
        match IpCidr::parse(subnet) {
            Some(c) => Ok(
                NetworkBuilder { network: Network { subnet: Some(c), ..self.network } },
            ),
            None => Err(UnifiedError::InvalidIpAddress),
        }
    }

    /// Set the domain name for the network.
    pub fn domain(self, domain: &str) -> (r: NetworkBuilder)
        ensures
            r.network@ == (NetworkV { domain: Some(domain@), ..self.network@ }),
    {
        NetworkBuilder {
            network: Network { domain: Some(domain.to_owned()), ..self.network },
        }
    }

    /// Enable VLAN tagging and set the VLAN ID for the network.
    pub fn vlan(self, vlan: u16) -> (r: NetworkBuilder)
        ensures
            r.network@ == (NetworkV {
                vlan_enabled: true,
                vlan: Some(vlan as int),
                ..self.network@
            }),
    {
        NetworkBuilder {
            network: Network { vlan_enabled: true, vlan: Some(vlan), ..self.network },
        }
    }

    /// Enable and configure DHCP on the network; fails on range text the
    /// address parser rejects.
    pub fn dhcp(self, range: (&str, &str), lease_seconds: Option<u64>) -> (r: Result<
        NetworkBuilder,
        UnifiedError,
    >)
        ensures
            match (sp_parse_ip(range.0@), sp_parse_ip(range.1@)) {
                (Some(a), Some(b)) => r matches Ok(nb) && nb.network@ == (NetworkV {
                    dhcp: Some(
                        NetworkDhcpV {
                            enabled: true,
                            start: Some(a),
                            end: Some(b),
                            lease_seconds: match lease_seconds {
                                Some(t) => Some(t as int),
                                None => None,
                            },
                        },
                    ),
                    ..self.network@
                }),
                _ => r matches Err(e) && e@ == ErrV::BadIp,
            },
    {
        let start = match crate::addr::parse_ip(range.0) {
            Some(a) => a,
            None => {
                return Err(UnifiedError::InvalidIpAddress);
            },
        };
        let end = match crate::addr::parse_ip(range.1) {
            Some(a) => a,
            None => {
                return Err(UnifiedError::InvalidIpAddress);
            },
        };
        Ok(
            NetworkBuilder {
                network: Network {
                    dhcp: Some(
                        NetworkDhcp {
                            enabled: true,
                            start: Some(start),
                            end: Some(end),
                            lease_seconds,
                        },
                    ),
                    ..self.network
                },
            },
        )
    }

    /// Disable DHCP on the network (a no-op when DHCP was never
    /// configured).
    pub fn disable_dhcp(self) -> (r: NetworkBuilder)
        ensures
            r.network@ == (NetworkV {
                dhcp: match self.network@.dhcp {
                    Some(d) => Some(NetworkDhcpV { enabled: false, ..d }),
                    None => None,
                },
                ..self.network@
            }),
    {
        match self.network.dhcp {
            Some(d) => NetworkBuilder {
                network: Network {
                    dhcp: Some(NetworkDhcp { enabled: false, ..d }),
                    ..self.network
                },
            },
            None => NetworkBuilder { network: Network { dhcp: None, ..self.network } },
        }
    }

    /// Enable and configure VPN access on the network.
    pub fn vpn(self, vpn_type: VpnType, preshared_key: &str) -> (r: NetworkBuilder)
        ensures
            r.network@ == (NetworkV {
                vpn: Some(
                    NetworkVpnV { kind: vpn_type, preshared_key: Some(preshared_key@) },
                ),
                ..self.network@
            }),
    {
        NetworkBuilder {
            network: Network {
                vpn: Some(
                    NetworkVpn { kind: vpn_type, preshared_key: Some(preshared_key.to_owned()) },
                ),
                ..self.network
            },
        }
    }

    /// Validates the required fields and yields the network: a subnet,
    /// a purpose and a group must have been set, checked in that order.
    pub fn build(self) -> (r: Result<Network, UnifiedError>)
        ensures
            self.network@.subnet is None ==> (r matches Err(e) && e@ == ErrV::Missing("subnet"@)),
            self.network@.subnet is Some && self.network@.purpose == NetworkPurpose::Invalid ==> (
            r matches Err(e) && e@ == ErrV::Missing("purpose"@)),
            self.network@.subnet is Some && self.network@.purpose != NetworkPurpose::Invalid
                && self.network@.group is Invalid ==> (r matches Err(e) && e@ == ErrV::Missing(
                "group"@,
            )),
            self.network@.subnet is Some && self.network@.purpose != NetworkPurpose::Invalid
                && !(self.network@.group is Invalid) ==> (r matches Ok(n) && n@
                == self.network@),
    {
        if self.network.subnet.is_none() {
            return Err(UnifiedError::MissingAttribute("subnet".to_owned()));
        }
        match self.network.purpose {
            NetworkPurpose::Invalid => {
                return Err(UnifiedError::MissingAttribute("purpose".to_owned()));
            },
            _ => {},
        }
        match self.network.group {
            NetworkGroup::Invalid => {
                return Err(UnifiedError::MissingAttribute("group".to_owned()));
            },
            _ => {},
        }
        Ok(self.network)
    }
}

/// Returns the first network matching the selector, out of a listing.
#[verifier::loop_isolation(false)]
pub fn find_network(mut list: Vec<Network>, sel: &NetworkSel) -> (r: Option<Network>)
    ensures
        match sp_find_network(networks_view(list@), sel@) {
            None => r is None,
            Some(nv) => r matches Some(n) && n@ == nv,
        },
{
    let ghost lv = networks_view(list@);
    proof {
        assert(lv.subrange(0, lv.len() as int) =~= lv);
    }
    let n = list.len();
    let mut k: usize = 0;
    while k < n
        invariant
            k <= n == list@.len(),
            list@.len() == lv.len(),
            forall|i: int| 0 <= i < n ==> lv[i] == #[trigger] list@[i]@,
            sp_find_network(lv, sel@) == sp_find_network(lv.subrange(k as int, n as int), sel@),
        decreases n - k,
    {
        let ghost suffix = lv.subrange(k as int, n as int);
        proof {
            assert(suffix[0] == lv[k as int]);
            assert(suffix.drop_first() =~= lv.subrange(k as int + 1, n as int));
            assert(list@[k as int]@ == lv[k as int]);
        }
        let nw = &list[k];
        let hit = match sel {
            NetworkSel::Id(x) => {
                let b = crate::text::str_eq(nw.id.as_str(), x.as_str());
                proof {
                    assert(b == sp_network_matches(lv[k as int], sel@));
                }
                b
            },
            NetworkSel::Name(x) => {
                let b = crate::text::str_eq(nw.name.as_str(), x.as_str());
                proof {
                    assert(b == sp_network_matches(lv[k as int], sel@));
                }
                b
            },
            NetworkSel::Domain(x) => {
                let b = match &nw.domain {
                    Some(d) => crate::text::str_eq(d.as_str(), x.as_str()),
                    None => false,
                };
                proof {
                    assert(b == sp_network_matches(lv[k as int], sel@));
                }
                b
            },
            NetworkSel::Subnet(c) => {
                let b = match &nw.subnet {
                    Some(s) => *s == *c,
                    None => false,
                };
                proof {
                    assert(b == sp_network_matches(lv[k as int], sel@));
                }
                b
            },
        };
        if hit {
            proof {
                assert(sp_find_network(suffix, sel@) == Some(suffix[0]));
            }
            return Some(list.swap_remove(k));
        }
        proof {
            assert(!sp_network_matches(suffix[0], sel@));
        }
        k = k + 1;
    }
    proof {
        assert(lv.subrange(n as int, n as int) =~= Seq::<NetworkV>::empty());
    }
    None
}

} // verus!