//! Devices: the Unifi hardware adopted on the controller.

use vstd::prelude::*;

verus! {

use crate::addr::{IpAddr, MacAddr, mac_of, sp_parse_ip};
use crate::error::{ErrV, UnifiedError};
use crate::http::{Method, RequestParts, sp_decode_v1};
use crate::json::{Json, JsonV, json_seq_view, jv_get, lemma_json_seq_view};
use crate::unified::Unified;
use crate::wire::{sp_def_bool, sp_req_bool, sp_req_str, sp_req_u32, sp_req_u64};

/// Representation of the attribute used to select a device.
pub enum DeviceRef<'r> {
    /// Select the device by its internal ID.
    Id(&'r str),
    /// Select the device by its MAC address.
    Mac(&'r str),
    /// Select the device by its IP address.
    Ip(&'r str),
}

/// A selector whose MAC or IP text has been parsed; obtained through
/// [`device_selector`].
pub enum DeviceSel {
    Id(String),
    Mac(MacAddr),
    Ip(IpAddr),
}

/// Model of a [`DeviceSel`].
pub enum DeviceSelV {
    Id(Seq<char>),
    Mac(Seq<u8>),
    Ip(IpAddr),
}

impl View for DeviceSel {
    type V = DeviceSelV;

    open spec fn view(&self) -> DeviceSelV {
        match self {
            DeviceSel::Id(x) => DeviceSelV::Id(x@),
            DeviceSel::Mac(m) => DeviceSelV::Mac(m@),
            DeviceSel::Ip(a) => DeviceSelV::Ip(*a),
        }
    }
}

/// States a device can be in.
#[derive(Clone, Copy, Debug, PartialEq, Eq, Structural)]
pub enum DeviceState {
    Disconnected,
    Connected,
    PendingAdoption,
    PendingUpgrade,
    Upgrading,
    Provisionning,
    HeartbeatMissed,
    Adopting,
    Deleting,
    InformError,
    AdoptionRequired,
    AdoptionFailed,
    Isolated,
    RFScanning,
    ManagedByOther,
    Unknown,
}

/// The state named by a wire value; anything out of the known range is
/// [`DeviceState::Unknown`] rather than a decode failure.
pub open spec fn sp_device_state(n: int) -> DeviceState {
    if n == 0 {
        DeviceState::Disconnected
    } else if n == 1 {
        DeviceState::Connected
    } else if n == 2 {
        DeviceState::PendingAdoption
    } else if n == 3 {
        DeviceState::PendingUpgrade
    } else if n == 4 {
        DeviceState::Upgrading
    } else if n == 5 {
        DeviceState::Provisionning
    } else if n == 6 {
        DeviceState::HeartbeatMissed
    } else if n == 7 {
        DeviceState::Adopting
    } else if n == 8 {
        DeviceState::Deleting
    } else if n == 9 {
        DeviceState::InformError
    } else if n == 10 {
        DeviceState::AdoptionRequired
    } else if n == 11 {
        DeviceState::AdoptionFailed
    } else if n == 12 {
        DeviceState::Isolated
    } else if n == 13 {
        DeviceState::RFScanning
    } else if n == 14 {
        DeviceState::ManagedByOther
    } else {
        DeviceState::Unknown
    }
}

/// The label of a state.
pub open spec fn state_label(s: DeviceState) -> Seq<char> {
    match s {
        DeviceState::Disconnected => "Disconnected"@,
        DeviceState::Connected => "Connected"@,
        DeviceState::PendingAdoption => "Pending Adoption"@,
        DeviceState::PendingUpgrade => "Pending Upgrade"@,
        DeviceState::Upgrading => "Upgrading"@,
        DeviceState::Provisionning => "Provisionning"@,
        DeviceState::HeartbeatMissed => "Heartbeat Missed"@,
        DeviceState::Adopting => "Adopting"@,
        DeviceState::Deleting => "Deleting"@,
        DeviceState::InformError => "Inform Error"@,
        DeviceState::AdoptionRequired => "Adoption Required"@,
        DeviceState::AdoptionFailed => "Adoption Failed"@,
        DeviceState::Isolated => "Isolated"@,
        DeviceState::RFScanning => "RF Scanning"@,
        DeviceState::ManagedByOther => "Managed By Other"@,
        DeviceState::Unknown => "Unknown"@,
    }
}

impl DeviceState {
    /// The state a wire value names, exactly as [`sp_device_state`]
    /// describes.
    pub fn from_u32(n: u32) -> (r: DeviceState)
        ensures
            r == sp_device_state(n as int),
    {
        if n == 0 {
            DeviceState::Disconnected
        } else if n == 1 {
            DeviceState::Connected
        } else if n == 2 {
            DeviceState::PendingAdoption
        } else if n == 3 {
            DeviceState::PendingUpgrade
        } else if n == 4 {
            DeviceState::Upgrading
        } else if n == 5 {
            DeviceState::Provisionning
        } else if n == 6 {
            DeviceState::HeartbeatMissed
        } else if n == 7 {
            DeviceState::Adopting
        } else if n == 8 {
            DeviceState::Deleting
        } else if n == 9 {
            DeviceState::InformError
        } else if n == 10 {
            DeviceState::AdoptionRequired
        } else if n == 11 {
            DeviceState::AdoptionFailed
        } else if n == 12 {
            DeviceState::Isolated
        } else if n == 13 {
            DeviceState::RFScanning
        } else if n == 14 {
            DeviceState::ManagedByOther
        } else {
            DeviceState::Unknown
        }
    }

    /// The state's human-readable label.
    pub fn label(&self) -> (r: &'static str)
        ensures
            r@ == state_label(*self),
    {
        match self {
            DeviceState::Disconnected => "Disconnected",
            DeviceState::Connected => "Connected",
            DeviceState::PendingAdoption => "Pending Adoption",
            DeviceState::PendingUpgrade => "Pending Upgrade",
            DeviceState::Upgrading => "Upgrading",
            DeviceState::Provisionning => "Provisionning",
            DeviceState::HeartbeatMissed => "Heartbeat Missed",
            DeviceState::Adopting => "Adopting",
            DeviceState::Deleting => "Deleting",
            DeviceState::InformError => "Inform Error",
            DeviceState::AdoptionRequired => "Adoption Required",
            DeviceState::AdoptionFailed => "Adoption Failed",
            DeviceState::Isolated => "Isolated",
            DeviceState::RFScanning => "RF Scanning",
            DeviceState::ManagedByOther => "Managed By Other",
            DeviceState::Unknown => "Unknown",
        }
    }
}

/// A Unifi device adopted on the controller.
pub struct Device {
    /// Internal ID.
    pub id: String,
    /// Device human-readable name.
    pub name: String,
    /// Hardware model.
    pub model: String,
    /// MAC address.
    pub mac: MacAddr,
    /// IP address.
    pub ip: Option<IpAddr>,
    /// Firmware version running on the device.
    pub version: String,
    /// Is a firmware upgrade available?
    pub upgradable: bool,
    /// State the device is currently in.
    pub state: DeviceState,
    /// Uptime, in seconds.
    pub uptime: u64,
    /// Number of bytes received by the device.
    pub rx_bytes: u64,
    /// Number of bytes sent by the device.
    pub tx_bytes: u64,
}

/// Model of a [`Device`].
pub struct DeviceV {
    pub id: Seq<char>,
    pub name: Seq<char>,
    pub model: Seq<char>,
    pub mac: Seq<u8>,
    pub ip: Option<IpAddr>,
    pub version: Seq<char>,
    pub upgradable: bool,
    pub state: DeviceState,
    pub uptime: int,
    pub rx_bytes: int,
    pub tx_bytes: int,
}

impl View for Device {
    type V = DeviceV;

    open spec fn view(&self) -> DeviceV {
        DeviceV {
            id: self.id@,
            name: self.name@,
            model: self.model@,
            mac: self.mac@,
            ip: self.ip,
            version: self.version@,
            upgradable: self.upgradable,
            state: self.state,
            uptime: self.uptime as int,
            rx_bytes: self.rx_bytes as int,
            tx_bytes: self.tx_bytes as int,
        }
    }
}

/// The views of a vector of devices.
pub open spec fn devices_view(v: Seq<Device>) -> Seq<DeviceV> {
    Seq::new(v.len(), |i: int| v[i]@)
}

/// The network-table entries, each as (persistent flag, address text);
/// `None` when any entry lacks its address string.
pub open spec fn sp_table_entries(items: Seq<JsonV>, k: int) -> Option<Seq<(bool, Seq<char>)>>
    decreases items.len() - k,
{
    if !(0 <= k && k < items.len()) {
        Some(Seq::empty())
    } else {
        match (sp_def_bool(items[k], "attr_no_delete"@, false), sp_req_str(items[k], "ip"@)) {
            (Some(p), Some(ip)) => match sp_table_entries(items, k + 1) {
                None => None,
                Some(rest) => Some(seq![(p, ip)] + rest),
            },
            _ => None,
        }
    }
}

/// First persistent entry whose address parses.
pub open spec fn sp_table_ip(entries: Seq<(bool, Seq<char>)>) -> Option<IpAddr>
    decreases entries.len(),
{
    if entries.len() == 0 {
        None
    } else if entries[0].0 && sp_parse_ip(entries[0].1) is Some {
        sp_parse_ip(entries[0].1)
    } else {
        sp_table_ip(entries.drop_first())
    }
}

/// The device's IP: from a non-empty network table, the first
/// persistent entry whose address parses; otherwise the device's own
/// address field, tolerantly parsed. `None` in the outer `Option`:
/// the record is rejected.
pub open spec fn sp_device_ip(v: JsonV) -> Option<Option<IpAddr>> {
    match jv_get(v, "network_table"@) {
        None => match sp_req_str(v, "ip"@) {
            Some(s) => Some(sp_parse_ip(s)),
            None => None,
        },
        Some(JsonV::Arr(items)) => if items.len() == 0 {
            match sp_req_str(v, "ip"@) {
                Some(s) => Some(sp_parse_ip(s)),
                None => None,
            }
        } else {
            match sp_table_entries(items, 0) {
                None => None,
                Some(entries) => Some(sp_table_ip(entries)),
            }
        },
        Some(_) => None,
    }
}

/// One wire record as a device.
pub open spec fn sp_device_of(v: JsonV) -> Result<DeviceV, ErrV> {
    match (
        sp_req_str(v, "_id"@),
        sp_req_str(v, "name"@),
        sp_req_str(v, "model"@),
        sp_req_str(v, "mac"@),
        sp_req_str(v, "version"@),
    ) {
        (Some(id), Some(name), Some(model), Some(ms), Some(version)) => match mac_of(ms) {
            None => Err(ErrV::BadMac),
            Some(mac) => match (
                sp_req_bool(v, "upgradable"@),
                sp_req_u32(v, "state"@),
                sp_req_u64(v, "uptime"@),
                sp_req_u64(v, "rx_bytes"@),
                sp_req_u64(v, "tx_bytes"@),
            ) {
                (Some(upgradable), Some(state), Some(uptime), Some(rx), Some(tx)) => match sp_device_ip(
                    v,
                ) {
                    None => Err(ErrV::Network),
                    Some(ip) => Ok(
                        DeviceV {
                            id,
                            name,
                            model,
                            mac,
                            ip,
                            version,
                            upgradable,
                            state: sp_device_state(state),
                            uptime,
                            rx_bytes: rx,
                            tx_bytes: tx,
                        },
                    ),
                },
                _ => Err(ErrV::Network),
            },
        },
        _ => Err(ErrV::Network),
    }
}

/// The wire records from index `k` on, each as a device.
pub open spec fn sp_devices_map(items: Seq<JsonV>, k: int) -> Result<Seq<DeviceV>, ErrV>
    decreases items.len() - k,
{
    if !(0 <= k && k < items.len()) {
        Ok(Seq::empty())
    } else {
        match sp_device_of(items[k]) {
            Err(e) => Err(e),
            Ok(d) => match sp_devices_map(items, k + 1) {
                Err(e) => Err(e),
                Ok(rest) => Ok(seq![d] + rest),
            },
        }
    }
}

/// The full decode of a device listing response.
pub open spec fn sp_devices_decode(status: u16, body: Seq<char>) -> Result<Seq<DeviceV>, ErrV> {
    match sp_decode_v1(status, body) {
        Err(e) => Err(e),
        Ok(d) => match d {
            JsonV::Arr(items) => sp_devices_map(items, 0),
            _ => Err(ErrV::Network),
        },
    }
}

/// Whether a device matches a validated selector.
pub open spec fn sp_device_matches(d: DeviceV, sel: DeviceSelV) -> bool {
    match sel {
        DeviceSelV::Id(x) => d.id == x,
        DeviceSelV::Mac(m) => d.mac == m,
        DeviceSelV::Ip(a) => d.ip == Some(a),
    }
}

/// The first device matching the selector, if any.
pub open spec fn sp_find_device(ds: Seq<DeviceV>, sel: DeviceSelV) -> Option<DeviceV>
    decreases ds.len(),
{
    if ds.len() == 0 {
        None
    } else if sp_device_matches(ds[0], sel) {
        Some(ds[0])
    } else {
        sp_find_device(ds.drop_first(), sel)
    }
}

/// Describes the device listing request for a site.
pub fn devices_request(session: &Unified, site: &str) -> (r: RequestParts)
    ensures
        r.method == Method::Get,
        r.url@ == session.url_chars("/api/s/"@ + site@ + "/stat/device"@),
        r.cookie@ == session.token@,
        session.is_udm_pro ==> (r.csrf matches Some(c) && c@ == session.csrf@),
        !session.is_udm_pro ==> r.csrf is None,
        r.tls_verify == session.tls_verify,
        r.body is None,
{
    let p = crate::http::site_path(site, "/stat/device");
    session.request_parts(Method::Get, p.as_str())
}

/// Extracts one device from a wire record.
#[verifier::loop_isolation(false)]
fn device_of_json(v: &Json) -> (r: Result<Device, UnifiedError>)
    ensures
        match sp_device_of(v@) {
            Err(e) => r matches Err(x) && x@ == e,
            Ok(dv) => r matches Ok(d) && d@ == dv,
        },
{
    let id = match v.req_str("_id") {
        Some(x) => x,
        None => {
            return Err(UnifiedError::NetworkError);
        },
    };
    let name = match v.req_str("name") {
        Some(x) => x,
        None => {
            return Err(UnifiedError::NetworkError);
        },
    };
    let model = match v.req_str("model") {
        Some(x) => x,
        None => {
            return Err(UnifiedError::NetworkError);
        },
    };
    let ms = match v.req_str("mac") {
        Some(x) => x,
        None => {
            return Err(UnifiedError::NetworkError);
        },
    };
    let version = match v.req_str("version") {
        Some(x) => x,
        None => {
            return Err(UnifiedError::NetworkError);
        },
    };
    let mac = match MacAddr::parse(ms.as_str()) {
        Some(m) => m,
        None => {
            return Err(UnifiedError::InvalidMacAddress);
        },
    };
    let upgradable = match v.req_bool("upgradable") {
        Some(x) => x,
        None => {
            return Err(UnifiedError::NetworkError);
        },
    };
    let state_n = match v.req_u32("state") {
        Some(x) => x,
        None => {
            return Err(UnifiedError::NetworkError);
        },
    };
    let uptime = match v.req_u64("uptime") {
        Some(x) => x,
        None => {
            return Err(UnifiedError::NetworkError);
        },
    };
    let rx_bytes = match v.req_u64("rx_bytes") {
        Some(x) => x,
        None => {
            return Err(UnifiedError::NetworkError);
        },
    };
    let tx_bytes = match v.req_u64("tx_bytes") {
        Some(x) => x,
        None => {
            return Err(UnifiedError::NetworkError);
        },
    };
    let ip: Option<IpAddr> = match v.get("network_table") {
        None => {
            match v.req_str("ip") {
                Some(s) => crate::addr::parse_ip(s.as_str()),
                None => {
                    return Err(UnifiedError::NetworkError);
                },
            }
        },
        Some(Json::Arr(items)) => {
            if items.len() == 0 {
                match v.req_str("ip") {
                    Some(s) => crate::addr::parse_ip(s.as_str()),
                    None => {
                        return Err(UnifiedError::NetworkError);
                    },
                }
            } else {
                let ghost iv = json_seq_view(items@);
                proof {
                    lemma_json_seq_view(items@);
                }
                let mut entries: Vec<(bool, String)> = Vec::new();
                let n = items.len();
                let mut k: usize = 0;
                while k < n
                    invariant
                        k <= n,
                        entries@.len() == k,
                        sp_table_entries(iv, 0) == (match sp_table_entries(iv, k as int) {
                            None => None::<Seq<(bool, Seq<char>)>>,
                            Some(rest) => Some(table_view(entries@) + rest),
                        }),
                    decreases n - k,
                {
                    let ghost pre = entries@;
                    let p = match items[k].def_bool("attr_no_delete", false) {
                        Some(x) => x,
                        None => {
                            return Err(UnifiedError::NetworkError);
                        },
                    };
                    let ip_s = match items[k].req_str("ip") {
                        Some(x) => x,
                        None => {
                            return Err(UnifiedError::NetworkError);
                        },
                    };
                    entries.push((p, ip_s));
                    proof {
                        assert(table_view(entries@) =~= table_view(pre) + seq![
                            (entries@[k as int].0, entries@[k as int].1@),
                        ]);
                        if sp_table_entries(iv, k as int + 1) is Some {
                            let rest = sp_table_entries(iv, k as int + 1)->Some_0;
                            assert(table_view(pre) + (seq![
                                (entries@[k as int].0, entries@[k as int].1@),
                            ] + rest) =~= table_view(entries@) + rest);
                        }
                    }
                    k = k + 1;
                }
                proof {
                    assert(table_view(entries@) + Seq::<(bool, Seq<char>)>::empty() =~= table_view(
                        entries@,
                    ));
                }
                table_ip(&entries)
            }
        },
        Some(_) => {
            return Err(UnifiedError::NetworkError);
        },
    };
    Ok(
        Device {
            id,
            name,
            model,
            mac,
            ip,
            version,
            upgradable,
            state: DeviceState::from_u32(state_n),
            uptime,
            rx_bytes,
            tx_bytes,
        },
    )
}

/// The views of collected table entries.
pub open spec fn table_view(v: Seq<(bool, String)>) -> Seq<(bool, Seq<char>)> {
    Seq::new(v.len(), |i: int| (v[i].0, v[i].1@))
}

/// First persistent entry whose address parses.
#[verifier::loop_isolation(false)]
fn table_ip(entries: &Vec<(bool, String)>) -> (r: Option<IpAddr>)
    ensures
        r == sp_table_ip(table_view(entries@)),
{
    let ghost tv = table_view(entries@);
    proof {
        assert(tv.subrange(0, tv.len() as int) =~= tv);
    }
    let n = entries.len();
    let mut k: usize = 0;
    while k < n
        invariant
            k <= n,
            sp_table_ip(tv) == sp_table_ip(tv.subrange(k as int, n as int)),
        decreases n - k,
    {
        let ghost suffix = tv.subrange(k as int, n as int);
        proof {
            assert(suffix[0] == tv[k as int]);
            assert(suffix.drop_first() =~= tv.subrange(k as int + 1, n as int));
        }
        if entries[k].0 {
            match crate::addr::parse_ip(entries[k].1.as_str()) {
                Some(a) => {
                    return Some(a);
                },
                None => {},
            }
        }
        k = k + 1;
    }
    proof {
        assert(tv.subrange(n as int, n as int) =~= Seq::<(bool, Seq<char>)>::empty());
    }
    None
}

/// Decodes a device listing response, exactly as [`sp_devices_decode`]
/// states.
#[verifier::loop_isolation(false)]
pub fn devices_decode(status: u16, body: &str) -> (r: Result<Vec<Device>, UnifiedError>)
    ensures
        match sp_devices_decode(status, body@) {
            Ok(dvs) => r matches Ok(v) && devices_view(v@) == dvs,
            Err(e) => r matches Err(x) && x@ == e,
        },
{
    let data = match crate::http::decode_v1(status, body) {
        Ok(d) => d,
        Err(e) => {
            return Err(e);
        },
    };
    let items = match &data {
        Json::Arr(items) => items,
        _ => {
            return Err(UnifiedError::NetworkError);
        },
    };
    let ghost iv = json_seq_view(items@);
    proof {
        lemma_json_seq_view(items@);
    }
    let mut out: Vec<Device> = Vec::new();
    let n = items.len();
    let mut k: usize = 0;
    while k < n
        invariant
            k <= n,
            out@.len() == k,
            sp_devices_map(iv, 0) == (match sp_devices_map(iv, k as int) {
                Err(e) => Err::<Seq<DeviceV>, ErrV>(e),
                Ok(rest) => Ok(devices_view(out@) + rest),
            }),
        decreases n - k,
    {
        let ghost pre = out@;
        match device_of_json(&items[k]) {
            Ok(d) => {
                out.push(d);
                proof {
                    assert(devices_view(out@) =~= devices_view(pre) + seq![out@[k as int]@]);
                    if sp_devices_map(iv, k as int + 1) is Ok {
                        let rest = sp_devices_map(iv, k as int + 1)->Ok_0;
                        assert(devices_view(pre) + (seq![out@[k as int]@] + rest) =~= devices_view(
                            out@,
                        ) + rest);
                    }
                }
            },
            Err(e) => {
                return Err(e);
            },
        }
        k = k + 1;
    }
    proof {
        assert(devices_view(out@) + Seq::<DeviceV>::empty() =~= devices_view(out@));
    }
    Ok(out)
}

/// Validates a selector's text before any listing is fetched.
pub fn device_selector(sel: &DeviceRef) -> (r: Result<DeviceSel, UnifiedError>)
    ensures
        match sel {
            DeviceRef::Id(x) => r matches Ok(s) && s@ == DeviceSelV::Id(x@),
            DeviceRef::Mac(x) => match mac_of(x@) {
                Some(m) => r matches Ok(s) && s@ == DeviceSelV::Mac(m),
                None => r matches Err(e) && e@ == ErrV::BadMac,
            },
            DeviceRef::Ip(x) => match sp_parse_ip(x@) {
                Some(a) => r matches Ok(s) && s@ == DeviceSelV::Ip(a),
                None => r matches Err(e) && e@ == ErrV::BadIp,
            },
        },
{
    match sel {
        DeviceRef::Id(x) => Ok(DeviceSel::Id((*x).to_owned())),
        DeviceRef::Mac(x) => match MacAddr::parse(x) {
            Some(m) => Ok(DeviceSel::Mac(m)),
            None => Err(UnifiedError::InvalidMacAddress),
        },
        DeviceRef::Ip(x) => match crate::addr::parse_ip(x) {
            Some(a) => Ok(DeviceSel::Ip(a)),
            None => Err(UnifiedError::InvalidIpAddress),
        },
    }
}

/// Returns the first device matching the selector, out of a listing.
#[verifier::loop_isolation(false)]
pub fn find_device(mut list: Vec<Device>, sel: &DeviceSel) -> (r: Option<Device>)
    ensures
        match sp_find_device(devices_view(list@), sel@) {
            None => r is None,
            Some(dv) => r matches Some(d) && d@ == dv,
        },
{
    let ghost lv = devices_view(list@);
    proof {
        assert(lv.subrange(0, lv.len() as int) =~= lv);
    }
    let n = list.len();
    let mut k: usize = 0;
    while k < n
        invariant
            k <= n == list@.len(),
            list@.len() == lv.len(),
            forall|i: int| 0 <= i < n ==> lv[i] == #[trigger] list@[i]@,
            sp_find_device(lv, sel@) == sp_find_device(lv.subrange(k as int, n as int), sel@),
        decreases n - k,
    {
        let ghost suffix = lv.subrange(k as int, n as int);
        proof {
            assert(suffix[0] == lv[k as int]);
            assert(suffix.drop_first() =~= lv.subrange(k as int + 1, n as int));
            assert(list@[k as int]@ == lv[k as int]);
        }
        let d = &list[k];
        let hit = match sel {
            DeviceSel::Id(x) => {
                let b = crate::text::str_eq(d.id.as_str(), x.as_str());
                proof {
                    assert(b == sp_device_matches(lv[k as int], sel@));
                }
                b
            },
            DeviceSel::Mac(m) => {
                let b = d.mac.same(m);
                proof {
                    assert(b == sp_device_matches(lv[k as int], sel@));
                }
                b
            },
            DeviceSel::Ip(a) => {
                let b = match &d.ip {
                    Some(da) => *da == *a,
                    None => false,
                };
                proof {
                    assert(b == sp_device_matches(lv[k as int], sel@));
                }
                b
            },
        };
        if hit {
            proof {
                assert(sp_find_device(suffix, sel@) == Some(suffix[0]));
            }
            return Some(list.swap_remove(k));
        }
        proof {
            assert(!sp_device_matches(suffix[0], sel@));
        }
        k = k + 1;
    }
    proof {
        assert(lv.subrange(n as int, n as int) =~= Seq::<DeviceV>::empty());
    }
    None
}

} // verus!
