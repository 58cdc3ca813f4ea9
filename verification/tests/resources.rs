//! Resource accessors: listing decode, lookup, and mutation bodies.

use unified::clients::{client_selector, clients_decode, find_client, ClientRef};
use unified::devices::{device_selector, devices_decode, find_device, DeviceRef, DeviceState};
use unified::networks::{find_network, network_selector, networks_decode, NetworkGroup,
    NetworkPurpose, NetworkRef};
use unified::http::Method;
use unified::radius::{find_radius_user, radius_profiles_decode, radius_users_decode,
    RadiusUserRef, TunnelMediumType, TunnelType};
use unified::sites::{find_site, sites_decode, SiteRef};
use unified::wireless::{ap_groups_decode, find_wireless_network, wireless_networks_decode,
    WirelessNetworkRef};
use unified::addr::IpAddr;
use unified::Unified;
use unified::UnifiedError;

fn session() -> Unified {
    Unified::new("c.example.net").set_token("unifises=tok")
}

const CLIENTS_BODY: &str = "{\"meta\":{\"rc\":\"ok\"},\"data\":[\
{\"_id\":\"c1\",\"name\":\"laptop\",\"mac\":\"aa:bb:cc:dd:ee:01\",\"oui\":\"AcmeInc\",\
\"hostname\":\"laptop.lan\",\"ip\":\"10.0.0.17\",\"last_seen\":1700000000,\
\"is_wired\":false,\"is_guest\":false,\"authorized\":true,\"rx_bytes\":123,\"tx_bytes\":456},\
{\"_id\":\"c2\",\"mac\":\"aa:bb:cc:dd:ee:02\",\"oui\":\"Other\",\"ip\":\"bogus\",\
\"is_wired\":true,\"is_guest\":true,\"wired-rx_bytes\":7}\
]}";

#[test]
fn clients_listing_decodes_tolerantly() {
    let list = clients_decode(200, CLIENTS_BODY, "default").expect("should decode");
    assert_eq!(list.len(), 2);
    assert_eq!(list[0].id, "c1");
    assert_eq!(list[0].name.as_deref(), Some("laptop"));
    assert_eq!(list[0].ip, Some(IpAddr::V4(0x0A000011)));
    assert_eq!(list[0].last_seen, Some(1700000000));
    assert!(list[0].authorized);
    assert_eq!(list[0].rx_bytes, 123);
    // Optional fields degrade; an unparsable address degrades to none.
    assert_eq!(list[1].name, None);
    assert_eq!(list[1].ip, None);
    assert_eq!(list[1].rx_bytes, 0);
    assert_eq!(list[1].wired_rx_bytes, 7);
    assert_eq!(list[1].site, "default");
}

#[test]
fn clients_bad_mac_rejects_the_listing() {
    let body = "{\"meta\":{\"rc\":\"ok\"},\"data\":[\
{\"_id\":\"c1\",\"mac\":\"oops\",\"oui\":\"x\",\"is_wired\":false,\"is_guest\":false}]}";
    assert!(matches!(
        clients_decode(200, body, "default"),
        Err(UnifiedError::InvalidMacAddress)
    ));
}

#[test]
fn find_client_by_id_is_exact() {
    let list = clients_decode(200, CLIENTS_BODY, "default").unwrap();
    let sel = client_selector(&ClientRef::Id("c2")).unwrap();
    let hit = find_client(list, &sel).expect("should find");
    assert_eq!(hit.id, "c2");

    let list = clients_decode(200, CLIENTS_BODY, "default").unwrap();
    // Case-sensitive, exact match only.
    let sel = client_selector(&ClientRef::Id("C2")).unwrap();
    assert!(find_client(list, &sel).is_none());
}

#[test]
fn find_client_by_mac_and_ip() {
    let list = clients_decode(200, CLIENTS_BODY, "default").unwrap();
    let sel = client_selector(&ClientRef::Mac("AA:BB:CC:DD:EE:02")).unwrap();
    let hit = find_client(list, &sel).expect("should find");
    assert_eq!(hit.id, "c2");

    let list = clients_decode(200, CLIENTS_BODY, "default").unwrap();
    let sel = client_selector(&ClientRef::Ip("10.0.0.17")).unwrap();
    let hit = find_client(list, &sel).expect("should find");
    assert_eq!(hit.id, "c1");
}

#[test]
fn invalid_selector_fails_before_any_listing() {
    // Selector validation is a separate stage that takes no listing and
    // issues no request: a malformed selector fails on its own.
    assert!(matches!(
        client_selector(&ClientRef::Mac("not-a-mac")),
        Err(UnifiedError::InvalidMacAddress)
    ));
    assert!(matches!(
        client_selector(&ClientRef::Ip("not-an-ip")),
        Err(UnifiedError::InvalidIpAddress)
    ));
    assert!(matches!(
        device_selector(&DeviceRef::Mac("not-a-mac")),
        Err(UnifiedError::InvalidMacAddress)
    ));
    assert!(matches!(
        device_selector(&DeviceRef::Ip("not-an-ip")),
        Err(UnifiedError::InvalidIpAddress)
    ));
    assert!(matches!(
        network_selector(&NetworkRef::Subnet("not-a-subnet")),
        Err(UnifiedError::InvalidIpAddress)
    ));
}

#[test]
fn listing_twice_is_idempotent() {
    let a = clients_decode(200, CLIENTS_BODY, "default").unwrap();
    let b = clients_decode(200, CLIENTS_BODY, "default").unwrap();
    assert_eq!(a.len(), b.len());
    for (x, y) in a.iter().zip(b.iter()) {
        assert_eq!(x.id, y.id);
        assert_eq!(x.name, y.name);
        assert_eq!(x.mac.octets, y.mac.octets);
        assert_eq!(x.ip, y.ip);
        assert_eq!(x.rx_bytes, y.rx_bytes);
    }
}

#[test]
fn client_commands_carry_the_mac() {
    let list = clients_decode(200, CLIENTS_BODY, "default").unwrap();
    let sel = client_selector(&ClientRef::Id("c1")).unwrap();
    let c = find_client(list, &sel).unwrap();
    let s = session();
    let r = c.kick_request(&s);
    assert_eq!(r.method, Method::Post);
    assert_eq!(r.url, "https://c.example.net/api/s/default/cmd/stamgr");
    assert_eq!(
        r.body.as_deref(),
        Some("{\"cmd\":\"kick-sta\",\"mac\":\"AA:BB:CC:DD:EE:01\"}")
    );
    let r = c.block_request(&s);
    assert_eq!(
        r.body.as_deref(),
        Some("{\"cmd\":\"block-sta\",\"mac\":\"AA:BB:CC:DD:EE:01\"}")
    );
    let r = c.unblock_request(&s);
    assert_eq!(
        r.body.as_deref(),
        Some("{\"cmd\":\"unblock-sta\",\"mac\":\"AA:BB:CC:DD:EE:01\"}")
    );
}

const DEVICES_BODY: &str = "{\"meta\":{\"rc\":\"ok\"},\"data\":[\
{\"_id\":\"d1\",\"name\":\"ap1\",\"model\":\"U7\",\"mac\":\"aa:bb:cc:00:00:01\",\
\"ip\":\"10.0.0.2\",\"version\":\"6.0.0\",\"upgradable\":false,\"state\":7,\
\"uptime\":3600,\"rx_bytes\":1,\"tx_bytes\":2},\
{\"_id\":\"d2\",\"name\":\"sw1\",\"model\":\"US8\",\"mac\":\"aa:bb:cc:00:00:02\",\
\"ip\":\"\",\"network_table\":[{\"ip\":\"10.0.0.3\"},{\"attr_no_delete\":true,\"ip\":\"10.0.0.4\"}],\
\"version\":\"6.0.0\",\"upgradable\":true,\"state\":999,\"uptime\":60,\"rx_bytes\":0,\"tx_bytes\":0}\
]}";

#[test]
fn device_state_mapping() {
    assert_eq!(DeviceState::from_u32(7), DeviceState::Adopting);
    assert_eq!(DeviceState::from_u32(0), DeviceState::Disconnected);
    assert_eq!(DeviceState::from_u32(14), DeviceState::ManagedByOther);
    // Out of the known range maps to the unknown state rather than
    // failing the decode.
    assert_eq!(DeviceState::from_u32(999), DeviceState::Unknown);
    assert_eq!(DeviceState::from_u32(7).label(), "Adopting");
}

#[test]
fn devices_listing_decodes() {
    let list = devices_decode(200, DEVICES_BODY).expect("should decode");
    assert_eq!(list.len(), 2);
    assert_eq!(list[0].state, DeviceState::Adopting);
    assert_eq!(list[0].ip, Some(IpAddr::V4(0x0A000002)));
    assert_eq!(list[0].uptime, 3600);
    // The out-of-range state decodes as unknown, not as a failure.
    assert_eq!(list[1].state, DeviceState::Unknown);
    // The first persistent network-table entry wins.
    assert_eq!(list[1].ip, Some(IpAddr::V4(0x0A000004)));
}

#[test]
fn find_device_by_id() {
    let list = devices_decode(200, DEVICES_BODY).unwrap();
    let sel = device_selector(&DeviceRef::Id("d2")).unwrap();
    let hit = find_device(list, &sel).expect("should find");
    assert_eq!(hit.name, "sw1");
    let list = devices_decode(200, DEVICES_BODY).unwrap();
    let sel = device_selector(&DeviceRef::Id("nope")).unwrap();
    assert!(find_device(list, &sel).is_none());
}

const NETWORKS_BODY: &str = "{\"meta\":{\"rc\":\"ok\"},\"data\":[\
{\"_id\":\"n1\",\"name\":\"LAN\",\"purpose\":\"corporate\",\"networkgroup\":\"LAN\",\
\"ip_subnet\":\"10.0.0.1/24\",\"domain_name\":\"corp.example\",\"vlan_enabled\":true,\
\"vlan\":\"20\",\"dhcpd_enabled\":true,\"dhcpd_start\":\"10.0.0.10\",\
\"dhcpd_stop\":\"10.0.0.99\",\"dhcpd_leasetime\":86400},\
{\"_id\":\"n2\",\"name\":\"VPN\",\"purpose\":\"remote-user-vpn\",\"vpn_type\":\"l2tp-server\",\
\"x_ipsec_pre_shared_key\":\"psk\"}\
]}";

#[test]
fn networks_listing_decodes() {
    let list = networks_decode(200, NETWORKS_BODY, "default").expect("should decode");
    assert_eq!(list.len(), 2);
    let n = &list[0];
    assert_eq!(n.purpose, NetworkPurpose::Corporate);
    assert!(matches!(&n.group, NetworkGroup::Lan(g) if g == "LAN"));
    let subnet = n.subnet.unwrap();
    assert_eq!(subnet.addr, IpAddr::V4(0x0A000001));
    assert_eq!(subnet.prefix, 24);
    assert!(n.enabled);
    assert_eq!(n.vlan, Some(20));
    let dhcp = n.dhcp.as_ref().unwrap();
    assert!(dhcp.enabled);
    assert_eq!(dhcp.start, Some(IpAddr::V4(0x0A00000A)));
    assert_eq!(dhcp.lease_seconds, Some(86400));
    let v = &list[1];
    assert_eq!(v.purpose, NetworkPurpose::RemoteUserVpn);
    let vpn = v.vpn.as_ref().unwrap();
    assert_eq!(vpn.preshared_key.as_deref(), Some("psk"));
}

#[test]
fn find_network_by_subnet_and_domain() {
    let list = networks_decode(200, NETWORKS_BODY, "default").unwrap();
    let sel = network_selector(&NetworkRef::Subnet("10.0.0.1/24")).unwrap();
    let hit = find_network(list, &sel).expect("should find");
    assert_eq!(hit.id, "n1");
    let list = networks_decode(200, NETWORKS_BODY, "default").unwrap();
    let sel = network_selector(&NetworkRef::Domain("corp.example")).unwrap();
    let hit = find_network(list, &sel).expect("should find");
    assert_eq!(hit.id, "n1");
    let list = networks_decode(200, NETWORKS_BODY, "default").unwrap();
    let sel = network_selector(&NetworkRef::Name("VPN")).unwrap();
    let hit = find_network(list, &sel).expect("should find");
    assert_eq!(hit.id, "n2");
}

#[test]
fn find_returns_the_first_match() {
    let body = "{\"meta\":{\"rc\":\"ok\"},\"data\":[\
{\"_id\":\"n1\",\"name\":\"Twin\",\"purpose\":\"corporate\"},\
{\"_id\":\"n2\",\"name\":\"Twin\",\"purpose\":\"guest\"}]}";
    let list = networks_decode(200, body, "default").unwrap();
    let sel = network_selector(&NetworkRef::Name("Twin")).unwrap();
    let hit = find_network(list, &sel).expect("should find");
    assert_eq!(hit.id, "n1");
}

#[test]
fn vlan_text_parses_tolerantly() {
    let body = "{\"meta\":{\"rc\":\"ok\"},\"data\":[\
{\"_id\":\"n1\",\"name\":\"A\",\"purpose\":\"corporate\",\"vlan\":\"+20\"},\
{\"_id\":\"n2\",\"name\":\"B\",\"purpose\":\"corporate\",\"vlan\":\"70000\"},\
{\"_id\":\"n3\",\"name\":\"C\",\"purpose\":\"corporate\",\"vlan\":\"junk\"}]}";
    let list = networks_decode(200, body, "default").unwrap();
    assert_eq!(list[0].vlan, Some(20));
    assert_eq!(list[1].vlan, None);
    assert_eq!(list[2].vlan, None);
}

#[test]
fn network_mutation_requests() {
    let list = networks_decode(200, NETWORKS_BODY, "default").unwrap();
    let sel = network_selector(&NetworkRef::Id("n1")).unwrap();
    let n = find_network(list, &sel).unwrap();
    let s = session();
    let r = n.update_request(&s);
    assert_eq!(r.method, Method::Put);
    assert_eq!(r.url, "https://c.example.net/api/s/default/rest/networkconf/n1");
    let body = r.body.unwrap();
    assert!(body.contains("\"name\":\"LAN\""));
    assert!(body.contains("\"ip_subnet\":\"10.0.0.1/24\""));
    assert!(body.contains("\"dhcpd_leasetime\":86400"));
    assert!(!body.contains("_id"));
    let r = n.delete_request(&s);
    assert_eq!(r.method, Method::Delete);
    assert!(r.body.is_none());
}

const WLANS_BODY: &str = "{\"meta\":{\"rc\":\"ok\"},\"data\":[\
{\"_id\":\"w1\",\"name\":\"Corp WiFi\",\"enabled\":true,\"security\":\"wpapsk\",\
\"wpa_mode\":\"wpa2\",\"wpa_enc\":\"ccmp\",\"x_passphrase\":\"secret123\",\
\"ap_group_ids\":[\"g1\"],\"networkconf_id\":\"n1\",\"vlan\":\"30\",\"hide_ssid\":false},\
{\"_id\":\"w2\",\"name\":\"Radius WiFi\",\"enabled\":true,\"security\":\"wpaeap\",\
\"wpa_mode\":\"wpa2\",\"wpa_enc\":\"ccmp\",\"x_passphrase\":\"hidden\",\
\"ap_group_ids\":[],\"radiusprofile_id\":\"rp1\"}\
]}";

#[test]
fn wireless_listing_decodes() {
    let list = wireless_networks_decode(200, WLANS_BODY, "default").expect("should decode");
    assert_eq!(list.len(), 2);
    assert_eq!(list[0].passphrase.as_deref(), Some("secret123"));
    assert_eq!(list[0].vlan, Some(30));
    assert!(list[0].advertised);
    assert_eq!(list[0].ap_groups, vec!["g1".to_string()]);
    // An 802.1x network never exposes its passphrase.
    assert_eq!(list[1].passphrase, None);
    assert_eq!(list[1].radius_profile.as_deref(), Some("rp1"));
}

#[test]
fn find_wireless_by_ssid() {
    let list = wireless_networks_decode(200, WLANS_BODY, "default").unwrap();
    let hit = find_wireless_network(list, &WirelessNetworkRef::Ssid("Radius WiFi")).unwrap();
    assert_eq!(hit.id, "w2");
    let list = wireless_networks_decode(200, WLANS_BODY, "default").unwrap();
    assert!(find_wireless_network(list, &WirelessNetworkRef::Ssid("nope")).is_none());
}

#[test]
fn wireless_state_change_is_a_single_field_patch() {
    let list = wireless_networks_decode(200, WLANS_BODY, "default").unwrap();
    let w = find_wireless_network(list, &WirelessNetworkRef::Id("w1")).unwrap();
    let s = session();
    let r = w.disable_request(&s);
    assert_eq!(r.method, Method::Put);
    assert_eq!(r.url, "https://c.example.net/api/s/default/rest/wlanconf/w1");
    assert_eq!(r.body.as_deref(), Some("{\"enabled\":false}"));
    let r = w.enable_request(&s);
    assert_eq!(r.body.as_deref(), Some("{\"enabled\":true}"));
}

#[test]
fn ap_groups_transparent_listing() {
    let body = "[{\"_id\":\"g1\",\"name\":\"All APs\"},{\"_id\":\"g2\",\"name\":\"Lobby\"}]";
    let list = ap_groups_decode(200, body, "default").expect("should decode");
    assert_eq!(list.len(), 2);
    assert_eq!(list[1].name, "Lobby");
}

const RADIUS_BODY: &str = "{\"meta\":{\"rc\":\"ok\"},\"data\":[\
{\"_id\":\"u1\",\"name\":\"joe\",\"x_password\":\"pw\",\"vlan\":\"20\",\
\"tunnel_type\":13,\"tunnel_medium_type\":6},\
{\"_id\":\"u2\",\"name\":\"jane\",\"x_password\":\"pw2\",\"tunnel_type\":99}\
]}";

#[test]
fn radius_users_listing_decodes() {
    let list = radius_users_decode(200, RADIUS_BODY, "default").expect("should decode");
    assert_eq!(list.len(), 2);
    assert_eq!(list[0].vlan, Some(20));
    assert_eq!(list[0].tunnel_type, Some(TunnelType::VirtualLan));
    assert_eq!(list[0].tunnel_medium_type, Some(TunnelMediumType::Ethernet802));
    // An out-of-range tunnel number degrades to none.
    assert_eq!(list[1].tunnel_type, None);
}

#[test]
fn find_radius_user_by_name() {
    let list = radius_users_decode(200, RADIUS_BODY, "default").unwrap();
    let hit = find_radius_user(list, &RadiusUserRef::Name("jane")).unwrap();
    assert_eq!(hit.id, "u2");
}

#[test]
fn radius_profiles_listing_decodes() {
    let body = "{\"meta\":{\"rc\":\"ok\"},\"data\":[{\"_id\":\"rp1\",\"name\":\"corp\"}]}";
    let list = radius_profiles_decode(200, body).expect("should decode");
    assert_eq!(list.len(), 1);
    assert_eq!(list[0].name, "corp");
}

const SITES_BODY: &str = "{\"meta\":{\"rc\":\"ok\"},\"data\":[\
{\"_id\":\"s1\",\"name\":\"default\",\"desc\":\"Head Office\",\"num_new_alarms\":3,\
\"health\":[{\"subsystem\":\"wan\",\"status\":\"ok\"},{\"subsystem\":\"wlan\",\"status\":\"warning\"}]}\
]}";

#[test]
fn sites_listing_decodes_health() {
    let list = sites_decode(200, SITES_BODY).expect("should decode");
    assert_eq!(list.len(), 1);
    let s = &list[0];
    assert_eq!(s.alarms, 3);
    assert!(s.health.wan);
    assert!(!s.health.wlan);
    assert!(!s.health.www);
}

#[test]
fn find_site_by_description() {
    let list = sites_decode(200, SITES_BODY).unwrap();
    let hit = find_site(list, &SiteRef::Description("Head Office")).unwrap();
    assert_eq!(hit.name, "default");
}

#[test]
fn alerts_listing_decodes() {
    let body = "{\"meta\":{\"rc\":\"ok\"},\"data\":[\
{\"time\":1700000000000,\"subsystem\":\"wan\",\"msg\":\"WAN went down\",\
\"archived\":false,\"gw_name\":\"gateway\"}]}";
    let list = unified::alerts::alerts_decode(200, body).expect("should decode");
    assert_eq!(list.len(), 1);
    assert_eq!(list[0].time_ms, 1700000000000);
    assert_eq!(list[0].subsystem, "WAN");
    assert_eq!(list[0].device.as_deref(), Some("gateway"));
    assert!(!list[0].archived);
}

#[test]
fn alerts_request_carries_the_limit() {
    let s = session();
    let r = unified::alerts::alerts_request(&s, "default", Some(5));
    assert_eq!(r.url, "https://c.example.net/api/s/default/stat/alarm?_limit=5");
    let r = unified::alerts::alerts_request(&s, "default", None);
    assert_eq!(r.url, "https://c.example.net/api/s/default/stat/alarm");
}

#[test]
fn events_listing_decodes() {
    let body = "{\"meta\":{\"rc\":\"ok\"},\"data\":[\
{\"time\":1700000001000,\"msg\":\"User logged in\",\"hostname\":\"laptop\"},\
{\"time\":1700000002000,\"msg\":\"Roamed\",\"subsystem\":\"wlan\",\"ap_name\":\"ap1\",\"ssid\":\"Corp\"}]}";
    let list = unified::events::events_decode(200, body).expect("should decode");
    assert_eq!(list.len(), 2);
    // A record without a subsystem defaults to the authentication one.
    assert_eq!(list[0].subsystem, "AUTH");
    assert_eq!(list[0].device.as_deref(), Some("laptop"));
    assert_eq!(list[1].subsystem, "WLAN");
    assert_eq!(list[1].ssid.as_deref(), Some("Corp"));
}
