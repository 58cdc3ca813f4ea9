//! Builder validation and request construction for created resources.

use unified::http::Method;
use unified::networks::{Network, NetworkGroup, NetworkPurpose, VpnType};
use unified::radius::{RadiusUser, TunnelMediumType, TunnelType};
use unified::wireless::{WirelessNetwork, WirelessNetworkSecurity, WirelessNetworkWpaMode};
use unified::addr::IpAddr;
use unified::Unified;
use unified::UnifiedError;

#[test]
fn network_builder_round_trip() {
    let n = Network::builder("default", "ACME - Employees")
        .purpose(NetworkPurpose::Corporate)
        .group(NetworkGroup::Lan("LAN1".to_string()))
        .subnet("10.0.0.1/24")
        .expect("subnet should parse")
        .build()
        .expect("build should succeed");
    assert_eq!(n.name, "ACME - Employees");
    assert_eq!(n.purpose, NetworkPurpose::Corporate);
    assert!(matches!(&n.group, NetworkGroup::Lan(g) if g == "LAN1"));
    let subnet = n.subnet.unwrap();
    assert_eq!(subnet.addr, IpAddr::V4(0x0A000001));
    assert_eq!(subnet.prefix, 24);
    assert!(n.enabled);
}

#[test]
fn network_builder_missing_subnet() {
    let r = Network::builder("default", "ACME - Employees")
        .purpose(NetworkPurpose::Corporate)
        .group(NetworkGroup::Lan("LAN1".to_string()))
        .build();
    match r {
        Err(UnifiedError::MissingAttribute(f)) => assert_eq!(f, "subnet"),
        _ => panic!("expected the missing-subnet error"),
    }
}

#[test]
fn network_builder_missing_purpose_and_group() {
    let r = Network::builder("default", "N")
        .subnet("10.0.0.1/24")
        .unwrap()
        .build();
    match r {
        Err(UnifiedError::MissingAttribute(f)) => assert_eq!(f, "purpose"),
        _ => panic!("expected the missing-purpose error"),
    }
    let r = Network::builder("default", "N")
        .subnet("10.0.0.1/24")
        .unwrap()
        .purpose(NetworkPurpose::Guest)
        .build();
    match r {
        Err(UnifiedError::MissingAttribute(f)) => assert_eq!(f, "group"),
        _ => panic!("expected the missing-group error"),
    }
}

#[test]
fn network_builder_rejects_bad_subnet() {
    let r = Network::builder("default", "N").subnet("not-a-subnet");
    assert!(matches!(r, Err(UnifiedError::InvalidIpAddress)));
    let r = Network::builder("default", "N").dhcp(("10.0.0.10", "bogus"), None);
    assert!(matches!(r, Err(UnifiedError::InvalidIpAddress)));
}

#[test]
fn network_create_request_body() {
    let s = Unified::new("c.example.net").set_token("t=1");
    let n = Network::builder("default", "Net")
        .purpose(NetworkPurpose::Corporate)
        .group(NetworkGroup::Lan("LAN1".to_string()))
        .subnet("10.0.0.1/24")
        .unwrap()
        .vlan(20)
        .dhcp(("10.0.0.10", "10.0.0.99"), Some(86400))
        .unwrap()
        .vpn(VpnType::L2tp, "psk")
        .build()
        .unwrap();
    let r = n.create_request(&s);
    assert_eq!(r.method, Method::Post);
    assert_eq!(r.url, "https://c.example.net/api/s/default/rest/networkconf");
    assert_eq!(
        r.body.as_deref(),
        Some(
            "{\"name\":\"Net\",\"enabled\":true,\"purpose\":\"corporate\",\
\"networkgroup\":\"LAN1\",\"ip_subnet\":\"10.0.0.1/24\",\"vlan_enabled\":true,\
\"vlan\":\"20\",\"dhcpd_enabled\":true,\"dhcpd_start\":\"10.0.0.10\",\
\"dhcpd_stop\":\"10.0.0.99\",\"dhcpd_leasetime\":86400,\
\"vpn_type\":\"l2tp-server\",\"x_ipsec_pre_shared_key\":\"psk\"}"
        )
    );
}

#[test]
fn wireless_builder_validations_in_order() {
    let r = WirelessNetwork::builder("default", "SSID").build();
    match r {
        Err(UnifiedError::MissingAttribute(f)) => assert_eq!(f, "network"),
        _ => panic!("expected the missing-network error"),
    }
    let r = WirelessNetwork::builder("default", "SSID").network("n1").build();
    match r {
        Err(UnifiedError::MissingAttribute(f)) => assert_eq!(f, "ap_groups"),
        _ => panic!("expected the missing-groups error"),
    }
    let r = WirelessNetwork::builder("default", "SSID")
        .network("n1")
        .ap_groups(vec!["g1".to_string()])
        .build();
    match r {
        Err(UnifiedError::MissingAttribute(f)) => assert_eq!(f, "security"),
        _ => panic!("expected the missing-security error"),
    }
    let r = WirelessNetwork::builder("default", "SSID")
        .network("n1")
        .ap_groups(vec!["g1".to_string()])
        .security(WirelessNetworkSecurity::Wpa2)
        .build();
    match r {
        Err(UnifiedError::MissingAttribute(f)) => assert_eq!(f, "wpa"),
        _ => panic!("expected the missing-wpa error"),
    }
    let r = WirelessNetwork::builder("default", "SSID")
        .network("n1")
        .ap_groups(vec!["g1".to_string()])
        .security(WirelessNetworkSecurity::WpaEap)
        .wpa(WirelessNetworkWpaMode::Wpa2)
        .build();
    match r {
        Err(UnifiedError::MissingAttribute(f)) => assert_eq!(f, "radius_profile"),
        _ => panic!("expected the missing-profile error"),
    }
}

#[test]
fn wireless_builder_create_body() {
    let s = Unified::new("c.example.net").set_token("t=1");
    let w = WirelessNetwork::builder("default", "Corp WiFi")
        .network("n1")
        .ap_groups(vec!["g1".to_string(), "g2".to_string()])
        .security(WirelessNetworkSecurity::Wpa2)
        .wpa(WirelessNetworkWpaMode::Wpa2)
        .passphrase("secret123")
        .vlan(30)
        .advertised(false)
        .build()
        .expect("build should succeed");
    let r = w.create_request(&s);
    assert_eq!(r.url, "https://c.example.net/api/s/default/rest/wlanconf");
    assert_eq!(
        r.body.as_deref(),
        Some(
            "{\"name\":\"Corp WiFi\",\"enabled\":true,\"networkconf_id\":\"n1\",\
\"ap_group_ids\":[\"g1\",\"g2\"],\"security\":\"wpapsk\",\"wpa_mode\":\"wpa2\",\
\"wpa_enc\":\"ccmp\",\"x_passphrase\":\"secret123\",\"vlan\":\"30\",\"hide_ssid\":true}"
        )
    );
}

#[test]
fn radius_builder_and_wire_body() {
    let s = Unified::new("c.example.net").set_token("t=1");
    let u = RadiusUser::builder("default", "joe.shmoe", "superpassword")
        .vlan(20)
        .tunnel_type(TunnelType::VirtualLan)
        .tunnel_medium_type(TunnelMediumType::Ethernet802)
        .build();
    assert_eq!(u.name, "joe.shmoe");
    let r = u.create_request(&s);
    assert_eq!(r.url, "https://c.example.net/api/s/default/rest/account");
    assert_eq!(
        r.body.as_deref(),
        Some(
            "{\"name\":\"joe.shmoe\",\"x_password\":\"superpassword\",\"vlan\":\"20\",\
\"tunnel_type\":13,\"tunnel_medium_type\":6}"
        )
    );
    let r = u.delete_request(&s);
    assert_eq!(r.method, Method::Delete);
    assert_eq!(r.url, "https://c.example.net/api/s/default/rest/account/");
}
