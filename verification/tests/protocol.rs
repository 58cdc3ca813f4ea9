//! Protocol-layer behaviour: JSON, envelopes, sessions, addresses.

use unified::addr::{IpAddr, IpCidr, MacAddr};
use unified::http::{decode_v1, decode_v1_nodata, decode_udm_auth, decode_v2, Method};
use unified::json::{json_parse, json_ser, Json};
use unified::unified::session_token;
use unified::Unified;
use unified::UnifiedError;
use std::str::FromStr;

#[test]
fn parse_simple_values() {
    assert!(matches!(json_parse("null"), Some(Json::Null)));
    assert!(matches!(json_parse("true"), Some(Json::Bool(true))));
    assert!(matches!(json_parse("false"), Some(Json::Bool(false))));
    assert!(matches!(json_parse("42"), Some(Json::Num(42))));
    assert!(matches!(json_parse("-17"), Some(Json::Num(-17))));
    assert!(matches!(json_parse("1.5"), Some(Json::Inexact)));
    assert!(matches!(json_parse("1e3"), Some(Json::Inexact)));
    assert!(json_parse("01").is_none());
    assert!(json_parse("nullx").is_none());
    assert!(json_parse("").is_none());
    assert!(json_parse("{").is_none());
}

#[test]
fn parse_strings_and_escapes() {
    match json_parse("\"hello\"") {
        Some(Json::Str(s)) => assert_eq!(s, "hello"),
        _ => panic!("expected a string"),
    }
    match json_parse("\"a\\u0041\\n\\\"\\\\\"") {
        Some(Json::Str(s)) => assert_eq!(s, "aA\n\"\\"),
        _ => panic!("expected a string"),
    }
    // A surrogate pair combines into one character.
    match json_parse("\"\\uD83D\\uDE00\"") {
        Some(Json::Str(s)) => assert_eq!(s, "\u{1F600}"),
        _ => panic!("expected a string"),
    }
    // A lone surrogate is rejected.
    assert!(json_parse("\"\\uD83D\"").is_none());
    // An unescaped control character is rejected.
    assert!(json_parse("\"a\u{0001}b\"").is_none());
}

#[test]
fn parse_containers() {
    match json_parse(" [ 1 , 2 , 3 ] ") {
        Some(Json::Arr(items)) => {
            assert_eq!(items.len(), 3);
            assert!(matches!(items[0], Json::Num(1)));
            assert!(matches!(items[2], Json::Num(3)));
        }
        _ => panic!("expected an array"),
    }
    match json_parse("{\"a\": [true], \"b\": {\"c\": null}}") {
        Some(obj) => {
            assert!(matches!(obj.get("a"), Some(Json::Arr(_))));
            assert!(matches!(obj.get("b"), Some(Json::Obj(_))));
            assert!(obj.get("missing").is_none());
        }
        None => panic!("expected an object"),
    }
    assert!(json_parse("[1,]").is_none());
    assert!(json_parse("{\"a\":}").is_none());
}

#[test]
fn serialize_values() {
    let v = Json::Obj(vec![
        ("a".to_string(), Json::Num(-3)),
        ("b".to_string(), Json::Str("x\"y\\z\n".to_string())),
        ("c".to_string(), Json::Arr(vec![Json::Bool(true), Json::Null])),
    ]);
    assert_eq!(json_ser(&v), "{\"a\":-3,\"b\":\"x\\\"y\\\\z\\n\",\"c\":[true,null]}");
}

#[test]
fn envelope_ok_payload() {
    let r = decode_v1(200, "{\"meta\":{\"rc\":\"ok\"},\"data\":[1,2,3]}");
    match r {
        Ok(Json::Arr(items)) => {
            assert_eq!(items.len(), 3);
            assert!(matches!(items[0], Json::Num(1)));
            assert!(matches!(items[1], Json::Num(2)));
            assert!(matches!(items[2], Json::Num(3)));
        }
        _ => panic!("expected the payload"),
    }
}

#[test]
fn envelope_error_message() {
    let r = decode_v1(200, "{\"meta\":{\"rc\":\"error\",\"msg\":\"bad thing\"}}");
    match r {
        Err(UnifiedError::UnifiError(m)) => assert_eq!(m, "bad thing"),
        _ => panic!("expected a server-reported error"),
    }
}

#[test]
fn envelope_error_without_message() {
    let r = decode_v1(200, "{\"meta\":{\"rc\":\"error\"}}");
    assert!(matches!(r, Err(UnifiedError::Unknown)));
}

#[test]
fn envelope_code_is_case_sensitive() {
    let r = decode_v1_nodata(200, "{\"meta\":{\"rc\":\"OK\"}}");
    assert!(matches!(r, Err(UnifiedError::Unknown)));
    let r = decode_v1_nodata(200, "{\"meta\":{\"rc\":\"ok\"}}");
    assert!(r.is_ok());
}

#[test]
fn http_error_short_circuits() {
    let r = decode_v1(500, "{\"meta\":{\"rc\":\"ok\"},\"data\":[1,2,3]}");
    assert!(matches!(r, Err(UnifiedError::HttpError(500))));
    let r = decode_v1(404, "not even json");
    assert!(matches!(r, Err(UnifiedError::HttpError(404))));
}

#[test]
fn bad_request_still_decodes_envelope() {
    let r = decode_v1(400, "{\"meta\":{\"rc\":\"error\",\"msg\":\"api.err.Invalid\"}}");
    match r {
        Err(UnifiedError::UnifiError(m)) => assert_eq!(m, "api.err.Invalid"),
        _ => panic!("expected a server-reported error"),
    }
    let r = decode_v1(400, "{\"meta\":{\"rc\":\"error\"}}");
    assert!(matches!(r, Err(UnifiedError::Unknown)));
}

#[test]
fn malformed_body_is_a_network_error() {
    assert!(matches!(decode_v1(200, "garbage"), Err(UnifiedError::NetworkError)));
    assert!(matches!(decode_v1(200, "{\"data\":[]}"), Err(UnifiedError::NetworkError)));
    assert!(matches!(
        decode_v1(200, "{\"meta\":{\"rc\":\"ok\"}}"),
        Err(UnifiedError::NetworkError)
    ));
}

#[test]
fn transparent_envelope_always_succeeds() {
    match decode_v2(200, "[{\"_id\":\"g1\",\"name\":\"All APs\"}]") {
        Ok(Json::Arr(items)) => assert_eq!(items.len(), 1),
        _ => panic!("expected the payload"),
    }
    assert!(matches!(decode_v2(503, "[]"), Err(UnifiedError::HttpError(503))));
}

#[test]
fn udm_auth_error_list() {
    assert!(decode_udm_auth(200, "{}").is_ok());
    match decode_udm_auth(200, "{\"errors\":[\"Invalid username or password\"]}") {
        Err(UnifiedError::UnifiError(m)) => assert_eq!(m, "Invalid username or password"),
        _ => panic!("expected a server-reported error"),
    }
    assert!(matches!(
        decode_udm_auth(200, "{\"errors\":[]}"),
        Err(UnifiedError::Unknown)
    ));
}

#[test]
fn session_builders_configure_the_handle() {
    let s = Unified::new("unifi.example.net");
    let parts = s.request_parts(Method::Get, "/api/stat/sites");
    assert_eq!(parts.url, "https://unifi.example.net/api/stat/sites");
    assert!(parts.csrf.is_none());
    assert!(parts.tls_verify);

    let s = Unified::new("unifi.example.net").plaintext().no_tls_verify().set_token("unifises=tok");
    let parts = s.request_parts(Method::Get, "/api/stat/sites");
    assert_eq!(parts.url, "http://unifi.example.net/api/stat/sites");
    assert_eq!(parts.cookie, "unifises=tok");
    assert!(!parts.tls_verify);
}

#[test]
fn gateway_variant_prefixes_routes() {
    let s = Unified::new("gw.example.net").udm_pro().set_token("t=1");
    let parts = s.request_parts(Method::Post, "/api/s/default/cmd/stamgr");
    assert_eq!(parts.url, "https://gw.example.net/proxy/network/api/s/default/cmd/stamgr");
    assert_eq!(parts.csrf.as_deref(), Some(""));
}

#[test]
fn login_request_body_and_paths() {
    let s = Unified::new("c.example.net");
    let r = s.auth_request("joe.shmoe", "hunter2");
    assert_eq!(r.url, "https://c.example.net/api/login");
    assert_eq!(
        r.body.as_deref(),
        Some("{\"username\":\"joe.shmoe\",\"password\":\"hunter2\",\"remember\":true}")
    );
    let s = Unified::new("c.example.net").udm_pro();
    let r = s.auth_request("joe.shmoe", "hunter2");
    assert_eq!(r.url, "https://c.example.net/api/auth/login");
}

#[test]
fn login_scenario_gateway_variant() {
    let s = Unified::new("gw.example.net").udm_pro();
    let cookies = vec![
        "TOKEN=abcdef; Path=/; HttpOnly".to_string(),
        "other=1; Path=/".to_string(),
    ];
    let out = s.auth_outcome(200, "{}", &cookies, Some("csrf-xyz"));
    let session = out.expect("login should succeed");
    assert_eq!(session.token, "TOKEN=abcdef; other=1");
    assert_eq!(session.csrf, "csrf-xyz");
    // A subsequent mutating call carries both headers.
    let parts = session.request_parts(Method::Post, "/api/s/default/cmd/stamgr");
    assert_eq!(parts.cookie, "TOKEN=abcdef; other=1");
    assert_eq!(parts.csrf.as_deref(), Some("csrf-xyz"));
}

#[test]
fn login_unauthorized_is_invalid_credentials() {
    let s = Unified::new("gw.example.net").udm_pro();
    let out = s.auth_outcome(401, "{}", &Vec::new(), None);
    assert!(matches!(out, Err(UnifiedError::InvalidCredentials)));
}

#[test]
fn login_server_error_message_surfaces() {
    let s = Unified::new("c.example.net");
    let out = s.auth_outcome(
        200,
        "{\"meta\":{\"rc\":\"error\",\"msg\":\"api.err.LoginRequired\"}}",
        &Vec::new(),
        None,
    );
    match out {
        Err(UnifiedError::UnifiError(m)) => assert_eq!(m, "api.err.LoginRequired"),
        _ => panic!("expected a server-reported error"),
    }
}

#[test]
fn session_token_joins_cookies() {
    let cookies = vec![
        "unifises=abc123; Path=/; Secure".to_string(),
        "not a cookie".to_string(),
        "csrf_token=def456".to_string(),
    ];
    assert_eq!(session_token(&cookies), "unifises=abc123; csrf_token=def456");
    assert_eq!(session_token(&Vec::new()), "");
}

#[test]
fn mac_parse_agrees_with_the_macaddr_crate() {
    for text in ["aa:bb:cc:dd:ee:ff", "AA-BB-CC-DD-EE-FF", "aabb.ccdd.eeff", "aabbccddeeff"] {
        let ours = MacAddr::parse(text).expect("should parse");
        match macaddr::MacAddr::from_str(text).expect("crate should parse") {
            macaddr::MacAddr::V6(m) => assert_eq!(ours.octets, m.into_array()),
            _ => panic!("expected a 48-bit address"),
        }
    }
    assert!(MacAddr::parse("not-a-mac").is_none());
    assert!(MacAddr::parse("aa:bb:cc:dd:ee").is_none());
}

#[test]
fn mac_text_is_upper_case_colon_separated() {
    let m = MacAddr::parse("aa:bb:cc:dd:ee:0f").unwrap();
    assert_eq!(m.to_text(), "AA:BB:CC:DD:EE:0F");
}

#[test]
fn ip_parse_v4() {
    assert_eq!(unified::addr::parse_ip("192.168.1.1"), Some(IpAddr::V4(0xC0A80101)));
    assert_eq!(unified::addr::parse_ip("0.0.0.0"), Some(IpAddr::V4(0)));
    assert_eq!(unified::addr::parse_ip("255.255.255.255"), Some(IpAddr::V4(0xFFFFFFFF)));
    assert_eq!(unified::addr::parse_ip("256.1.1.1"), None);
    assert_eq!(unified::addr::parse_ip("01.2.3.4"), None);
    assert_eq!(unified::addr::parse_ip("1.2.3"), None);
    assert_eq!(unified::addr::parse_ip("not-an-ip"), None);
}

#[test]
fn ip_parse_v6() {
    assert_eq!(unified::addr::parse_ip("::1"), Some(IpAddr::V6(1)));
    assert_eq!(unified::addr::parse_ip("::"), Some(IpAddr::V6(0)));
    assert_eq!(
        unified::addr::parse_ip("1:2:3:4:5:6:7:8"),
        Some(IpAddr::V6(0x00010002000300040005000600070008))
    );
    assert_eq!(
        unified::addr::parse_ip("fe80::1"),
        Some(IpAddr::V6(0xfe80_0000_0000_0000_0000_0000_0000_0001))
    );
    assert_eq!(
        unified::addr::parse_ip("::ffff:192.0.2.1"),
        Some(IpAddr::V6(0x0000_0000_0000_0000_0000_ffff_c000_0201))
    );
    assert_eq!(unified::addr::parse_ip("1::2::3"), None);
    assert_eq!(unified::addr::parse_ip("1:2:3:4:5:6:7:8:9"), None);
    assert_eq!(unified::addr::parse_ip(":::"), None);
}

#[test]
fn ip_text_round() {
    assert_eq!(IpAddr::V4(0xC0A80101).to_text(), "192.168.1.1");
    assert_eq!(IpAddr::V6(1).to_text(), "0:0:0:0:0:0:0:1");
}

#[test]
fn cidr_parse_agrees_with_the_ipnet_crate() {
    let c = IpCidr::parse("10.0.0.1/24").expect("should parse");
    assert_eq!(c.addr, IpAddr::V4(0x0A000001));
    assert_eq!(c.prefix, 24);
    assert_eq!(c.to_text(), "10.0.0.1/24");
    let c = IpCidr::parse("fd00::/8").expect("should parse");
    assert_eq!(c.prefix, 8);
    assert!(IpCidr::parse("10.0.0.1/33").is_none());
    assert!(IpCidr::parse("10.0.0.1").is_none());
    assert!(IpCidr::parse("junk/24").is_none());
}
