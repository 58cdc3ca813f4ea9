//! Library-wide laws, stated and proved once over the specification
//! functions that the executable contracts use.

use vstd::prelude::*;

verus! {

use crate::clients::{ClientSelV, ClientV, sp_client_matches, sp_find_client};
use crate::devices::{DeviceSelV, DeviceV, sp_find_device, sp_device_matches};
use crate::error::ErrV;
use crate::http::{sp_decode_udm_auth, sp_decode_v1, sp_decode_v1_nodata, sp_decode_v2,
    sp_status_err};
use crate::networks::{NetworkSelV, NetworkV, sp_find_network, sp_network_matches};
use crate::radius::{RadiusUserRefV, RadiusUserV, sp_find_radius_user, sp_radius_user_matches};
use crate::sites::{SiteRefV, SiteV, sp_find_site, sp_site_matches};
use crate::wireless::{WirelessNetworkRefV, WirelessNetworkV, sp_find_wlan, sp_wlan_matches};

/// Looking a client up by ID returns a listed record whose ID is
/// exactly the one asked for, `None` exactly when no record has that
/// ID, and — when IDs are unique — the only such record.
pub proof fn lemma_find_client_by_id(cs: Seq<ClientV>, x: Seq<char>)
    ensures
        match sp_find_client(cs, ClientSelV::Id(x)) {
            Some(c) => c.id == x && exists|i: int| 0 <= i < cs.len() && cs[i] == c,
            None => forall|i: int| 0 <= i < cs.len() ==> (#[trigger] cs[i]).id != x,
        },
        (forall|i: int, j: int|
            0 <= i < cs.len() && 0 <= j < cs.len() && (#[trigger] cs[i]).id == (
            #[trigger] cs[j]).id ==> i == j) ==> match sp_find_client(cs, ClientSelV::Id(x)) {
            Some(c) => forall|i: int| 0 <= i < cs.len() && (#[trigger] cs[i]).id == x ==> cs[i]
                == c,
            None => true,
        },
    decreases cs.len(),
{
    if cs.len() > 0 {
        let rest = cs.drop_first();
        lemma_find_client_by_id(rest, x);
        if sp_client_matches(cs[0], ClientSelV::Id(x)) {
            assert(sp_find_client(cs, ClientSelV::Id(x)) == Some(cs[0]));
            assert(0 <= 0 < cs.len() && cs[0] == cs[0]);
        } else {
            match sp_find_client(rest, ClientSelV::Id(x)) {
                Some(c) => {
                    let i = choose|i: int| 0 <= i < rest.len() && rest[i] == c;
                    assert(rest[i] == cs[i + 1]);
                    assert(0 <= i + 1 < cs.len() && cs[i + 1] == c);
                },
                None => {
                    assert forall|i: int| 0 <= i < cs.len() implies (#[trigger] cs[i]).id != x by {
                        if i > 0 {
                            assert(rest[i - 1] == cs[i]);
                            assert(rest[i - 1].id != x);
                        }
                    }
                },
            }
        }
    }
    if (forall|i: int, j: int|
        0 <= i < cs.len() && 0 <= j < cs.len() && (#[trigger] cs[i]).id == (#[trigger] cs[j]).id
            ==> i == j) {
        match sp_find_client(cs, ClientSelV::Id(x)) {
            Some(c) => {
                let j = choose|j: int| 0 <= j < cs.len() && cs[j] == c;
                assert forall|i: int|
                    0 <= i < cs.len() && (#[trigger] cs[i]).id == x implies cs[i] == c by {
                    assert(cs[i].id == cs[j].id);
                }
            },
            None => {},
        }
    }
}

/// The same law for devices.
pub proof fn lemma_find_device_by_id(ds: Seq<DeviceV>, x: Seq<char>)
    ensures
        match sp_find_device(ds, DeviceSelV::Id(x)) {
            Some(d) => d.id == x && exists|i: int| 0 <= i < ds.len() && ds[i] == d,
            None => forall|i: int| 0 <= i < ds.len() ==> (#[trigger] ds[i]).id != x,
        },
        (forall|i: int, j: int|
            0 <= i < ds.len() && 0 <= j < ds.len() && (#[trigger] ds[i]).id == (
            #[trigger] ds[j]).id ==> i == j) ==> match sp_find_device(ds, DeviceSelV::Id(x)) {
            Some(c) => forall|i: int| 0 <= i < ds.len() && (#[trigger] ds[i]).id == x ==> ds[i]
                == c,
            None => true,
        },
    decreases ds.len(),
{
    if ds.len() > 0 {
        let rest = ds.drop_first();
        lemma_find_device_by_id(rest, x);
        if sp_device_matches(ds[0], DeviceSelV::Id(x)) {
            assert(sp_find_device(ds, DeviceSelV::Id(x)) == Some(ds[0]));
            assert(0 <= 0 < ds.len() && ds[0] == ds[0]);
        } else {
            match sp_find_device(rest, DeviceSelV::Id(x)) {
                Some(c) => {
                    let i = choose|i: int| 0 <= i < rest.len() && rest[i] == c;
                    assert(rest[i] == ds[i + 1]);
                    assert(0 <= i + 1 < ds.len() && ds[i + 1] == c);
                },
                None => {
                    assert forall|i: int| 0 <= i < ds.len() implies (#[trigger] ds[i]).id != x by {
                        if i > 0 {
                            assert(rest[i - 1] == ds[i]);
                            assert(rest[i - 1].id != x);
                        }
                    }
                },
            }
        }
    }
    if (forall|i: int, j: int|
        0 <= i < ds.len() && 0 <= j < ds.len() && (#[trigger] ds[i]).id == (#[trigger] ds[j]).id
            ==> i == j) {
        match sp_find_device(ds, DeviceSelV::Id(x)) {
            Some(c) => {
                let j = choose|j: int| 0 <= j < ds.len() && ds[j] == c;
                assert forall|i: int|
                    0 <= i < ds.len() && (#[trigger] ds[i]).id == x implies ds[i] == c by {
                    assert(ds[i].id == ds[j].id);
                }
            },
            None => {},
        }
    }
}

/// The same law for wired networks.
pub proof fn lemma_find_network_by_id(ns: Seq<NetworkV>, x: Seq<char>)
    ensures
        match sp_find_network(ns, NetworkSelV::Id(x)) {
            Some(n) => n.id == x && exists|i: int| 0 <= i < ns.len() && ns[i] == n,
            None => forall|i: int| 0 <= i < ns.len() ==> (#[trigger] ns[i]).id != x,
        },
        (forall|i: int, j: int|
            0 <= i < ns.len() && 0 <= j < ns.len() && (#[trigger] ns[i]).id == (
            #[trigger] ns[j]).id ==> i == j) ==> match sp_find_network(ns, NetworkSelV::Id(x)) {
            Some(c) => forall|i: int| 0 <= i < ns.len() && (#[trigger] ns[i]).id == x ==> ns[i]
                == c,
            None => true,
        },
    decreases ns.len(),
{
    if ns.len() > 0 {
        let rest = ns.drop_first();
        lemma_find_network_by_id(rest, x);
        if sp_network_matches(ns[0], NetworkSelV::Id(x)) {
            assert(sp_find_network(ns, NetworkSelV::Id(x)) == Some(ns[0]));
            assert(0 <= 0 < ns.len() && ns[0] == ns[0]);
        } else {
            match sp_find_network(rest, NetworkSelV::Id(x)) {
                Some(c) => {
                    let i = choose|i: int| 0 <= i < rest.len() && rest[i] == c;
                    assert(rest[i] == ns[i + 1]);
                    assert(0 <= i + 1 < ns.len() && ns[i + 1] == c);
                },
                None => {
                    assert forall|i: int| 0 <= i < ns.len() implies (#[trigger] ns[i]).id != x by {
                        if i > 0 {
                            assert(rest[i - 1] == ns[i]);
                            assert(rest[i - 1].id != x);
                        }
                    }
                },
            }
        }
    }
    if (forall|i: int, j: int|
        0 <= i < ns.len() && 0 <= j < ns.len() && (#[trigger] ns[i]).id == (#[trigger] ns[j]).id
            ==> i == j) {
        match sp_find_network(ns, NetworkSelV::Id(x)) {
            Some(c) => {
                let j = choose|j: int| 0 <= j < ns.len() && ns[j] == c;
                assert forall|i: int|
                    0 <= i < ns.len() && (#[trigger] ns[i]).id == x implies ns[i] == c by {
                    assert(ns[i].id == ns[j].id);
                }
            },
            None => {},
        }
    }
}

/// The same law for wireless networks.
pub proof fn lemma_find_wlan_by_id(ws: Seq<WirelessNetworkV>, x: Seq<char>)
    ensures
        match sp_find_wlan(ws, WirelessNetworkRefV::Id(x)) {
            Some(w) => w.id == x && exists|i: int| 0 <= i < ws.len() && ws[i] == w,
            None => forall|i: int| 0 <= i < ws.len() ==> (#[trigger] ws[i]).id != x,
        },
        (forall|i: int, j: int|
            0 <= i < ws.len() && 0 <= j < ws.len() && (#[trigger] ws[i]).id == (
            #[trigger] ws[j]).id ==> i == j) ==> match sp_find_wlan(ws, WirelessNetworkRefV::Id(x)) {
            Some(c) => forall|i: int| 0 <= i < ws.len() && (#[trigger] ws[i]).id == x ==> ws[i]
                == c,
            None => true,
        },
    decreases ws.len(),
{
    if ws.len() > 0 {
        let rest = ws.drop_first();
        lemma_find_wlan_by_id(rest, x);
        if sp_wlan_matches(ws[0], WirelessNetworkRefV::Id(x)) {
            assert(sp_find_wlan(ws, WirelessNetworkRefV::Id(x)) == Some(ws[0]));
            assert(0 <= 0 < ws.len() && ws[0] == ws[0]);
        } else {
            match sp_find_wlan(rest, WirelessNetworkRefV::Id(x)) {
                Some(c) => {
                    let i = choose|i: int| 0 <= i < rest.len() && rest[i] == c;
                    assert(rest[i] == ws[i + 1]);
                    assert(0 <= i + 1 < ws.len() && ws[i + 1] == c);
                },
                None => {
                    assert forall|i: int| 0 <= i < ws.len() implies (#[trigger] ws[i]).id != x by {
                        if i > 0 {
                            assert(rest[i - 1] == ws[i]);
                            assert(rest[i - 1].id != x);
                        }
                    }
                },
            }
        }
    }
    if (forall|i: int, j: int|
        0 <= i < ws.len() && 0 <= j < ws.len() && (#[trigger] ws[i]).id == (#[trigger] ws[j]).id
            ==> i == j) {
        match sp_find_wlan(ws, WirelessNetworkRefV::Id(x)) {
            Some(c) => {
                let j = choose|j: int| 0 <= j < ws.len() && ws[j] == c;
                assert forall|i: int|
                    0 <= i < ws.len() && (#[trigger] ws[i]).id == x implies ws[i] == c by {
                    assert(ws[i].id == ws[j].id);
                }
            },
            None => {},
        }
    }
}

/// The same law for sites.
pub proof fn lemma_find_site_by_id(ss: Seq<SiteV>, x: Seq<char>)
    ensures
        match sp_find_site(ss, SiteRefV::Id(x)) {
            Some(s) => s.id == x && exists|i: int| 0 <= i < ss.len() && ss[i] == s,
            None => forall|i: int| 0 <= i < ss.len() ==> (#[trigger] ss[i]).id != x,
        },
        (forall|i: int, j: int|
            0 <= i < ss.len() && 0 <= j < ss.len() && (#[trigger] ss[i]).id == (
            #[trigger] ss[j]).id ==> i == j) ==> match sp_find_site(ss, SiteRefV::Id(x)) {
            Some(c) => forall|i: int| 0 <= i < ss.len() && (#[trigger] ss[i]).id == x ==> ss[i]
                == c,
            None => true,
        },
    decreases ss.len(),
{
    if ss.len() > 0 {
        let rest = ss.drop_first();
        lemma_find_site_by_id(rest, x);
        if sp_site_matches(ss[0], SiteRefV::Id(x)) {
            assert(sp_find_site(ss, SiteRefV::Id(x)) == Some(ss[0]));
            assert(0 <= 0 < ss.len() && ss[0] == ss[0]);
        } else {
            match sp_find_site(rest, SiteRefV::Id(x)) {
                Some(c) => {
                    let i = choose|i: int| 0 <= i < rest.len() && rest[i] == c;
                    assert(rest[i] == ss[i + 1]);
                    assert(0 <= i + 1 < ss.len() && ss[i + 1] == c);
                },
                None => {
                    assert forall|i: int| 0 <= i < ss.len() implies (#[trigger] ss[i]).id != x by {
                        if i > 0 {
                            assert(rest[i - 1] == ss[i]);
                            assert(rest[i - 1].id != x);
                        }
                    }
                },
            }
        }
    }
    if (forall|i: int, j: int|
        0 <= i < ss.len() && 0 <= j < ss.len() && (#[trigger] ss[i]).id == (#[trigger] ss[j]).id
            ==> i == j) {
        match sp_find_site(ss, SiteRefV::Id(x)) {
            Some(c) => {
                let j = choose|j: int| 0 <= j < ss.len() && ss[j] == c;
                assert forall|i: int|
                    0 <= i < ss.len() && (#[trigger] ss[i]).id == x implies ss[i] == c by {
                    assert(ss[i].id == ss[j].id);
                }
            },
            None => {},
        }
    }
}

/// The same law for RADIUS users.
pub proof fn lemma_find_radius_user_by_id(us: Seq<RadiusUserV>, x: Seq<char>)
    ensures
        match sp_find_radius_user(us, RadiusUserRefV::Id(x)) {
            Some(u) => u.id == x && exists|i: int| 0 <= i < us.len() && us[i] == u,
            None => forall|i: int| 0 <= i < us.len() ==> (#[trigger] us[i]).id != x,
        },
        (forall|i: int, j: int|
            0 <= i < us.len() && 0 <= j < us.len() && (#[trigger] us[i]).id == (
            #[trigger] us[j]).id ==> i == j) ==> match sp_find_radius_user(us, RadiusUserRefV::Id(x)) {
            Some(c) => forall|i: int| 0 <= i < us.len() && (#[trigger] us[i]).id == x ==> us[i]
                == c,
            None => true,
        },
    decreases us.len(),
{
    if us.len() > 0 {
        let rest = us.drop_first();
        lemma_find_radius_user_by_id(rest, x);
        if sp_radius_user_matches(us[0], RadiusUserRefV::Id(x)) {
            assert(sp_find_radius_user(us, RadiusUserRefV::Id(x)) == Some(us[0]));
            assert(0 <= 0 < us.len() && us[0] == us[0]);
        } else {
            match sp_find_radius_user(rest, RadiusUserRefV::Id(x)) {
                Some(c) => {
                    let i = choose|i: int| 0 <= i < rest.len() && rest[i] == c;
                    assert(rest[i] == us[i + 1]);
                    assert(0 <= i + 1 < us.len() && us[i + 1] == c);
                },
                None => {
                    assert forall|i: int| 0 <= i < us.len() implies (#[trigger] us[i]).id != x by {
                        if i > 0 {
                            assert(rest[i - 1] == us[i]);
                            assert(rest[i - 1].id != x);
                        }
                    }
                },
            }
        }
    }
    if (forall|i: int, j: int|
        0 <= i < us.len() && 0 <= j < us.len() && (#[trigger] us[i]).id == (#[trigger] us[j]).id
            ==> i == j) {
        match sp_find_radius_user(us, RadiusUserRefV::Id(x)) {
            Some(c) => {
                let j = choose|j: int| 0 <= j < us.len() && us[j] == c;
                assert forall|i: int|
                    0 <= i < us.len() && (#[trigger] us[i]).id == x implies us[i] == c by {
                    assert(us[i].id == us[j].id);
                }
            },
            None => {},
        }
    }
}

/// A hard HTTP failure short-circuits every envelope decoder to
/// `HttpError` with that status, whatever the body holds.
pub proof fn lemma_http_error_short_circuit(status: u16, body: Seq<char>)
    requires
        sp_status_err(status),
    ensures
        sp_decode_v1(status, body) == Err::<crate::json::JsonV, ErrV>(ErrV::Http(status)),
        sp_decode_v1_nodata(status, body) == Err::<(), ErrV>(ErrV::Http(status)),
        sp_decode_v2(status, body) == Err::<crate::json::JsonV, ErrV>(ErrV::Http(status)),
        sp_decode_udm_auth(status, body) == Err::<(), ErrV>(ErrV::Http(status)),
{
}

/// A tolerated status (success, or bad request) never yields
/// `HttpError`: a well-formed error envelope still reaches the
/// server-reported failure translation.
pub proof fn lemma_bad_request_tolerated(status: u16, body: Seq<char>)
    requires
        !sp_status_err(status),
    ensures
        match sp_decode_v1(status, body) {
            Err(e) => !(e is Http),
            Ok(_) => true,
        },
        match sp_decode_v1_nodata(status, body) {
            Err(e) => !(e is Http),
            Ok(_) => true,
        },
{
}

/// Listing is read-only and deterministic: two listing calls whose
/// responses carry the same status and body decode to the same
/// collection — same records, same field values — so repeated listing
/// against an unchanged server state is idempotent.
pub proof fn lemma_list_idempotent(
    status1: u16,
    body1: Seq<char>,
    status2: u16,
    body2: Seq<char>,
    site: Seq<char>,
)
    requires
        status1 == status2,
        body1 == body2,
    ensures
        crate::clients::sp_clients_decode(status1, body1, site) == crate::clients::sp_clients_decode(
            status2,
            body2,
            site,
        ),
        crate::devices::sp_devices_decode(status1, body1) == crate::devices::sp_devices_decode(
            status2,
            body2,
        ),
        crate::networks::sp_networks_decode(status1, body1, site)
            == crate::networks::sp_networks_decode(status2, body2, site),
        crate::sites::sp_sites_decode(status1, body1) == crate::sites::sp_sites_decode(
            status2,
            body2,
        ),
{
}

} // verus!
