//! RADIUS users and profiles.

use vstd::prelude::*;

verus! {

use crate::clients::opt_str_view;
use crate::error::{ErrV, UnifiedError};
use crate::http::{Method, RequestParts, sp_decode_v1};
use crate::json::{Json, JsonV, json_entry_seq_view, json_seq_view, lemma_json_seq_view,
    sp_digits_of, sp_ser};
use crate::unified::Unified;
use crate::wire::{sp_opt_str, sp_opt_u16, sp_req_str};

/// Representation of the attribute used to select a RADIUS user.
pub enum RadiusUserRef<'r> {
    Id(&'r str),
    Name(&'r str),
}

/// Model of a [`RadiusUserRef`].
pub enum RadiusUserRefV {
    Id(Seq<char>),
    Name(Seq<char>),
}

impl<'r> View for RadiusUserRef<'r> {
    type V = RadiusUserRefV;

    open spec fn view(&self) -> RadiusUserRefV {
        match self {
            RadiusUserRef::Id(x) => RadiusUserRefV::Id(x@),
            RadiusUserRef::Name(x) => RadiusUserRefV::Name(x@),
        }
    }
}

/// Tunnel types for RADIUS users.
#[derive(Clone, Copy, Debug, PartialEq, Eq, Structural)]
pub enum TunnelType {
    Unknown,
    Pptp,
    L2f,
    L2tp,
    Atmp,
    Vtp,
    Ah,
    IpIp,
    MinIpIp,
    Esp,
    Gre,
    Dvs,
    IpInIpTunneling,
    VirtualLan,
}

/// The wire number of a tunnel type.
pub open spec fn tunnel_type_num(t: TunnelType) -> int {
    match t {
        TunnelType::Unknown => 0,
        TunnelType::Pptp => 1,
        TunnelType::L2f => 2,
        TunnelType::L2tp => 3,
        TunnelType::Atmp => 4,
        TunnelType::Vtp => 5,
        TunnelType::Ah => 6,
        TunnelType::IpIp => 7,
        TunnelType::MinIpIp => 8,
        TunnelType::Esp => 9,
        TunnelType::Gre => 10,
        TunnelType::Dvs => 11,
        TunnelType::IpInIpTunneling => 12,
        TunnelType::VirtualLan => 13,
    }
}

/// The tunnel type a wire number names, if any.
pub open spec fn sp_tunnel_type_of(n: int) -> Option<TunnelType> {
    if n == 0 {
        Some(TunnelType::Unknown)
    } else if n == 1 {
        Some(TunnelType::Pptp)
    } else if n == 2 {
        Some(TunnelType::L2f)
    } else if n == 3 {
        Some(TunnelType::L2tp)
    } else if n == 4 {
        Some(TunnelType::Atmp)
    } else if n == 5 {
        Some(TunnelType::Vtp)
    } else if n == 6 {
        Some(TunnelType::Ah)
    } else if n == 7 {
        Some(TunnelType::IpIp)
    } else if n == 8 {
        Some(TunnelType::MinIpIp)
    } else if n == 9 {
        Some(TunnelType::Esp)
    } else if n == 10 {
        Some(TunnelType::Gre)
    } else if n == 11 {
        Some(TunnelType::Dvs)
    } else if n == 12 {
        Some(TunnelType::IpInIpTunneling)
    } else if n == 13 {
        Some(TunnelType::VirtualLan)
    } else {
        None
    }
}

impl TunnelType {
    /// The tunnel type a wire number names, if any.
    pub fn from_u16(n: u16) -> (r: Option<TunnelType>)
        ensures
            r == sp_tunnel_type_of(n as int),
    {
        if n == 0 {
            Some(TunnelType::Unknown)
        } else if n == 1 {
            Some(TunnelType::Pptp)
        } else if n == 2 {
            Some(TunnelType::L2f)
        } else if n == 3 {
            Some(TunnelType::L2tp)
        } else if n == 4 {
            Some(TunnelType::Atmp)
        } else if n == 5 {
            Some(TunnelType::Vtp)
        } else if n == 6 {
            Some(TunnelType::Ah)
        } else if n == 7 {
            Some(TunnelType::IpIp)
        } else if n == 8 {
            Some(TunnelType::MinIpIp)
        } else if n == 9 {
            Some(TunnelType::Esp)
        } else if n == 10 {
            Some(TunnelType::Gre)
        } else if n == 11 {
            Some(TunnelType::Dvs)
        } else if n == 12 {
            Some(TunnelType::IpInIpTunneling)
        } else if n == 13 {
            Some(TunnelType::VirtualLan)
        } else {
            None
        }
    }

    /// The tunnel type's wire number.
    pub fn to_u16(&self) -> (r: u16)
        ensures
            r as int == tunnel_type_num(*self),
    {
        match self {
            TunnelType::Unknown => 0,
            TunnelType::Pptp => 1,
            TunnelType::L2f => 2,
            TunnelType::L2tp => 3,
            TunnelType::Atmp => 4,
            TunnelType::Vtp => 5,
            TunnelType::Ah => 6,
            TunnelType::IpIp => 7,
            TunnelType::MinIpIp => 8,
            TunnelType::Esp => 9,
            TunnelType::Gre => 10,
            TunnelType::Dvs => 11,
            TunnelType::IpInIpTunneling => 12,
            TunnelType::VirtualLan => 13,
        }
    }
}

/// Tunnel medium types for RADIUS users.
#[derive(Clone, Copy, Debug, PartialEq, Eq, Structural)]
pub enum TunnelMediumType {
    Unknown,
    Ip4,
    Ip6,
    Nsap,
    Hdlc,
    Bbn1822,
    Ethernet802,
    E163,
    E164,
    F69,
    X121,
    Ipx,
    AppleTalk,
    DecnetIV,
    BanyanVines,
    E164WithNsap,
}

/// The wire number of a tunnel medium type.
pub open spec fn tunnel_medium_num(t: TunnelMediumType) -> int {
    match t {
        TunnelMediumType::Unknown => 0,
        TunnelMediumType::Ip4 => 1,
        TunnelMediumType::Ip6 => 2,
        TunnelMediumType::Nsap => 3,
        TunnelMediumType::Hdlc => 4,
        TunnelMediumType::Bbn1822 => 5,
        TunnelMediumType::Ethernet802 => 6,
        TunnelMediumType::E163 => 7,
        TunnelMediumType::E164 => 8,
        TunnelMediumType::F69 => 9,
        TunnelMediumType::X121 => 10,
        TunnelMediumType::Ipx => 11,
        TunnelMediumType::AppleTalk => 12,
        TunnelMediumType::DecnetIV => 13,
        TunnelMediumType::BanyanVines => 14,
        TunnelMediumType::E164WithNsap => 15,
    }
}

/// The tunnel medium type a wire number names, if any.
pub open spec fn sp_tunnel_medium_of(n: int) -> Option<TunnelMediumType> {
    if n == 0 {
        Some(TunnelMediumType::Unknown)
    } else if n == 1 {
        Some(TunnelMediumType::Ip4)
    } else if n == 2 {
        Some(TunnelMediumType::Ip6)
    } else if n == 3 {
        Some(TunnelMediumType::Nsap)
    } else if n == 4 {
        Some(TunnelMediumType::Hdlc)
    } else if n == 5 {
        Some(TunnelMediumType::Bbn1822)
    } else if n == 6 {
        Some(TunnelMediumType::Ethernet802)
    } else if n == 7 {
        Some(TunnelMediumType::E163)
    } else if n == 8 {
        Some(TunnelMediumType::E164)
    } else if n == 9 {
        Some(TunnelMediumType::F69)
    } else if n == 10 {
        Some(TunnelMediumType::X121)
    } else if n == 11 {
        Some(TunnelMediumType::Ipx)
    } else if n == 12 {
        Some(TunnelMediumType::AppleTalk)
    } else if n == 13 {
        Some(TunnelMediumType::DecnetIV)
    } else if n == 14 {
        Some(TunnelMediumType::BanyanVines)
    } else if n == 15 {
        Some(TunnelMediumType::E164WithNsap)
    } else {
        None
    }
}

impl TunnelMediumType {
    /// The tunnel medium type a wire number names, if any.
    pub fn from_u16(n: u16) -> (r: Option<TunnelMediumType>)
        ensures
            r == sp_tunnel_medium_of(n as int),
    {
        if n == 0 {
            Some(TunnelMediumType::Unknown)
        } else if n == 1 {
            Some(TunnelMediumType::Ip4)
        } else if n == 2 {
            Some(TunnelMediumType::Ip6)
        } else if n == 3 {
            Some(TunnelMediumType::Nsap)
        } else if n == 4 {
            Some(TunnelMediumType::Hdlc)
        } else if n == 5 {
            Some(TunnelMediumType::Bbn1822)
        } else if n == 6 {
            Some(TunnelMediumType::Ethernet802)
        } else if n == 7 {
            Some(TunnelMediumType::E163)
        } else if n == 8 {
            Some(TunnelMediumType::E164)
        } else if n == 9 {
            Some(TunnelMediumType::F69)
        } else if n == 10 {
            Some(TunnelMediumType::X121)
        } else if n == 11 {
            Some(TunnelMediumType::Ipx)
        } else if n == 12 {
            Some(TunnelMediumType::AppleTalk)
        } else if n == 13 {
            Some(TunnelMediumType::DecnetIV)
        } else if n == 14 {
            Some(TunnelMediumType::BanyanVines)
        } else if n == 15 {
            Some(TunnelMediumType::E164WithNsap)
        } else {
            None
        }
    }

    /// The tunnel medium type's wire number.
    pub fn to_u16(&self) -> (r: u16)
        ensures
            r as int == tunnel_medium_num(*self),
    {
        match self {
            TunnelMediumType::Unknown => 0,
            TunnelMediumType::Ip4 => 1,
            TunnelMediumType::Ip6 => 2,
            TunnelMediumType::Nsap => 3,
            TunnelMediumType::Hdlc => 4,
            TunnelMediumType::Bbn1822 => 5,
            TunnelMediumType::Ethernet802 => 6,
            TunnelMediumType::E163 => 7,
            TunnelMediumType::E164 => 8,
            TunnelMediumType::F69 => 9,
            TunnelMediumType::X121 => 10,
            TunnelMediumType::Ipx => 11,
            TunnelMediumType::AppleTalk => 12,
            TunnelMediumType::DecnetIV => 13,
            TunnelMediumType::BanyanVines => 14,
            TunnelMediumType::E164WithNsap => 15,
        }
    }
}

/// A RADIUS user configured in your RADIUS profile.
pub struct RadiusUser {
    /// Site the user belongs to.
    pub site: String,
    pub id: String,
    pub name: String,
    pub password: String,
    pub vlan: Option<u16>,
    pub tunnel_type: Option<TunnelType>,
    pub tunnel_medium_type: Option<TunnelMediumType>,
}

/// Model of a [`RadiusUser`].
pub struct RadiusUserV {
    pub site: Seq<char>,
    pub id: Seq<char>,
    pub name: Seq<char>,
    pub password: Seq<char>,
    pub vlan: Option<int>,
    pub tunnel_type: Option<TunnelType>,
    pub tunnel_medium_type: Option<TunnelMediumType>,
}

impl View for RadiusUser {
    type V = RadiusUserV;

    open spec fn view(&self) -> RadiusUserV {
        RadiusUserV {
            site: self.site@,
            id: self.id@,
            name: self.name@,
            password: self.password@,
            vlan: match self.vlan {
                Some(n) => Some(n as int),
                None => None,
            },
            tunnel_type: self.tunnel_type,
            tunnel_medium_type: self.tunnel_medium_type,
        }
    }
}

/// The views of a vector of users.
pub open spec fn radius_users_view(v: Seq<RadiusUser>) -> Seq<RadiusUserV> {
    Seq::new(v.len(), |i: int| v[i]@)
}

/// One wire record as a RADIUS user. The tunnel numbers degrade to
/// `None` when out of the known ranges.
pub open spec fn sp_radius_user_of(v: JsonV, site: Seq<char>) -> Result<RadiusUserV, ErrV> {
    match (sp_req_str(v, "_id"@), sp_req_str(v, "name"@), sp_req_str(v, "x_password"@)) {
        (Some(id), Some(name), Some(password)) => match (
            crate::networks::sp_vlan_field(v, "vlan"@),
            sp_opt_u16(v, "tunnel_type"@),
            sp_opt_u16(v, "tunnel_medium_type"@),
        ) {
            (Some(vlan), Some(tt), Some(tmt)) => Ok(
                RadiusUserV {
                    site,
                    id,
                    name,
                    password,
                    vlan,
                    tunnel_type: match tt {
                        Some(n) => sp_tunnel_type_of(n),
                        None => None,
                    },
                    tunnel_medium_type: match tmt {
                        Some(n) => sp_tunnel_medium_of(n),
                        None => None,
                    },
                },
            ),
            _ => Err(ErrV::Network),
        },
        _ => Err(ErrV::Network),
    }
}

/// The wire records from index `k` on, each as a user.
pub open spec fn sp_radius_users_map(items: Seq<JsonV>, site: Seq<char>, k: int) -> Result<
    Seq<RadiusUserV>,
    ErrV,
>
    decreases items.len() - k,
{
    if !(0 <= k && k < items.len()) {
        Ok(Seq::empty())
    } else {
        match sp_radius_user_of(items[k], site) {
            Err(e) => Err(e),
            Ok(u) => match sp_radius_users_map(items, site, k + 1) {
                Err(e) => Err(e),
                Ok(rest) => Ok(seq![u] + rest),
            },
        }
    }
}

/// The full decode of a RADIUS user listing response.
pub open spec fn sp_radius_users_decode(status: u16, body: Seq<char>, site: Seq<char>) -> Result<
    Seq<RadiusUserV>,
    ErrV,
> {
    match sp_decode_v1(status, body) {
        Err(e) => Err(e),
        Ok(d) => match d {
            JsonV::Arr(items) => sp_radius_users_map(items, site, 0),
            _ => Err(ErrV::Network),
        },
    }
}

/// Whether a user matches a selector.
pub open spec fn sp_radius_user_matches(u: RadiusUserV, sel: RadiusUserRefV) -> bool {
    match sel {
        RadiusUserRefV::Id(x) => u.id == x,
        RadiusUserRefV::Name(x) => u.name == x,
    }
}

/// The first user matching the selector, if any.
pub open spec fn sp_find_radius_user(us: Seq<RadiusUserV>, sel: RadiusUserRefV) -> Option<
    RadiusUserV,
>
    decreases us.len(),
{
    if us.len() == 0 {
        None
    } else if sp_radius_user_matches(us[0], sel) {
        Some(us[0])
    } else {
        sp_find_radius_user(us.drop_first(), sel)
    }
}

/// Describes the RADIUS user listing request for a site.
pub fn radius_users_request(session: &Unified, site: &str) -> (r: RequestParts)
    ensures
        r.method == Method::Get,
        r.url@ == session.url_chars("/api/s/"@ + site@ + "/rest/account"@),
        r.cookie@ == session.token@,
        session.is_udm_pro ==> (r.csrf matches Some(c) && c@ == session.csrf@),
        !session.is_udm_pro ==> r.csrf is None,
        r.tls_verify == session.tls_verify,
        r.body is None,
{
    let p = crate::http::site_path(site, "/rest/account");
    session.request_parts(Method::Get, p.as_str())
}

/// Extracts one user from a wire record.
fn radius_user_of_json(v: &Json, site: &str) -> (r: Result<RadiusUser, UnifiedError>)
    ensures
        match sp_radius_user_of(v@, site@) {
            Err(e) => r matches Err(x) && x@ == e,
            Ok(uv) => r matches Ok(u) && u@ == uv,
        },
{
    let id = match v.req_str("_id") {
        Some(x) => x,
        None => {
            return Err(UnifiedError::NetworkError);
        },
    };
    let name = match v.req_str("name") {
        Some(x) => x,
        None => {
            return Err(UnifiedError::NetworkError);
        },
    };
    let password = match v.req_str("x_password") {
        Some(x) => x,
        None => {
            return Err(UnifiedError::NetworkError);
        },
    };
    let vlan_s = match v.opt_str("vlan") {
        Some(x) => x,
        None => {
            return Err(UnifiedError::NetworkError);
        },
    };
    let tt = match v.opt_u16("tunnel_type") {
        Some(x) => x,
        None => {
            return Err(UnifiedError::NetworkError);
        },
    };
    let tmt = match v.opt_u16("tunnel_medium_type") {
        Some(x) => x,
        None => {
            return Err(UnifiedError::NetworkError);
        },
    };
    let vlan = match &vlan_s {
        Some(s) => crate::wire::parse_u16(s.as_str()),
        None => None,
    };
    Ok(
        RadiusUser {
            site: site.to_owned(),
            id,
            name,
            password,
            vlan,
            tunnel_type: match tt {
                Some(n) => TunnelType::from_u16(n),
                None => None,
            },
            tunnel_medium_type: match tmt {
                Some(n) => TunnelMediumType::from_u16(n),
                None => None,
            },
        },
    )
}

/// Decodes a RADIUS user listing response, exactly as
/// [`sp_radius_users_decode`] states.
#[verifier::loop_isolation(false)]
pub fn radius_users_decode(status: u16, body: &str, site: &str) -> (r: Result<
    Vec<RadiusUser>,
    UnifiedError,
>)
    ensures
        match sp_radius_users_decode(status, body@, site@) {
            Ok(uvs) => r matches Ok(v) && radius_users_view(v@) == uvs,
            Err(e) => r matches Err(x) && x@ == e,
        },
{
    let data = match crate::http::decode_v1(status, body) {
        Ok(d) => d,
        Err(e) => {
            return Err(e);
        },
    };
    let items = match &data {
        Json::Arr(items) => items,
        _ => {
            return Err(UnifiedError::NetworkError);
        },
    };
    let ghost iv = json_seq_view(items@);
    proof {
        lemma_json_seq_view(items@);
    }
    let mut out: Vec<RadiusUser> = Vec::new();
    let n = items.len();
    let mut k: usize = 0;
    while k < n
        invariant
            k <= n,
            out@.len() == k,
            sp_radius_users_map(iv, site@, 0) == (match sp_radius_users_map(iv, site@, k as int) {
                Err(e) => Err::<Seq<RadiusUserV>, ErrV>(e),
                Ok(rest) => Ok(radius_users_view(out@) + rest),
            }),
        decreases n - k,
    {
        let ghost pre = out@;
        match radius_user_of_json(&items[k], site) {
            Ok(u) => {
                out.push(u);
                proof {
                    assert(radius_users_view(out@) =~= radius_users_view(pre) + seq![
                        out@[k as int]@,
                    ]);
                    if sp_radius_users_map(iv, site@, k as int + 1) is Ok {
                        let rest = sp_radius_users_map(iv, site@, k as int + 1)->Ok_0;
                        assert(radius_users_view(pre) + (seq![out@[k as int]@] + rest)
                            =~= radius_users_view(out@) + rest);
                    }
                }
            },
            Err(e) => {
                return Err(e);
            },
        }
        k = k + 1;
    }
    proof {
        assert(radius_users_view(out@) + Seq::<RadiusUserV>::empty() =~= radius_users_view(out@));
    }
    Ok(out)
}

/// Returns the first user matching the selector, out of a listing.
#[verifier::loop_isolation(false)]
pub fn find_radius_user(mut list: Vec<RadiusUser>, sel: &RadiusUserRef) -> (r: Option<RadiusUser>)
    ensures
        match sp_find_radius_user(radius_users_view(list@), sel@) {
            None => r is None,
            Some(uv) => r matches Some(u) && u@ == uv,
        },
{
    let ghost lv = radius_users_view(list@);
    proof {
        assert(lv.subrange(0, lv.len() as int) =~= lv);
    }
    let n = list.len();
    let mut k: usize = 0;
    while k < n
        invariant
            k <= n == list@.len(),
            list@.len() == lv.len(),
            forall|i: int| 0 <= i < n ==> lv[i] == #[trigger] list@[i]@,
            sp_find_radius_user(lv, sel@) == sp_find_radius_user(
                lv.subrange(k as int, n as int),
                sel@,
            ),
        decreases n - k,
    {
        let ghost suffix = lv.subrange(k as int, n as int);
        proof {
            assert(suffix[0] == lv[k as int]);
            assert(suffix.drop_first() =~= lv.subrange(k as int + 1, n as int));
            assert(list@[k as int]@ == lv[k as int]);
        }
        let u = &list[k];
        let hit = match sel {
            RadiusUserRef::Id(x) => {
                let b = crate::text::str_eq(u.id.as_str(), x);
                proof {
                    assert(b == sp_radius_user_matches(lv[k as int], sel@));
                }
                b
            },
            RadiusUserRef::Name(x) => {
                let b = crate::text::str_eq(u.name.as_str(), x);
                proof {
                    assert(b == sp_radius_user_matches(lv[k as int], sel@));
                }
                b
            },
        };
        if hit {
            proof {
                assert(sp_find_radius_user(suffix, sel@) == Some(suffix[0]));
            }
            return Some(list.swap_remove(k));
        }
        proof {
            assert(!sp_radius_user_matches(suffix[0], sel@));
        }
        k = k + 1;
    }
    proof {
        assert(lv.subrange(n as int, n as int) =~= Seq::<RadiusUserV>::empty());
    }
    None
}

// ------------------------------------------------------------------
// Wire representation, mutation requests, builder.
// ------------------------------------------------------------------

/// The wire object sent when creating or updating a RADIUS user: the
/// identifier is never sent; the VLAN as text; the tunnel types as
/// numbers.
pub open spec fn sp_radius_user_wire(u: RadiusUserV) -> JsonV {
    JsonV::Obj(
        seq![("name"@, JsonV::Str(u.name)), ("x_password"@, JsonV::Str(u.password))]
            + crate::networks::seg_opt_str(
            "vlan"@,
            match u.vlan {
                Some(x) => Some(sp_digits_of(x)),
                None => None,
            },
        ) + (match u.tunnel_type {
            Some(t) => seq![("tunnel_type"@, JsonV::Num(tunnel_type_num(t)))],
            None => Seq::<(Seq<char>, JsonV)>::empty(),
        }) + (match u.tunnel_medium_type {
            Some(t) => seq![("tunnel_medium_type"@, JsonV::Num(tunnel_medium_num(t)))],
            None => Seq::<(Seq<char>, JsonV)>::empty(),
        }),
    )
}

impl RadiusUser {
    /// Builds the wire object for a create or update request.
    pub fn to_wire(&self) -> (r: Json)
        ensures
            r@ == sp_radius_user_wire(self@),
    {
        let ghost uv = self@;
        let ghost c0 = seq![
            ("name"@, JsonV::Str(uv.name)),
            ("x_password"@, JsonV::Str(uv.password)),
        ];
        let ghost c1 = c0 + crate::networks::seg_opt_str(
            "vlan"@,
            match uv.vlan {
                Some(x) => Some(sp_digits_of(x)),
                None => None,
            },
        );
        let ghost c2 = c1 + (match uv.tunnel_type {
            Some(t) => seq![("tunnel_type"@, JsonV::Num(tunnel_type_num(t)))],
            None => Seq::<(Seq<char>, JsonV)>::empty(),
        });
        let ghost c3 = c2 + (match uv.tunnel_medium_type {
            Some(t) => seq![("tunnel_medium_type"@, JsonV::Num(tunnel_medium_num(t)))],
            None => Seq::<(Seq<char>, JsonV)>::empty(),
        });
        let mut entries: Vec<(String, Json)> = Vec::new();
        crate::json::push_entry(&mut entries, "name", Json::Str(self.name.clone()));
        crate::json::push_entry(&mut entries, "x_password", Json::Str(self.password.clone()));
        proof {
            assert(json_entry_seq_view(entries@) =~= c0);
        }
        match self.vlan {
            Some(x) => {
                crate::json::push_entry(
                    &mut entries,
                    "vlan",
                    Json::Str(crate::json::num_text(x as u64)),
                );
                proof {
                    assert(json_entry_seq_view(entries@) =~= c1);
                }
            },
            None => {
                proof {
                    assert(json_entry_seq_view(entries@) =~= c1);
                }
            },
        }
        match &self.tunnel_type {
            Some(t) => {
                crate::json::push_entry(
                    &mut entries,
                    "tunnel_type",
                    Json::Num(t.to_u16() as i128),
                );
                proof {
                    assert(json_entry_seq_view(entries@) =~= c2);
                }
            },
            None => {
                proof {
                    assert(json_entry_seq_view(entries@) =~= c2);
                }
            },
        }
        match &self.tunnel_medium_type {
            Some(t) => {
                crate::json::push_entry(
                    &mut entries,
                    "tunnel_medium_type",
                    Json::Num(t.to_u16() as i128),
                );
                proof {
                    assert(json_entry_seq_view(entries@) =~= c3);
                }
            },
            None => {
                proof {
                    assert(json_entry_seq_view(entries@) =~= c3);
                }
            },
        }
        let ghost ev = entries@;
        let r = Json::Obj(entries);
        proof {
            assert(json_entry_seq_view(ev) == c3);
            assert(sp_radius_user_wire(uv)->Obj_0 =~= c3);
        }
        r
    }

    /// Describes the request that creates this user.
    pub fn create_request(&self, session: &Unified) -> (r: RequestParts)
        ensures
            r.method == Method::Post,
            r.url@ == session.url_chars("/api/s/"@ + self.site@ + "/rest/account"@),
            r.body matches Some(b) && b@ == sp_ser(sp_radius_user_wire(self@)),
            r.cookie@ == session.token@,
            r.tls_verify == session.tls_verify,
    {
        let p = crate::http::site_path(self.site.as_str(), "/rest/account");
        let body = self.to_wire();
        session.request_parts(Method::Post, p.as_str()).with_json(&body)
    }

    /// Describes the request that updates this user.
    pub fn update_request(&self, session: &Unified) -> (r: RequestParts)
        ensures
            r.method == Method::Put,
            r.url@ == session.url_chars("/api/s/"@ + self.site@ + "/rest/account/"@ + self.id@),
            r.body matches Some(b) && b@ == sp_ser(sp_radius_user_wire(self@)),
            r.cookie@ == session.token@,
            r.tls_verify == session.tls_verify,
    {
        let p = crate::http::site_item_path(
            self.site.as_str(),
            "/rest/account/",
            self.id.as_str(),
        );
        let body = self.to_wire();
        session.request_parts(Method::Put, p.as_str()).with_json(&body)
    }

    /// Describes the request that deletes this user.
    pub fn delete_request(&self, session: &Unified) -> (r: RequestParts)
        ensures
            r.method == Method::Delete,
            r.url@ == session.url_chars("/api/s/"@ + self.site@ + "/rest/account/"@ + self.id@),
            r.body is None,
            r.cookie@ == session.token@,
            r.tls_verify == session.tls_verify,
    {
        let p = crate::http::site_item_path(
            self.site.as_str(),
            "/rest/account/",
            self.id.as_str(),
        );
        session.request_parts(Method::Delete, p.as_str())
    }

    /// Creates a builder for a RADIUS user on a site, with the given
    /// username and password.
    pub fn builder(site: &str, name: &str, password: &str) -> (r: RadiusUserBuilder)
        ensures
            r.user.site@ == site@,
            r.user.id@ == Seq::<char>::empty(),
            r.user.name@ == name@,
            r.user.password@ == password@,
            r.user.vlan is None,
            r.user.tunnel_type is None,
            r.user.tunnel_medium_type is None,
    {
        RadiusUserBuilder {
            user: RadiusUser {
                site: site.to_owned(),
                id: String::new(),
                name: name.to_owned(),
                password: password.to_owned(),
                vlan: None,
                tunnel_type: None,
                tunnel_medium_type: None,
            },
        }
    }
}

/// Helper builder to create new RADIUS users.
pub struct RadiusUserBuilder {
    pub user: RadiusUser,
}

impl RadiusUserBuilder {
    /// Place the user into a specific VLAN.
    pub fn vlan(self, vlan: u16) -> (r: RadiusUserBuilder)
        ensures
            r.user@ == (RadiusUserV { vlan: Some(vlan as int), ..self.user@ }),
    {
        RadiusUserBuilder { user: RadiusUser { vlan: Some(vlan), ..self.user } }
    }

    /// Set the high-level tunnel type for connections used by this
    /// user.
    pub fn tunnel_type(self, tunnel_type: TunnelType) -> (r: RadiusUserBuilder)
        ensures
            r.user@ == (RadiusUserV { tunnel_type: Some(tunnel_type), ..self.user@ }),
    {
        RadiusUserBuilder {
            user: RadiusUser { tunnel_type: Some(tunnel_type), ..self.user },
        }
    }

    /// Set the low-level tunnel type for connections used by this user.
    pub fn tunnel_medium_type(self, tunnel_medium_type: TunnelMediumType) -> (r:
        RadiusUserBuilder)
        ensures
            r.user@ == (RadiusUserV {
                tunnel_medium_type: Some(tunnel_medium_type),
                ..self.user@
            }),
    {
        RadiusUserBuilder {
            user: RadiusUser { tunnel_medium_type: Some(tunnel_medium_type), ..self.user },
        }
    }

    /// Finalize the builder and get a [`RadiusUser`] to be created.
    pub fn build(self) -> (r: RadiusUser)
        ensures
            r == self.user,
    {
        self.user
    }
}

// ------------------------------------------------------------------
// RADIUS profiles.
// ------------------------------------------------------------------

/// A wire-level RADIUS profile record.
pub struct RemoteRadiusProfile {
    pub id: String,
    pub name: String,
}

impl RemoteRadiusProfile {
    /// The domain object for this record.
    pub fn into_profile(self) -> (r: RadiusProfile)
        ensures
            r.id == self.id,
            r.name == self.name,
    {
        RadiusProfile { id: self.id, name: self.name }
    }
}

/// RADIUS profile configured on the controller. Only listing
/// pre-existing profiles is supported.
pub struct RadiusProfile {
    /// Internal ID.
    pub id: String,
    /// Human-readable name for the RADIUS profile.
    pub name: String,
}

/// Model of a [`RadiusProfile`].
pub struct RadiusProfileV {
    pub id: Seq<char>,
    pub name: Seq<char>,
}

impl View for RadiusProfile {
    type V = RadiusProfileV;

    open spec fn view(&self) -> RadiusProfileV {
        RadiusProfileV { id: self.id@, name: self.name@ }
    }
}

/// The views of a vector of profiles.
pub open spec fn radius_profiles_view(v: Seq<RadiusProfile>) -> Seq<RadiusProfileV> {
    Seq::new(v.len(), |i: int| v[i]@)
}

/// One wire record as a profile.
pub open spec fn sp_radius_profile_of(v: JsonV) -> Option<RadiusProfileV> {
    match (sp_req_str(v, "_id"@), sp_req_str(v, "name"@)) {
        (Some(id), Some(name)) => Some(RadiusProfileV { id, name }),
        _ => None,
    }
}

/// The wire records from index `k` on, each as a profile.
pub open spec fn sp_radius_profiles_map(items: Seq<JsonV>, k: int) -> Option<Seq<RadiusProfileV>>
    decreases items.len() - k,
{
    if !(0 <= k && k < items.len()) {
        Some(Seq::empty())
    } else {
        match sp_radius_profile_of(items[k]) {
            None => None,
            Some(p) => match sp_radius_profiles_map(items, k + 1) {
                None => None,
                Some(rest) => Some(seq![p] + rest),
            },
        }
    }
}

/// The full decode of a profile listing response.
pub open spec fn sp_radius_profiles_decode(status: u16, body: Seq<char>) -> Result<
    Seq<RadiusProfileV>,
    ErrV,
> {
    match sp_decode_v1(status, body) {
        Err(e) => Err(e),
        Ok(d) => match d {
            JsonV::Arr(items) => match sp_radius_profiles_map(items, 0) {
                None => Err(ErrV::Network),
                Some(ps) => Ok(ps),
            },
            _ => Err(ErrV::Network),
        },
    }
}

/// Describes the profile listing request for a site.
pub fn radius_profiles_request(session: &Unified, site: &str) -> (r: RequestParts)
    ensures
        r.method == Method::Get,
        r.url@ == session.url_chars("/api/s/"@ + site@ + "/rest/radiusprofile"@),
        r.cookie@ == session.token@,
        session.is_udm_pro ==> (r.csrf matches Some(c) && c@ == session.csrf@),
        !session.is_udm_pro ==> r.csrf is None,
        r.tls_verify == session.tls_verify,
        r.body is None,
{
    let p = crate::http::site_path(site, "/rest/radiusprofile");
    session.request_parts(Method::Get, p.as_str())
}

/// Decodes a profile listing response, exactly as
/// [`sp_radius_profiles_decode`] states.
#[verifier::loop_isolation(false)]
pub fn radius_profiles_decode(status: u16, body: &str) -> (r: Result<
    Vec<RadiusProfile>,
    UnifiedError,
>)
    ensures
        match sp_radius_profiles_decode(status, body@) {
            Ok(pvs) => r matches Ok(v) && radius_profiles_view(v@) == pvs,
            Err(e) => r matches Err(x) && x@ == e,
        },
{
    let data = match crate::http::decode_v1(status, body) {
        Ok(d) => d,
        Err(e) => {
            return Err(e);
        },
    };
    let items = match &data {
        Json::Arr(items) => items,
        _ => {
            return Err(UnifiedError::NetworkError);
        },
    };
    let ghost iv = json_seq_view(items@);
    proof {
        lemma_json_seq_view(items@);
    }
    let mut out: Vec<RadiusProfile> = Vec::new();
    let n = items.len();
    let mut k: usize = 0;
    while k < n
        invariant
            k <= n,
            out@.len() == k,
            sp_radius_profiles_map(iv, 0) == (match sp_radius_profiles_map(iv, k as int) {
                None => None::<Seq<RadiusProfileV>>,
                Some(rest) => Some(radius_profiles_view(out@) + rest),
            }),
        decreases n - k,
    {
        let ghost pre = out@;
        let item = &items[k];
        let id = match item.req_str("_id") {
            Some(x) => x,
            None => {
                return Err(UnifiedError::NetworkError);
            },
        };
        let name = match item.req_str("name") {
            Some(x) => x,
            None => {
                return Err(UnifiedError::NetworkError);
            },
        };
        let remote = RemoteRadiusProfile { id, name };
        out.push(remote.into_profile());
        proof {
            assert(radius_profiles_view(out@) =~= radius_profiles_view(pre) + seq![
                out@[k as int]@,
            ]);
            if sp_radius_profiles_map(iv, k as int + 1) is Some {
                let rest = sp_radius_profiles_map(iv, k as int + 1)->Some_0;
                assert(radius_profiles_view(pre) + (seq![out@[k as int]@] + rest)
                    =~= radius_profiles_view(out@) + rest);
            }
        }
        k = k + 1;
    }
    proof {
        assert(radius_profiles_view(out@) + Seq::<RadiusProfileV>::empty() =~= radius_profiles_view(
            out@,
        ));
    }
    Ok(out)
}

} // verus!
