//! Network clients: the stations known to a site.

use vstd::prelude::*;

verus! {

use crate::addr::{IpAddr, MacAddr, mac_chars, mac_of, sp_parse_ip};
use crate::error::{ErrV, UnifiedError};
use crate::http::{Method, RequestParts, sp_decode_v1};
use crate::json::{Json, JsonV, json_seq_view, lemma_json_seq_view};
use crate::unified::Unified;
use crate::wire::{sp_def_bool, sp_def_u64, sp_opt_i64, sp_opt_str, sp_req_bool, sp_req_str};

/// Representation of the attribute used to select a client.
pub enum ClientRef<'r> {
    /// Client is selected by its internal ID.
    Id(&'r str),
    /// Client is selected by its MAC address.
    Mac(&'r str),
    /// Client is selected by its IP address.
    Ip(&'r str),
}

/// A selector whose MAC or IP text has been parsed; obtained through
/// [`client_selector`], which rejects malformed selector text before
/// any listing is fetched.
pub enum ClientSel {
    Id(String),
    Mac(MacAddr),
    Ip(IpAddr),
}

/// Model of a [`ClientSel`].
pub enum ClientSelV {
    Id(Seq<char>),
    Mac(Seq<u8>),
    Ip(IpAddr),
}

impl View for ClientSel {
    type V = ClientSelV;

    open spec fn view(&self) -> ClientSelV {
        match self {
            ClientSel::Id(x) => ClientSelV::Id(x@),
            ClientSel::Mac(m) => ClientSelV::Mac(m@),
            ClientSel::Ip(a) => ClientSelV::Ip(*a),
        }
    }
}

/// A client connected to the network.
pub struct Client {
    /// Site the client was listed on.
    pub site: String,
    /// Internal ID.
    pub id: String,
    /// Name (alias) of the client.
    pub name: Option<String>,
    /// MAC address.
    pub mac: MacAddr,
    /// Vendor name.
    pub oui: String,
    /// Hostname.
    pub hostname: Option<String>,
    /// IP address.
    pub ip: Option<IpAddr>,
    /// 802.1x identity (if applicable).
    pub identity: Option<String>,
    /// Seconds since the epoch at which the client was last connected.
    pub last_seen: Option<i64>,
    /// Is the client connected through a wired connection?
    pub wired: bool,
    /// Is the client a guest?
    pub guest: bool,
    /// If the client is a guest, are they authorized?
    pub authorized: bool,
    /// Number of bytes received by the client.
    pub rx_bytes: u64,
    /// Number of bytes sent by the client.
    pub tx_bytes: u64,
    /// Number of bytes received over a wired connection.
    pub wired_rx_bytes: u64,
    /// Number of bytes sent over a wired connection.
    pub wired_tx_bytes: u64,
}

/// Model of a [`Client`].
pub struct ClientV {
    pub site: Seq<char>,
    pub id: Seq<char>,
    pub name: Option<Seq<char>>,
    pub mac: Seq<u8>,
    pub oui: Seq<char>,
    pub hostname: Option<Seq<char>>,
    pub ip: Option<IpAddr>,
    pub identity: Option<Seq<char>>,
    pub last_seen: Option<int>,
    pub wired: bool,
    pub guest: bool,
    pub authorized: bool,
    pub rx_bytes: int,
    pub tx_bytes: int,
    pub wired_rx_bytes: int,
    pub wired_tx_bytes: int,
}

/// The view of an optional string.
pub open spec fn opt_str_view(o: Option<String>) -> Option<Seq<char>> {
    match o {
        Some(s) => Some(s@),
        None => None,
    }
}

/// The view of an optional 64-bit integer.
pub open spec fn opt_i64_view(o: Option<i64>) -> Option<int> {
    match o {
        Some(n) => Some(n as int),
        None => None,
    }
}

impl View for Client {
    type V = ClientV;

    open spec fn view(&self) -> ClientV {
        ClientV {
            site: self.site@,
            id: self.id@,
            name: opt_str_view(self.name),
            mac: self.mac@,
            oui: self.oui@,
            hostname: opt_str_view(self.hostname),
            ip: self.ip,
            identity: opt_str_view(self.identity),
            last_seen: opt_i64_view(self.last_seen),
            wired: self.wired,
            guest: self.guest,
            authorized: self.authorized,
            rx_bytes: self.rx_bytes as int,
            tx_bytes: self.tx_bytes as int,
            wired_rx_bytes: self.wired_rx_bytes as int,
            wired_tx_bytes: self.wired_tx_bytes as int,
        }
    }
}

/// The views of a vector of clients.
pub open spec fn clients_view(v: Seq<Client>) -> Seq<ClientV> {
    Seq::new(v.len(), |i: int| v[i]@)
}

/// One wire record as a client. A missing or ill-typed required field
/// rejects the listing as [`ErrV::Network`]; a `mac` string the MAC
/// parser rejects is [`ErrV::BadMac`]; optional fields degrade to
/// `None`.
pub open spec fn sp_client_of(v: JsonV, site: Seq<char>) -> Result<ClientV, ErrV> {
    match (
        sp_req_str(v, "_id"@),
        sp_req_str(v, "mac"@),
        sp_req_str(v, "oui"@),
        sp_req_bool(v, "is_wired"@),
        sp_req_bool(v, "is_guest"@),
    ) {
        (Some(id), Some(ms), Some(oui), Some(wired), Some(guest)) => match mac_of(ms) {
            None => Err(ErrV::BadMac),
            Some(mac) => match (
                sp_opt_str(v, "name"@),
                sp_opt_str(v, "hostname"@),
                sp_opt_str(v, "ip"@),
                sp_opt_str(v, "1x_identity"@),
                sp_opt_i64(v, "last_seen"@),
            ) {
                (Some(name), Some(hostname), Some(ip_s), Some(identity), Some(last_seen)) => match (
                    sp_def_bool(v, "authorized"@, false),
                    sp_def_u64(v, "rx_bytes"@),
                    sp_def_u64(v, "tx_bytes"@),
                    sp_def_u64(v, "wired-rx_bytes"@),
                    sp_def_u64(v, "wired-tx_bytes"@),
                ) {
                    (Some(authorized), Some(rx), Some(tx), Some(wrx), Some(wtx)) => Ok(
                        ClientV {
                            site,
                            id,
                            name,
                            mac,
                            oui,
                            hostname,
                            ip: match ip_s {
                                Some(s) => sp_parse_ip(s),
                                None => None,
                            },
                            identity,
                            last_seen,
                            wired,
                            guest,
                            authorized,
                            rx_bytes: rx,
                            tx_bytes: tx,
                            wired_rx_bytes: wrx,
                            wired_tx_bytes: wtx,
                        },
                    ),
                    _ => Err(ErrV::Network),
                },
                _ => Err(ErrV::Network),
            },
        },
        _ => Err(ErrV::Network),
    }
}

/// The wire records from index `k` on, each as a client.
pub open spec fn sp_clients_map(items: Seq<JsonV>, site: Seq<char>, k: int) -> Result<
    Seq<ClientV>,
    ErrV,
>
    decreases items.len() - k,
{
    if !(0 <= k && k < items.len()) {
        Ok(Seq::empty())
    } else {
        match sp_client_of(items[k], site) {
            Err(e) => Err(e),
            Ok(c) => match sp_clients_map(items, site, k + 1) {
                Err(e) => Err(e),
                Ok(rest) => Ok(seq![c] + rest),
            },
        }
    }
}

/// The full decode of a client listing response.
pub open spec fn sp_clients_decode(status: u16, body: Seq<char>, site: Seq<char>) -> Result<
    Seq<ClientV>,
    ErrV,
> {
    match sp_decode_v1(status, body) {
        Err(e) => Err(e),
        Ok(d) => match d {
            JsonV::Arr(items) => sp_clients_map(items, site, 0),
            _ => Err(ErrV::Network),
        },
    }
}

/// Whether a client matches a validated selector: exact equality on the
/// selected attribute (an absent IP matches no IP selector).
pub open spec fn sp_client_matches(c: ClientV, sel: ClientSelV) -> bool {
    match sel {
        ClientSelV::Id(x) => c.id == x,
        ClientSelV::Mac(m) => c.mac == m,
        ClientSelV::Ip(a) => c.ip == Some(a),
    }
}

/// The first client matching the selector, if any.
pub open spec fn sp_find_client(cs: Seq<ClientV>, sel: ClientSelV) -> Option<ClientV>
    decreases cs.len(),
{
    if cs.len() == 0 {
        None
    } else if sp_client_matches(cs[0], sel) {
        Some(cs[0])
    } else {
        sp_find_client(cs.drop_first(), sel)
    }
}

/// Describes the client listing request for a site.
pub fn clients_request(session: &Unified, site: &str) -> (r: RequestParts)
    ensures
        r.method == Method::Get,
        r.url@ == session.url_chars("/api/s/"@ + site@ + "/stat/sta"@),
        r.cookie@ == session.token@,
        session.is_udm_pro ==> (r.csrf matches Some(c) && c@ == session.csrf@),
        !session.is_udm_pro ==> r.csrf is None,
        r.tls_verify == session.tls_verify,
        r.body is None,
{
    let p = crate::http::site_path(site, "/stat/sta");
    session.request_parts(Method::Get, p.as_str())
}

/// Extracts one client from a wire record.
fn client_of_json(v: &Json, site: &str) -> (r: Result<Client, UnifiedError>)
    ensures
        match sp_client_of(v@, site@) {
            Err(e) => r matches Err(x) && x@ == e,
            Ok(cv) => r matches Ok(c) && c@ == cv,
        },
{
    let id = match v.req_str("_id") {
        Some(x) => x,
        None => {
            return Err(UnifiedError::NetworkError);
        },
    };
    let ms = match v.req_str("mac") {
        Some(x) => x,
        None => {
            return Err(UnifiedError::NetworkError);
        },
    };
    let oui = match v.req_str("oui") {
        Some(x) => x,
        None => {
            return Err(UnifiedError::NetworkError);
        },
    };
    let wired = match v.req_bool("is_wired") {
        Some(x) => x,
        None => {
            return Err(UnifiedError::NetworkError);
        },
    };
    let guest = match v.req_bool("is_guest") {
        Some(x) => x,
        None => {
            return Err(UnifiedError::NetworkError);
        },
    };
    let mac = match MacAddr::parse(ms.as_str()) {
        Some(m) => m,
        None => {
            return Err(UnifiedError::InvalidMacAddress);
        },
    };
    let name = match v.opt_str("name") {
        Some(x) => x,
        None => {
            return Err(UnifiedError::NetworkError);
        },
    };
    let hostname = match v.opt_str("hostname") {
        Some(x) => x,
        None => {
            return Err(UnifiedError::NetworkError);
        },
    };
    let ip_s = match v.opt_str("ip") {
        Some(x) => x,
        None => {
            return Err(UnifiedError::NetworkError);
        },
    };
    let identity = match v.opt_str("1x_identity") {
        Some(x) => x,
        None => {
            return Err(UnifiedError::NetworkError);
        },
    };
    let last_seen = match v.opt_i64("last_seen") {
        Some(x) => x,
        None => {
            return Err(UnifiedError::NetworkError);
        },
    };
    let authorized = match v.def_bool("authorized", false) {
        Some(x) => x,
        None => {
            return Err(UnifiedError::NetworkError);
        },
    };
    let rx_bytes = match v.def_u64("rx_bytes") {
        Some(x) => x,
        None => {
            return Err(UnifiedError::NetworkError);
        },
    };
    let tx_bytes = match v.def_u64("tx_bytes") {
        Some(x) => x,
        None => {
            return Err(UnifiedError::NetworkError);
        },
    };
    let wired_rx_bytes = match v.def_u64("wired-rx_bytes") {
        Some(x) => x,
        None => {
            return Err(UnifiedError::NetworkError);
        },
    };
    let wired_tx_bytes = match v.def_u64("wired-tx_bytes") {
        Some(x) => x,
        None => {
            return Err(UnifiedError::NetworkError);
        },
    };
    let ip = match &ip_s {
        Some(s) => crate::addr::parse_ip(s.as_str()),
        None => None,
    };
    Ok(
        Client {
            site: site.to_owned(),
            id,
            name,
            mac,
            oui,
            hostname,
            ip,
            identity,
            last_seen,
            wired,
            guest,
            authorized,
            rx_bytes,
            tx_bytes,
            wired_rx_bytes,
            wired_tx_bytes,
        },
    )
}

/// Decodes a client listing response, exactly as [`sp_clients_decode`]
/// states.
#[verifier::loop_isolation(false)]
pub fn clients_decode(status: u16, body: &str, site: &str) -> (r: Result<
    Vec<Client>,
    UnifiedError,
>)
    ensures
        match sp_clients_decode(status, body@, site@) {
            Ok(cvs) => r matches Ok(v) && clients_view(v@) == cvs,
            Err(e) => r matches Err(x) && x@ == e,
        },
{
    let data = match crate::http::decode_v1(status, body) {
        Ok(d) => d,
        Err(e) => {
            return Err(e);
        },
    };
    let items = match &data {
        Json::Arr(items) => items,
        _ => {
            return Err(UnifiedError::NetworkError);
        },
    };
    let ghost iv = json_seq_view(items@);
    proof {
        lemma_json_seq_view(items@);
    }
    let mut out: Vec<Client> = Vec::new();
    let n = items.len();
    let mut k: usize = 0;
    while k < n
        invariant
            k <= n,
            out@.len() == k,
            sp_clients_map(iv, site@, 0) == (match sp_clients_map(iv, site@, k as int) {
                Err(e) => Err::<Seq<ClientV>, ErrV>(e),
                Ok(rest) => Ok(clients_view(out@) + rest),
            }),
        decreases n - k,
    {
        let ghost pre = out@;
        match client_of_json(&items[k], site) {
            Ok(c) => {
                out.push(c);
                proof {
                    assert(clients_view(out@) =~= clients_view(pre) + seq![out@[k as int]@]);
                    if sp_clients_map(iv, site@, k as int + 1) is Ok {
                        let rest = sp_clients_map(iv, site@, k as int + 1)->Ok_0;
                        assert(clients_view(pre) + (seq![out@[k as int]@] + rest)
                            =~= clients_view(out@) + rest);
                    }
                }
            },
            Err(e) => {
                return Err(e);
            },
        }
        k = k + 1;
    }
    proof {
        assert(clients_view(out@) + Seq::<ClientV>::empty() =~= clients_view(out@));
    }
    Ok(out)
}

/// Validates a selector's text before any listing is fetched: a MAC or
/// IP selector that does not parse fails eagerly with the matching
/// error.
pub fn client_selector(sel: &ClientRef) -> (r: Result<ClientSel, UnifiedError>)
    ensures
        match sel {
            ClientRef::Id(x) => r matches Ok(s) && s@ == ClientSelV::Id(x@),
            ClientRef::Mac(x) => match mac_of(x@) {
                Some(m) => r matches Ok(s) && s@ == ClientSelV::Mac(m),
                None => r matches Err(e) && e@ == ErrV::BadMac,
            },
            ClientRef::Ip(x) => match sp_parse_ip(x@) {
                Some(a) => r matches Ok(s) && s@ == ClientSelV::Ip(a),
                None => r matches Err(e) && e@ == ErrV::BadIp,
            },
        },
{
    match sel {
        ClientRef::Id(x) => Ok(ClientSel::Id((*x).to_owned())),
        ClientRef::Mac(x) => match MacAddr::parse(x) {
            Some(m) => Ok(ClientSel::Mac(m)),
            None => Err(UnifiedError::InvalidMacAddress),
        },
        ClientRef::Ip(x) => match crate::addr::parse_ip(x) {
            Some(a) => Ok(ClientSel::Ip(a)),
            None => Err(UnifiedError::InvalidIpAddress),
        },
    }
}

/// Returns the first client matching the selector, out of a listing.
#[verifier::loop_isolation(false)]
pub fn find_client(mut list: Vec<Client>, sel: &ClientSel) -> (r: Option<Client>)
    ensures
        match sp_find_client(clients_view(list@), sel@) {
            None => r is None,
            Some(cv) => r matches Some(c) && c@ == cv,
        },
{
    let ghost lv = clients_view(list@);
    proof {
        assert(lv.subrange(0, lv.len() as int) =~= lv);
    }
    let n = list.len();
    let mut k: usize = 0;
    while k < n
        invariant
            k <= n == list@.len(),
            list@.len() == lv.len(),
            forall|i: int| 0 <= i < n ==> lv[i] == #[trigger] list@[i]@,
            sp_find_client(lv, sel@) == sp_find_client(lv.subrange(k as int, n as int), sel@),
        decreases n - k,
    {
        let ghost suffix = lv.subrange(k as int, n as int);
        proof {
            assert(suffix[0] == lv[k as int]);
            assert(suffix.drop_first() =~= lv.subrange(k as int + 1, n as int));
            assert(list@[k as int]@ == lv[k as int]);
        }
        let c = &list[k];
        let hit = match sel {
            ClientSel::Id(x) => {
                let b = crate::text::str_eq(c.id.as_str(), x.as_str());
                proof {
                    assert(b == sp_client_matches(lv[k as int], sel@));
                }
                b
            },
            ClientSel::Mac(m) => {
                let b = c.mac.same(m);
                proof {
                    assert(b == sp_client_matches(lv[k as int], sel@));
                }
                b
            },
            ClientSel::Ip(a) => {
                let b = match &c.ip {
                    Some(ca) => *ca == *a,
                    None => false,
                };
                proof {
                    assert(b == sp_client_matches(lv[k as int], sel@));
                }
                b
            },
        };
        if hit {
            proof {
                assert(sp_find_client(suffix, sel@) == Some(suffix[0]));
            }
            return Some(list.swap_remove(k));
        }
        proof {
            assert(!sp_client_matches(suffix[0], sel@));
        }
        k = k + 1;
    }
    proof {
        assert(lv.subrange(n as int, n as int) =~= Seq::<ClientV>::empty());
    }
    None
}

/// The command body of a client state change.
pub open spec fn sp_cmd_body(cmd: Seq<char>, mac: Seq<u8>) -> JsonV {
    JsonV::Obj(seq![("cmd"@, JsonV::Str(cmd)), ("mac"@, JsonV::Str(mac_chars(mac)))])
}

impl Client {
    /// Describes a station-manager command request for this client.
    fn command_request(&self, session: &Unified, cmd: &str) -> (r: RequestParts)
        ensures
            r.method == Method::Post,
            r.url@ == session.url_chars("/api/s/"@ + self.site@ + "/cmd/stamgr"@),
            r.cookie@ == session.token@,
            session.is_udm_pro ==> (r.csrf matches Some(c) && c@ == session.csrf@),
            !session.is_udm_pro ==> r.csrf is None,
            r.tls_verify == session.tls_verify,
            r.body matches Some(b) && b@ == crate::json::sp_ser(sp_cmd_body(cmd@, self.mac@)),
    {
        let p = crate::http::site_path(self.site.as_str(), "/cmd/stamgr");
        let mut entries: Vec<(String, Json)> = Vec::new();
        entries.push(("cmd".to_owned(), Json::Str(cmd.to_owned())));
        entries.push(("mac".to_owned(), Json::Str(self.mac.to_text())));
        let ghost ev = entries@;
        let body = Json::Obj(entries);
        proof {
            crate::json::lemma_json_entry_seq_view(ev);
            assert(ev.len() == 2);
            assert(ev[0].0@ == "cmd"@ && ev[0].1@ == JsonV::Str(cmd@));
            assert(ev[1].0@ == "mac"@ && ev[1].1@ == JsonV::Str(mac_chars(self.mac@)));
            assert(crate::json::json_entry_seq_view(ev) =~= sp_cmd_body(cmd@, self.mac@)->Obj_0);
        }
        session.request_parts(Method::Post, p.as_str()).with_json(&body)
    }

    /// Describes the request that blocks the client from the networks.
    pub fn block_request(&self, session: &Unified) -> (r: RequestParts)
        ensures
            r.method == Method::Post,
            r.url@ == session.url_chars("/api/s/"@ + self.site@ + "/cmd/stamgr"@),
            r.body matches Some(b) && b@ == crate::json::sp_ser(
                sp_cmd_body("block-sta"@, self.mac@),
            ),
            r.cookie@ == session.token@,
            r.tls_verify == session.tls_verify,
    {
        self.command_request(session, "block-sta")
    }

    /// Describes the request that unblocks the client.
    pub fn unblock_request(&self, session: &Unified) -> (r: RequestParts)
        ensures
            r.method == Method::Post,
            r.url@ == session.url_chars("/api/s/"@ + self.site@ + "/cmd/stamgr"@),
            r.body matches Some(b) && b@ == crate::json::sp_ser(
                sp_cmd_body("unblock-sta"@, self.mac@),
            ),
            r.cookie@ == session.token@,
            r.tls_verify == session.tls_verify,
    {
        self.command_request(session, "unblock-sta")
    }

    /// Describes the request that kicks the client from the network.
    pub fn kick_request(&self, session: &Unified) -> (r: RequestParts)
        ensures
            r.method == Method::Post,
            r.url@ == session.url_chars("/api/s/"@ + self.site@ + "/cmd/stamgr"@),
            r.body matches Some(b) && b@ == crate::json::sp_ser(
                sp_cmd_body("kick-sta"@, self.mac@),
            ),
            r.cookie@ == session.token@,
            r.tls_verify == session.tls_verify,
    {
        self.command_request(session, "kick-sta")
    }
}

} // verus!
