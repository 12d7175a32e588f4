//! Connection lifecycle and the server registry: port allocation from a
//! configured range, TTL-based expiry, and composition of outgoing packets.
//!
//! The registry owns two concurrent maps (connections and authenticators)
//! keyed by connection ID. Removing a connection and its authenticator is
//! two independent atomic removals, not one atomic unit; the narrow window
//! where one map reflects the removal and the other does not is accepted.

use vstd::prelude::*;

use crate::auth::Authenticator;
use crate::auth::EncryptMethod;
use crate::shared::BytePacketBuffer;
use crate::shared::Header;
use crate::shared::TunnelError;
use crate::shared::CONN_LIFETIME;
use rand::Rng;
use std::collections::HashMap;

verus! {

/// A client's observed socket address, held as plain values: the raw IP
/// octets (4 for IPv4, 16 for IPv6) and the port.
#[derive(Clone, PartialEq, Eq, Debug)]
pub struct PeerAddr {
    pub ip: Vec<u8>,
    pub port: u16,
}

/// Parsed multi-user credential table: username to 32-byte shared key.
/// The core consumes already-parsed pairs; reading the configuration file
/// happens outside it.
pub struct AuthConfig {
    pub userpass: HashMap<String, [u8; 32]>,
}

/// One client tunnel session.
#[derive(Clone, Debug)]
pub struct Conn {
    /// Connection ID; equals the locally bound UDP port, unique among live
    /// connections.
    pub conn_id: u16,
    /// Seconds the connection stays valid since creation or last reset.
    pub ttl: u8,
    /// Encryption method negotiated for this connection.
    pub method: EncryptMethod,
    /// Client address and port.
    pub addr: PeerAddr,
    /// Opaque identifier of the authenticated user.
    pub client_id: u128,
    /// Cached header template for outgoing packets.
    pub header: Header,
    /// Clock reading (seconds) at creation or last lifetime reset.
    pub created_at: u64,
}

#[verifier::external_type_specification]
#[verifier::external_body]
#[verifier::reject_recursive_types(K)]
#[verifier::reject_recursive_types(V)]
#[verifier::reject_recursive_types(S)]
pub struct ExDashMap<K, V, S>(dashmap::DashMap<K, V, S>);

/// Concurrent map of connection ID to connection.
pub type ConnMap = dashmap::DashMap<u16, Conn>;

/// Concurrent map of connection ID to authenticator.
pub type AuthMap = dashmap::DashMap<u16, Authenticator>;

/// What the connection map holds, keyed by connection ID.
pub uninterp spec fn spec_conns(m: ConnMap) -> Map<u16, Conn>;

/// What the authenticator map holds, keyed by connection ID.
pub uninterp spec fn spec_auths(m: AuthMap) -> Map<u16, Authenticator>;

/// Relies on dashmap::DashMap::insert: afterwards the key maps to the given
/// value and every other key is untouched.
#[verifier::external_body]
fn conns_insert(m: &mut ConnMap, k: u16, v: Conn)
    ensures
        spec_conns(*final(m)) == spec_conns(*old(m)).insert(k, v),
{
    let _ = m.insert(k, v);
}

/// Relies on dashmap::DashMap::get: the value the map holds at the key,
/// cloned, or nothing when the key is absent.
#[verifier::external_body]
fn conns_get(m: &ConnMap, k: u16) -> (r: Option<Conn>)
    ensures
        r matches Some(c) ==> (spec_conns(*m).contains_key(k) && c == spec_conns(*m)[k]),
        r is None ==> !spec_conns(*m).contains_key(k),
{
    match m.get(&k) {
        Some(entry) => Some(entry.value().clone()),
        None => None,
    }
}

/// Relies on dashmap::DashMap::contains_key.
#[verifier::external_body]
fn conns_contains(m: &ConnMap, k: u16) -> (r: bool)
    ensures
        r == spec_conns(*m).contains_key(k),
{
    m.contains_key(&k)
}

/// Relies on dashmap::DashMap::remove: afterwards the map no longer holds
/// the key and every other key is untouched.
#[verifier::external_body]
fn conns_remove(m: &mut ConnMap, k: u16)
    ensures
        spec_conns(*final(m)) == spec_conns(*old(m)).remove(k),
{
    let _ = m.remove(&k);
}

/// Relies on dashmap::DashMap::insert: afterwards the key maps to the given
/// value and every other key is untouched.
#[verifier::external_body]
fn auths_insert(m: &mut AuthMap, k: u16, v: Authenticator)
    ensures
        spec_auths(*final(m)) == spec_auths(*old(m)).insert(k, v),
{
    let _ = m.insert(k, v);
}

/// Relies on dashmap::DashMap::remove: afterwards the map no longer holds
/// the key and every other key is untouched.
#[verifier::external_body]
fn auths_remove(m: &mut AuthMap, k: u16)
    ensures
        spec_auths(*final(m)) == spec_auths(*old(m)).remove(k),
{
    let _ = m.remove(&k);
}

/// Relies on std::time::SystemTime: the current wall-clock time in whole
/// seconds since the Unix epoch; nothing is promised of the value.
#[verifier::external_body]
fn now_secs() -> u64 {
    match std::time::SystemTime::now().duration_since(std::time::UNIX_EPOCH) {
        Ok(d) => d.as_secs(),
        Err(_) => 0,
    }
}

/// Relies on rand::Rng::gen_range over rand::thread_rng: a draw from the
/// inclusive, non-empty range.
#[verifier::external_body]
fn random_port(lo: u16, hi: u16) -> (r: u16)
    requires
        lo <= hi,
    ensures
        lo <= r <= hi,
{
    rand::thread_rng().gen_range(lo..=hi)
}

impl Conn {
    /// A connection is alive at a clock reading strictly before the moment
    /// its TTL elapses.
    pub open spec fn spec_alive(self, now: u64) -> bool {
        now < self.created_at + self.ttl
    }

    /// A fresh connection for an allocated port, with the default TTL and a
    /// header template seeded for this session; `created_at` is set from
    /// the given clock reading. The template's `msg_type` is seeded with
    /// code 1, the initial server-side hello; only `auth_type` and
    /// `conn_id` encode the session's method and port.
    pub fn new_at(
        port: u16,
        method: EncryptMethod,
        addr: PeerAddr,
        client_id: u128,
        now: u64,
    ) -> (r: Conn)
        ensures
            r == (Conn {
                conn_id: port,
                ttl: CONN_LIFETIME,
                method,
                addr,
                client_id,
                header: Header {
                    packet_num: 0,
                    msg_type: 1,
                    auth_type: method.spec_num(),
                    fragment: 0,
                    conn_id: port,
                    data_len: 0,
                },
                created_at: now,
            }),
    {
        let auth = method.clone();
        let id = port;
        Conn {
            conn_id: port,
            ttl: CONN_LIFETIME,
            method,
            addr,
            client_id,
            header: Header::new(0, 1, auth.to_num(), 0, id, 0),
            created_at: now,
        }
    }

    /// `new_at` with `created_at` sampled from the clock; every field but
    /// `created_at` is pinned down.
    pub fn new(port: u16, method: EncryptMethod, addr: PeerAddr, client_id: u128) -> (r: Conn)
        ensures
            r.conn_id == port,
            r.ttl == CONN_LIFETIME,
            r.method == method,
            r.addr == addr,
            r.client_id == client_id,
            r.header == (Header {
                packet_num: 0,
                msg_type: 1,
                auth_type: method.spec_num(),
                fragment: 0,
                conn_id: port,
                data_len: 0,
            }),
    {
        let now = now_secs();
        Conn::new_at(port, method, addr, client_id, now)
    }

    /// Liveness at an explicit clock reading: alive iff strictly less than
    /// `ttl` seconds have elapsed since `created_at`.
    pub fn is_alive_at(&self, now: u64) -> (r: bool)
        ensures
            r == self.spec_alive(now),
    {
        if now >= self.created_at {
            (now - self.created_at) < (self.ttl as u64)
        } else {
            true
        }
    }

    /// `is_alive_at` against the current clock; the clock value itself is
    /// outside this library's control, so nothing more is promised here.
    pub fn is_alive(&self) -> bool {
        let now = now_secs();
        self.is_alive_at(now)
    }

    /// Restarts the TTL window at the given clock reading; the only
    /// mutation path for `created_at`.
    pub fn reset_lifetime_at(&mut self, now: u64)
        ensures
            *final(self) == (Conn { created_at: now, ..*old(self) }),
    {
        self.created_at = now;
    }

    /// Restarts the TTL window at the current clock; always succeeds and
    /// changes nothing but `created_at`.
    pub fn reset_lifetime(&mut self) -> (r: Result<(), TunnelError>)
        ensures
            r is Ok,
            final(self).conn_id == old(self).conn_id,
            final(self).ttl == old(self).ttl,
            final(self).method == old(self).method,
            final(self).addr == old(self).addr,
            final(self).client_id == old(self).client_id,
            final(self).header == old(self).header,
    {
        let now = now_secs();
        self.reset_lifetime_at(now);
        Ok(())
    }
}

/// Law: a connection with the default 65-second TTL is alive at its
/// creation instant, dead once 65 seconds have elapsed without a reset,
/// and a lifetime reset at second 60 keeps it alive past the original
/// 65-second mark.
pub proof fn lemma_ttl_expiry(c: Conn, t: u64)
    requires
        c.ttl == 65,
        c.created_at == t,
        t + 125 <= u64::MAX,
    ensures
        c.spec_alive(t),
        !c.spec_alive((t + 65) as u64),
        (Conn { created_at: (t + 60) as u64, ..c }).spec_alive((t + 65) as u64),
        (Conn { created_at: (t + 60) as u64, ..c }).spec_alive((t + 124) as u64),
        !(Conn { created_at: (t + 60) as u64, ..c }).spec_alive((t + 125) as u64),
{
}

/// Law: an allocated port is registered at once, and a later allocation
/// never returns a port that is still registered; so the ports of two
/// successive successful allocations are always distinct.
pub fn allocate_pair_distinct(
    s: &mut Server,
    addr1: PeerAddr,
    addr2: PeerAddr,
    key: &[u8],
    id1: u128,
    id2: u128,
) -> (r: Option<(u16, u16)>)
    requires
        old(s).inv(),
        key@.len() == 32,
    ensures
        final(s).inv(),
        r matches Some(pair) ==> pair.0 != pair.1,
{
    let p1 = match s.allocate(addr1, EncryptMethod::AES, key, id1) {
        Ok(p) => p,
        Err(_) => {
            return None;
        },
    };
    let p2 = match s.allocate(addr2, EncryptMethod::AES, key, id2) {
        Ok(p) => p,
        Err(_) => {
            return None;
        },
    };
    Some((p1, p2))
}

/// The header that `send_to` puts on the wire: the connection's template
/// with `data_len` set to the actual payload length.
pub open spec fn spec_outgoing_header(h: Header, len: nat) -> Header
    recommends
        len <= 504,
{
    Header { data_len: len as u16, ..h }
}

/// The exact datagram `send_to` hands out for a header template and a
/// payload: header then payload, zero-padded to 512 bytes when shorter.
pub open spec fn spec_datagram(h: Header, data: Seq<u8>) -> Seq<u8>
    recommends
        data.len() <= 504,
{
    let full = spec_outgoing_header(h, data.len()).spec_bytes() + data;
    if full.len() < 512 {
        full + Seq::new((512 - full.len()) as nat, |i: int| 0u8)
    } else {
        full
    }
}

/// The registry: the allocatable port range and the two concurrent maps of
/// live sessions.
pub struct Server {
    /// Lower bound (inclusive) of the allocatable UDP port range.
    pub port_lo: u16,
    /// Upper bound (inclusive) of the allocatable UDP port range.
    pub port_hi: u16,
    /// Concurrent map of connection ID to connection.
    pub conns: ConnMap,
    /// Concurrent map of connection ID to authenticator.
    pub auth: AuthMap,
}

/// An empty connection-map contents value.
pub open spec fn empty_conns() -> Map<u16, Conn> {
    Map::empty()
}

/// An empty authenticator-map contents value.
pub open spec fn empty_auths() -> Map<u16, Authenticator> {
    Map::empty()
}

/// Relies on dashmap::DashMap::new: a registry over the given bounds whose
/// two freshly made maps hold nothing.
#[verifier::external_body]
fn fresh_registry(port_lo: u16, port_hi: u16) -> (r: Server)
    ensures
        r.port_lo == port_lo,
        r.port_hi == port_hi,
        r.spec_conns_map() == empty_conns(),
        r.spec_auth_map() == empty_auths(),
{
    Server { port_lo, port_hi, conns: dashmap::DashMap::new(), auth: dashmap::DashMap::new() }
}

impl Server {
    /// The connection map's contents.
    pub closed spec fn spec_conns_map(self) -> Map<u16, Conn> {
        spec_conns(self.conns)
    }

    /// The authenticator map's contents.
    pub closed spec fn spec_auth_map(self) -> Map<u16, Authenticator> {
        spec_auths(self.auth)
    }

    /// Registry invariant: the port range is non-empty; every connection is
    /// registered under its own ID; every encrypted connection has an
    /// authenticator entry; and every authenticator entry belongs to a
    /// registered connection and is well formed.
    pub open spec fn inv(self) -> bool {
        &&& self.port_lo <= self.port_hi
        &&& forall|k: u16|
            self.spec_conns_map().contains_key(k) ==> (#[trigger] self.spec_conns_map()[k]).conn_id
                == k
        &&& forall|k: u16|
            self.spec_conns_map().contains_key(k) && !((#[trigger] self.spec_conns_map()[k]).method
                is UNSAFE) ==> self.spec_auth_map().contains_key(k)
        &&& forall|k: u16| #[trigger]
            self.spec_auth_map().contains_key(k) ==> self.spec_conns_map().contains_key(k)
                && self.spec_auth_map()[k].wf()
    }

    /// A registry over an inclusive port range; an empty range fails with
    /// `ValidationError`.
    pub fn new(port_lo: u16, port_hi: u16) -> (r: Result<Server, TunnelError>)
        ensures
            port_lo <= port_hi ==> (r matches Ok(s) && s.inv() && s.port_lo == port_lo
                && s.port_hi == port_hi && s.spec_conns_map() == Map::<u16, Conn>::empty()
                && s.spec_auth_map() == Map::<u16, Authenticator>::empty()),
            port_lo > port_hi ==> (r matches Err(e) && e == TunnelError::ValidationError),
    {
        if port_lo > port_hi {
            return Err(TunnelError::ValidationError);
        }
        let s = fresh_registry(port_lo, port_hi);
        Ok(s)
    }

    /// Draws random candidates from the port range, up to 150 attempts, and
    /// returns the first one not already registered; a returned port is
    /// never present in the connection map at call time. With every port of
    /// the range occupied the attempt budget must run out and the call
    /// fails with `ResourceExhausted`; with every port of the range free
    /// the very first draw must succeed.
    pub fn assign_port(&self) -> (r: Result<u16, TunnelError>)
        requires
            self.inv(),
        ensures
            r matches Ok(p) ==> (self.port_lo <= p <= self.port_hi
                && !self.spec_conns_map().contains_key(p)),
            r matches Err(e) ==> e == TunnelError::ResourceExhausted,
            (forall|p: u16|
                self.port_lo <= p <= self.port_hi ==> self.spec_conns_map().contains_key(p))
                ==> r is Err,
            (forall|p: u16|
                self.port_lo <= p <= self.port_hi ==> !(
                #[trigger] self.spec_conns_map().contains_key(p))) ==> r is Ok,
    {
        let mut attempts: usize = 0;
        while attempts < 150
            invariant
                self.inv(),
                attempts > 0 ==> exists|p: u16|
                    self.port_lo <= p <= self.port_hi && (
                    #[trigger] self.spec_conns_map().contains_key(p)),
            decreases 150 - attempts,
        {
            let port = random_port(self.port_lo, self.port_hi);
            if !conns_contains(&self.conns, port) {
                return Ok(port);
            }
            attempts += 1;
        }
        Err(TunnelError::ResourceExhausted)
    }

    /// Expiry check against an explicit clock reading. A missing connection
    /// ID is a caller error, surfaced as `PreconditionError`; a dead
    /// connection has both its connection and authenticator entries
    /// removed; a live one is left untouched.
    pub fn check_alive_at(&mut self, conn_id: u16, now: u64) -> (r: Result<(), TunnelError>)
        requires
            old(self).inv(),
        ensures
            final(self).inv(),
            final(self).port_lo == old(self).port_lo,
            final(self).port_hi == old(self).port_hi,
            !old(self).spec_conns_map().contains_key(conn_id) ==> (r matches Err(e) && e
                == TunnelError::PreconditionError && final(self).spec_conns_map()
                == old(self).spec_conns_map() && final(self).spec_auth_map()
                == old(self).spec_auth_map()),
            old(self).spec_conns_map().contains_key(conn_id)
                && old(self).spec_conns_map()[conn_id].spec_alive(now) ==> (r is Ok
                && final(self).spec_conns_map() == old(self).spec_conns_map()
                && final(self).spec_auth_map() == old(self).spec_auth_map()),
            old(self).spec_conns_map().contains_key(conn_id)
                && !old(self).spec_conns_map()[conn_id].spec_alive(now) ==> (r is Ok
                && final(self).spec_conns_map() == old(self).spec_conns_map().remove(conn_id)
                && final(self).spec_auth_map() == old(self).spec_auth_map().remove(conn_id)),
    {
        let conn = match conns_get(&self.conns, conn_id) {
            Some(c) => c,
            None => {
                return Err(TunnelError::PreconditionError);
            },
        };
        if !conn.is_alive_at(now) {
            conns_remove(&mut self.conns, conn_id);
            auths_remove(&mut self.auth, conn_id);
            proof {
                let oc = old(self).spec_conns_map();
                let oa = old(self).spec_auth_map();
                assert forall|j: u16| self.spec_conns_map().contains_key(j) implies (
                #[trigger] self.spec_conns_map()[j]).conn_id == j by {
                    assert(oc.contains_key(j) && oc[j] == self.spec_conns_map()[j]);
                }
                assert forall|j: u16|
                    self.spec_conns_map().contains_key(j) && !((
                    #[trigger] self.spec_conns_map()[j]).method is UNSAFE) implies self.spec_auth_map().contains_key(
                    j,
                ) by {
                    assert(oc.contains_key(j) && oc[j] == self.spec_conns_map()[j]);
                    assert(j != conn_id);
                }
                assert forall|j: u16| #[trigger]
                    self.spec_auth_map().contains_key(j) implies self.spec_conns_map().contains_key(
                    j,
                ) && self.spec_auth_map()[j].wf() by {
                    assert(oa.contains_key(j) && j != conn_id);
                }
            }
        }
        Ok(())
    }

    /// `check_alive_at` against the current clock: the missing-ID error is
    /// exact, and whichever way the clock falls, the maps either stay as
    /// they were or lose exactly this connection's two entries.
    pub fn check_alive(&mut self, conn_id: u16) -> (r: Result<(), TunnelError>)
        requires
            old(self).inv(),
        ensures
            final(self).inv(),
            final(self).port_lo == old(self).port_lo,
            final(self).port_hi == old(self).port_hi,
            !old(self).spec_conns_map().contains_key(conn_id) ==> (r matches Err(e) && e
                == TunnelError::PreconditionError && final(self).spec_conns_map()
                == old(self).spec_conns_map() && final(self).spec_auth_map()
                == old(self).spec_auth_map()),
            old(self).spec_conns_map().contains_key(conn_id) ==> (r is Ok && ((
            final(self).spec_conns_map() == old(self).spec_conns_map()
                && final(self).spec_auth_map() == old(self).spec_auth_map()) || (
            final(self).spec_conns_map() == old(self).spec_conns_map().remove(conn_id)
                && final(self).spec_auth_map() == old(self).spec_auth_map().remove(conn_id)))),
    {
        let now = now_secs();
        self.check_alive_at(conn_id, now)
    }

    /// Admits a new client session: validates the key for the chosen
    /// method, draws a free port, and registers the connection under it,
    /// together with its authenticator for encrypted methods. Returns the
    /// allocated port, a `ValidationError` exactly when an encrypted method
    /// is asked for without a full 32-byte key, or `ResourceExhausted` when
    /// no free port was found; with a valid key and the whole range free,
    /// success is owed.
    pub fn allocate(
        &mut self,
        addr: PeerAddr,
        method: EncryptMethod,
        key: &[u8],
        client_id: u128,
    ) -> (r: Result<u16, TunnelError>)
        requires
            old(self).inv(),
        ensures
            final(self).inv(),
            final(self).port_lo == old(self).port_lo,
            final(self).port_hi == old(self).port_hi,
            !(method is UNSAFE) && key@.len() != 32 ==> (r matches Err(e) && e
                == TunnelError::ValidationError),
            (method is UNSAFE || key@.len() == 32) ==> (r is Ok || (r matches Err(e) && e
                == TunnelError::ResourceExhausted)),
            (method is UNSAFE || key@.len() == 32) && (forall|p: u16|
                old(self).port_lo <= p <= old(self).port_hi ==> !(
                #[trigger] old(self).spec_conns_map().contains_key(p))) ==> r is Ok,
            r is Err ==> (final(self).spec_conns_map() == old(self).spec_conns_map()
                && final(self).spec_auth_map() == old(self).spec_auth_map()),
            r matches Ok(p) ==> (old(self).port_lo <= p <= old(self).port_hi
                && !old(self).spec_conns_map().contains_key(p)
                && final(self).spec_conns_map().contains_key(p)
                && final(self).spec_conns_map() == old(self).spec_conns_map().insert(
                p,
                final(self).spec_conns_map()[p],
            ) && final(self).spec_conns_map()[p].conn_id == p
                && final(self).spec_conns_map()[p].ttl == CONN_LIFETIME
                && final(self).spec_conns_map()[p].method == method
                && final(self).spec_conns_map()[p].addr == addr
                && final(self).spec_conns_map()[p].client_id == client_id
                && final(self).spec_conns_map()[p].header == (Header {
                packet_num: 0,
                msg_type: 1,
                auth_type: method.spec_num(),
                fragment: 0,
                conn_id: p,
                data_len: 0,
            }) && (method is UNSAFE ==> final(self).spec_auth_map()
                == old(self).spec_auth_map()) && (!(method is UNSAFE) ==> (
            final(self).spec_auth_map() == old(self).spec_auth_map().insert(
                p,
                final(self).spec_auth_map()[p],
            ) && final(self).spec_auth_map().contains_key(p) && final(self).spec_auth_map()[p].wf()
                && final(self).spec_auth_map()[p].spec_method() == method
                && final(self).spec_auth_map()[p].spec_client_id() == client_id
                && final(self).spec_auth_map()[p].spec_key() == key@))),
    {
        let auth_entry: Option<Authenticator> = match method {
            EncryptMethod::UNSAFE => None,
            _ => {
                match Authenticator::new(client_id, key, method) {
                    Ok(a) => Some(a),
                    Err(e) => {
                        return Err(e);
                    },
                }
            },
        };
        let port = match self.assign_port() {
            Ok(p) => p,
            Err(e) => {
                return Err(e);
            },
        };
        let conn = Conn::new(port, method, addr, client_id);
        conns_insert(&mut self.conns, port, conn);
        match auth_entry {
            Some(a) => {
                auths_insert(&mut self.auth, port, a);
                proof {
                    let oc = old(self).spec_conns_map();
                    let oa = old(self).spec_auth_map();
                    assert forall|j: u16| self.spec_conns_map().contains_key(j) implies (
                    #[trigger] self.spec_conns_map()[j]).conn_id == j by {
                        if j != port {
                            assert(oc.contains_key(j) && oc[j] == self.spec_conns_map()[j]);
                        }
                    }
                    assert forall|j: u16|
                        self.spec_conns_map().contains_key(j) && !((
                        #[trigger] self.spec_conns_map()[j]).method
                            is UNSAFE) implies self.spec_auth_map().contains_key(j) by {
                        if j != port {
                            assert(oc.contains_key(j) && oc[j] == self.spec_conns_map()[j]);
                        }
                    }
                    assert forall|j: u16| #[trigger]
                        self.spec_auth_map().contains_key(
                            j,
                        ) implies self.spec_conns_map().contains_key(j)
                        && self.spec_auth_map()[j].wf() by {
                        if j != port {
                            assert(oa.contains_key(j));
                        }
                    }
                }
            },
            None => {
                proof {
                    let oc = old(self).spec_conns_map();
                    let oa = old(self).spec_auth_map();
                    assert forall|j: u16| self.spec_conns_map().contains_key(j) implies (
                    #[trigger] self.spec_conns_map()[j]).conn_id == j by {
                        if j != port {
                            assert(oc.contains_key(j) && oc[j] == self.spec_conns_map()[j]);
                        }
                    }
                    assert forall|j: u16|
                        self.spec_conns_map().contains_key(j) && !((
                        #[trigger] self.spec_conns_map()[j]).method
                            is UNSAFE) implies self.spec_auth_map().contains_key(j) by {
                        if j != port {
                            assert(oc.contains_key(j) && oc[j] == self.spec_conns_map()[j]);
                        }
                    }
                    assert forall|j: u16| #[trigger]
                        self.spec_auth_map().contains_key(
                            j,
                        ) implies self.spec_conns_map().contains_key(j)
                        && self.spec_auth_map()[j].wf() by {
                        assert(oa.contains_key(j));
                    }
                }
            },
        }
        Ok(port)
    }

    /// Composes the outgoing datagram for a connection: its header template
    /// with `data_len` set to the payload length, then the payload. A
    /// connection ID not present in the registry is a caller error and is
    /// surfaced as a recoverable `PreconditionError`. The payload is
    /// zero-padded to 512 bytes when shorter and left exact at 512; a
    /// combined length over 512 fails with `OversizeError` and transmits
    /// nothing. Returns the bytes to put on the wire and the peer address
    /// they go to; the caller owns the socket and performs the send.
    pub fn send_to(&self, conn_id: u16, data: &[u8]) -> (r: Result<
        (Vec<u8>, PeerAddr),
        TunnelError,
    >)
        requires
            self.inv(),
        ensures
            !self.spec_conns_map().contains_key(conn_id) ==> (r matches Err(e) && e
                == TunnelError::PreconditionError),
            self.spec_conns_map().contains_key(conn_id) && data@.len() > 504 ==> (r matches Err(e)
                && e == TunnelError::OversizeError),
            self.spec_conns_map().contains_key(conn_id) && data@.len() <= 504 ==> (r matches Ok(
                out,
            ) && out.0@ == spec_datagram(self.spec_conns_map()[conn_id].header, data@)
                && out.0@.len() == 512 && out.1 == self.spec_conns_map()[conn_id].addr),
    {
        let conn = match conns_get(&self.conns, conn_id) {
            Some(c) => c,
            None => {
                return Err(TunnelError::PreconditionError);
            },
        };
        if data.len() > 504 {
            return Err(TunnelError::OversizeError);
        }
        let out_header = Header::new(
            conn.header.packet_num,
            conn.header.msg_type,
            conn.header.auth_type,
            conn.header.fragment,
            conn.header.conn_id,
            data.len() as u16,
        );
        let hb = match out_header.to_bytes() {
            Ok(v) => v,
            Err(e) => {
                return Err(e);
            },
        };
        let mut to_write: Vec<u8> = hb;
        let mut i: usize = 0;
        let dlen = data.len();
        while i < dlen
            invariant
                dlen == data@.len(),
                dlen <= 504,
                i <= dlen,
                to_write@.len() == 8 + i,
                to_write@.subrange(0, 8) == out_header.spec_bytes(),
                forall|j: int| 0 <= j < i ==> to_write@[8 + j] == data@[j],
            decreases dlen - i,
        {
            to_write.push(data[i]);
            i += 1;
        }
        proof {
            assert(out_header == spec_outgoing_header(conn.header, data@.len()));
            assert(to_write@ =~= out_header.spec_bytes() + data@);
        }
        if to_write.len() < 512 {
            let mut buffer = BytePacketBuffer::new();
            match buffer.write_and_fill(to_write.as_slice()) {
                Ok(()) => {},
                Err(e) => {
                    return Err(e);
                },
            }
            proof {
                assert(buffer.buf@ =~= spec_datagram(conn.header, data@));
            }
            Ok((buffer.buf, conn.addr))
        } else {
            proof {
                assert(to_write@.len() == 512);
                assert(to_write@ =~= spec_datagram(conn.header, data@));
            }
            Ok((to_write, conn.addr))
        }
    }
}

} // verus!
