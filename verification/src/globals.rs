//! Process-wide settings of a storage node, held in one value: its name and
//! address, the outbound TLS material and generation, the time it started,
//! and a cache of connections to peers keyed by address.

use vstd::hash_map::StringHashMap;
use vstd::prelude::*;

verus! {

/// A moment in UTC: whole seconds since the Unix epoch and the nanoseconds
/// past that second.
#[derive(Clone, Copy, Debug, PartialEq, Eq)]
pub struct UtcTimestamp {
    pub secs: i64,
    pub subsec_nanos: u32,
}

/// Whether `t` is a moment no earlier than the Unix epoch, with fewer than
/// a second's worth of nanoseconds past its whole second.
pub open spec fn is_clock_reading(t: UtcTimestamp) -> bool {
    t.secs >= 0 && t.subsec_nanos < 1_000_000_000
}

/// Calls `chrono::Utc::now()` and reads its seconds and sub-second
/// nanoseconds. The clock decides the value; claimed is only what chrono's
/// `now` builds it from: the time since the Unix epoch (it panics for a
/// clock set before 1970) as whole seconds and the `Duration`'s sub-second
/// nanoseconds.
#[verifier::external_body]
fn utc_now() -> (res: UtcTimestamp)
    ensures
        is_clock_reading(res),
{
    let now = chrono::Utc::now();
    UtcTimestamp { secs: now.timestamp(), subsec_nanos: now.timestamp_subsec_nanos() }
}

/// Optional client identity (certificate and key, PEM-encoded) that outbound
/// connections present to servers asking for mutual TLS.
#[derive(Clone, Debug)]
pub struct MtlsIdentityPem {
    pub cert_pem: Vec<u8>,
    pub key_pem: Vec<u8>,
}

/// The contents of an mTLS identity.
pub struct MtlsIdentityView {
    pub cert_pem: Seq<u8>,
    pub key_pem: Seq<u8>,
}

impl View for MtlsIdentityPem {
    type V = MtlsIdentityView;

    open spec fn view(&self) -> MtlsIdentityView {
        MtlsIdentityView { cert_pem: self.cert_pem@, key_pem: self.key_pem@ }
    }
}

/// What the settings of a node hold, field by field.
#[verifier::ext_equal]
#[verifier::reject_recursive_types(C)]
pub struct NodeGlobalsView<C> {
    pub local_node_name: Seq<char>,
    pub rustfs_host: Seq<char>,
    pub rustfs_port: Seq<char>,
    pub rustfs_addr: Seq<char>,
    pub connections: Map<Seq<char>, C>,
    pub root_cert: Option<Seq<u8>>,
    pub mtls_identity: Option<MtlsIdentityView>,
    pub outbound_tls_generation: u64,
    pub init_time: Option<UtcTimestamp>,
}

/// One change that the operations on a node's settings make.
pub enum SettingChange {
    LocalNodeName(Seq<char>),
    InitTime(UtcTimestamp),
    Addr(Seq<char>),
    RootCert(Seq<u8>),
    MtlsIdentity(Option<MtlsIdentityView>),
    OutboundTlsGeneration(u64),
    EvictConnection(Seq<char>),
    ClearConnections,
}

impl<C> NodeGlobalsView<C> {
    /// The settings after `change`: the setting it names is replaced, every
    /// other one is kept.
    pub open spec fn after(self, change: SettingChange) -> Self {
        match change {
            SettingChange::LocalNodeName(name) => NodeGlobalsView { local_node_name: name, ..self },
            SettingChange::InitTime(t) => NodeGlobalsView { init_time: Some(t), ..self },
            SettingChange::Addr(addr) => NodeGlobalsView { rustfs_addr: addr, ..self },
            SettingChange::RootCert(cert) => NodeGlobalsView { root_cert: Some(cert), ..self },
            SettingChange::MtlsIdentity(identity) => NodeGlobalsView { mtls_identity: identity, ..self },
            SettingChange::OutboundTlsGeneration(generation) => NodeGlobalsView {
                outbound_tls_generation: generation,
                ..self
            },
            SettingChange::EvictConnection(addr) => NodeGlobalsView {
                connections: self.connections.remove(addr),
                ..self
            },
            SettingChange::ClearConnections => NodeGlobalsView { connections: Map::empty(), ..self },
        }
    }

    /// The settings after each of `changes`, in order.
    pub open spec fn after_all(self, changes: Seq<SettingChange>) -> Self
        decreases changes.len(),
    {
        if changes.len() == 0 {
            self
        } else {
            self.after_all(changes.drop_last()).after(changes.last())
        }
    }
}

/// Each change sets the one setting it names to the value it carries,
/// whatever that setting held before, and leaves every other setting as it
/// was: restoring the changed setting gives back the settings before the
/// change.
pub proof fn lemma_change_sets_its_setting<C>(start: NodeGlobalsView<C>, change: SettingChange)
    ensures
        ({
            let end = start.after(change);
            match change {
                SettingChange::LocalNodeName(name) => {
                    &&& end.local_node_name == name
                    &&& NodeGlobalsView { local_node_name: start.local_node_name, ..end } == start
                },
                SettingChange::InitTime(t) => {
                    &&& end.init_time == Some(t)
                    &&& NodeGlobalsView { init_time: start.init_time, ..end } == start
                },
                SettingChange::Addr(addr) => {
                    &&& end.rustfs_addr == addr
                    &&& NodeGlobalsView { rustfs_addr: start.rustfs_addr, ..end } == start
                },
                SettingChange::RootCert(cert) => {
                    &&& end.root_cert == Some(cert)
                    &&& NodeGlobalsView { root_cert: start.root_cert, ..end } == start
                },
                SettingChange::MtlsIdentity(identity) => {
                    &&& end.mtls_identity == identity
                    &&& NodeGlobalsView { mtls_identity: start.mtls_identity, ..end } == start
                },
                SettingChange::OutboundTlsGeneration(generation) => {
                    &&& end.outbound_tls_generation == generation
                    &&& NodeGlobalsView { outbound_tls_generation: start.outbound_tls_generation, ..end }
                        == start
                },
                SettingChange::EvictConnection(addr) => {
                    &&& !end.connections.contains_key(addr)
                    &&& forall|other: Seq<char>|
                        other != addr ==> (#[trigger] end.connections.contains_key(other)
                            == start.connections.contains_key(other) && (end.connections.contains_key(
                            other,
                        ) ==> end.connections[other] == start.connections[other]))
                    &&& NodeGlobalsView { connections: start.connections, ..end } == start
                },
                SettingChange::ClearConnections => {
                    &&& end.connections.len() == 0
                    &&& end.connections.dom() == Set::<Seq<char>>::empty()
                    &&& NodeGlobalsView { connections: start.connections, ..end } == start
                },
            }
        }),
{
}

/// The generation set by the latest generation change in `changes`, or
/// `initial` where there is none.
pub open spec fn latest_generation(changes: Seq<SettingChange>, initial: u64) -> u64
    decreases changes.len(),
{
    if changes.len() == 0 {
        initial
    } else {
        match changes.last() {
            SettingChange::OutboundTlsGeneration(generation) => generation,
            _ => latest_generation(changes.drop_last(), initial),
        }
    }
}

/// The start time recorded by the latest start-time change in `changes`, or
/// `initial` where there is none.
pub open spec fn latest_init_time(changes: Seq<SettingChange>, initial: Option<UtcTimestamp>) -> Option<
    UtcTimestamp,
>
    decreases changes.len(),
{
    if changes.len() == 0 {
        initial
    } else {
        match changes.last() {
            SettingChange::InitTime(t) => Some(t),
            _ => latest_init_time(changes.drop_last(), initial),
        }
    }
}

/// The generation read after any sequence of changes is the one the latest
/// generation change stored, or the starting one (0 for fresh settings)
/// where no change stored one.
pub proof fn lemma_generation_after_changes<C>(start: NodeGlobalsView<C>, changes: Seq<SettingChange>)
    ensures
        start.after_all(changes).outbound_tls_generation == latest_generation(
            changes,
            start.outbound_tls_generation,
        ),
    decreases changes.len(),
{
    if changes.len() > 0 {
        lemma_generation_after_changes(start, changes.drop_last());
    }
}

/// The start time read after any sequence of changes is the one the latest
/// start-time change recorded, or the starting one (none for fresh settings)
/// where no change recorded one.
pub proof fn lemma_init_time_after_changes<C>(start: NodeGlobalsView<C>, changes: Seq<SettingChange>)
    ensures
        start.after_all(changes).init_time == latest_init_time(changes, start.init_time),
    decreases changes.len(),
{
    if changes.len() > 0 {
        lemma_init_time_after_changes(start, changes.drop_last());
    }
}

/// The settings of one node, with connections of type `C` cached by peer
/// address.
#[verifier::reject_recursive_types(C)]
pub struct NodeGlobals<C> {
    pub local_node_name: String,
    pub rustfs_host: String,
    pub rustfs_port: String,
    pub rustfs_addr: String,
    pub conn_map: StringHashMap<C>,
    pub root_cert: Option<Vec<u8>>,
    pub mtls_identity: Option<MtlsIdentityPem>,
    pub outbound_tls_generation: u64,
    pub init_time: Option<UtcTimestamp>,
}

impl<C> View for NodeGlobals<C> {
    type V = NodeGlobalsView<C>;

    open spec fn view(&self) -> NodeGlobalsView<C> {
        NodeGlobalsView {
            local_node_name: self.local_node_name@,
            rustfs_host: self.rustfs_host@,
            rustfs_port: self.rustfs_port@,
            rustfs_addr: self.rustfs_addr@,
            connections: self.conn_map@,
            root_cert: match self.root_cert {
                Some(c) => Some(c@),
                None => None,
            },
            mtls_identity: match self.mtls_identity {
                Some(i) => Some(i@),
                None => None,
            },
            outbound_tls_generation: self.outbound_tls_generation,
            init_time: self.init_time,
        }
    }
}

impl<C> NodeGlobals<C> {
    /// The settings of a node before anything is configured: empty names,
    /// port `9000`, no cached connections, no TLS material, generation 0 and
    /// no start time.
    pub fn new() -> (res: Self)
        ensures
            res@ == (NodeGlobalsView::<C> {
                local_node_name: Seq::empty(),
                rustfs_host: Seq::empty(),
                rustfs_port: "9000"@,
                rustfs_addr: Seq::empty(),
                connections: Map::empty(),
                root_cert: None,
                mtls_identity: None,
                outbound_tls_generation: 0,
                init_time: None,
            }),
    {
        NodeGlobals {
            local_node_name: String::new(),
            rustfs_host: String::new(),
            rustfs_port: "9000".to_owned(),
            rustfs_addr: String::new(),
            conn_map: StringHashMap::new(),
            root_cert: None,
            mtls_identity: None,
            outbound_tls_generation: 0,
            init_time: None,
        }
    }
}

/// Sets the name of the local node.
pub fn set_global_local_node_name<C>(globals: &mut NodeGlobals<C>, name: &str)
    ensures
        final(globals)@ == old(globals)@.after(SettingChange::LocalNodeName(name@)),
        final(globals)@.local_node_name == name@,
{
    globals.local_node_name = name.to_owned();
}

/// The name of the local node.
pub fn get_global_local_node_name<C>(globals: &NodeGlobals<C>) -> (res: String)
    ensures
        res@ == globals@.local_node_name,
{
    globals.local_node_name.clone()
}

/// Records `now` as the moment the node started.
pub fn set_global_init_time<C>(globals: &mut NodeGlobals<C>, now: UtcTimestamp)
    ensures
        final(globals)@ == old(globals)@.after(SettingChange::InitTime(now)),
        final(globals)@.init_time == Some(now),
{
    globals.init_time = Some(now);
}

/// Records the current UTC time, as the clock reads it, as the moment the
/// node started.
pub fn set_global_init_time_now<C>(globals: &mut NodeGlobals<C>)
    ensures
        final(globals)@.init_time is Some,
        is_clock_reading(final(globals)@.init_time.unwrap()),
        final(globals)@ == old(globals)@.after(SettingChange::InitTime(final(globals)@.init_time.unwrap())),
{
    let now = utc_now();
    set_global_init_time(globals, now);
}

/// The moment the node started, if it was recorded.
pub fn get_global_init_time<C>(globals: &NodeGlobals<C>) -> (res: Option<UtcTimestamp>)
    ensures
        res == globals@.init_time,
{
    globals.init_time
}

/// Sets the address (such as `https://node1:9000`) used for connections
/// between nodes.
pub fn set_global_addr<C>(globals: &mut NodeGlobals<C>, addr: &str)
    ensures
        final(globals)@ == old(globals)@.after(SettingChange::Addr(addr@)),
        final(globals)@.rustfs_addr == addr@,
{
    globals.rustfs_addr = addr.to_owned();
}

/// Sets the PEM-encoded root CA certificate that outbound clients validate
/// servers against.
pub fn set_global_root_cert<C>(globals: &mut NodeGlobals<C>, cert: Vec<u8>)
    ensures
        final(globals)@ == old(globals)@.after(SettingChange::RootCert(cert@)),
        final(globals)@.root_cert == Some(cert@),
{
    globals.root_cert = Some(cert);
}

/// Sets, or with `None` removes, the identity that outbound clients present
/// for mutual TLS.
pub fn set_global_mtls_identity<C>(globals: &mut NodeGlobals<C>, identity: Option<MtlsIdentityPem>)
    ensures
        final(globals)@ == old(globals)@.after(SettingChange::MtlsIdentity(
            match identity {
                Some(i) => Some(i@),
                None => None,
            },
        )),
        final(globals)@.mtls_identity == match identity {
            Some(i) => Some(i@),
            None => None,
        },
{
    globals.mtls_identity = identity;
}

/// Sets the generation number of the outbound TLS configuration.
pub fn set_global_outbound_tls_generation<C>(globals: &mut NodeGlobals<C>, generation: u64)
    ensures
        final(globals)@ == old(globals)@.after(SettingChange::OutboundTlsGeneration(generation)),
        final(globals)@.outbound_tls_generation == generation,
{
    globals.outbound_tls_generation = generation;
}

/// The generation number of the outbound TLS configuration.
pub fn get_global_outbound_tls_generation<C>(globals: &NodeGlobals<C>) -> (res: u64)
    ensures
        res == globals@.outbound_tls_generation,
{
    globals.outbound_tls_generation
}

/// Drops the cached connection to `addr`, so that the next request opens a
/// fresh one. Returns whether a connection was cached there.
pub fn evict_connection<C>(globals: &mut NodeGlobals<C>, addr: &str) -> (removed: bool)
    ensures
        removed == old(globals)@.connections.contains_key(addr@),
        final(globals)@ == old(globals)@.after(SettingChange::EvictConnection(addr@)),
        !final(globals)@.connections.contains_key(addr@),
        forall|other: Seq<char>|
            other != addr@ ==> #[trigger] final(globals)@.connections.contains_key(other)
                == old(globals)@.connections.contains_key(other),
{
    let removed = globals.conn_map.contains_key(addr);
    globals.conn_map.remove(addr);
    removed
}

/// Whether a connection to `addr` is cached.
pub fn has_cached_connection<C>(globals: &NodeGlobals<C>, addr: &str) -> (res: bool)
    ensures
        res == globals@.connections.contains_key(addr@),
{
    globals.conn_map.contains_key(addr)
}

/// Drops every cached connection. Returns how many there were.
pub fn clear_all_connections<C>(globals: &mut NodeGlobals<C>) -> (count: usize)
    ensures
        count == old(globals)@.connections.len(),
        final(globals)@ == old(globals)@.after(SettingChange::ClearConnections),
        final(globals)@.connections.len() == 0,
{
    let count = globals.conn_map.len();
    globals.conn_map.clear();
    count
}

} // verus!
