//! The connection life cycle of the shared database handle.
//!
//! A new configuration is compared with the one in use: a new host needs a
//! fresh connection (after a probe of the old one), the same host with
//! another namespace or database only needs a switch, and an identical
//! configuration needs nothing. The manager decides the step; the caller
//! performs it against the database and reports whether it succeeded.
use vstd::prelude::*;
use crate::text::{owned, push_str, str_equal};

verus! {

/// Where and as whom to connect.
#[derive(Debug)]
pub struct ConnectionConfig {
    pub host: String,
    pub namespace: String,
    pub database: String,
    pub username: String,
    pub password: String,
}

impl ConnectionConfig {
    /// A configuration from its five parts.
    pub fn new(
        host: String,
        namespace: String,
        database: String,
        username: String,
        password: String,
    ) -> (r: Self)
        ensures
            r.host@ == host@,
            r.namespace@ == namespace@,
            r.database@ == database@,
            r.username@ == username@,
            r.password@ == password@,
    {
        ConnectionConfig { host, namespace, database, username, password }
    }

    /// A copy of the configuration.
    pub fn duplicate(&self) -> (r: Self)
        ensures
            r.same_as(*self),
    {
        ConnectionConfig {
            host: self.host.clone(),
            namespace: self.namespace.clone(),
            database: self.database.clone(),
            username: self.username.clone(),
            password: self.password.clone(),
        }
    }

    /// The two configurations hold the same five texts.
    pub open spec fn same_as(self, other: ConnectionConfig) -> bool {
        &&& self.host@ == other.host@
        &&& self.namespace@ == other.namespace@
        &&& self.database@ == other.database@
        &&& self.username@ == other.username@
        &&& self.password@ == other.password@
    }

    /// Moving to `self` from `other` needs a new connection: the host differs.
    pub open spec fn spec_needs_reconnect(self, other: ConnectionConfig) -> bool {
        self.host@ != other.host@
    }

    /// Moving to `self` from `other` needs only a namespace or database
    /// switch: same host, another namespace or database.
    pub open spec fn spec_needs_switch(self, other: ConnectionConfig) -> bool {
        self.host@ == other.host@ && (self.namespace@ != other.namespace@ || self.database@
            != other.database@)
    }

    /// Whether moving to `self` from `other` needs a new connection.
    pub fn needs_reconnect(&self, other: &ConnectionConfig) -> (r: bool)
        ensures
            r == self.spec_needs_reconnect(*other),
    {
        !(self.host == other.host)
    }

    /// Whether moving to `self` from `other` needs only a switch.
    pub fn needs_switch(&self, other: &ConnectionConfig) -> (r: bool)
        ensures
            r == self.spec_needs_switch(*other),
    {
        self.host == other.host && (!(self.namespace == other.namespace) || !(self.database
            == other.database))
    }
}

/// Whether the handle is connected, and with which configuration.
pub enum ConnectionState {
    Disconnected,
    Connected { config: ConnectionConfig },
}

/// The next thing to do against the database.
#[derive(Clone, Copy, Debug, PartialEq, Eq, Structural)]
pub enum ConnectStep {
    /// Connect to the host, sign in, select namespace and database.
    Connect,
    /// Check whether the old connection still answers (`INFO FOR DB`).
    ProbeOldConnection,
    /// Sign in again and select the new namespace and database.
    SwitchNsDb,
    /// Nothing: the configuration is already in use.
    Unchanged,
}

/// The first step for moving from `state` to `new_config`.
pub open spec fn plan_of(state: ConnectionState, new_config: ConnectionConfig) -> ConnectStep {
    match state {
        ConnectionState::Disconnected => ConnectStep::Connect,
        ConnectionState::Connected { config } => if new_config.spec_needs_reconnect(config) {
            ConnectStep::ProbeOldConnection
        } else if new_config.spec_needs_switch(config) {
            ConnectStep::SwitchNsDb
        } else {
            ConnectStep::Unchanged
        },
    }
}

/// The step after the probe of the old connection.
pub open spec fn after_probe_of(old_connection_alive: bool) -> ConnectStep {
    if old_connection_alive {
        ConnectStep::SwitchNsDb
    } else {
        ConnectStep::Connect
    }
}

/// Keeps the connection state of the shared handle.
pub struct SurrealConnectionManager {
    state: ConnectionState,
}

impl View for SurrealConnectionManager {
    type V = ConnectionState;

    closed spec fn view(&self) -> ConnectionState {
        self.state
    }
}

impl SurrealConnectionManager {
    /// A manager that has not connected yet.
    pub fn new() -> (r: Self)
        ensures
            r@ is Disconnected,
    {
        SurrealConnectionManager { state: ConnectionState::Disconnected }
    }

    /// The first step towards `new_config`.
    pub fn plan_connect(&self, new_config: &ConnectionConfig) -> (step: ConnectStep)
        ensures
            step == plan_of(self@, *new_config),
    {
        match &self.state {
            ConnectionState::Disconnected => ConnectStep::Connect,
            ConnectionState::Connected { config } => {
                if new_config.needs_reconnect(config) {
                    ConnectStep::ProbeOldConnection
                } else if new_config.needs_switch(config) {
                    ConnectStep::SwitchNsDb
                } else {
                    ConnectStep::Unchanged
                }
            },
        }
    }

    /// The step after the probe of the old connection: a live one is
    /// switched over, a dead one is replaced by a new connection.
    pub fn after_probe(old_connection_alive: bool) -> (step: ConnectStep)
        ensures
            step == after_probe_of(old_connection_alive),
    {
        if old_connection_alive {
            ConnectStep::SwitchNsDb
        } else {
            ConnectStep::Connect
        }
    }

    /// Records the outcome of a connect or switch towards `new_config`: on
    /// success the manager is connected with it, on failure nothing changes.
    pub fn finish(&mut self, new_config: ConnectionConfig, succeeded: bool)
        ensures
            succeeded ==> final(self)@ == (ConnectionState::Connected { config: new_config }),
            !succeeded ==> final(self)@ == old(self)@,
    {
        if succeeded {
            self.state = ConnectionState::Connected { config: new_config };
        }
    }

    /// The host in use, if connected.
    pub fn current_host(&self) -> (r: Option<String>)
        ensures
            match self@ {
                ConnectionState::Connected { config } => r matches Some(h) && h@ == config.host@,
                ConnectionState::Disconnected => r is None,
            },
    {
        match &self.state {
            ConnectionState::Connected { config } => Some(config.host.clone()),
            ConnectionState::Disconnected => None,
        }
    }

    /// Marks the connection as lost, without touching the database.
    pub fn mark_disconnected(&mut self)
        ensures
            final(self)@ is Disconnected,
    {
        self.state = ConnectionState::Disconnected;
    }

    /// Whether the manager considers itself disconnected.
    pub fn is_disconnected(&self) -> (r: bool)
        ensures
            r == (self@ is Disconnected),
    {
        match &self.state {
            ConnectionState::Disconnected => true,
            ConnectionState::Connected { .. } => false,
        }
    }
}

/// A host change and a namespace switch exclude each other, and a
/// configuration that matches in host, namespace and database needs neither.
pub proof fn lemma_reconnect_switch_exclusive(a: ConnectionConfig, b: ConnectionConfig)
    ensures
        !(a.spec_needs_reconnect(b) && a.spec_needs_switch(b)),
        (!a.spec_needs_reconnect(b) && !a.spec_needs_switch(b)) <==> (a.host@ == b.host@
            && a.namespace@ == b.namespace@ && a.database@ == b.database@),
{
}

/// Whatever the state, the plan towards a configuration is a connect, a
/// probe, a switch or nothing, and it is nothing exactly when the manager is
/// connected with the same host, namespace and database.
pub proof fn lemma_plan_unchanged_iff_same(state: ConnectionState, new_config: ConnectionConfig)
    ensures
        (plan_of(state, new_config) == ConnectStep::Unchanged) <==> (state matches ConnectionState::Connected { config }
            && config.host@ == new_config.host@ && config.namespace@ == new_config.namespace@
            && config.database@ == new_config.database@),
        (plan_of(state, new_config) == ConnectStep::Connect) <==> (state is Disconnected),
{
}

/// The host a state is connected to, if any.
pub open spec fn host_of(state: ConnectionState) -> Option<Seq<char>> {
    match state {
        ConnectionState::Connected { config } => Some(config.host@),
        ConnectionState::Disconnected => None,
    }
}

/// The state after moving from `state` towards `new_config`: nothing
/// changes when the plan is to do nothing; otherwise the manager is
/// connected with `new_config` when the database work (a connect, or a
/// switch, after a probe where the plan asks for one) succeeded, and stays
/// as it was when it failed. This is `plan_connect`, then `after_probe`
/// where the plan is a probe, then `finish` with the outcome.
pub open spec fn connect_result(state: ConnectionState, new_config: ConnectionConfig, succeeded: bool) -> ConnectionState {
    if plan_of(state, new_config) == ConnectStep::Unchanged {
        state
    } else if succeeded {
        ConnectionState::Connected { config: new_config }
    } else {
        state
    }
}

/// Connecting towards a configuration: a failure leaves the state as it
/// was; a success leaves the manager connected to the new host; and a
/// configuration with the host, namespace and database in use (whatever
/// its credentials) does no database work and changes nothing. `before`
/// and `after` are the manager before `plan_connect` and after the steps
/// that follow it (`finish` with `succeeded`, unless the plan was to do
/// nothing).
pub proof fn lemma_connect_outcome(
    before: ConnectionState,
    after: ConnectionState,
    new_config: ConnectionConfig,
    succeeded: bool,
)
    requires
        after == connect_result(before, new_config, succeeded),
    ensures
        !succeeded ==> after == before,
        succeeded ==> host_of(after) == Some(new_config.host@),
        (before matches ConnectionState::Connected { config } && config.host@ == new_config.host@
            && config.namespace@ == new_config.namespace@ && config.database@
            == new_config.database@) ==> plan_of(before, new_config) == ConnectStep::Unchanged
            && after == before,
{
    lemma_plan_unchanged_iff_same(before, new_config);
}

/// The statement that selects the namespace `ns` and the database `db`,
/// the names written between back-quotes as they are.
pub open spec fn use_ns_db_text(ns: Seq<char>, db: Seq<char>) -> Seq<char> {
    "USE NS `"@ + ns + "` DB `"@ + db + "`;"@
}

/// The statement that selects the namespace `ns` and the database `db`.
pub fn use_ns_db_sql(ns: &str, db: &str) -> (r: String)
    ensures
        r@ == use_ns_db_text(ns@, db@),
{
    let mut r = owned("USE NS `");
    push_str(&mut r, ns);
    push_str(&mut r, "` DB `");
    push_str(&mut r, db);
    push_str(&mut r, "`;");
    r
}

/// The address of the in-memory store: `localhost` is written as
/// `127.0.0.1`.
pub open spec fn mem_kv_url_text(ip: Seq<char>, port: Seq<char>) -> Seq<char> {
    let host = if ip == "localhost"@ {
        "127.0.0.1"@
    } else {
        ip
    };
    "ws://"@ + host + ":"@ + port
}

/// The web-socket address of the in-memory store at `ip` and `port` (the
/// port as written).
pub fn mem_kv_url(ip: &str, port: &str) -> (r: String)
    ensures
        r@ == mem_kv_url_text(ip@, port@),
{
    let mut r = owned("ws://");
    if str_equal(ip, "localhost") {
        push_str(&mut r, "127.0.0.1");
    } else {
        push_str(&mut r, ip);
    }
    push_str(&mut r, ":");
    push_str(&mut r, port);
    r
}

/// Connection attempts to the in-memory store before giving up.
pub const MEM_KV_MAX_ATTEMPTS: usize = 10;

/// After the `failures`-th failed attempt: give up (none) once the limit
/// is reached, else wait 200 ms times the number of failures.
pub open spec fn mem_kv_backoff_of(failures: usize) -> Option<u64> {
    if failures >= MEM_KV_MAX_ATTEMPTS {
        None
    } else {
        Some((200 * failures) as u64)
    }
}

/// What follows the `failures`-th failed attempt to reach the in-memory
/// store: the wait in milliseconds before the next attempt, or none when
/// the attempts are used up.
pub fn mem_kv_backoff(failures: usize) -> (r: Option<u64>)
    ensures
        r == mem_kv_backoff_of(failures),
{
    if failures >= MEM_KV_MAX_ATTEMPTS {
        None
    } else {
        let f: u64 = failures as u64;
        Some(200 * f)
    }
}

/// The waits grow with each failure and the attempts end: every failure
/// before the limit waits longer than the one before it.
pub proof fn lemma_mem_kv_backoff_grows(f: usize)
    requires
        0 < f,
        f + 1 < MEM_KV_MAX_ATTEMPTS,
    ensures
        mem_kv_backoff_of(f) matches Some(a) && mem_kv_backoff_of((f + 1) as usize) matches Some(b)
            && a < b,
        mem_kv_backoff_of(MEM_KV_MAX_ATTEMPTS) is None,
{
}

} // verus!
