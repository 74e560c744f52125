//! The host's connection state: the live adapters, the health watches and
//! the active connection, kept consistent across connect and disconnect.

use vstd::prelude::*;

use crate::health::{status_in, HealthMonitor, Watch};
use crate::registry::{
    not_connected_message, startup_lines, startup_commands, through_tunnel, tunnel_wanted,
    wants_tunnel, Registry,
};
use crate::text::opt_text;
use crate::types::{ConnectionConfig, ConnectionTestResult, Health, SshConfig};

verus! {

broadcast use vstd::string::group_string_axioms;

/// The live adapters, their health watches and the active connection.
pub struct Host<A> {
    registry: Registry<A>,
    health: HealthMonitor,
    active: Option<String>,
}

/// What connecting a connection does first.
#[derive(Debug)]
pub enum ConnectStep {
    /// Nothing: the connection is live already.
    AlreadyConnected,
    /// Open an SSH tunnel with these settings, then the adapter.
    OpenTunnel(SshConfig),
    /// Open the adapter with these settings.
    OpenAdapter(ConnectionConfig),
}

impl<A> Host<A> {
    /// The id of the active connection.
    pub closed spec fn active(&self) -> Option<Seq<char>> {
        opt_text(self.active)
    }

    /// The live adapters by connection id.
    pub closed spec fn adapters(&self) -> Map<Seq<char>, A> {
        self.registry.adapters.view()
    }

    /// The health watches by connection id.
    pub closed spec fn watches(&self) -> Map<Seq<char>, Watch> {
        self.health.view()
    }

    /// The generation the next health watch gets.
    pub closed spec fn next_generation(&self) -> u64 {
        self.health.next()
    }

    /// Nothing connected, nothing watched, nothing active.
    pub fn new() -> (r: Host<A>)
        ensures
            r.adapters() == Map::<Seq<char>, A>::empty(),
            r.watches() == Map::<Seq<char>, Watch>::empty(),
            r.active() is None,
    {
        Host { registry: Registry::new(), health: HealthMonitor::new(), active: None }
    }

    /// The id of the active connection, if one was made active.
    pub fn active_connection_id(&self) -> (r: Option<String>)
        ensures
            opt_text(r) == self.active(),
    {
        match &self.active {
            Some(id) => Some(id.clone()),
            None => None,
        }
    }

    /// Makes `id` the active connection.
    pub fn set_active(&mut self, id: &str)
        ensures
            final(self).active() == Some(id@),
            final(self).adapters() == old(self).adapters(),
            final(self).watches() == old(self).watches(),
            final(self).next_generation() == old(self).next_generation(),
    {
        self.active = Some(String::from_str(id));
    }

    /// The adapter of the active connection: `No active connection` without
    /// one, `No active connection: <id>` when it is not connected.
    pub fn active_adapter(&self) -> (r: Result<&A, String>)
        ensures
            match self.active() {
                None => r matches Err(e) && e@ == "No active connection"@,
                Some(id) => match r {
                    Ok(a) => self.adapters().contains_key(id)
                        && self.adapters()[id] == *a,
                    Err(e) => !self.adapters().contains_key(id) && e@
                        == not_connected_message(id),
                },
            },
    {
        match &self.active {
            Some(id) => self.registry.active_adapter(Some(id.as_str())),
            None => self.registry.active_adapter(None),
        }
    }

    /// The adapter of a connected id, or `No active connection: <id>`.
    pub fn adapter(&self, id: &str) -> (r: Result<&A, String>)
        ensures
            match r {
                Ok(a) => self.adapters().contains_key(id@) && self.adapters()[id@] == *a,
                Err(e) => !self.adapters().contains_key(id@) && e@ == not_connected_message(id@),
            },
    {
        self.registry.adapter(id)
    }

    /// Keeps the adapter of a connection that has just connected.
    pub fn register(&mut self, id: String, adapter: A)
        ensures
            final(self).adapters() == old(self).adapters().insert(id@, adapter),
            final(self).watches() == old(self).watches(),
            final(self).next_generation() == old(self).next_generation(),
            final(self).active() == old(self).active(),
    {
        self.registry.register(id, adapter);
    }

    /// Whether the health watch of `id` of the given generation is still
    /// running.
    pub fn watch_is_current(&self, id: &str, generation: u64) -> (r: bool)
        ensures
            r == (self.watches().contains_key(id@) && self.watches()[id@].generation
                == generation),
    {
        self.health.is_current(id, generation)
    }

    /// Records a health probe's finding for the watch of `id` of the given
    /// generation; a probe of a stopped or replaced watch changes nothing.
    pub fn record_health(&mut self, id: &str, generation: u64, status: Health) -> (r: bool)
        ensures
            r == (old(self).watches().contains_key(id@) && old(self).watches()[id@].generation
                == generation),
            r ==> final(self).watches() == old(self).watches().insert(
                id@,
                Watch { status, generation },
            ),
            !r ==> final(self).watches() == old(self).watches(),
            final(self).adapters() == old(self).adapters(),
            final(self).active() == old(self).active(),
            final(self).next_generation() == old(self).next_generation(),
    {
        self.health.record(id, generation, status)
    }

    /// The first step of connecting `config`: nothing when it is live
    /// already, else its SSH tunnel when one is wanted, else its adapter.
    pub fn begin_connect(&self, config: &ConnectionConfig) -> (r: ConnectStep)
        ensures
            self.adapters().contains_key(config.id@) ==> r is AlreadyConnected,
            !self.adapters().contains_key(config.id@) && tunnel_wanted(*config) ==> (r matches ConnectStep::OpenTunnel(ssh) && config.ssh == Some(ssh)),
            !self.adapters().contains_key(config.id@) && !tunnel_wanted(*config) ==> (r matches ConnectStep::OpenAdapter(c) && c == *config),
    {
        if self.registry.is_connected(config.id.as_str()) {
            return ConnectStep::AlreadyConnected;
        }
        if wants_tunnel(config) {
            match &config.ssh {
                Some(ssh) => return ConnectStep::OpenTunnel(ssh.clone()),
                None => {},
            }
        }
        ConnectStep::OpenAdapter(config.clone())
    }

    /// Ends a connect: keeps the opened adapter under `id` and returns the
    /// startup commands to run on it; a failure to open leaves everything
    /// as it was and is handed back. After a success `id` is live, so a
    /// further [`Host::begin_connect`] of it is [`ConnectStep::AlreadyConnected`];
    /// after a failure an `id` that was not live is still not live.
    pub fn finish_connect(
        &mut self,
        id: String,
        opened: Result<A, String>,
        startup: &Option<String>,
    ) -> (r: Result<Vec<String>, String>)
        ensures
            match opened {
                Ok(a) => {
                    &&& final(self).adapters() == old(self).adapters().insert(id@, a)
                    &&& r matches Ok(cmds) && cmds@.map_values(|c: String| c@) == match *startup {
                        Some(t) => startup_lines(t@),
                        None => Seq::<Seq<char>>::empty(),
                    }
                },
                Err(e) => final(self).adapters() == old(self).adapters() && r == Err::<Vec<String>, String>(e),
            },
            opened is Ok ==> final(self).adapters().contains_key(id@),
            (opened is Err && !old(self).adapters().contains_key(id@)) ==> !final(self).adapters().contains_key(id@),
            final(self).watches() == old(self).watches(),
            final(self).next_generation() == old(self).next_generation(),
            final(self).active() == old(self).active(),
    {
        match opened {
            Ok(a) => {
                self.registry.register(id, a);
                match startup {
                    Some(t) => Ok(startup_commands(t.as_str())),
                    None => {
                        let v: Vec<String> = Vec::new();
                        assert(v@.map_values(|c: String| c@) =~= Seq::<Seq<char>>::empty());
                        Ok(v)
                    },
                }
            },
            Err(e) => Err(e),
        }
    }

    /// After `id` connected: it becomes the active connection and its health
    /// watch starts, healthy. Returns the generation of the watch.
    pub fn connected(&mut self, id: &str) -> (generation: u64)
        ensures
            final(self).active() == Some(id@),
            final(self).adapters() == old(self).adapters(),
            generation == old(self).next_generation(),
            final(self).next_generation() == if old(self).next_generation() < u64::MAX {
                (old(self).next_generation() + 1) as u64
            } else {
                0
            },
            final(self).watches() == old(self).watches().insert(
                id@,
                Watch { status: Health::Healthy, generation },
            ),
    {
        self.set_active(id);
        self.health.start(String::from_str(id))
    }

    /// Stops `id`'s health watch and drops its adapter, handing the adapter
    /// back so that it can be closed. The active connection stays as it was.
    pub fn disconnect(&mut self, id: &str) -> (r: Option<A>)
        ensures
            !final(self).adapters().contains_key(id@),
            !final(self).watches().contains_key(id@),
            (!old(self).adapters().contains_key(id@) && !old(self).watches().contains_key(id@)) ==> (r is None
                && final(self).adapters() == old(self).adapters() && final(self).watches() == old(
                self,
            ).watches()),
            final(self).watches() == old(self).watches().remove(id@),
            final(self).adapters() == old(self).adapters().remove(
                id@,
            ),
            final(self).active() == old(self).active(),
            final(self).next_generation() == old(self).next_generation(),
            match r {
                Some(a) => old(self).adapters().contains_key(id@) && old(self).adapters()[id@] == a,
                None => !old(self).adapters().contains_key(id@),
            },
    {
        self.health.stop(id);
        self.registry.unregister(id)
    }

    /// The health of `id`: disconnected unless it is watched.
    pub fn health_of(&self, id: &str) -> (r: Health)
        ensures
            r == status_in(self.watches(), id@),
    {
        self.health.status(id)
    }

    /// Whether `id` has a live adapter.
    pub fn is_connected(&self, id: &str) -> (r: bool)
        ensures
            r == self.adapters().contains_key(id@),
    {
        self.registry.is_connected(id)
    }
}

/// The settings a connection test connects with: those of the connection,
/// under the id `test`.
pub fn test_config(config: &ConnectionConfig) -> (r: ConnectionConfig)
    ensures
        r == (ConnectionConfig { id: r.id, ..*config }),
        r.id@ == "test"@,
{
    let mut c = config.clone();
    c.id = String::from_str("test");
    c
}

/// The settings of a connection switched to another database of the same
/// server.
pub fn with_database(config: &ConnectionConfig, database: &str) -> (r: ConnectionConfig)
    ensures
        r == (ConnectionConfig { database: r.database, ..*config }),
        r.database@ == database@,
{
    let mut c = config.clone();
    c.database = String::from_str(database);
    c
}

/// The answer to a connection test: the server version when connecting and
/// reading it succeeded, the first error otherwise.
pub fn test_result(outcome: Result<String, String>) -> (r: ConnectionTestResult)
    ensures
        match outcome {
            Ok(v) => r.ok && r.version == Some(v) && r.error is None,
            Err(e) => !r.ok && r.version is None && r.error == Some(e),
        },
{
    match outcome {
        Ok(v) => ConnectionTestResult { ok: true, version: Some(v), error: None },
        Err(e) => ConnectionTestResult { ok: false, version: None, error: Some(e) },
    }
}

/// The adapter settings once the tunnel step is done: the tunnel's local
/// end when it opened, its failure otherwise.
pub fn after_tunnel(config: &ConnectionConfig, opened: Result<u16, String>) -> (r: Result<ConnectionConfig, String>)
    ensures
        match opened {
            Ok(port) => r matches Ok(c) && c == (ConnectionConfig { host: c.host, port, ..*config }) && c.host@ == "127.0.0.1"@,
            Err(e) => r == Err::<ConnectionConfig, String>(e),
        },
{
    match opened {
        Ok(port) => Ok(through_tunnel(config, port)),
        Err(e) => Err(e),
    }
}

/// A connect that succeeds makes the connection live with the adapter it
/// opened and leaves every other connection as it was. (One that fails
/// changes nothing: see [`Host::finish_connect`].)
pub proof fn law_connect_makes_live<A>(
    adapters: Map<Seq<char>, A>,
    id: Seq<char>,
    other: Seq<char>,
    a: A,
)
    requires
        other != id,
    ensures
        adapters.insert(id, a).contains_key(id) && adapters.insert(id, a)[id] == a,
        adapters.insert(id, a).contains_key(other) == adapters.contains_key(other),
        adapters.contains_key(other) ==> adapters.insert(id, a)[other] == adapters[other],
{
}

/// Disconnecting a connection leaves it with no adapter, reading
/// disconnected; every other connection keeps its adapter and its health;
/// disconnecting it again changes nothing.
pub proof fn law_disconnect_forgets_only_that_connection<A>(
    adapters: Map<Seq<char>, A>,
    watches: Map<Seq<char>, Watch>,
    id: Seq<char>,
    other: Seq<char>,
)
    requires
        other != id,
    ensures
        !adapters.remove(id).contains_key(id),
        status_in(watches.remove(id), id) == Health::Disconnected,
        adapters.remove(id).contains_key(other) == adapters.contains_key(other),
        adapters.contains_key(other) ==> adapters.remove(id)[other] == adapters[other],
        status_in(watches.remove(id), other) == status_in(watches, other),
        adapters.remove(id).remove(id) == adapters.remove(id),
        watches.remove(id).remove(id) == watches.remove(id),
{
    assert(adapters.remove(id).remove(id) =~= adapters.remove(id));
    assert(watches.remove(id).remove(id) =~= watches.remove(id));
}

} // verus!
