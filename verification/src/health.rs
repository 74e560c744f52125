//! Connection health: the status of each watched connection. A watch reads
//! healthy from the moment it starts; a probe after each interval records
//! healthy, degraded or disconnected; stopping a watch forgets it.

use vstd::prelude::*;

use crate::registry::KeyedTable;
use crate::types::Health;

verus! {

/// One watched connection: its current status and the generation of the
/// watch, which tells the probes of an earlier watch of the same id apart.
#[derive(Clone, Copy, Debug, PartialEq, Eq)]
pub struct Watch {
    pub status: Health,
    pub generation: u64,
}

/// The status of `id` in a view of the watches: its watch's status, or
/// disconnected when it is not watched.
pub open spec fn status_in(watches: Map<Seq<char>, Watch>, id: Seq<char>) -> Health {
    if watches.contains_key(id) {
        watches[id].status
    } else {
        Health::Disconnected
    }
}

/// The statuses of the watched connections.
pub struct HealthMonitor {
    watches: KeyedTable<Watch>,
    next_generation: u64,
}

/// The status a probe finds: disconnected when the connection is gone,
/// healthy when `SELECT 1` succeeds, degraded when it fails.
pub open spec fn probe_status(connected: bool, query_ok: bool) -> Health {
    if !connected {
        Health::Disconnected
    } else if query_ok {
        Health::Healthy
    } else {
        Health::Degraded
    }
}

/// The status a probe finds.
pub fn probe_outcome(connected: bool, query_ok: bool) -> (r: Health)
    ensures
        r == probe_status(connected, query_ok),
{
    if !connected {
        Health::Disconnected
    } else if query_ok {
        Health::Healthy
    } else {
        Health::Degraded
    }
}

impl HealthMonitor {
    /// The watches, by connection id.
    pub closed spec fn view(&self) -> Map<Seq<char>, Watch> {
        self.watches.view()
    }

    /// The generation the next watch gets.
    pub closed spec fn next(&self) -> u64 {
        self.next_generation
    }

    /// A monitor watching nothing.
    pub fn new() -> (r: HealthMonitor)
        ensures
            r.view() == Map::<Seq<char>, Watch>::empty(),
    {
        HealthMonitor { watches: KeyedTable::new(), next_generation: 0 }
    }

    /// Starts watching `id`, replacing any earlier watch of it; the status
    /// is healthy at once. Returns the generation of the new watch, which
    /// its probes record under.
    pub fn start(&mut self, id: String) -> (generation: u64)
        ensures
            generation == old(self).next(),
            final(self).next() == if old(self).next() < u64::MAX {
                (old(self).next() + 1) as u64
            } else {
                0
            },
            final(self).view() == old(self).view().insert(
                id@,
                Watch { status: Health::Healthy, generation },
            ),
    {
        let generation = self.next_generation;
        self.next_generation = if self.next_generation < u64::MAX {
            self.next_generation + 1
        } else {
            0
        };
        self.watches.insert(id, Watch { status: Health::Healthy, generation });
        generation
    }

    /// Stops watching `id` and forgets its status.
    pub fn stop(&mut self, id: &str)
        ensures
            final(self).view() == old(self).view().remove(id@),
            final(self).next() == old(self).next(),
    {
        let _ = self.watches.remove(id);
    }

    /// The status of `id`: disconnected when it was never watched or its
    /// watch was stopped.
    pub fn status(&self, id: &str) -> (r: Health)
        ensures
            r == status_in(self.view(), id@),
    {
        match self.watches.get(id) {
            Some(w) => w.status,
            None => Health::Disconnected,
        }
    }

    /// Whether the watch of `id` of the given generation is still running:
    /// neither stopped nor replaced.
    pub fn is_current(&self, id: &str, generation: u64) -> (r: bool)
        ensures
            r == (self.view().contains_key(id@) && self.view()[id@].generation == generation),
    {
        match self.watches.get(id) {
            Some(w) => w.generation == generation,
            None => false,
        }
    }

    /// Records a probe's finding for the watch of `id` of the given
    /// generation; a probe of a stopped or replaced watch changes nothing.
    /// Returns whether the watch was still current.
    pub fn record(&mut self, id: &str, generation: u64, status: Health) -> (r: bool)
        ensures
            r == (old(self).view().contains_key(id@) && old(self).view()[id@].generation
                == generation),
            r ==> final(self).view() == old(self).view().insert(
                id@,
                Watch { status, generation },
            ),
            !r ==> final(self).view() == old(self).view(),
            final(self).next() == old(self).next(),
    {
        let current = match self.watches.get(id) {
            Some(w) => w.generation == generation,
            None => false,
        };
        if current {
            self.watches.insert(String::from_str(id), Watch { status, generation });
        }
        current
    }
}

/// A watch reads healthy right after it starts, whatever came before.
pub proof fn law_started_watch_is_healthy(
    before: Map<Seq<char>, Watch>,
    id: Seq<char>,
    generation: u64,
)
    ensures
        status_in(before.insert(id, Watch { status: Health::Healthy, generation }), id)
            == Health::Healthy,
{
}

/// A stopped watch reads disconnected.
pub proof fn law_stopped_watch_is_disconnected(before: Map<Seq<char>, Watch>, id: Seq<char>)
    ensures
        status_in(before.remove(id), id) == Health::Disconnected,
{
}

/// Starting or stopping one connection's watch leaves every other
/// connection's status as it was.
pub proof fn law_watches_are_independent(
    before: Map<Seq<char>, Watch>,
    id: Seq<char>,
    other: Seq<char>,
    w: Watch,
)
    requires
        id != other,
    ensures
        status_in(before.insert(id, w), other) == status_in(before, other),
        status_in(before.remove(id), other) == status_in(before, other),
{
}

/// Once a connection's watch is replaced by a newer one, a probe of the
/// older watch no longer counts: only the newest generation is current.
pub proof fn law_replaced_watch_ignores_stale_probes(
    before: Map<Seq<char>, Watch>,
    id: Seq<char>,
    older: u64,
    newer: u64,
)
    requires
        older != newer,
    ensures
        ({
            let after = before.insert(id, Watch { status: Health::Healthy, generation: older }).insert(
                id,
                Watch { status: Health::Healthy, generation: newer },
            );
            &&& !(after.contains_key(id) && after[id].generation == older)
            &&& after.contains_key(id) && after[id].generation == newer
        }),
{
}

} // verus!
