//! The game-world model the three drivers act on: a player, a spawner,
//! and the transient pickups the spawner emits. Entities are known by
//! numeric identities; the collision resolver removes a pickup when a
//! sensor contact pairs it with the player, and removing an entity
//! that is already gone is a no-op.

use vstd::prelude::*;
use crate::spawner::SpawnOutcome;
use crate::spawner::SpawnTimer;
use crate::spawner::Spawner;
use crate::spawner::spawn_step;
use crate::spawner::SPAWN_MAX_DURATION_MS;
use crate::spawner::MILLIS_PER_SEC;
use crate::spawner::REARM_MIN_SECS;
use crate::spawner::REARM_MAX_SECS;

verus! {

/// A transient pickup entity: its identity and where it was spawned.
#[derive(Clone, Copy, Debug, PartialEq, Eq, Structural)]
pub struct Pickup {
    pub id: u64,
    pub x: i64,
    pub y: i64,
}

/// A collision event as the physics layer reports it: an unordered
/// pair of participant identities, tagged with whether the contact
/// involved a sensor collider.
#[derive(Clone, Copy, Debug, PartialEq, Eq, Structural)]
pub enum CollisionEvent {
    Started { first: u64, second: u64, sensor: bool },
    Stopped { first: u64, second: u64, sensor: bool },
}

/// No two pickups share an identity.
pub open spec fn ids_unique(s: Seq<Pickup>) -> bool {
    forall|i: int, j: int| 0 <= i < j < s.len() ==> s[i].id != s[j].id
}

/// Some pickup in `s` has the identity `id`.
pub open spec fn contains_id(s: Seq<Pickup>, id: u64) -> bool {
    exists|i: int| 0 <= i < s.len() && s[i].id == id
}

/// `s` with every pickup of identity `id` removed, order kept.
pub open spec fn remove_id(s: Seq<Pickup>, id: u64) -> Seq<Pickup>
    decreases s.len(),
{
    if s.len() == 0 {
        Seq::empty()
    } else {
        let rest = remove_id(s.drop_last(), id);
        if s.last().id == id {
            rest
        } else {
            rest.push(s.last())
        }
    }
}

/// What one collision event does to the pickups: a sensor contact that
/// pairs the player with another entity removes that other entity;
/// every other event changes nothing.
pub open spec fn spec_handle_event(s: Seq<Pickup>, player: u64, ev: CollisionEvent) -> Seq<Pickup> {
    match ev {
        CollisionEvent::Started { first, second, sensor } => {
            if sensor && first == player {
                remove_id(s, second)
            } else if sensor && second == player {
                remove_id(s, first)
            } else {
                s
            }
        }
        CollisionEvent::Stopped { .. } => s,
    }
}

/// The pickups left after handling a stream of events in order.
pub open spec fn spec_process_events(s: Seq<Pickup>, player: u64, evs: Seq<CollisionEvent>) -> Seq<Pickup>
    decreases evs.len(),
{
    if evs.len() == 0 {
        s
    } else {
        spec_process_events(spec_handle_event(s, player, evs[0]), player, evs.drop_first())
    }
}

/// How many pickups of `s` sit at the position `(x, y)`.
pub open spec fn spec_count_at(s: Seq<Pickup>, x: i64, y: i64) -> nat
    decreases s.len(),
{
    if s.len() == 0 {
        0nat
    } else {
        spec_count_at(s.drop_last(), x, y) + (if s.last().x == x && s.last().y == y {
            1nat
        } else {
            0nat
        })
    }
}

pub proof fn lemma_remove_id_removes(s: Seq<Pickup>, id: u64)
    ensures
        !contains_id(remove_id(s, id), id),
        forall|j: int| 0 <= j < remove_id(s, id).len() ==> s.contains(#[trigger] remove_id(s, id)[j]),
        remove_id(s, id).len() <= s.len(),
    decreases s.len(),
{
    if s.len() > 0 {
        lemma_remove_id_removes(s.drop_last(), id);
        let prev = s.drop_last();
        let r = remove_id(s, id);
        assert forall|j: int| 0 <= j < r.len() implies s.contains(#[trigger] r[j]) by {
            if s.last().id == id {
                assert(prev.contains(r[j]));
                let k = choose|k: int| 0 <= k < prev.len() && prev[k] == r[j];
                assert(s[k] == r[j]);
            } else {
                if j < r.len() - 1 {
                    assert(prev.contains(r[j]));
                    let k = choose|k: int| 0 <= k < prev.len() && prev[k] == r[j];
                    assert(s[k] == r[j]);
                } else {
                    assert(r[j] == s.last());
                    assert(s[s.len() - 1] == s.last());
                }
            }
        }
    }
}

pub proof fn lemma_remove_id_keeps_others(s: Seq<Pickup>, id: u64, other: u64)
    requires
        other != id,
    ensures
        contains_id(remove_id(s, id), other) == contains_id(s, other),
    decreases s.len(),
{
    if s.len() > 0 {
        let prev = s.drop_last();
        lemma_remove_id_keeps_others(prev, id, other);
        let r = remove_id(s, id);
        if contains_id(s, other) {
            let k = choose|k: int| 0 <= k < s.len() && s[k].id == other;
            if k < s.len() - 1 {
                assert(prev[k].id == other);
                assert(contains_id(prev, other));
                let m = choose|m: int| 0 <= m < remove_id(prev, id).len()
                    && remove_id(prev, id)[m].id == other;
                assert(r[m].id == other);
            } else {
                assert(s.last().id == other);
                assert(r.last().id == other);
            }
        }
        if contains_id(r, other) {
            let k = choose|k: int| 0 <= k < r.len() && r[k].id == other;
            if s.last().id == id {
                assert(remove_id(prev, id)[k].id == other);
            } else {
                if k < r.len() - 1 {
                    assert(remove_id(prev, id)[k].id == other);
                } else {
                    assert(r.last() == s.last());
                    assert(s[s.len() - 1].id == other);
                }
            }
        }
    }
}

pub proof fn lemma_remove_id_absent_noop(s: Seq<Pickup>, id: u64)
    requires
        !contains_id(s, id),
    ensures
        remove_id(s, id) == s,
    decreases s.len(),
{
    if s.len() > 0 {
        let prev = s.drop_last();
        assert(!contains_id(prev, id)) by {
            if contains_id(prev, id) {
                let k = choose|k: int| 0 <= k < prev.len() && prev[k].id == id;
                assert(s[k].id == id);
            }
        }
        lemma_remove_id_absent_noop(prev, id);
        assert(s[s.len() - 1] == s.last());
        assert(s.last().id != id);
        assert(remove_id(s, id) =~= s);
    }
}

/// Removing an identity a second time changes nothing.
pub proof fn lemma_remove_id_idempotent(s: Seq<Pickup>, id: u64)
    ensures
        remove_id(remove_id(s, id), id) == remove_id(s, id),
{
    lemma_remove_id_removes(s, id);
    lemma_remove_id_absent_noop(remove_id(s, id), id);
}

pub proof fn lemma_remove_id_unique(s: Seq<Pickup>, id: u64)
    requires
        ids_unique(s),
    ensures
        ids_unique(remove_id(s, id)),
    decreases s.len(),
{
    if s.len() > 0 {
        let prev = s.drop_last();
        assert(ids_unique(prev)) by {
            assert(forall|i: int, j: int| 0 <= i < j < prev.len()
                ==> prev[i] == s[i] && prev[j] == s[j]);
        }
        lemma_remove_id_unique(prev, id);
        let r = remove_id(s, id);
        if s.last().id != id {
            let rp = remove_id(prev, id);
            lemma_remove_id_removes(prev, id);
            assert forall|i: int, j: int| 0 <= i < j < r.len() implies r[i].id != r[j].id by {
                if j < r.len() - 1 {
                    assert(rp[i].id != rp[j].id);
                } else {
                    assert(r[j] == s.last());
                    assert(prev.contains(rp[i]));
                    let k = choose|k: int| 0 <= k < prev.len() && prev[k] == rp[i];
                    assert(s[k] == rp[i]);
                    assert(s[k].id != s[s.len() - 1].id);
                    assert(s[s.len() - 1] == s.last());
                }
            }
        }
    }
}

/// The persistent world: the player and spawner live for the whole
/// run; pickups come and go. Fresh identities are drawn from a counter
/// that has outgrown every identity already in the world.
pub struct GameWorld {
    pub player_id: u64,
    pub spawner: Spawner,
    pub pickups: Vec<Pickup>,
    pub next_id: u64,
}

impl GameWorld {
    pub open spec fn wf(self) -> bool {
        &&& self.player_id < self.next_id
        &&& forall|i: int| 0 <= i < self.pickups@.len()
            ==> (#[trigger] self.pickups@[i]).id < self.next_id
                && self.pickups@[i].id != self.player_id
        &&& ids_unique(self.pickups@)
    }

    /// A fresh world: the player and the spawner exist, no pickups yet.
    pub fn new(player_id: u64, spawner: Spawner) -> (w: GameWorld)
        requires
            player_id < u64::MAX,
        ensures
            w.wf(),
            w.player_id == player_id,
            w.spawner == spawner,
            w.pickups@ == Seq::<Pickup>::empty(),
            w.next_id == player_id + 1,
    {
        let w = GameWorld { player_id, spawner, pickups: Vec::new(), next_id: player_id + 1 };
        proof {
            assert(w.pickups@ =~= Seq::<Pickup>::empty());
        }
        w
    }

    /// Create one pickup at the spawner's position, under a fresh
    /// identity, and hand that identity back.
    pub fn spawn_pickup(&mut self) -> (id: u64)
        requires
            old(self).wf(),
            old(self).next_id < u64::MAX,
        ensures
            final(self).wf(),
            id == old(self).next_id,
            final(self).pickups@ == old(self).pickups@.push(Pickup {
                id,
                x: old(self).spawner.x,
                y: old(self).spawner.y,
            }),
            final(self).next_id == old(self).next_id + 1,
            final(self).player_id == old(self).player_id,
            final(self).spawner == old(self).spawner,
    {
        let id: u64 = self.next_id;
        let p = Pickup { id, x: self.spawner.x, y: self.spawner.y };
        self.pickups.push(p);
        self.next_id = self.next_id + 1;
        id
    }

    /// Remove the entity of identity `id` from the pickups, if it is
    /// there; removing an absent identity is a no-op, never an error.
    /// The player and the spawner are untouched whatever `id` names.
    pub fn despawn(&mut self, id: u64)
        requires
            old(self).wf(),
        ensures
            final(self).wf(),
            final(self).pickups@ == remove_id(old(self).pickups@, id),
            final(self).next_id == old(self).next_id,
            final(self).player_id == old(self).player_id,
            final(self).spawner == old(self).spawner,
    {
        let s = Ghost(self.pickups@);
        let mut kept: Vec<Pickup> = Vec::new();
        let mut i: usize = 0;
        while i < self.pickups.len()
            invariant
                i <= self.pickups@.len(),
                self.pickups@ == s@,
                kept@ == remove_id(s@.take(i as int), id),
            decreases self.pickups@.len() - i,
        {
            let p: Pickup = self.pickups[i];
            proof {
                assert(s@.take(i as int + 1).drop_last() =~= s@.take(i as int));
                assert(s@.take(i as int + 1).last() == s@[i as int]);
            }
            if p.id != id {
                kept.push(p);
            }
            i = i + 1;
        }
        proof {
            assert(s@.take(s@.len() as int) =~= s@);
            lemma_remove_id_removes(s@, id);
            lemma_remove_id_unique(s@, id);
            assert forall|j: int| 0 <= j < remove_id(s@, id).len()
                implies (#[trigger] remove_id(s@, id)[j]).id < self.next_id
                    && remove_id(s@, id)[j].id != self.player_id by {
                assert(s@.contains(remove_id(s@, id)[j]));
                let k = choose|k: int| 0 <= k < s@.len() && s@[k] == remove_id(s@, id)[j];
            }
        }
        self.pickups = kept;
    }

    /// Resolve one collision event: on a sensor contact that pairs the
    /// player with another entity, despawn that other entity. The
    /// player itself is never despawned, and re-delivering an event
    /// whose pickup is already gone changes nothing.
    pub fn handle_collision_event(&mut self, ev: &CollisionEvent)
        requires
            old(self).wf(),
        ensures
            final(self).wf(),
            final(self).pickups@ == spec_handle_event(old(self).pickups@, old(self).player_id, *ev),
            final(self).next_id == old(self).next_id,
            final(self).player_id == old(self).player_id,
            final(self).spawner == old(self).spawner,
    {
        match ev {
            CollisionEvent::Started { first, second, sensor } => {
                if *sensor && *first == self.player_id {
                    self.despawn(*second);
                } else if *sensor && *second == self.player_id {
                    self.despawn(*first);
                }
            }
            CollisionEvent::Stopped { .. } => {}
        }
    }

    /// Resolve a whole tick's stream of collision events in order.
    pub fn process_collision_events(&mut self, events: &Vec<CollisionEvent>)
        requires
            old(self).wf(),
        ensures
            final(self).wf(),
            final(self).pickups@ == spec_process_events(
                old(self).pickups@,
                old(self).player_id,
                events@,
            ),
            final(self).next_id == old(self).next_id,
            final(self).player_id == old(self).player_id,
            final(self).spawner == old(self).spawner,
    {
        proof {
            assert(events@.skip(0) =~= events@);
        }
        let mut i: usize = 0;
        while i < events.len()
            invariant
                i <= events@.len(),
                self.wf(),
                self.player_id == old(self).player_id,
                self.next_id == old(self).next_id,
                self.spawner == old(self).spawner,
                spec_process_events(old(self).pickups@, old(self).player_id, events@)
                    == spec_process_events(self.pickups@, self.player_id, events@.skip(i as int)),
            decreases events@.len() - i,
        {
            proof {
                assert(events@.skip(i as int).drop_first() =~= events@.skip(i as int + 1));
                assert(events@.skip(i as int)[0] == events@[i as int]);
            }
            self.handle_collision_event(&events[i]);
            i = i + 1;
        }
        proof {
            assert(events@.skip(events@.len() as int) =~= Seq::<CollisionEvent>::empty());
        }
    }

    /// How many pickups currently sit at `(x, y)`.
    pub fn count_pickups_at(&self, x: i64, y: i64) -> (n: usize)
        ensures
            n == spec_count_at(self.pickups@, x, y),
    {
        let mut n: usize = 0;
        let mut i: usize = 0;
        while i < self.pickups.len()
            invariant
                i <= self.pickups@.len(),
                n <= i,
                n == spec_count_at(self.pickups@.take(i as int), x, y),
            decreases self.pickups@.len() - i,
        {
            proof {
                assert(self.pickups@.take(i as int + 1).drop_last() =~= self.pickups@.take(
                    i as int,
                ));
                assert(self.pickups@.take(i as int + 1).last() == self.pickups@[i as int]);
            }
            let p: Pickup = self.pickups[i];
            if p.x == x && p.y == y {
                n = n + 1;
            }
            i = i + 1;
        }
        proof {
            assert(self.pickups@.take(self.pickups@.len() as int) =~= self.pickups@);
        }
        n
    }

    /// Whether a pickup of identity `id` is currently in the world.
    pub fn has_pickup(&self, id: u64) -> (b: bool)
        ensures
            b == contains_id(self.pickups@, id),
    {
        let mut i: usize = 0;
        while i < self.pickups.len()
            invariant
                i <= self.pickups@.len(),
                forall|j: int| 0 <= j < i ==> (#[trigger] self.pickups@[j]).id != id,
            decreases self.pickups@.len() - i,
        {
            if self.pickups[i].id == id {
                return true;
            }
            i = i + 1;
        }
        false
    }

    /// One spawner update against this world: advance the spawn
    /// countdown; each time it fires, exactly one pickup is created at
    /// the spawner's position and the countdown is re-armed with a
    /// random delay of one to four whole seconds.
    pub fn tick_spawner(&mut self, st: &mut SpawnTimer, delta_ms: u64) -> (spawned: Option<u64>)
        requires
            old(self).wf(),
            old(st).wf(),
            old(self).next_id < u64::MAX,
            delta_ms <= u64::MAX - SPAWN_MAX_DURATION_MS,
        ensures
            final(self).wf(),
            final(st).wf(),
            final(self).player_id == old(self).player_id,
            final(self).spawner == old(self).spawner,
            (spawned is Some) <==> (old(st).timer.spec_completions(delta_ms) > 0),
            old(st).timer.spec_completions(delta_ms) == 0 ==> {
                &&& *final(self) == *old(self)
                &&& final(st).timer == old(st).timer.spec_tick(delta_ms)
            },
            old(st).timer.spec_completions(delta_ms) > 0 ==> {
                &&& spawned == Some(old(self).next_id)
                &&& final(self).pickups@ == old(self).pickups@.push(Pickup {
                    id: old(self).next_id,
                    x: old(self).spawner.x,
                    y: old(self).spawner.y,
                })
                &&& final(self).next_id == old(self).next_id + 1
                &&& final(st).timer.elapsed_ms == 0
                &&& REARM_MIN_SECS * MILLIS_PER_SEC <= final(st).timer.duration_ms
                &&& final(st).timer.duration_ms < REARM_MAX_SECS * MILLIS_PER_SEC
                &&& final(st).timer.duration_ms % MILLIS_PER_SEC == 0
            },
    {
        let out = spawn_step(st, Some(&self.spawner), delta_ms);
        match out {
            SpawnOutcome::Spawn { .. } => {
                let id: u64 = self.spawn_pickup();
                Some(id)
            }
            _ => None,
        }
    }
}

/// Law: a collision-start sensor event that pairs the player with a
/// pickup removes that pickup and nothing else; in particular every
/// other identity — the player's among them — is still there, whichever
/// side of the pair the player stood on.
pub proof fn lemma_player_contact_collects_pickup(s: Seq<Pickup>, player: u64, pickup: u64)
    ensures
        !contains_id(
            spec_handle_event(
                s,
                player,
                CollisionEvent::Started { first: pickup, second: player, sensor: true },
            ),
            pickup,
        ),
        !contains_id(
            spec_handle_event(
                s,
                player,
                CollisionEvent::Started { first: player, second: pickup, sensor: true },
            ),
            pickup,
        ),
        forall|other: u64| other != pickup ==> #[trigger] contains_id(
            spec_handle_event(
                s,
                player,
                CollisionEvent::Started { first: player, second: pickup, sensor: true },
            ),
            other,
        ) == contains_id(s, other),
{
    lemma_remove_id_removes(s, pickup);
    lemma_remove_id_removes(s, player);
    assert forall|other: u64| other != pickup implies #[trigger] contains_id(
        spec_handle_event(
            s,
            player,
            CollisionEvent::Started { first: player, second: pickup, sensor: true },
        ),
        other,
    ) == contains_id(s, other) by {
        lemma_remove_id_keeps_others(s, pickup, other);
    }
}

/// Law: re-processing the same collision event is a no-op — handling
/// an event twice leaves exactly the pickups that handling it once
/// leaves, so a double despawn cannot error.
pub proof fn lemma_handle_event_idempotent(s: Seq<Pickup>, player: u64, ev: CollisionEvent)
    ensures
        spec_handle_event(spec_handle_event(s, player, ev), player, ev) == spec_handle_event(
            s,
            player,
            ev,
        ),
{
    match ev {
        CollisionEvent::Started { first, second, sensor } => {
            if sensor && first == player {
                lemma_remove_id_idempotent(s, second);
            } else if sensor && second == player {
                lemma_remove_id_idempotent(s, first);
            }
        }
        CollisionEvent::Stopped { .. } => {}
    }
}

} // verus!
