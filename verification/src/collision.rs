//! Teams, health and the exchange of damage between combatants.
//!
//! A contact between two combatants of opposing teams costs each of them the
//! other's damage, taken from the values both had before the contact.

use std::collections::HashMap;
use vstd::prelude::*;
use vstd::std_specs::hash::*;
use crate::math::Vec3;

verus! {

broadcast use vstd::std_specs::hash::group_hash_axioms;

/// The identity of an entity of the world.
pub type Entity = u64;

/// The side a combatant fights on.
#[derive(Clone, Copy, PartialEq, Eq, Structural, Debug)]
pub enum Team {
    /// The ship and what it fires.
    Player,
    /// Enemies and what they fire.
    Enemy,
}

/// Health, damage and team of one combatant.
#[derive(Clone, Copy, PartialEq, Eq, Structural, Debug)]
pub struct Collidable {
    /// Damage dealt to the other side of a contact.
    pub damage: u32,
    /// Upper bound of `hit_points`.
    pub max_hit_points: u32,
    /// Hit points left.
    pub hit_points: u32,
    /// The side this combatant fights on.
    pub team: Team,
}

/// `v` held between `low` and `high`.
pub open spec fn clamp(v: int, low: int, high: int) -> int {
    if v < low {
        low
    } else if v > high {
        high
    } else {
        v
    }
}

/// `hit_points` less `damage`, stopping at zero.
pub open spec fn drained(hit_points: u32, damage: int) -> u32 {
    if hit_points > damage {
        (hit_points - damage) as u32
    } else {
        0
    }
}

impl Collidable {
    /// The maximum is positive and health never exceeds it.
    pub open spec fn wf(self) -> bool {
        0 < self.max_hit_points && self.hit_points <= self.max_hit_points
    }

    /// This combatant after taking `damage`: health falls by that much and
    /// stops at zero.
    pub open spec fn damaged(self, damage: u32) -> Collidable {
        Collidable { hit_points: drained(self.hit_points, damage as int), ..self }
    }

    /// Whether any hit points are left.
    pub open spec fn alive(self) -> bool {
        self.hit_points > 0
    }

    /// A combatant at full health.
    pub fn new(damage: u32, max_hit_points: u32, team: Team) -> (c: Collidable)
        ensures
            c == (Collidable { damage, max_hit_points, hit_points: max_hit_points, team }),
            max_hit_points > 0 ==> c.wf(),
    {
        Collidable { damage, max_hit_points, hit_points: max_hit_points, team }
    }

    /// Whether any hit points are left.
    pub fn is_alive(&self) -> (alive: bool)
        ensures
            alive == self.alive(),
    {
        self.hit_points > 0
    }

    /// Takes `damage` from the hit points, stopping at zero.
    pub fn take_damage(&mut self, damage: u32)
        ensures
            *final(self) == old(self).damaged(damage),
            old(self).wf() ==> final(self).wf(),
    {
        if self.hit_points > damage {
            self.hit_points = self.hit_points - damage;
        } else {
            self.hit_points = 0;
        }
    }
}

/// Whether two combatants can hurt each other.
pub open spec fn opposed(a: Collidable, b: Collidable) -> bool {
    a.team != b.team
}

/// Both sides of a contact afterwards: opponents each lose the other's
/// damage, team mates are left as they were.
pub open spec fn exchanged(a: Collidable, b: Collidable) -> (Collidable, Collidable) {
    if opposed(a, b) {
        (a.damaged(b.damage), b.damaged(a.damage))
    } else {
        (a, b)
    }
}

/// Applies one contact to both sides at once.
pub fn resolve_contact(a: &mut Collidable, b: &mut Collidable)
    ensures
        (*final(a), *final(b)) == exchanged(*old(a), *old(b)),
{
    if a.team != b.team {
        let damage_a = a.damage;
        let damage_b = b.damage;
        a.take_damage(damage_b);
        b.take_damage(damage_a);
    }
}

/// After a contact between opponents each side holds its old health less the
/// other side's old damage, held between zero and its maximum; the order of
/// the two sides does not matter.
pub proof fn lemma_exchange_symmetric(a: Collidable, b: Collidable)
    requires
        a.wf(),
        b.wf(),
        opposed(a, b),
    ensures
        exchanged(a, b).0.hit_points == clamp(a.hit_points - b.damage, 0, a.max_hit_points as int),
        exchanged(a, b).1.hit_points == clamp(b.hit_points - a.damage, 0, b.max_hit_points as int),
        exchanged(b, a) == (exchanged(a, b).1, exchanged(a, b).0),
        exchanged(a, b).0 == (Collidable { hit_points: exchanged(a, b).0.hit_points, ..a }),
        exchanged(a, b).1 == (Collidable { hit_points: exchanged(a, b).1.hit_points, ..b }),
{
}

/// A contact between team mates changes neither of them.
pub proof fn lemma_team_mates_unharmed(a: Collidable, b: Collidable)
    requires
        a.team == b.team,
    ensures
        exchanged(a, b) == (a, b),
{
}

/// A contact leaves both sides' health between zero and its maximum.
pub proof fn lemma_exchange_keeps_health_in_range(a: Collidable, b: Collidable)
    requires
        a.wf(),
        b.wf(),
    ensures
        exchanged(a, b).0.wf(),
        exchanged(a, b).1.wf(),
        exchanged(a, b).0.hit_points <= a.hit_points,
        exchanged(a, b).1.hit_points <= b.hit_points,
{
}

/// What the physics engine reports of two shapes.
#[derive(Clone, Copy, PartialEq, Eq, Structural, Debug)]
pub enum CollisionEvent {
    /// The two shapes began to touch.
    Started(Entity, Entity),
    /// The two shapes no longer touch.
    Stopped(Entity, Entity),
}

/// The nearest of `entity` and its ancestors that belongs to `members`, as
/// far as `steps` links lead upward; `None` where there is none.
pub open spec fn nearest_member(
    members: Set<Entity>,
    parents: Map<Entity, Entity>,
    entity: Entity,
    steps: nat,
) -> Option<Entity>
    decreases steps,
{
    if members.contains(entity) {
        Some(entity)
    } else if steps > 0 && parents.contains_key(entity) {
        nearest_member(members, parents, parents[entity], (steps - 1) as nat)
    } else {
        None
    }
}

/// What `nearest_member` finds is a member.
pub proof fn lemma_nearest_member_is_member(
    members: Set<Entity>,
    parents: Map<Entity, Entity>,
    entity: Entity,
    steps: nat,
)
    ensures
        nearest_member(members, parents, entity, steps) matches Some(found) ==> members.contains(
            found,
        ),
    decreases steps,
{
    if !members.contains(entity) && steps > 0 && parents.contains_key(entity) {
        lemma_nearest_member_is_member(members, parents, parents[entity], (steps - 1) as nat);
    }
}

/// The combatant that owns `entity`: the entity itself or its nearest
/// ancestor with a `Collidable`. As many links are followed as the hierarchy
/// holds, which in a hierarchy without cycles is as good as any number.
pub open spec fn collidable_root(
    collidables: Map<Entity, Collidable>,
    parents: Map<Entity, Entity>,
    entity: Entity,
) -> Option<Entity> {
    nearest_member(collidables.dom(), parents, entity, parents.len())
}

/// The store of combatants after one event. A contact that began between
/// shapes of two different combatants of opposing teams costs each the
/// other's damage; every other event changes nothing.
pub open spec fn resolved_event(
    collidables: Map<Entity, Collidable>,
    parents: Map<Entity, Entity>,
    event: CollisionEvent,
) -> Map<Entity, Collidable> {
    match event {
        CollisionEvent::Started(first, second) => {
            match (
                collidable_root(collidables, parents, first),
                collidable_root(collidables, parents, second),
            ) {
                (Some(a), Some(b)) => {
                    if a != b && opposed(collidables[a], collidables[b]) {
                        collidables.insert(a, exchanged(collidables[a], collidables[b]).0).insert(
                            b,
                            exchanged(collidables[a], collidables[b]).1,
                        )
                    } else {
                        collidables
                    }
                },
                _ => collidables,
            }
        },
        CollisionEvent::Stopped(_, _) => collidables,
    }
}

/// The store of combatants after a run of events, taken in order.
pub open spec fn resolved_events(
    collidables: Map<Entity, Collidable>,
    parents: Map<Entity, Entity>,
    events: Seq<CollisionEvent>,
) -> Map<Entity, Collidable>
    decreases events.len(),
{
    if events.len() == 0 {
        collidables
    } else {
        resolved_event(
            resolved_events(collidables, parents, events.drop_last()),
            parents,
            events.last(),
        )
    }
}

/// Walks from `entity` up the hierarchy to the first entity that `members`
/// holds.
fn find_member<V>(
    entity: Entity,
    members: &HashMap<Entity, V>,
    parents: &HashMap<Entity, Entity>,
) -> (found: Option<Entity>)
    ensures
        found == nearest_member(members@.dom(), parents@, entity, parents@.len()),
{
    let mut current: Entity = entity;
    let mut steps: usize = parents.len();
    loop
        invariant
            nearest_member(members@.dom(), parents@, entity, parents@.len()) == nearest_member(
                members@.dom(),
                parents@,
                current,
                steps as nat,
            ),
        decreases steps,
    {
        if members.contains_key(&current) {
            return Some(current);
        }
        if steps == 0 {
            return None;
        }
        match parents.get(&current) {
            Some(parent) => {
                current = *parent;
                steps = steps - 1;
            },
            None => {
                return None;
            },
        }
    }
}

/// The combatant that owns `entity`: the entity itself or its nearest
/// ancestor with a `Collidable`.
pub fn find_collidable_root(
    entity: Entity,
    collidables: &HashMap<Entity, Collidable>,
    parents: &HashMap<Entity, Entity>,
) -> (root: Option<Entity>)
    ensures
        root == collidable_root(collidables@, parents@, entity),
        root matches Some(found) ==> collidables@.contains_key(found),
{
    proof {
        lemma_nearest_member_is_member(collidables@.dom(), parents@, entity, parents@.len());
    }
    find_member(entity, collidables, parents)
}

/// Applies the frame's contact events to the store of combatants, in order.
pub fn handle_collision_events(
    events: &Vec<CollisionEvent>,
    collidables: &mut HashMap<Entity, Collidable>,
    parents: &HashMap<Entity, Entity>,
)
    ensures
        final(collidables)@ == resolved_events(old(collidables)@, parents@, events@),
        final(collidables)@.dom() == old(collidables)@.dom(),
        forall|e: Entity|
            (#[trigger] old(collidables)@.contains_key(e)) && old(collidables)@[e].wf()
                ==> final(collidables)@[e].wf(),
{
    proof {
        lemma_events_keep_health(old(collidables)@, parents@, events@);
    }
    let mut i: usize = 0;
    while i < events.len()
        invariant
            i <= events.len(),
            collidables@ == resolved_events(old(collidables)@, parents@, events@.take(i as int)),
        decreases events.len() - i,
    {
        proof {
            assert(events@.take(i + 1).drop_last() == events@.take(i as int));
        }
        if let CollisionEvent::Started(first, second) = events[i] {
            let root_a = find_collidable_root(first, collidables, parents);
            let root_b = find_collidable_root(second, collidables, parents);
            if let (Some(entity_a), Some(entity_b)) = (root_a, root_b) {
                if entity_a != entity_b {
                    let found_a = collidables.get(&entity_a);
                    let found_b = collidables.get(&entity_b);
                    if let (Some(held_a), Some(held_b)) = (found_a, found_b) {
                        let mut coll_a: Collidable = *held_a;
                        let mut coll_b: Collidable = *held_b;
                        if coll_a.team != coll_b.team {
                            resolve_contact(&mut coll_a, &mut coll_b);
                            collidables.insert(entity_a, coll_a);
                            collidables.insert(entity_b, coll_b);
                        }
                    }
                }
            }
        }
        i = i + 1;
    }
    assert(events@.take(events.len() as int) == events@);
}

/// Events change no combatant but in its hit points, which never grow, and
/// add and remove none.
pub proof fn lemma_events_keep_health(
    collidables: Map<Entity, Collidable>,
    parents: Map<Entity, Entity>,
    events: Seq<CollisionEvent>,
)
    ensures
        resolved_events(collidables, parents, events).dom() == collidables.dom(),
        forall|e: Entity| #[trigger]
            collidables.contains_key(e) ==> {
                let after = resolved_events(collidables, parents, events)[e];
                &&& after.hit_points <= collidables[e].hit_points
                &&& after == (Collidable { hit_points: after.hit_points, ..collidables[e] })
                &&& collidables[e].wf() ==> after.wf()
            },
    decreases events.len(),
{
    if events.len() > 0 {
        lemma_events_keep_health(collidables, parents, events.drop_last());
        let before = resolved_events(collidables, parents, events.drop_last());
        let after = resolved_event(before, parents, events.last());
        if let CollisionEvent::Started(first, second) = events.last() {
            lemma_nearest_member_is_member(before.dom(), parents, first, parents.len());
            lemma_nearest_member_is_member(before.dom(), parents, second, parents.len());
        }
        assert(after.dom() =~= before.dom());
        assert forall|e: Entity| #[trigger] collidables.contains_key(e) implies {
            let a = after[e];
            &&& a.hit_points <= collidables[e].hit_points
            &&& a == (Collidable { hit_points: a.hit_points, ..collidables[e] })
            &&& collidables[e].wf() ==> a.wf()
        } by {
            assert(before.contains_key(e));
        }
    }
}

/// Where every combatant's health lies between zero and its maximum before
/// a run of events, it does so after.
pub proof fn lemma_events_keep_health_in_range(
    collidables: Map<Entity, Collidable>,
    parents: Map<Entity, Entity>,
    events: Seq<CollisionEvent>,
)
    requires
        forall|e: Entity| collidables.contains_key(e) ==> (#[trigger] collidables[e]).wf(),
    ensures
        ({
            let after = resolved_events(collidables, parents, events);
            forall|e: Entity| after.contains_key(e) ==> (#[trigger] after[e]).wf()
        }),
{
    lemma_events_keep_health(collidables, parents, events);
    let after = resolved_events(collidables, parents, events);
    assert forall|e: Entity| after.contains_key(e) implies (#[trigger] after[e]).wf() by {
        assert(collidables.contains_key(e));
    }
}

/// One event whose two shapes belong to different combatants of opposing
/// teams leaves each with its old health less the other's old damage, held
/// between zero and its maximum, and touches no third combatant.
pub proof fn lemma_event_symmetric(
    collidables: Map<Entity, Collidable>,
    parents: Map<Entity, Entity>,
    first: Entity,
    second: Entity,
    a: Entity,
    b: Entity,
)
    requires
        collidable_root(collidables, parents, first) == Some(a),
        collidable_root(collidables, parents, second) == Some(b),
        a != b,
        collidables.contains_key(a),
        collidables.contains_key(b),
        collidables[a].wf(),
        collidables[b].wf(),
        opposed(collidables[a], collidables[b]),
    ensures
        ({
            let after = resolved_event(collidables, parents, CollisionEvent::Started(first, second));
            &&& after[a].hit_points == clamp(
                collidables[a].hit_points - collidables[b].damage,
                0,
                collidables[a].max_hit_points as int,
            )
            &&& after[b].hit_points == clamp(
                collidables[b].hit_points - collidables[a].damage,
                0,
                collidables[b].max_hit_points as int,
            )
            &&& forall|e: Entity| e != a && e != b && collidables.contains_key(e) ==> after[e] == collidables[e]
        }),
{
}

/// An event between team mates, or between two shapes of one combatant,
/// changes nothing.
pub proof fn lemma_event_spares_team_mates(
    collidables: Map<Entity, Collidable>,
    parents: Map<Entity, Entity>,
    first: Entity,
    second: Entity,
)
    requires
        ({
            let root_a = collidable_root(collidables, parents, first);
            let root_b = collidable_root(collidables, parents, second);
            root_a is Some && root_b is Some ==> root_a == root_b || collidables[root_a->0].team
                == collidables[root_b->0].team
        }),
    ensures
        resolved_event(collidables, parents, CollisionEvent::Started(first, second)) == collidables,
{
}

/// A combatant as the distance check sees it: where it is and how far its
/// hitbox reaches.
#[derive(Clone, Copy, PartialEq, Eq, Structural, Debug)]
pub struct Body {
    pub entity: Entity,
    pub position: Vec3,
    /// Radius of the hitbox, in thousandths of a world unit.
    pub hitbox: u32,
    pub collidable: Collidable,
}

/// Whether two bodies are within contact distance: their centres are closer
/// than the sum of their hitboxes.
pub open spec fn touching(a: Body, b: Body) -> bool {
    a.position.distance_squared(b.position) < (a.hitbox + b.hitbox) * (a.hitbox + b.hitbox)
}

/// Whether the bodies at `i` and `j` hurt each other: two different bodies of
/// opposing teams within contact distance.
pub open spec fn hits(bodies: Seq<Body>, i: int, j: int) -> bool {
    &&& i != j
    &&& opposed(bodies[i].collidable, bodies[j].collidable)
    &&& touching(bodies[i], bodies[j])
}

/// The damage that the body at `k` takes from the bodies before `upto`.
pub open spec fn incoming_damage(bodies: Seq<Body>, k: int, upto: int) -> int
    decreases upto,
{
    if upto <= 0 {
        0
    } else {
        incoming_damage(bodies, k, upto - 1) + if hits(bodies, k, upto - 1) {
            bodies[upto - 1].collidable.damage as int
        } else {
            0
        }
    }
}

/// The body at `k` once every contact among `bodies` has been applied: it
/// has lost the damage of each opponent it touches, as that damage stood
/// before any contact.
pub open spec fn after_contacts(bodies: Seq<Body>, k: int) -> Body {
    Body {
        collidable: Collidable {
            hit_points: drained(
                bodies[k].collidable.hit_points,
                incoming_damage(bodies, k, bodies.len() as int),
            ),
            ..bodies[k].collidable
        },
        ..bodies[k]
    }
}

/// How far the damage to the body at `k` has been applied when the scan of
/// pairs stands at the pair `(i, j)`.
spec fn applied_upto(len: int, k: int, i: int, j: int) -> int {
    if k < i {
        len
    } else if k == i {
        j
    } else if k < j {
        i + 1
    } else {
        i
    }
}

/// The body at `k` in the middle of the scan.
spec fn partly_resolved(bodies: Seq<Body>, k: int, upto: int) -> Body {
    Body {
        collidable: Collidable {
            hit_points: drained(bodies[k].collidable.hit_points, incoming_damage(bodies, k, upto)),
            ..bodies[k].collidable
        },
        ..bodies[k]
    }
}

/// Damage taken is never negative.
pub proof fn lemma_incoming_damage_nonnegative(bodies: Seq<Body>, k: int, upto: int)
    ensures
        incoming_damage(bodies, k, upto) >= 0,
    decreases upto,
{
    if upto > 0 {
        lemma_incoming_damage_nonnegative(bodies, k, upto - 1);
    }
}

/// Contact is mutual: the body at `i` hits the one at `j` exactly when that
/// one hits it.
pub proof fn lemma_hits_mutual(bodies: Seq<Body>, i: int, j: int)
    ensures
        hits(bodies, i, j) == hits(bodies, j, i),
{
    let a = bodies[i].position;
    let b = bodies[j].position;
    assert((a.x - b.x) * (a.x - b.x) == (b.x - a.x) * (b.x - a.x)) by (nonlinear_arith);
    assert((a.y - b.y) * (a.y - b.y) == (b.y - a.y) * (b.y - a.y)) by (nonlinear_arith);
    assert((a.z - b.z) * (a.z - b.z) == (b.z - a.z) * (b.z - a.z)) by (nonlinear_arith);
}

/// Whether two bodies are within contact distance.
pub fn in_contact(a: &Body, b: &Body) -> (near: bool)
    ensures
        near == touching(*a, *b),
{
    a.position.closer_than(b.position, a.hitbox as u64 + b.hitbox as u64)
}

/// Finds every pair of bodies of opposing teams within contact distance and
/// applies each contact once, to both sides.
pub fn resolve_contacts(bodies: &mut Vec<Body>)
    ensures
        final(bodies)@.len() == old(bodies)@.len(),
        forall|k: int|
            0 <= k < old(bodies)@.len() ==> #[trigger] final(bodies)@[k] == after_contacts(
                old(bodies)@,
                k,
            ),
        forall|k: int|
            0 <= k < old(bodies)@.len() && old(bodies)@[k].collidable.wf()
                ==> (#[trigger] final(bodies)@[k]).collidable.wf(),
{
    let ghost before = bodies@;
    let n = bodies.len();
    let mut i: usize = 0;
    while i < n
        invariant
            n == before.len(),
            bodies@.len() == n,
            i <= n,
            forall|k: int|
                0 <= k < n ==> #[trigger] bodies@[k] == partly_resolved(
                    before,
                    k,
                    applied_upto(n as int, k, i as int, i as int),
                ),
        decreases n - i,
    {
        let mut j: usize = i + 1;
        while j < n
            invariant
                n == before.len(),
                bodies@.len() == n,
                i < j <= n,
                forall|k: int|
                    0 <= k < n ==> #[trigger] bodies@[k] == partly_resolved(
                        before,
                        k,
                        applied_upto(n as int, k, i as int, j as int),
                    ),
            decreases n - j,
        {
            let mut first: Body = bodies[i];
            let mut second: Body = bodies[j];
            proof {
                lemma_hits_mutual(before, i as int, j as int);
                lemma_incoming_damage_nonnegative(before, i as int, j as int);
                lemma_incoming_damage_nonnegative(before, j as int, i as int);
            }
            if first.collidable.team != second.collidable.team && in_contact(&first, &second) {
                let damage_first = first.collidable.damage;
                let damage_second = second.collidable.damage;
                first.collidable.take_damage(damage_second);
                second.collidable.take_damage(damage_first);
                bodies.set(i, first);
                bodies.set(j, second);
            }
            j = j + 1;
        }
        i = i + 1;
    }
    proof {
        assert forall|k: int| 0 <= k < before.len() && before[k].collidable.wf() implies (
        #[trigger] bodies@[k]).collidable.wf() by {
            lemma_contacts_keep_health_in_range(before, k);
        }
    }
}

/// A body that no opponent touches comes out of the scan unchanged; so does
/// every body where all share one team, however close they are.
pub proof fn lemma_untouched_body_unchanged(bodies: Seq<Body>, k: int)
    requires
        0 <= k < bodies.len(),
        forall|j: int| 0 <= j < bodies.len() ==> !hits(bodies, k, j),
    ensures
        after_contacts(bodies, k) == bodies[k],
{
    lemma_no_hits_no_damage(bodies, k, bodies.len() as int);
}

/// Bodies that hit nothing before `upto` take no damage from there.
proof fn lemma_no_hits_no_damage(bodies: Seq<Body>, k: int, upto: int)
    requires
        upto <= bodies.len(),
        forall|j: int| 0 <= j < bodies.len() ==> !hits(bodies, k, j),
    ensures
        incoming_damage(bodies, k, upto) == 0,
    decreases upto,
{
    if upto > 0 {
        lemma_no_hits_no_damage(bodies, k, upto - 1);
    }
}

/// Bodies of one team never hit each other, whatever their distance.
pub proof fn lemma_team_mates_never_hit(bodies: Seq<Body>, i: int, j: int)
    requires
        bodies[i].collidable.team == bodies[j].collidable.team,
    ensures
        !hits(bodies, i, j),
{
}

/// A body that exactly one opponent touches loses that opponent's damage.
pub proof fn lemma_single_contact(bodies: Seq<Body>, k: int, j: int)
    requires
        0 <= k < bodies.len(),
        0 <= j < bodies.len(),
        hits(bodies, k, j),
        forall|other: int| 0 <= other < bodies.len() && other != j ==> !hits(bodies, k, other),
    ensures
        after_contacts(bodies, k).collidable == exchanged(
            bodies[k].collidable,
            bodies[j].collidable,
        ).0,
{
    lemma_one_hit_damage(bodies, k, j, bodies.len() as int);
}

/// The damage from a single opponent at `j`, seen from before and after it.
proof fn lemma_one_hit_damage(bodies: Seq<Body>, k: int, j: int, upto: int)
    requires
        0 <= j < bodies.len(),
        upto <= bodies.len(),
        hits(bodies, k, j),
        forall|other: int| 0 <= other < bodies.len() && other != j ==> !hits(bodies, k, other),
    ensures
        incoming_damage(bodies, k, upto) == if j < upto {
            bodies[j].collidable.damage as int
        } else {
            0
        },
    decreases upto,
{
    if upto > 0 {
        lemma_one_hit_damage(bodies, k, j, upto - 1);
    }
}

/// The scan leaves every body's health between zero and its maximum and
/// changes nothing else of it.
pub proof fn lemma_contacts_keep_health_in_range(bodies: Seq<Body>, k: int)
    requires
        0 <= k < bodies.len(),
        bodies[k].collidable.wf(),
    ensures
        after_contacts(bodies, k).collidable.wf(),
        after_contacts(bodies, k).collidable.hit_points <= bodies[k].collidable.hit_points,
{
    lemma_incoming_damage_nonnegative(bodies, k, bodies.len() as int);
}

/// Marks a combatant that stays in the world when its health is spent.
#[derive(Clone, Copy, PartialEq, Eq, Structural, Debug)]
pub struct Persistent;

/// One combatant as the death sweep sees it.
#[derive(Clone, Copy, PartialEq, Eq, Structural, Debug)]
pub struct Combatant {
    pub entity: Entity,
    pub collidable: Collidable,
    pub persistent: Option<Persistent>,
}

impl Combatant {
    /// The entity to despawn, where this combatant is dead and not
    /// persistent.
    pub open spec fn doomed(self) -> Option<Entity> {
        if !self.collidable.alive() && self.persistent is None {
            Some(self.entity)
        } else {
            None
        }
    }
}

/// The entities that the death sweep removes: every combatant without hit
/// points that is not persistent, in the order of the store.
pub fn despawn_dead_collidable(collidables: &Vec<Combatant>) -> (despawned: Vec<Entity>)
    ensures
        despawned@ == collidables@.filter_map(|c: Combatant| c.doomed()),
{
    let mut despawned: Vec<Entity> = Vec::new();
    let mut i: usize = 0;
    while i < collidables.len()
        invariant
            i <= collidables.len(),
            despawned@ == collidables@.take(i as int).filter_map(|c: Combatant| c.doomed()),
        decreases collidables.len() - i,
    {
        proof {
            assert(collidables@.take(i + 1).drop_last() == collidables@.take(i as int));
        }
        let combatant = collidables[i];
        if !combatant.collidable.is_alive() && combatant.persistent.is_none() {
            despawned.push(combatant.entity);
        }
        i = i + 1;
    }
    assert(collidables@.take(collidables.len() as int) == collidables@);
    despawned
}

/// What a collider tells the physics engine to report.
#[derive(Clone, Copy, PartialEq, Eq, Structural, Debug)]
pub struct PhysicsSettings {
    /// Bits of the events to raise.
    pub active_events: u32,
    /// Bits of the pairs of body types to test.
    pub active_collision_types: u16,
}

/// Settings handed down to a collider from an ancestor.
#[derive(Clone, Copy, PartialEq, Eq, Structural, Debug)]
pub struct Propagation {
    pub child: Entity,
    pub settings: PhysicsSettings,
}

/// The settings that `child` inherits: those of its nearest proper ancestor
/// that has any.
pub open spec fn inherited_settings(
    physics_settings: Map<Entity, PhysicsSettings>,
    parents: Map<Entity, Entity>,
    child: Entity,
) -> Option<Propagation> {
    if parents.contains_key(child) {
        match nearest_member(physics_settings.dom(), parents, parents[child], parents.len()) {
            Some(ancestor) => Some(Propagation { child, settings: physics_settings[ancestor] }),
            None => None,
        }
    } else {
        None
    }
}

/// For each collider without settings of its own, the settings of its
/// nearest ancestor that has some; colliders without such an ancestor are
/// passed over.
pub fn propagate_physics_settings(
    physics_settings: &HashMap<Entity, PhysicsSettings>,
    children: &Vec<Entity>,
    parents: &HashMap<Entity, Entity>,
) -> (inserted: Vec<Propagation>)
    ensures
        inserted@ == children@.filter_map(
            |child: Entity| inherited_settings(physics_settings@, parents@, child),
        ),
{
    let mut inserted: Vec<Propagation> = Vec::new();
    let mut i: usize = 0;
    while i < children.len()
        invariant
            i <= children.len(),
            inserted@ == children@.take(i as int).filter_map(
                |child: Entity| inherited_settings(physics_settings@, parents@, child),
            ),
        decreases children.len() - i,
    {
        proof {
            assert(children@.take(i + 1).drop_last() == children@.take(i as int));
        }
        let child = children[i];
        if let Some(parent) = parents.get(&child) {
            proof {
                lemma_nearest_member_is_member(
                    physics_settings@.dom(),
                    parents@,
                    *parent,
                    parents@.len(),
                );
            }
            if let Some(ancestor) = find_member(*parent, physics_settings, parents) {
                if let Some(settings) = physics_settings.get(&ancestor) {
                    inserted.push(Propagation { child, settings: *settings });
                }
            }
        }
        i = i + 1;
    }
    assert(children@.take(children.len() as int) == children@);
    inserted
}

} // verus!
