//! Why the walk up the hierarchy may stop after as many links as the
//! hierarchy holds: in a hierarchy without cycles no chain is longer.

use vstd::prelude::*;
use vstd::set_lib::*;
use crate::collision::{nearest_member, Entity};

verus! {

/// The entity `k` links above `entity`, where the chain is that long.
pub open spec fn ancestor(parents: Map<Entity, Entity>, entity: Entity, k: nat) -> Option<Entity>
    decreases k,
{
    if k == 0 {
        Some(entity)
    } else if parents.contains_key(entity) {
        ancestor(parents, parents[entity], (k - 1) as nat)
    } else {
        None
    }
}

/// No entity is its own ancestor.
pub open spec fn acyclic(parents: Map<Entity, Entity>) -> bool {
    forall|entity: Entity, k: nat| k > 0 ==> #[trigger] ancestor(parents, entity, k) != Some(entity)
}

/// The entities on the first `k` places of the chain above `entity`.
spec fn chain(parents: Map<Entity, Entity>, entity: Entity, k: nat) -> Set<Entity>
    decreases k,
{
    if k == 0 {
        Set::empty()
    } else {
        chain(parents, entity, (k - 1) as nat).insert(ancestor(parents, entity, (k - 1) as nat)->0)
    }
}

/// Going `i` links up and then `j` more is going `i + j` links up.
proof fn lemma_ancestor_adds(parents: Map<Entity, Entity>, entity: Entity, i: nat, j: nat)
    requires
        ancestor(parents, entity, i) is Some,
    ensures
        ancestor(parents, entity, i + j) == ancestor(parents, ancestor(parents, entity, i)->0, j),
    decreases i,
{
    if i > 0 {
        lemma_ancestor_adds(parents, parents[entity], (i - 1) as nat, j);
    }
}

/// A chain that reaches `k` links up has an entity at every place below.
proof fn lemma_ancestor_below(parents: Map<Entity, Entity>, entity: Entity, k: nat, i: nat)
    requires
        ancestor(parents, entity, k) is Some,
        i <= k,
    ensures
        ancestor(parents, entity, i) is Some,
        i < k ==> parents.contains_key(ancestor(parents, entity, i)->0),
    decreases i,
{
    if i > 0 {
        lemma_ancestor_below(parents, parents[entity], (k - 1) as nat, (i - 1) as nat);
    }
}

/// In a hierarchy without cycles the first `k` places of a chain that long
/// hold `k` different entities, each of which has a parent.
proof fn lemma_chain_has_no_repeats(parents: Map<Entity, Entity>, entity: Entity, k: nat)
    requires
        acyclic(parents),
        ancestor(parents, entity, k) is Some,
    ensures
        chain(parents, entity, k).finite(),
        chain(parents, entity, k).len() == k,
        chain(parents, entity, k).subset_of(parents.dom()),
        forall|x: Entity|
            chain(parents, entity, k).contains(x) ==> exists|i: nat|
                i < k && #[trigger] ancestor(parents, entity, i) == Some(x),
    decreases k,
{
    if k > 0 {
        let before = (k - 1) as nat;
        lemma_ancestor_below(parents, entity, k, before);
        lemma_chain_has_no_repeats(parents, entity, before);
        let last = ancestor(parents, entity, before)->0;
        if chain(parents, entity, before).contains(last) {
            // Then `last` stands at two places of the chain and is its own ancestor.
            let i = choose|i: nat| i < before && #[trigger] ancestor(parents, entity, i) == Some(last);
            lemma_ancestor_adds(parents, entity, i, (before - i) as nat);
        }
    }
}

/// In a hierarchy without cycles no chain has more links than the hierarchy
/// holds.
pub proof fn lemma_chains_are_short(parents: Map<Entity, Entity>, entity: Entity, k: nat)
    requires
        parents.dom().finite(),
        acyclic(parents),
        k > parents.len(),
    ensures
        ancestor(parents, entity, k) is None,
{
    if ancestor(parents, entity, k) is Some {
        lemma_chain_has_no_repeats(parents, entity, k);
        lemma_len_subset(chain(parents, entity, k), parents.dom());
    }
}

/// Where the chain above `entity` ends within `steps` links, more steps
/// find the same.
proof fn lemma_more_steps_find_the_same(
    members: Set<Entity>,
    parents: Map<Entity, Entity>,
    entity: Entity,
    steps: nat,
    more: nat,
)
    requires
        ancestor(parents, entity, steps + 1) is None,
        more >= steps,
    ensures
        nearest_member(members, parents, entity, more) == nearest_member(
            members,
            parents,
            entity,
            steps,
        ),
    decreases steps,
{
    if !members.contains(entity) && parents.contains_key(entity) {
        if steps > 0 {
            lemma_more_steps_find_the_same(
                members,
                parents,
                parents[entity],
                (steps - 1) as nat,
                (more - 1) as nat,
            );
        } else {
            assert(ancestor(parents, parents[entity], 0) is Some);
        }
    }
}

/// In a hierarchy without cycles the walk that follows as many links as the
/// hierarchy holds finds what a walk without end would find: following more
/// links changes nothing.
pub proof fn lemma_walk_reaches_the_top(
    members: Set<Entity>,
    parents: Map<Entity, Entity>,
    entity: Entity,
    steps: nat,
)
    requires
        parents.dom().finite(),
        acyclic(parents),
        steps >= parents.len(),
    ensures
        nearest_member(members, parents, entity, steps) == nearest_member(
            members,
            parents,
            entity,
            parents.len(),
        ),
{
    lemma_chains_are_short(parents, entity, parents.len() + 1);
    lemma_more_steps_find_the_same(members, parents, entity, parents.len(), steps);
}

} // verus!
