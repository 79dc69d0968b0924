//! Hit/hurt resolution: turning the broad-phase collaborator's
//! overlap reports into damage events.
//!
//! The host loop resolves each overlapping hurt-box collider to its
//! owning entity and hands this module the list of owners currently
//! overlapping a hit box.  A `Once` hit box damages each owner at
//! most once until it is explicitly cleared (by the attack-cooldown
//! timer); a `Persistent` hit box damages on every overlapping tick.

use vstd::prelude::*;

use crate::attributes::{ApplyHealthDelta, EntityId};

verus! {

/// Whether a hit box suppresses repeat strikes.
#[derive(Clone, Debug)]
pub enum HitBoxKind {
    /// Strikes each owner once per clear; carries the owners already
    /// struck since the last clear.
    Once(Vec<EntityId>),
    /// Strikes every overlapping owner on every tick.  Callers must
    /// pair it with a time-scaled delta to avoid double-counting.
    Persistent,
}

/// An attack-capable collider: a damage magnitude plus the repeat
/// policy.
#[derive(Clone, Debug)]
pub struct HitBox {
    pub damage: i64,
    pub kind: HitBoxKind,
}

/// Marker for a damageable surface.  One per damageable entity, as a
/// child collider; the owning entity is recovered by the broad-phase
/// collaborator's collider-parent relation.
#[derive(Clone, Copy, Debug, Default, PartialEq, Eq, Structural)]
pub struct HurtBox;

/// The struck-set of a `Once` hit box after processing `owners` in
/// order: each owner not yet present is appended once.
pub open spec fn struck_after(struck: Seq<EntityId>, owners: Seq<EntityId>) -> Seq<EntityId>
    decreases owners.len(),
{
    if owners.len() == 0 {
        struck
    } else {
        let s1 = if struck.contains(owners[0]) {
            struck
        } else {
            struck.push(owners[0])
        };
        struck_after(s1, owners.skip(1))
    }
}

/// The owners a `Once` hit box strikes this tick: what processing
/// `owners` appends to the struck-set.
pub open spec fn once_emitted(struck: Seq<EntityId>, owners: Seq<EntityId>) -> Seq<EntityId> {
    struck_after(struck, owners).skip(struck.len() as int)
}

/// `struck_after` only appends: the old struck-set stays as a prefix.
pub proof fn lemma_struck_after_prefix(struck: Seq<EntityId>, owners: Seq<EntityId>)
    ensures
        struck_after(struck, owners).len() >= struck.len(),
        forall|i: int|
            0 <= i < struck.len() ==> struck_after(struck, owners)[i] == struck[i],
    decreases owners.len(),
{
    if owners.len() > 0 {
        let s1 = if struck.contains(owners[0]) {
            struck
        } else {
            struck.push(owners[0])
        };
        lemma_struck_after_prefix(s1, owners.skip(1));
        assert(struck_after(struck, owners) == struck_after(s1, owners.skip(1)));
        assert(forall|i: int| 0 <= i < struck.len() ==> s1[i] == struck[i]);
    }
}

/// The struck-set never picks up a duplicate entry.
pub proof fn lemma_struck_after_distinct(struck: Seq<EntityId>, owners: Seq<EntityId>)
    requires
        struck.no_duplicates(),
    ensures
        struck_after(struck, owners).no_duplicates(),
    decreases owners.len(),
{
    if owners.len() > 0 {
        let s1 = if struck.contains(owners[0]) {
            struck
        } else {
            struck.push(owners[0])
        };
        if !struck.contains(owners[0]) {
            assert(s1.no_duplicates()) by {
                assert(forall|i: int| 0 <= i < struck.len() ==> struck[i] != owners[0]);
            }
        }
        lemma_struck_after_distinct(s1, owners.skip(1));
    }
}

/// What a `Once` hit box strikes was not struck before this tick.
pub proof fn lemma_once_emitted_fresh(struck: Seq<EntityId>, owners: Seq<EntityId>)
    ensures
        forall|i: int|
            0 <= i < once_emitted(struck, owners).len() ==> !struck.contains(
                #[trigger] once_emitted(struck, owners)[i],
            ),
    decreases owners.len(),
{
    let s_new = struck_after(struck, owners);
    lemma_struck_after_prefix(struck, owners);
    if owners.len() > 0 {
        let s1 = if struck.contains(owners[0]) {
            struck
        } else {
            struck.push(owners[0])
        };
        lemma_once_emitted_fresh(s1, owners.skip(1));
        lemma_struck_after_prefix(s1, owners.skip(1));
        assert forall|i: int|
            0 <= i < once_emitted(struck, owners).len() implies !struck.contains(
            once_emitted(struck, owners)[i],
        ) by {
            let e = once_emitted(struck, owners)[i];
            assert(e == s_new[struck.len() + i]);
            if struck.contains(e) {
                if struck.len() + i < s1.len() {
                    // then e is the single appended element owners[0]
                    assert(s1.len() == struck.len() + 1);
                    assert(e == s1[struck.len() as int]);
                    assert(e == owners[0]);
                    assert(!struck.contains(owners[0]));
                } else {
                    let j = struck.len() + i - s1.len();
                    assert(once_emitted(s1, owners.skip(1))[j] == e);
                    assert(!s1.contains(e));
                    let k = choose|k: int| 0 <= k < struck.len() && struck[k] == e;
                    assert(s1[k] == e);
                }
            }
        }
    }
}

/// A `Once` hit box never strikes the same owner twice between two
/// consecutive clears: over any two successive overlap reports with
/// no clear in between, each report strikes distinct owners, and the
/// second report never strikes an owner the first one struck.
pub proof fn lemma_once_no_repeat_between_clears(
    struck: Seq<EntityId>,
    owners1: Seq<EntityId>,
    owners2: Seq<EntityId>,
)
    requires
        struck.no_duplicates(),
    ensures
        once_emitted(struck, owners1).no_duplicates(),
        once_emitted(struck_after(struck, owners1), owners2).no_duplicates(),
        forall|e: EntityId|
            once_emitted(struck, owners1).contains(e) ==> !once_emitted(
                struck_after(struck, owners1),
                owners2,
            ).contains(e),
{
    let s1 = struck_after(struck, owners1);
    let s2 = struck_after(s1, owners2);
    let e1 = once_emitted(struck, owners1);
    let e2 = once_emitted(s1, owners2);
    lemma_struck_after_prefix(struck, owners1);
    lemma_struck_after_prefix(s1, owners2);
    lemma_struck_after_distinct(struck, owners1);
    lemma_struck_after_distinct(s1, owners2);
    assert(e1.no_duplicates()) by {
        assert forall|i: int, j: int|
            0 <= i < e1.len() && 0 <= j < e1.len() && i != j implies e1[i] != e1[j] by {
            assert(e1[i] == s1[struck.len() + i]);
            assert(e1[j] == s1[struck.len() + j]);
        }
    }
    assert(e2.no_duplicates()) by {
        assert forall|i: int, j: int|
            0 <= i < e2.len() && 0 <= j < e2.len() && i != j implies e2[i] != e2[j] by {
            assert(e2[i] == s2[s1.len() + i]);
            assert(e2[j] == s2[s1.len() + j]);
        }
    }
    lemma_once_emitted_fresh(s1, owners2);
    assert forall|e: EntityId| e1.contains(e) implies !e2.contains(e) by {
        let i = choose|i: int| 0 <= i < e1.len() && e1[i] == e;
        assert(e1[i] == s1[struck.len() + i]);
        assert(s1.contains(e));
        if e2.contains(e) {
            let j = choose|j: int| 0 <= j < e2.len() && e2[j] == e;
            assert(!s1.contains(e2[j]));
        }
    }
}

/// `v@.contains(x)`, decided by a scan.
fn vec_contains(v: &Vec<EntityId>, x: EntityId) -> (r: bool)
    ensures
        r == v@.contains(x),
{
    let mut i: usize = 0;
    while i < v.len()
        invariant
            0 <= i <= v@.len(),
            forall|j: int| 0 <= j < i ==> v@[j] != x,
        decreases v@.len() - i,
    {
        if v[i] == x {
            return true;
        }
        i = i + 1;
    }
    false
}

impl HitBox {
    /// Well-formedness: damage is non-negative and a `Once` box never
    /// records the same struck owner twice.
    pub open spec fn wf(&self) -> bool {
        &&& self.damage >= 0
        &&& match self.kind {
            HitBoxKind::Once(v) => v@.no_duplicates(),
            HitBoxKind::Persistent => true,
        }
    }

    /// The struck-set recorded since the last clear (empty for a
    /// `Persistent` box, which records nothing).
    pub open spec fn spec_struck(&self) -> Seq<EntityId> {
        match self.kind {
            HitBoxKind::Once(v) => v@,
            HitBoxKind::Persistent => Seq::empty(),
        }
    }

    /// Forget every struck owner, permitting the next damage tick.
    /// Driven by the attack-cooldown timer.
    pub fn clear(&mut self)
        ensures
            final(self).damage == old(self).damage,
            match old(self).kind {
                HitBoxKind::Once(_) => final(self).kind matches HitBoxKind::Once(v) && v@
                    == Seq::<EntityId>::empty(),
                HitBoxKind::Persistent => final(self).kind is Persistent,
            },
            old(self).wf() ==> final(self).wf(),
    {
        match &mut self.kind {
            HitBoxKind::Once(v) => v.clear(),
            HitBoxKind::Persistent => {},
        }
    }

    /// Whether `entity` was already struck since the last clear
    /// (always false for a `Persistent` box).
    pub fn contains(&mut self, entity: EntityId) -> (r: bool)
        ensures
            *final(self) == *old(self),
            r == old(self).spec_struck().contains(entity),
    {
        match &self.kind {
            HitBoxKind::Once(v) => vec_contains(v, entity),
            HitBoxKind::Persistent => false,
        }
    }

    /// Resolve one tick of overlap: `owners` are the entities owning
    /// a hurt box currently overlapping this hit box, in the
    /// broad-phase report's order.  Emits one damage event per
    /// qualifying owner, with this box's damage magnitude; a `Once`
    /// box skips owners already struck since the last clear and
    /// records the owners it strikes.
    pub fn resolve_hits(&mut self, owners: &Vec<EntityId>) -> (events: Vec<ApplyHealthDelta>)
        requires
            old(self).wf(),
        ensures
            final(self).wf(),
            final(self).damage == old(self).damage,
            final(self).kind is Persistent <==> old(self).kind is Persistent,
            final(self).spec_struck() == struck_after(old(self).spec_struck(), owners@)
                || old(self).kind is Persistent,
            match old(self).kind {
                HitBoxKind::Once(_) => {
                    let emitted = once_emitted(old(self).spec_struck(), owners@);
                    &&& events@.len() == emitted.len()
                    &&& forall|k: int|
                        0 <= k < events@.len() ==> (#[trigger] events@[k]).entity == emitted[k]
                            && events@[k].delta == -(old(self).damage as int)
                },
                HitBoxKind::Persistent => {
                    &&& events@.len() == owners@.len()
                    &&& forall|k: int|
                        0 <= k < events@.len() ==> (#[trigger] events@[k]).entity == owners@[k]
                            && events@[k].delta == -(old(self).damage as int)
                },
            },
    {
        let damage = self.damage;
        let mut events: Vec<ApplyHealthDelta> = Vec::new();
        match &mut self.kind {
            HitBoxKind::Once(struck) => {
                let ghost struck0 = struck@;
                let mut i: usize = 0;
                while i < owners.len()
                    invariant
                        0 <= i <= owners@.len(),
                        struck0.no_duplicates(),
                        struck@ == struck_after(struck0, owners@.take(i as int)),
                        struck@.len() >= struck0.len(),
                        events@.len() == struck@.len() - struck0.len(),
                        forall|k: int|
                            0 <= k < events@.len() ==> (#[trigger] events@[k]).entity == struck@[
                                struck0.len() + k
                            ] && events@[k].delta == -(damage as int),
                        struck@.no_duplicates(),
                        damage == old(self).damage,
                        damage >= 0,
                    decreases owners@.len() - i,
                {
                    proof {
                        lemma_struck_after_snoc(struck0, owners@.take(i as int), owners@[i as int]);
                        assert(owners@.take(i as int).push(owners@[i as int]) == owners@.take(
                            i as int + 1,
                        ));
                    }
                    let owner = owners[i];
                    if !vec_contains(struck, owner) {
                        struck.push(owner);
                        events.push(ApplyHealthDelta { entity: owner, delta: -damage });
                    }
                    i = i + 1;
                }
                proof {
                    assert(owners@.take(owners@.len() as int) == owners@);
                }
            },
            HitBoxKind::Persistent => {
                let mut i: usize = 0;
                while i < owners.len()
                    invariant
                        0 <= i <= owners@.len(),
                        events@.len() == i,
                        forall|k: int|
                            0 <= k < i ==> (#[trigger] events@[k]).entity == owners@[k]
                                && events@[k].delta == -(damage as int),
                        damage == old(self).damage,
                        damage >= 0,
                    decreases owners@.len() - i,
                {
                    events.push(ApplyHealthDelta { entity: owners[i], delta: -damage });
                    i = i + 1;
                }
            },
        }
        events
    }
}

/// Processing one more owner appends it to the struck-set exactly
/// when it is not yet present.
pub proof fn lemma_struck_after_snoc(struck: Seq<EntityId>, owners: Seq<EntityId>, x: EntityId)
    ensures
        struck_after(struck, owners.push(x)) == (if struck_after(struck, owners).contains(x) {
            struck_after(struck, owners)
        } else {
            struck_after(struck, owners).push(x)
        }),
    decreases owners.len(),
{
    if owners.len() == 0 {
        let s1p = if struck.contains(x) {
            struck
        } else {
            struck.push(x)
        };
        assert(owners.push(x)[0] == x);
        assert(owners.push(x).skip(1) =~= Seq::<EntityId>::empty());
        assert(struck_after(struck, owners) == struck);
        assert(struck_after(struck, owners.push(x)) == struck_after(
            s1p,
            owners.push(x).skip(1),
        ));
        assert(struck_after(s1p, Seq::<EntityId>::empty()) == s1p);
    } else {
        let s1 = if struck.contains(owners[0]) {
            struck
        } else {
            struck.push(owners[0])
        };
        assert(owners.push(x)[0] == owners[0]);
        assert(owners.push(x).skip(1) =~= owners.skip(1).push(x));
        lemma_struck_after_snoc(s1, owners.skip(1), x);
        assert(struck_after(struck, owners.push(x)) == struck_after(s1, owners.skip(1).push(x)));
        assert(struck_after(struck, owners) == struck_after(s1, owners.skip(1)));
    }
}

} // verus!
