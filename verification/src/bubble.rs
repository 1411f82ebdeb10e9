//! Bubbles as the game logic sees them, and the bookkeeping of GPU foam slots.
//!
//! Each bubble that has a look on screen owns `FOAM_CLUSTER_MAX` slots of the
//! GPU foam instance pool. `FoamSlotAllocator` keeps the free slots and the
//! number of bubbles that currently own slots; `FoamGpuBinding` records which
//! slots one bubble owns and which allocation (generation) it came from.
//! `BubblePopulation` caps the number of live bubbles, and `Bubble` holds the
//! hit rules of one bubble.

use std::collections::VecDeque;

use rand::RngExt;
use vstd::prelude::*;

use crate::consts::{FOAM_CLUSTER_MAX, FOAM_CLUSTER_MIN, FOAM_INSTANCE_POOL_SIZE, MAX_LIVE_BUBBLES};
use crate::enemy::{spec_score_value, Enemy};
use crate::state::Score;
use crate::quality::FoamQualityProfile;

verus! {

/// What a bubble came to rest on. `Flying` while it is still in the air.
#[derive(Clone, Copy, PartialEq, Eq, Debug)]
pub enum LandingSurface {
    Flying,
    Floor,
    Pile,
}

impl Default for LandingSurface {
    /// A new bubble is flying.
    fn default() -> (r: LandingSurface)
        ensures
            r == LandingSurface::Flying,
    {
        LandingSurface::Flying
    }
}

/// The slots of the GPU foam pool that one bubble owns.
///
/// All `FOAM_CLUSTER_MAX` slots are reserved, but only the first
/// `active_count` of them are drawn. `generation` tells this allocation apart
/// from earlier owners of the same slots.
#[derive(Clone, Copy, Debug)]
pub struct FoamGpuBinding {
    pub slots: [u32; FOAM_CLUSTER_MAX],
    pub active_count: u32,
    pub generation: u32,
}

impl FoamGpuBinding {
    /// The slots that are actually drawn: the first `active_count` ones.
    pub open spec fn drawn_slots(self) -> Seq<u32> {
        self.slots@.take(self.active_count as int)
    }

    /// The slots this binding draws with, in order.
    pub fn active_slots(&self) -> (r: Vec<u32>)
        requires
            self.active_count <= FOAM_CLUSTER_MAX,
        ensures
            r@ == self.drawn_slots(),
    {
        let mut out: Vec<u32> = Vec::new();
        let n: usize = self.active_count as usize;
        let mut i: usize = 0;
        while i < n
            invariant
                n == self.active_count,
                n <= FOAM_CLUSTER_MAX,
                i <= n,
                out@ == self.slots@.take(i as int),
            decreases n - i,
        {
            out.push(self.slots[i]);
            i = i + 1;
            assert(out@ =~= self.slots@.take(i as int));
        }
        out
    }
}

/// The outcome of a bubble touching an enemy.
#[derive(Clone, Copy, PartialEq, Eq, Debug)]
pub enum HitOutcome {
    /// This bubble already damaged this enemy; nothing happens.
    AlreadyHit,
    /// The enemy took damage and is still standing.
    Damaged,
    /// The enemy's health dropped to zero or below: it is removed and its
    /// score value is earned.
    Defeated,
}

/// Effect of a bubble with power `power` that has already damaged the
/// enemies `hits` touching the enemy `id`, with the running score `score`:
/// the new hit list, the enemy afterwards, the new score and the outcome.
pub open spec fn spec_strike(hits: Seq<u64>, power: i32, enemy: Enemy, score: u32, id: u64) -> (Seq<u64>, Enemy, u32, HitOutcome) {
    if hits.contains(id) {
        (hits, enemy, score, HitOutcome::AlreadyHit)
    } else {
        let hurt = Enemy { kind: enemy.kind, health: (enemy.health - power) as i32 };
        if enemy.health - power <= 0 {
            (hits.push(id), hurt, (score + spec_score_value(enemy.kind)) as u32, HitOutcome::Defeated)
        } else {
            (hits.push(id), hurt, score, HitOutcome::Damaged)
        }
    }
}

/// A bubble damages each enemy at most once: touching the same enemy again
/// changes nothing. A defeating hit adds exactly the enemy's score value, and
/// any other hit leaves the score alone.
pub proof fn lemma_strike_damages_once(hits: Seq<u64>, power: i32, enemy: Enemy, score: u32, id: u64)
    requires
        !hits.contains(id) ==> i32::MIN <= enemy.health - power <= i32::MAX,
        !hits.contains(id) && enemy.health - power <= 0 ==> score + spec_score_value(enemy.kind)
            <= u32::MAX,
    ensures
        ({
            let first = spec_strike(hits, power, enemy, score, id);
            let second = spec_strike(first.0, power, first.1, first.2, id);
            &&& second.3 == HitOutcome::AlreadyHit
            &&& second.0 == first.0 && second.1 == first.1 && second.2 == first.2
            &&& first.3 == HitOutcome::Defeated ==> first.2 == score + spec_score_value(enemy.kind)
            &&& first.3 != HitOutcome::Defeated ==> first.2 == score
        }),
{
    if !hits.contains(id) {
        assert(hits.push(id)[hits.len() as int] == id);
    }
}

/// The first touch of an enemy always lands: whatever enemies the bubble hit
/// before, an enemy it has not hit yet takes the bubble's full power as
/// damage, is added to the hit list, and is defeated exactly when its health
/// reaches zero or below. Touching an enemy already in the list changes
/// nothing at all.
pub proof fn lemma_first_touch_damages(hits: Seq<u64>, power: i32, enemy: Enemy, score: u32, id: u64)
    requires
        !hits.contains(id) ==> i32::MIN <= enemy.health - power <= i32::MAX,
        !hits.contains(id) && enemy.health - power <= 0 ==> score + spec_score_value(enemy.kind)
            <= u32::MAX,
    ensures
        ({
            let (hits2, enemy2, score2, outcome) = spec_strike(hits, power, enemy, score, id);
            &&& !hits.contains(id) ==> {
                &&& outcome != HitOutcome::AlreadyHit
                &&& hits2 == hits.push(id)
                &&& enemy2.kind == enemy.kind
                &&& enemy2.health == enemy.health - power
                &&& (outcome == HitOutcome::Defeated <==> enemy.health - power <= 0)
                &&& score2 == (if enemy.health - power <= 0 {
                    score + spec_score_value(enemy.kind)
                } else {
                    score as int
                })
            }
            &&& hits.contains(id) ==> outcome == HitOutcome::AlreadyHit && hits2 == hits
                && enemy2 == enemy && score2 == score
        }),
{
}

/// One bubble touching two different enemies damages both: striking `id2`
/// after `id1 != id2` still lands, whatever the first strike did.
pub proof fn lemma_strike_distinct_enemies(
    hits: Seq<u64>,
    power: i32,
    e1: Enemy,
    e2: Enemy,
    score: u32,
    id1: u64,
    id2: u64,
)
    requires
        id1 != id2,
        !hits.contains(id2),
        i32::MIN <= e2.health - power <= i32::MAX,
        !hits.contains(id1) ==> i32::MIN <= e1.health - power <= i32::MAX,
        !hits.contains(id1) && e1.health - power <= 0 ==> score + spec_score_value(e1.kind)
            <= u32::MAX,
    ensures
        ({
            let first = spec_strike(hits, power, e1, score, id1);
            let second = spec_strike(first.0, power, e2, first.2, id2);
            &&& !first.0.contains(id2)
            &&& second.3 != HitOutcome::AlreadyHit
            &&& second.1.health == e2.health - power
            &&& second.0 == first.0.push(id2)
        }),
{
    let first = spec_strike(hits, power, e1, score, id1);
    if !hits.contains(id1) {
        assert forall|k: int| 0 <= k < first.0.len() implies first.0[k] != id2 by {
            if k < hits.len() {
                assert(first.0[k] == hits[k]);
            }
        }
    }
}

/// A bubble as the game logic sees it: its damage, the enemies it has already
/// damaged (each at most once), and what it landed on.
pub struct Bubble {
    power: i32,
    hit_enemies: Vec<u64>,
    landing: LandingSurface,
}

impl Bubble {
    pub closed spec fn hits(&self) -> Seq<u64> {
        self.hit_enemies@
    }

    pub closed spec fn spec_power(&self) -> i32 {
        self.power
    }

    pub closed spec fn spec_landing(&self) -> LandingSurface {
        self.landing
    }

    pub fn power(&self) -> (r: i32)
        ensures
            r == self.spec_power(),
    {
        self.power
    }

    pub fn landing(&self) -> (r: LandingSurface)
        ensures
            r == self.spec_landing(),
    {
        self.landing
    }

    /// Records what the bubble came to rest on.
    pub fn set_landing(&mut self, landing: LandingSurface)
        ensures
            final(self).spec_landing() == landing,
            final(self).spec_power() == old(self).spec_power(),
            final(self).hits() == old(self).hits(),
    {
        self.landing = landing;
    }

    /// A new flying bubble that has hit nobody yet.
    pub fn new(power: i32) -> (r: Bubble)
        ensures
            r.spec_power() == power,
            r.hits() == Seq::<u64>::empty(),
            r.spec_landing() == LandingSurface::Flying,
    {
        Bubble { power, hit_enemies: Vec::new(), landing: LandingSurface::Flying }
    }

    /// Whether this bubble already damaged the enemy with id `enemy_id`.
    pub fn has_hit(&self, enemy_id: u64) -> (r: bool)
        ensures
            r == self.hits().contains(enemy_id),
    {
        let mut i: usize = 0;
        while i < self.hit_enemies.len()
            invariant
                i <= self.hit_enemies@.len(),
                forall|k: int| 0 <= k < i ==> self.hit_enemies@[k] != enemy_id,
            decreases self.hit_enemies.len() - i,
        {
            if self.hit_enemies[i] == enemy_id {
                return true;
            }
            i = i + 1;
        }
        false
    }

    /// The bubble touches the enemy `enemy_id`. The first touch deals the
    /// bubble's power as damage; an enemy whose health falls to zero or below
    /// is defeated and adds its score value to `score`. Later touches of the
    /// same enemy by the same bubble do nothing.
    pub fn strike(&mut self, enemy_id: u64, enemy: &mut Enemy, score: &mut Score) -> (r: HitOutcome)
        requires
            !old(self).hits().contains(enemy_id) ==> i32::MIN <= old(enemy).health - old(
                self,
            ).spec_power() <= i32::MAX,
            !old(self).hits().contains(enemy_id) && old(enemy).health - old(self).spec_power() <= 0
                ==> old(score).0 + spec_score_value(old(enemy).kind) <= u32::MAX,
        ensures
            final(self).spec_power() == old(self).spec_power(),
            final(self).spec_landing() == old(self).spec_landing(),
            (final(self).hits(), *final(enemy), final(score).0, r) == spec_strike(
                old(self).hits(),
                old(self).spec_power(),
                *old(enemy),
                old(score).0,
                enemy_id,
            ),
            !old(self).hits().contains(enemy_id) ==> {
                &&& r != HitOutcome::AlreadyHit
                &&& final(self).hits() == old(self).hits().push(enemy_id)
                &&& final(enemy).kind == old(enemy).kind
                &&& final(enemy).health == old(enemy).health - old(self).spec_power()
                &&& (r == HitOutcome::Defeated <==> final(enemy).health <= 0)
                &&& r == HitOutcome::Defeated ==> final(score).0 == old(score).0 + spec_score_value(
                    old(enemy).kind,
                )
                &&& r == HitOutcome::Damaged ==> final(score).0 == old(score).0
            },
            old(self).hits().contains(enemy_id) ==> {
                &&& r == HitOutcome::AlreadyHit
                &&& final(self).hits() == old(self).hits()
                &&& *final(enemy) == *old(enemy)
                &&& final(score).0 == old(score).0
            },
    {
        if self.has_hit(enemy_id) {
            return HitOutcome::AlreadyHit;
        }
        self.hit_enemies.push(enemy_id);
        enemy.health = enemy.health - self.power;
        if enemy.health <= 0 {
            score.0 = score.0 + enemy.kind.score_value();
            HitOutcome::Defeated
        } else {
            HitOutcome::Damaged
        }
    }
}

/// The bubbles alive, oldest first. Their number is capped at
/// `MAX_LIVE_BUBBLES`: spawning one more removes the oldest bubble entirely,
/// so foam never fills the arena for good.
pub struct BubblePopulation {
    order: VecDeque<u64>,
}

impl Default for BubblePopulation {
    /// No bubble alive.
    fn default() -> (r: BubblePopulation)
        ensures
            r.wf(),
            r.live() == Seq::<u64>::empty(),
    {
        BubblePopulation { order: VecDeque::new() }
    }
}

/// `s` with its first occurrence of `id` removed; `s` itself when `id` does
/// not occur.
pub open spec fn without_first(s: Seq<u64>, id: u64) -> Seq<u64> {
    if s.contains(id) {
        let k = choose|k: int| 0 <= k < s.len() && s[k] == id && forall|j: int| 0 <= j < k ==> s[j] != id;
        s.remove(k)
    } else {
        s
    }
}

impl BubblePopulation {
    /// Ids of the live bubbles, oldest first.
    pub closed spec fn live(&self) -> Seq<u64> {
        self.order@
    }

    /// Never more than `MAX_LIVE_BUBBLES` bubbles.
    pub open spec fn wf(&self) -> bool {
        self.live().len() <= MAX_LIVE_BUBBLES
    }

    pub fn len(&self) -> (r: usize)
        ensures
            r == self.live().len(),
    {
        self.order.len()
    }

    /// Records a newly spawned bubble. When the cap is reached, the oldest
    /// bubble is dropped from the record and returned, to be removed from
    /// the world.
    pub fn record_spawn(&mut self, id: u64) -> (evicted: Option<u64>)
        requires
            old(self).wf(),
        ensures
            final(self).wf(),
            old(self).live().len() < MAX_LIVE_BUBBLES ==> evicted is None && final(self).live()
                == old(self).live().push(id),
            old(self).live().len() == MAX_LIVE_BUBBLES ==> evicted == Some(old(self).live()[0])
                && final(self).live() == old(self).live().drop_first().push(id),
    {
        let mut evicted: Option<u64> = None;
        if self.order.len() >= MAX_LIVE_BUBBLES {
            evicted = self.order.pop_front();
        }
        self.order.push_back(id);
        proof {
            if old(self).live().len() == MAX_LIVE_BUBBLES {
                assert(old(self).live().subrange(1, old(self).live().len() as int)
                    =~= old(self).live().drop_first());
            }
        }
        evicted
    }

    /// Forgets a bubble that left the world by other means.
    pub fn forget(&mut self, id: u64)
        requires
            old(self).wf(),
        ensures
            final(self).wf(),
            final(self).live() == without_first(old(self).live(), id),
            !old(self).live().contains(id) ==> final(self).live() == old(self).live(),
            old(self).live().contains(id) ==> final(self).live().len() == old(self).live().len()
                - 1 && exists|k: int|
                0 <= k < old(self).live().len() && old(self).live()[k] == id && (forall|j: int|
                    0 <= j < k ==> old(self).live()[j] != id) && final(self).live() == old(
                    self,
                ).live().take(k) + old(self).live().skip(k + 1),
    {
        let mut i: usize = 0;
        while i < self.order.len()
            invariant
                old(self).wf(),
                self.order@ == old(self).live(),
                i <= self.order@.len(),
                forall|j: int| 0 <= j < i ==> self.order@[j] != id,
            decreases self.order.len() - i,
        {
            if self.order[i] == id {
                proof {
                    let s = old(self).live();
                    assert(s.contains(id)) by {
                        assert(s[i as int] == id);
                    }
                    let k = choose|k: int| 0 <= k < s.len() && s[k] == id && forall|j: int| 0 <= j < k ==> s[j] != id;
                    assert(0 <= i < s.len() && s[i as int] == id && forall|j: int| 0 <= j < i ==> s[j] != id);
                    if k < i {
                        assert(s[k] != id);
                    } else if k > i {
                        assert(s[i as int] != id);
                    }
                    assert(k == i);
                }
                self.order.remove(i);
                return ;
            }
            i = i + 1;
        }
    }

    /// Forgets every bubble.
    pub fn clear(&mut self)
        ensures
            final(self).wf(),
            final(self).live() == Seq::<u64>::empty(),
    {
        self.order.clear();
    }
}

/// Spawning into a full population keeps it full, and the bubble that goes is
/// the one that has lived longest; the population never grows past the cap.
pub proof fn lemma_population_cap(live: Seq<u64>, id: u64)
    requires
        live.len() == MAX_LIVE_BUBBLES,
    ensures
        live.drop_first().push(id).len() == MAX_LIVE_BUBBLES,
        live.drop_first().push(id).last() == id,
        forall|k: int| 1 <= k < live.len() ==> live.drop_first().push(id)[k - 1] == live[k],
{
}

/// Abstract state of a `FoamSlotAllocator`.
pub ghost struct FoamSlotAllocatorView {
    /// Free slots, in the order the allocator keeps them (the last one is
    /// handed out first).
    pub free: Seq<u32>,
    /// Slots currently held by live bubbles.
    pub owned: Set<u32>,
    /// Generation number the next allocation receives.
    pub next_generation: u32,
    /// Number of bubbles that currently own slots.
    pub active_bindings: u32,
}

/// Bookkeeping of the free slots of the GPU foam instance pool.
pub struct FoamSlotAllocator {
    free_slots: Vec<u32>,
    owned: Ghost<Set<u32>>,
    next_generation: u32,
    active_bindings: u32,
}

/// No slot occurs twice in `s`, and every slot lies inside the pool.
pub open spec fn valid_slot_list(s: Seq<u32>) -> bool {
    &&& s.no_duplicates()
    &&& forall|i: int| 0 <= i < s.len() ==> #[trigger] s[i] < FOAM_INSTANCE_POOL_SIZE
}

/// `a` and `b` share no slot.
pub open spec fn disjoint_slots(a: Seq<u32>, b: Seq<u32>) -> bool {
    forall|i: int, j: int| 0 <= i < a.len() && 0 <= j < b.len() ==> #[trigger] a[i] != #[trigger] b[j]
}

/// Every slot of `s` is in `owned`.
pub open spec fn slots_owned(s: Seq<u32>, owned: Set<u32>) -> bool {
    forall|i: int| 0 <= i < s.len() ==> owned.contains(#[trigger] s[i])
}

/// The slots a successful allocation takes from the free list `free`: the last
/// `FOAM_CLUSTER_MAX` entries, last one first.
pub open spec fn taken_slots(free: Seq<u32>) -> Seq<u32> {
    Seq::new(FOAM_CLUSTER_MAX as nat, |k: int| free[free.len() - 1 - k])
}

/// Generation number that follows `g` (wrapping at `u32::MAX`).
pub open spec fn following_generation(g: u32) -> u32 {
    vstd::wrapping::u32_specs::wrapping_add(g, 1)
}

/// The bookkeeping is sound: every pool slot is either free (listed once) or
/// held by a live bubble, never both and never outside the pool; the held
/// slots are exactly `FOAM_CLUSTER_MAX` per bubble, and free plus held slots
/// make up the whole pool.
pub open spec fn view_wf(v: FoamSlotAllocatorView) -> bool {
    &&& valid_slot_list(v.free)
    &&& v.owned.finite()
    &&& forall|s: u32| #[trigger] v.owned.contains(s) ==> s < FOAM_INSTANCE_POOL_SIZE
    &&& forall|s: u32| v.free.contains(s) ==> !(#[trigger] v.owned.contains(s))
    &&& forall|s: u32| s < FOAM_INSTANCE_POOL_SIZE ==> (#[trigger] v.free.contains(s) || v.owned.contains(s))
    &&& v.owned.len() == FOAM_CLUSTER_MAX * v.active_bindings
    &&& v.free.len() + v.owned.len() == FOAM_INSTANCE_POOL_SIZE
}

proof fn lemma_disjoint_union_len(a: Set<u32>, b: Set<u32>)
    requires
        a.finite(),
        b.finite(),
        a.disjoint(b),
    ensures
        (a + b).len() == a.len() + b.len(),
        (a + b).finite(),
{
    vstd::set_lib::lemma_set_difference_len(a, b);
    assert(a.difference(b) =~= a);
    assert(b.difference(a) =~= b);
    assert(a.intersect(b) =~= Set::<u32>::empty());
}

proof fn lemma_subset_difference_len(a: Set<u32>, b: Set<u32>)
    requires
        a.finite(),
        b.finite(),
        b.subset_of(a),
    ensures
        a.difference(b).len() == a.len() - b.len(),
        a.difference(b).finite(),
{
    vstd::set_lib::lemma_set_difference_len(a, b);
    assert(a.intersect(b) =~= b);
}

impl Default for FoamSlotAllocator {
    /// A fresh allocator: every pool slot free (in ascending order, so the
    /// highest slot goes first), generation 1, no bubble holding slots.
    fn default() -> (r: FoamSlotAllocator)
        ensures
            r.wf(),
            r.spec_view().free == Seq::new(FOAM_INSTANCE_POOL_SIZE as nat, |i: int| i as u32),
            r.spec_view().owned == Set::<u32>::empty(),
            r.spec_view().next_generation == 1,
            r.spec_view().active_bindings == 0,
    {
        let mut free_slots: Vec<u32> = Vec::new();
        let mut slot: u32 = 0;
        while slot < FOAM_INSTANCE_POOL_SIZE
            invariant
                slot <= FOAM_INSTANCE_POOL_SIZE,
                free_slots@ == Seq::new(slot as nat, |i: int| i as u32),
            decreases FOAM_INSTANCE_POOL_SIZE - slot,
        {
            free_slots.push(slot);
            slot = slot + 1;
            assert(free_slots@ =~= Seq::new(slot as nat, |i: int| i as u32));
        }
        let r = FoamSlotAllocator {
            free_slots,
            owned: Ghost(Set::empty()),
            next_generation: 1,
            active_bindings: 0,
        };
        proof {
            let f = r.free_slots@;
            assert(valid_slot_list(f)) by {
                assert forall|i: int, j: int|
                    0 <= i < f.len() && 0 <= j < f.len() && i != j implies f[i] != f[j] by {}
            }
            assert forall|s: u32| s < FOAM_INSTANCE_POOL_SIZE implies #[trigger] f.contains(s)
                || r.owned@.contains(s) by {
                assert(f[s as int] == s);
            }
        }
        r
    }
}

impl FoamSlotAllocator {
    pub closed spec fn spec_view(&self) -> FoamSlotAllocatorView {
        FoamSlotAllocatorView {
            free: self.free_slots@,
            owned: self.owned@,
            next_generation: self.next_generation,
            active_bindings: self.active_bindings,
        }
    }

    pub open spec fn wf(&self) -> bool {
        view_wf(self.spec_view())
    }

    /// Whether an allocation with the given quality profile is refused: the
    /// quality's bubble budget is used up, or fewer than `FOAM_CLUSTER_MAX`
    /// slots are free.
    pub open spec fn refuses(&self, quality: FoamQualityProfile) -> bool {
        ||| self.spec_view().active_bindings >= quality.max_aggregates
        ||| self.spec_view().free.len() < FOAM_CLUSTER_MAX
    }

    /// Number of free slots.
    pub fn free_count(&self) -> (r: usize)
        ensures
            r == self.spec_view().free.len(),
    {
        self.free_slots.len()
    }

    /// Number of bubbles that currently own slots.
    pub fn active_bindings(&self) -> (r: u32)
        ensures
            r == self.spec_view().active_bindings,
    {
        self.active_bindings
    }

    /// Hands out `FOAM_CLUSTER_MAX` slots to a new bubble that will draw
    /// `active_count` blobs, unless the quality's budget of bubbles is used up
    /// or the pool has too few free slots; then nothing changes.
    pub fn allocate_with_cluster(&mut self, quality: FoamQualityProfile, active_count: u32) -> (r:
        Option<FoamGpuBinding>)
        requires
            old(self).wf(),
        ensures
            final(self).wf(),
            r is None <==> old(self).refuses(quality),
            r is None ==> final(self).spec_view() == old(self).spec_view(),
            r matches Some(b) ==> {
                let old_free = old(self).spec_view().free;
                &&& b.slots@ == taken_slots(old_free)
                &&& b.active_count == active_count
                &&& b.generation == old(self).spec_view().next_generation
                &&& final(self).spec_view().free == old_free.take(
                    old_free.len() - FOAM_CLUSTER_MAX,
                )
                &&& final(self).spec_view().owned == old(self).spec_view().owned
                    + b.slots@.to_set()
                &&& final(self).spec_view().next_generation == following_generation(
                    old(self).spec_view().next_generation,
                )
                &&& final(self).spec_view().active_bindings == old(
                    self,
                ).spec_view().active_bindings + 1
            },
    {
        if self.active_bindings >= quality.max_aggregates {
            return None;
        }
        if self.free_slots.len() < FOAM_CLUSTER_MAX {
            return None;
        }
        let ghost old_free = self.free_slots@;
        let ghost old_owned = self.owned@;
        let ghost n = old_free.len();
        let s0 = self.free_slots.pop().unwrap();
        let s1 = self.free_slots.pop().unwrap();
        let s2 = self.free_slots.pop().unwrap();
        let s3 = self.free_slots.pop().unwrap();
        let s4 = self.free_slots.pop().unwrap();
        let s5 = self.free_slots.pop().unwrap();
        let s6 = self.free_slots.pop().unwrap();
        let slots: [u32; FOAM_CLUSTER_MAX] = [s0, s1, s2, s3, s4, s5, s6];
        assert(self.free_slots@ =~= old_free.take(n - 7));
        assert(slots@ =~= taken_slots(old_free));
        let generation = self.next_generation;
        self.next_generation = self.next_generation.wrapping_add(1);
        self.active_bindings = self.active_bindings + 1;
        self.owned = Ghost(old_owned + slots@.to_set());
        proof {
            let rest = self.free_slots@;
            let t = slots@;
            lemma_allocate_release_roundtrip(old_free, generation);
            t.unique_seq_to_set();
            assert(t.to_set().finite());
            assert(old_owned.disjoint(t.to_set())) by {
                assert forall|s: u32| old_owned.contains(s) implies !t.to_set().contains(s) by {
                    if t.to_set().contains(s) {
                        let k = choose|k: int| 0 <= k < t.len() && t[k] == s;
                        assert(old_free[n - 1 - k] == s);
                        assert(old_free.contains(s));
                    }
                }
            }
            lemma_disjoint_union_len(old_owned, t.to_set());
            assert(valid_slot_list(rest)) by {
                assert forall|i: int| 0 <= i < rest.len() implies #[trigger] rest[i]
                    < FOAM_INSTANCE_POOL_SIZE by {
                    assert(rest[i] == old_free[i]);
                }
                assert forall|i: int, j: int|
                    0 <= i < rest.len() && 0 <= j < rest.len() && i != j implies rest[i]
                    != rest[j] by {
                    assert(rest[i] == old_free[i]);
                    assert(rest[j] == old_free[j]);
                }
            }
            let owned = self.owned@;
            assert forall|s: u32| #[trigger] owned.contains(s) implies s < FOAM_INSTANCE_POOL_SIZE by {
                if t.to_set().contains(s) {
                    let k = choose|k: int| 0 <= k < t.len() && t[k] == s;
                    assert(t[k] < FOAM_INSTANCE_POOL_SIZE);
                }
            }
            assert forall|s: u32| rest.contains(s) implies !(#[trigger] owned.contains(s)) by {
                let i = choose|i: int| 0 <= i < rest.len() && rest[i] == s;
                assert(old_free[i] == s);
                assert(old_free.contains(s));
                if t.to_set().contains(s) {
                    let k = choose|k: int| 0 <= k < t.len() && t[k] == s;
                    assert(rest[i] != t[k]);
                }
            }
            assert forall|s: u32| s < FOAM_INSTANCE_POOL_SIZE implies (#[trigger] rest.contains(s)
                || owned.contains(s)) by {
                if old_free.contains(s) {
                    let i = choose|i: int| 0 <= i < old_free.len() && old_free[i] == s;
                    if i < n - 7 {
                        assert(rest[i] == s);
                    } else {
                        assert(t[n - 1 - i] == s);
                        assert(t.to_set().contains(s));
                    }
                }
            }
        }
        Some(FoamGpuBinding { slots, active_count, generation })
    }

    /// Hands out slots to a new bubble, drawing the number of blobs it shows
    /// at random between `FOAM_CLUSTER_MIN` and `FOAM_CLUSTER_MAX`.
    pub fn allocate(&mut self, quality: FoamQualityProfile) -> (r: Option<FoamGpuBinding>)
        requires
            old(self).wf(),
        ensures
            final(self).wf(),
            r is None <==> old(self).refuses(quality),
            r is None ==> final(self).spec_view() == old(self).spec_view(),
            r matches Some(b) ==> {
                let old_free = old(self).spec_view().free;
                &&& b.slots@ == taken_slots(old_free)
                &&& FOAM_CLUSTER_MIN <= b.active_count <= FOAM_CLUSTER_MAX
                &&& b.generation == old(self).spec_view().next_generation
                &&& final(self).spec_view().free == old_free.take(
                    old_free.len() - FOAM_CLUSTER_MAX,
                )
                &&& final(self).spec_view().owned == old(self).spec_view().owned
                    + b.slots@.to_set()
                &&& final(self).spec_view().next_generation == following_generation(
                    old(self).spec_view().next_generation,
                )
                &&& final(self).spec_view().active_bindings == old(
                    self,
                ).spec_view().active_bindings + 1
            },
    {
        let active_count = random_in_range(FOAM_CLUSTER_MIN, FOAM_CLUSTER_MAX as u32);
        self.allocate_with_cluster(quality, active_count)
    }

    /// Gives the slots of `binding`, which a live bubble holds, back to the
    /// pool, and counts one bubble fewer.
    pub fn release(&mut self, binding: &FoamGpuBinding)
        requires
            old(self).wf(),
            valid_slot_list(binding.slots@),
            slots_owned(binding.slots@, old(self).spec_view().owned),
        ensures
            final(self).wf(),
            final(self).spec_view().free == old(self).spec_view().free + binding.slots@,
            final(self).spec_view().owned == old(self).spec_view().owned.difference(
                binding.slots@.to_set(),
            ),
            final(self).spec_view().next_generation == old(self).spec_view().next_generation,
            final(self).spec_view().active_bindings == old(self).spec_view().active_bindings - 1,
    {
        let ghost old_free = self.free_slots@;
        let ghost old_owned = self.owned@;
        let ghost t = binding.slots@;
        proof {
            t.unique_seq_to_set();
            assert(t.to_set().subset_of(old_owned)) by {
                assert forall|s: u32| t.to_set().contains(s) implies old_owned.contains(s) by {
                    let k = choose|k: int| 0 <= k < t.len() && t[k] == s;
                    assert(old_owned.contains(t[k]));
                }
            }
            vstd::set_lib::lemma_len_subset(t.to_set(), old_owned);
            lemma_subset_difference_len(old_owned, t.to_set());
        }
        let mut i: usize = 0;
        while i < FOAM_CLUSTER_MAX
            invariant
                i <= FOAM_CLUSTER_MAX,
                t == binding.slots@,
                self.free_slots@ == old_free + t.take(i as int),
                self.owned@ == old_owned,
                self.next_generation == old(self).next_generation,
                self.active_bindings == old(self).active_bindings,
            decreases FOAM_CLUSTER_MAX - i,
        {
            self.free_slots.push(binding.slots[i]);
            i = i + 1;
            assert(self.free_slots@ =~= old_free + t.take(i as int));
        }
        assert(t.take(7) =~= t);
        self.active_bindings = self.active_bindings.saturating_sub(1);
        self.owned = Ghost(old_owned.difference(t.to_set()));
        proof {
            let s = self.free_slots@;
            let owned = self.owned@;
            let n = old_free.len();
            assert forall|k: int| 0 <= k < t.len() implies !old_free.contains(#[trigger] t[k]) by {
                assert(old_owned.contains(t[k]));
            }
            assert(valid_slot_list(s)) by {
                assert forall|k: int| 0 <= k < s.len() implies #[trigger] s[k]
                    < FOAM_INSTANCE_POOL_SIZE by {
                    if k < n {
                        assert(s[k] == old_free[k]);
                    } else {
                        assert(s[k] == t[k - n]);
                    }
                }
                assert forall|a: int, b: int| 0 <= a < s.len() && 0 <= b < s.len() && a != b implies s[a]
                    != s[b] by {
                    if a < n && b < n {
                        assert(s[a] == old_free[a] && s[b] == old_free[b]);
                    } else if a >= n && b >= n {
                        assert(s[a] == t[a - n] && s[b] == t[b - n]);
                    } else if a < n {
                        assert(s[a] == old_free[a] && s[b] == t[b - n]);
                        assert(old_free.contains(s[a]));
                        assert(!old_free.contains(t[b - n]));
                    } else {
                        assert(s[b] == old_free[b] && s[a] == t[a - n]);
                        assert(old_free.contains(s[b]));
                        assert(!old_free.contains(t[a - n]));
                    }
                }
            }
            assert forall|x: u32| s.contains(x) implies !(#[trigger] owned.contains(x)) by {
                let k = choose|k: int| 0 <= k < s.len() && s[k] == x;
                if k < n {
                    assert(old_free[k] == x);
                    assert(old_free.contains(x));
                } else {
                    assert(t[k - n] == x);
                    assert(t.to_set().contains(x));
                }
            }
            assert forall|x: u32| x < FOAM_INSTANCE_POOL_SIZE implies (#[trigger] s.contains(x)
                || owned.contains(x)) by {
                if old_free.contains(x) {
                    let k = choose|k: int| 0 <= k < old_free.len() && old_free[k] == x;
                    assert(s[k] == x);
                } else if t.to_set().contains(x) {
                    let k = choose|k: int| 0 <= k < t.len() && t[k] == x;
                    assert(s[n + k] == x);
                }
            }
        }
    }
}

/// Soundness of the slot bookkeeping at any moment: each pool slot is free or
/// held, never both; the number of free slots is the pool size minus
/// `FOAM_CLUSTER_MAX` per bubble holding slots; and a bubble's slots, once
/// handed out, are not free again until released.
pub proof fn lemma_slot_partition(v: FoamSlotAllocatorView, slot: u32)
    requires
        view_wf(v),
        slot < FOAM_INSTANCE_POOL_SIZE,
    ensures
        v.free.contains(slot) != v.owned.contains(slot),
        v.free.len() + FOAM_CLUSTER_MAX * v.active_bindings == FOAM_INSTANCE_POOL_SIZE,
        FOAM_CLUSTER_MAX * v.active_bindings <= FOAM_INSTANCE_POOL_SIZE,
{
    assert(v.free.contains(slot) || v.owned.contains(slot));
}

/// A binding just handed out can be given back again: its slots are distinct
/// pool slots and none of them is still free. Giving it back right away
/// restores the same free slots (same count, same members), and the next
/// allocation carries a different generation.
pub proof fn lemma_allocate_release_roundtrip(free: Seq<u32>, generation: u32)
    requires
        valid_slot_list(free),
        free.len() >= FOAM_CLUSTER_MAX,
    ensures
        valid_slot_list(taken_slots(free)),
        disjoint_slots(free.take(free.len() - FOAM_CLUSTER_MAX), taken_slots(free)),
        (free.take(free.len() - FOAM_CLUSTER_MAX) + taken_slots(free)).len() == free.len(),
        forall|x: u32|
            (free.take(free.len() - FOAM_CLUSTER_MAX) + taken_slots(free)).contains(x)
                <==> free.contains(x),
        following_generation(generation) != generation,
{
    let n = free.len();
    let rest = free.take(n - 7);
    let t = taken_slots(free);
    let back = rest + t;
    assert forall|k: int| 0 <= k < t.len() implies #[trigger] t[k] < FOAM_INSTANCE_POOL_SIZE by {
        assert(t[k] == free[n - 1 - k]);
    }
    assert forall|a: int, b: int| 0 <= a < t.len() && 0 <= b < t.len() && a != b implies t[a]
        != t[b] by {
        assert(t[a] == free[n - 1 - a] && t[b] == free[n - 1 - b]);
    }
    assert forall|i: int, j: int| 0 <= i < rest.len() && 0 <= j < t.len() implies #[trigger] rest[i]
        != #[trigger] t[j] by {
        assert(rest[i] == free[i] && t[j] == free[n - 1 - j]);
    }
    assert forall|x: u32| back.contains(x) <==> free.contains(x) by {
        if back.contains(x) {
            let k = choose|k: int| 0 <= k < back.len() && back[k] == x;
            if k < rest.len() {
                assert(free[k] == x);
            } else {
                assert(free[n - 1 - (k - rest.len())] == x);
            }
        }
        if free.contains(x) {
            let k = choose|k: int| 0 <= k < free.len() && free[k] == x;
            if k < n - 7 {
                assert(back[k] == x);
            } else {
                assert(back[(n - 7) + (n - 1 - k)] == x);
            }
        }
    }
}

/// Generation number after `k` allocations starting from `g`.
pub open spec fn generation_after(g: u32, k: nat) -> u32
    decreases k,
{
    if k == 0 {
        g
    } else {
        following_generation(generation_after(g, (k - 1) as nat))
    }
}

proof fn lemma_generation_after_value(g: u32, k: nat)
    ensures
        generation_after(g, k) as int == (g + k) % 0x1_0000_0000,
    decreases k,
{
    if k > 0 {
        lemma_generation_after_value(g, (k - 1) as nat);
        let prev = generation_after(g, (k - 1) as nat) as int;
        let m: int = 0x1_0000_0000;
        assert(prev == (g + k - 1) % m);
        vstd::arithmetic::div_mod::lemma_fundamental_div_mod(g + k - 1, m);
        vstd::arithmetic::div_mod::lemma_fundamental_div_mod(g + k, m);
        let q = (g + k - 1) / m;
        if prev + 1 == m {
            vstd::arithmetic::div_mod::lemma_mod_multiples_basic(q + 1, m);
            assert(g + k == (q + 1) * m) by (nonlinear_arith)
                requires
                    g + k - 1 == m * q + prev,
                    prev + 1 == m,
            ;
        } else {
            assert(g + k == m * q + (prev + 1));
            vstd::arithmetic::div_mod::lemma_small_mod((prev + 1) as nat, m as nat);
            vstd::arithmetic::div_mod::lemma_mod_multiples_vanish(q, prev + 1, m);
        }
    }
}

/// A slot handed out again within fewer than 2^32 allocations always gets a
/// generation different from the one it had: the renderer can always tell a
/// reused slot from the bubble that held it before.
pub proof fn lemma_generation_fresh(g: u32, k: nat)
    requires
        0 < k < 0x1_0000_0000,
    ensures
        generation_after(g, k) != g,
{
    lemma_generation_after_value(g, k);
    if g + k < 0x1_0000_0000 {
        vstd::arithmetic::div_mod::lemma_small_mod((g + k) as nat, 0x1_0000_0000nat);
    } else {
        vstd::arithmetic::div_mod::lemma_mod_sub_multiples_vanish((g + k) as int, 0x1_0000_0000int);
        vstd::arithmetic::div_mod::lemma_small_mod((g + k - 0x1_0000_0000) as nat, 0x1_0000_0000nat);
    }
}

/// `rand::rng().random_range(lo..=hi)` from the `rand` crate: a value drawn
/// from the thread-local generator, which its documentation says lies in
/// `lo..=hi`. Which value comes back is up to chance and is not stated.
#[verifier::external_body]
pub(crate) fn random_in_range(lo: u32, hi: u32) -> (r: u32)
    requires
        lo <= hi,
    ensures
        lo <= r <= hi,
{
    rand::rng().random_range(lo..=hi)
}

} // verus!
