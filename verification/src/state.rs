//! Round state: game state, score, health, the persisted high score, and what
//! happens when a round starts or ends.

use vstd::prelude::*;

use crate::bubble::{
    disjoint_slots, slots_owned, valid_slot_list, BubblePopulation, FoamGpuBinding,
    FoamSlotAllocator,
};
use crate::consts::PLAYER_MAX_HEALTH;

verus! {

/// Whether gameplay is running (`InGame`) or a menu / result screen is shown
/// (`OutGame`).
#[derive(Clone, Copy, PartialEq, Eq, Debug)]
pub enum GutzExecutionContext {
    InGame,
    OutGame,
}

#[derive(Clone, Copy, PartialEq, Eq, Hash, Debug)]
pub enum GameState {
    Title,
    Playing,
    GameOver,
}

impl Default for GameState {
    /// The game starts playing right away.
    fn default() -> (r: GameState)
        ensures
            r == GameState::Playing,
    {
        GameState::Playing
    }
}

pub open spec fn spec_execution_context(s: GameState) -> GutzExecutionContext {
    match s {
        GameState::Playing => GutzExecutionContext::InGame,
        _ => GutzExecutionContext::OutGame,
    }
}

impl GameState {
    /// Only `Playing` runs gameplay; the title and the result screen are out
    /// of game.
    pub fn execution_context(&self) -> (r: GutzExecutionContext)
        ensures
            r == spec_execution_context(*self),
            r == GutzExecutionContext::InGame <==> *self == GameState::Playing,
    {
        match self {
            GameState::Playing => GutzExecutionContext::InGame,
            GameState::Title => GutzExecutionContext::OutGame,
            GameState::GameOver => GutzExecutionContext::OutGame,
        }
    }
}

/// The one record the game persists between runs.
#[derive(Clone, Copy, PartialEq, Eq, Debug)]
pub struct SaveData {
    pub high_score: u32,
}

impl Default for SaveData {
    fn default() -> (r: SaveData)
        ensures
            r.high_score == 0,
    {
        SaveData { high_score: 0 }
    }
}

#[derive(Clone, Copy, PartialEq, Eq, Debug)]
pub struct Score(pub u32);

impl Default for Score {
    fn default() -> (r: Score)
        ensures
            r.0 == 0,
    {
        Score(0)
    }
}

#[derive(Clone, Copy, PartialEq, Eq, Debug)]
pub struct Health(pub i32);

impl Default for Health {
    /// A round starts with `PLAYER_MAX_HEALTH`.
    fn default() -> (r: Health)
        ensures
            r.0 == PLAYER_MAX_HEALTH,
    {
        Health(PLAYER_MAX_HEALTH)
    }
}

/// The record after a round that scored `score`, and the record to write to
/// disk if any.
pub open spec fn spec_record_high_score(score: u32, save: SaveData) -> (SaveData, Option<SaveData>) {
    if score > save.high_score {
        (SaveData { high_score: score }, Some(SaveData { high_score: score }))
    } else {
        (save, None)
    }
}

/// At the end of a round: when the round's score beats the stored high score,
/// the high score becomes the round's score and the new record is returned to
/// be written to disk; otherwise nothing changes and nothing is to be saved.
pub fn save_high_score(score: &Score, save_data: &mut SaveData) -> (request: Option<SaveData>)
    ensures
        (*final(save_data), request) == spec_record_high_score(score.0, *old(save_data)),
        score.0 > old(save_data).high_score ==> final(save_data).high_score == score.0 && request
            == Some(*final(save_data)),
        score.0 <= old(save_data).high_score ==> *final(save_data) == *old(save_data) && request
            is None,
{
    if score.0 > save_data.high_score {
        save_data.high_score = score.0;
        Some(*save_data)
    } else {
        None
    }
}

/// The high score never decreases: after a round it is the larger of the old
/// high score and the round's score, and a save is requested exactly when it
/// grew, carrying the new record.
pub proof fn lemma_high_score_is_running_max(score: u32, save: SaveData)
    ensures
        ({
            let (after, request) = spec_record_high_score(score, save);
            &&& after.high_score >= save.high_score
            &&& after.high_score >= score
            &&& (after.high_score == save.high_score || after.high_score == score)
            &&& (request is Some <==> after.high_score != save.high_score)
            &&& (request is Some ==> request == Some(after))
        }),
{
}

/// Replaces the in-memory record with one loaded from disk.
pub fn apply_loaded_save_data(save_data: &mut SaveData, loaded: SaveData)
    ensures
        *final(save_data) == loaded,
{
    *save_data = loaded;
}

/// The state to switch to when the restart action was just pressed.
pub fn restart_input(restart_just_pressed: bool) -> (next: Option<GameState>)
    ensures
        restart_just_pressed ==> next == Some(GameState::Playing),
        !restart_just_pressed ==> next is None,
{
    if restart_just_pressed {
        Some(GameState::Playing)
    } else {
        None
    }
}

/// The foam bindings of live bubbles: each lists distinct pool slots that are
/// held, and no two share a slot.
pub open spec fn bindings_releasable(owned: Set<u32>, bindings: Seq<FoamGpuBinding>) -> bool {
    &&& forall|i: int| 0 <= i < bindings.len() ==> valid_slot_list(#[trigger] bindings[i].slots@)
    &&& forall|i: int| 0 <= i < bindings.len() ==> slots_owned(#[trigger] bindings[i].slots@, owned)
    &&& forall|i: int, j: int|
        0 <= i < bindings.len() && 0 <= j < bindings.len() && i != j ==> disjoint_slots(
            #[trigger] bindings[i].slots@,
            #[trigger] bindings[j].slots@,
        )
}

/// All slots of `bindings`, in order.
pub open spec fn all_slots(bindings: Seq<FoamGpuBinding>) -> Seq<u32>
    decreases bindings.len(),
{
    if bindings.len() == 0 {
        Seq::empty()
    } else {
        all_slots(bindings.drop_last()) + bindings.last().slots@
    }
}

/// The held slots after the slots of `bindings` were given back.
pub open spec fn owned_after_release(owned: Set<u32>, bindings: Seq<FoamGpuBinding>) -> Set<u32>
    decreases bindings.len(),
{
    if bindings.len() == 0 {
        owned
    } else {
        owned_after_release(owned, bindings.drop_last()).difference(bindings.last().slots@.to_set())
    }
}

/// Starts a new round: score back to zero, health back to full, every
/// remaining bubble forgotten, and the foam slots of those bubbles returned to
/// the pool.
pub fn reset_game(
    score: &mut Score,
    health: &mut Health,
    population: &mut BubblePopulation,
    foam_allocator: &mut FoamSlotAllocator,
    bindings: &Vec<FoamGpuBinding>,
)
    requires
        old(foam_allocator).wf(),
        bindings_releasable(old(foam_allocator).spec_view().owned, bindings@),
    ensures
        final(score).0 == 0,
        final(health).0 == PLAYER_MAX_HEALTH,
        final(population).wf(),
        final(population).live() == Seq::<u64>::empty(),
        final(foam_allocator).wf(),
        final(foam_allocator).spec_view().free == old(foam_allocator).spec_view().free + all_slots(
            bindings@,
        ),
        final(foam_allocator).spec_view().owned == owned_after_release(
            old(foam_allocator).spec_view().owned,
            bindings@,
        ),
        final(foam_allocator).spec_view().next_generation == old(
            foam_allocator,
        ).spec_view().next_generation,
        final(foam_allocator).spec_view().active_bindings + bindings@.len() == old(
            foam_allocator,
        ).spec_view().active_bindings,
{
    *score = Score::default();
    *health = Health::default();
    population.clear();
    let ghost free0 = foam_allocator.spec_view().free;
    let ghost owned0 = foam_allocator.spec_view().owned;
    let ghost active0 = foam_allocator.spec_view().active_bindings;
    let mut i: usize = 0;
    while i < bindings.len()
        invariant
            i <= bindings@.len(),
            foam_allocator.wf(),
            bindings_releasable(owned0, bindings@),
            forall|j: int| i <= j < bindings@.len() ==> slots_owned(
                #[trigger] bindings@[j].slots@,
                foam_allocator.spec_view().owned,
            ),
            foam_allocator.spec_view().free == free0 + all_slots(bindings@.take(i as int)),
            foam_allocator.spec_view().owned == owned_after_release(owned0, bindings@.take(i as int)),
            foam_allocator.spec_view().next_generation == old(
                foam_allocator,
            ).spec_view().next_generation,
            foam_allocator.spec_view().active_bindings + i == active0,
        decreases bindings.len() - i,
    {
        let ghost owned_before = foam_allocator.spec_view().owned;
        foam_allocator.release(&bindings[i]);
        proof {
            let t = bindings@.take(i + 1);
            assert(t.drop_last() =~= bindings@.take(i as int));
            assert(t.last() == bindings@[i as int]);
            assert(free0 + all_slots(t) =~= free0 + all_slots(bindings@.take(i as int))
                + bindings@[i as int].slots@);
            let si = bindings@[i as int].slots@;
            assert forall|j: int| i + 1 <= j < bindings@.len() implies slots_owned(
                #[trigger] bindings@[j].slots@,
                foam_allocator.spec_view().owned,
            ) by {
                let sj = bindings@[j].slots@;
                assert(disjoint_slots(si, sj));
                assert forall|k: int| 0 <= k < sj.len() implies foam_allocator.spec_view().owned.contains(
                    #[trigger] sj[k],
                ) by {
                    assert(owned_before.contains(sj[k]));
                    if si.to_set().contains(sj[k]) {
                        let m = choose|m: int| 0 <= m < si.len() && si[m] == sj[k];
                        assert(si[m] != sj[k]);
                    }
                }
            }
        }
        i = i + 1;
    }
    assert(bindings@.take(bindings@.len() as int) =~= bindings@);
}

} // verus!
