//! The integer side of the foam renderer: which GPU slots are driven and
//! drawn each frame, the per-view parameters that follow from the quality
//! level, and the size of the simulation dispatch.

use vstd::prelude::*;

use crate::bubble::FoamGpuBinding;
use crate::consts::FOAM_CLUSTER_MAX;
use crate::quality::{spec_microstructure_code, spec_profile, FoamQuality};

verus! {

/// Threads per workgroup of the foam simulation.
pub const SIMULATION_WORKGROUP_SIZE: u32 = 64;

/// Slot index of the placeholder drive entry sent when nothing is driven; it
/// names no real slot, so the simulation ignores it.
pub const NO_SLOT: u32 = 0xffff_ffff;

/// Workgroups needed to cover `pool_capacity` slots: the capacity divided by
/// the workgroup size, rounded up.
pub fn workgroup_count(pool_capacity: u32) -> (r: u32)
    ensures
        r * SIMULATION_WORKGROUP_SIZE >= pool_capacity,
        r == 0 || (r - 1) * SIMULATION_WORKGROUP_SIZE < pool_capacity,
{
    let q: u32 = pool_capacity / SIMULATION_WORKGROUP_SIZE;
    if pool_capacity % SIMULATION_WORKGROUP_SIZE == 0 {
        q
    } else {
        q + 1
    }
}

/// The slots drawn this frame: the drawn slots of every foam binding, binding
/// after binding.
pub open spec fn drawn_slots_of(bindings: Seq<FoamGpuBinding>) -> Seq<u32>
    decreases bindings.len(),
{
    if bindings.len() == 0 {
        Seq::empty()
    } else {
        drawn_slots_of(bindings.drop_last()) + bindings.last().drawn_slots()
    }
}

/// Total number of blobs drawn by `bindings`: the sum of their active counts.
pub open spec fn active_total(bindings: Seq<FoamGpuBinding>) -> nat
    decreases bindings.len(),
{
    if bindings.len() == 0 {
        0
    } else {
        active_total(bindings.drop_last()) + bindings.last().active_count as nat
    }
}

/// Every binding whose active count fits its slot array.
pub open spec fn counts_fit(bindings: Seq<FoamGpuBinding>) -> bool {
    forall|i: int| 0 <= i < bindings.len() ==> #[trigger] bindings[i].active_count
        <= FOAM_CLUSTER_MAX
}

/// What is drawn is exactly the first `active_count` slots of every binding,
/// laid out binding after binding: one entry per blob of every bubble (so
/// the total is the sum of the active counts), and binding `i`'s slot `k`
/// sits right after the blobs of the bindings before it.
pub proof fn lemma_drawn_slots_layout(bindings: Seq<FoamGpuBinding>)
    requires
        counts_fit(bindings),
    ensures
        drawn_slots_of(bindings).len() == active_total(bindings),
        forall|i: int, k: int|
            0 <= i < bindings.len() && 0 <= k < bindings[i].active_count ==> drawn_slots_of(
                bindings,
            )[active_total(bindings.take(i)) + k] == #[trigger] bindings[i].slots@[k],
    decreases bindings.len(),
{
    if bindings.len() > 0 {
        let init = bindings.drop_last();
        let n = bindings.len() - 1;
        assert(counts_fit(init)) by {
            assert forall|i: int| 0 <= i < init.len() implies #[trigger] init[i].active_count
                <= FOAM_CLUSTER_MAX by {
                assert(init[i] == bindings[i]);
            }
        }
        lemma_drawn_slots_layout(init);
        let last = bindings.last();
        assert(last == bindings[n]);
        assert(last.active_count <= FOAM_CLUSTER_MAX);
        assert(last.drawn_slots().len() == last.active_count);
        assert(bindings.take(n) =~= init);
        assert forall|i: int, k: int|
            0 <= i < bindings.len() && 0 <= k < bindings[i].active_count implies drawn_slots_of(
                bindings,
            )[active_total(bindings.take(i)) + k] == #[trigger] bindings[i].slots@[k] by {
            if i < n {
                assert(bindings.take(i) =~= init.take(i));
                assert(init[i] == bindings[i]);
                lemma_active_total_prefix(init, i);
            } else {
                assert(last.drawn_slots()[k] == last.slots@[k]);
            }
        }
    }
}

/// The blobs of the bindings before `i`, plus binding `i`'s own, never exceed
/// the total.
proof fn lemma_active_total_prefix(bindings: Seq<FoamGpuBinding>, i: int)
    requires
        0 <= i < bindings.len(),
    ensures
        active_total(bindings.take(i)) + bindings[i].active_count <= active_total(bindings),
    decreases bindings.len(),
{
    let n = bindings.len() - 1;
    if i < n {
        let init = bindings.drop_last();
        assert(bindings.take(i) =~= init.take(i));
        assert(init[i] == bindings[i]);
        lemma_active_total_prefix(init, i);
    } else {
        assert(bindings.take(i) =~= bindings.drop_last());
    }
}

/// Collects the drawn slots of all bindings, binding after binding.
pub fn extract_foam_slots(bindings: &Vec<FoamGpuBinding>) -> (r: Vec<u32>)
    requires
        forall|i: int| 0 <= i < bindings@.len() ==> #[trigger] bindings@[i].active_count
            <= FOAM_CLUSTER_MAX,
    ensures
        r@ == drawn_slots_of(bindings@),
        r@.len() == active_total(bindings@),
        forall|i: int, k: int|
            0 <= i < bindings@.len() && 0 <= k < bindings@[i].active_count ==> r@[active_total(
                bindings@.take(i),
            ) + k] == #[trigger] bindings@[i].slots@[k],
{
    let mut out: Vec<u32> = Vec::new();
    let mut i: usize = 0;
    while i < bindings.len()
        invariant
            i <= bindings@.len(),
            forall|k: int| 0 <= k < bindings@.len() ==> #[trigger] bindings@[k].active_count
                <= FOAM_CLUSTER_MAX,
            out@ == drawn_slots_of(bindings@.take(i as int)),
        decreases bindings.len() - i,
    {
        let mut slots = bindings[i].active_slots();
        let ghost before = out@;
        out.append(&mut slots);
        proof {
            let t = bindings@.take(i + 1);
            assert(t.drop_last() =~= bindings@.take(i as int));
            assert(t.last() == bindings@[i as int]);
        }
        i = i + 1;
    }
    assert(bindings@.take(bindings@.len() as int) =~= bindings@);
    proof {
        lemma_drawn_slots_layout(bindings@);
    }
    out
}

/// The list of active slots handed to the renderer: the drawn slots, or a
/// single placeholder `0` when there are none (the renderer then reads no
/// entry, since the active count is zero).
pub fn padded_active_slots(drawn: &Vec<u32>) -> (r: Vec<u32>)
    ensures
        drawn@.len() > 0 ==> r@ == drawn@,
        drawn@.len() == 0 ==> r@ == seq![0u32],
{
    let mut out: Vec<u32> = Vec::new();
    if drawn.len() == 0 {
        out.push(0);
        return out;
    }
    let mut i: usize = 0;
    while i < drawn.len()
        invariant
            i <= drawn@.len(),
            out@ == drawn@.take(i as int),
        decreases drawn.len() - i,
    {
        out.push(drawn[i]);
        i = i + 1;
        assert(out@ =~= drawn@.take(i as int));
    }
    assert(drawn@.take(drawn@.len() as int) =~= drawn@);
    out
}

/// Target slots of the drive entries: one per drawn slot, or a single
/// `NO_SLOT` placeholder when nothing is drawn. The drive count handed to
/// the simulation is the length of this list.
pub fn drive_targets(drawn: &Vec<u32>) -> (r: Vec<u32>)
    ensures
        drawn@.len() > 0 ==> r@ == drawn@,
        drawn@.len() == 0 ==> r@ == seq![NO_SLOT],
{
    if drawn.len() == 0 {
        let mut out: Vec<u32> = Vec::new();
        out.push(NO_SLOT);
        return out;
    }
    padded_active_slots(drawn)
}

/// The integer part of the per-view uniform of the foam renderer.
#[derive(Clone, Copy, PartialEq, Eq, Debug)]
pub struct SoapViewParams {
    pub raymarch_steps: u32,
    pub microstructure_quality: u32,
    pub active_count: u32,
}

/// Per-view parameters: the ray-march steps and microstructure code of the
/// quality level, and the number of active slots.
pub fn prepare_soap_view_params(quality: FoamQuality, active_slots: usize) -> (r: SoapViewParams)
    requires
        active_slots <= u32::MAX,
    ensures
        r.raymarch_steps == spec_profile(quality).raymarch_steps,
        r.microstructure_quality == spec_microstructure_code(spec_profile(quality).microstructure_quality),
        r.active_count == active_slots,
{
    let profile = quality.profile();
    SoapViewParams {
        raymarch_steps: profile.raymarch_steps,
        microstructure_quality: profile.microstructure_quality.as_u32(),
        active_count: active_slots as u32,
    }
}

/// Whether any foam is on screen, so that simulation and drawing run at all.
pub fn foam_visible(active_slots: usize) -> (r: bool)
    ensures
        r == (active_slots > 0),
{
    active_slots > 0
}

} // verus!
