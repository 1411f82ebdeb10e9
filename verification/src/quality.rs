//! Foam quality levels and the rendering budget each one allows.
//!
//! A quality level limits how many bubbles may show foam at once and how
//! precisely the foam is drawn; it never changes the size of the GPU pool.

use vstd::prelude::*;

verus! {

#[derive(Clone, Copy, PartialEq, Eq, Debug)]
pub enum FoamQuality {
    Low,
    Medium,
    High,
}

#[derive(Clone, Copy, PartialEq, Eq, Debug)]
pub enum MicrostructureQuality {
    Simple,
    Normal,
    Detailed,
}

/// The concrete budget of one quality level.
#[derive(Clone, Copy, PartialEq, Eq, Debug)]
pub struct FoamQualityProfile {
    /// Most bubbles that may hold foam slots at once.
    pub max_aggregates: u32,
    pub raymarch_steps: u32,
    pub microstructure_quality: MicrostructureQuality,
}

/// The quality level currently chosen.
#[derive(Clone, Copy, PartialEq, Eq, Debug)]
pub struct FoamQualitySetting(pub FoamQuality);

pub open spec fn spec_profile(q: FoamQuality) -> FoamQualityProfile {
    match q {
        FoamQuality::Low => FoamQualityProfile {
            max_aggregates: 16,
            raymarch_steps: 32,
            microstructure_quality: MicrostructureQuality::Simple,
        },
        FoamQuality::Medium => FoamQualityProfile {
            max_aggregates: 64,
            raymarch_steps: 64,
            microstructure_quality: MicrostructureQuality::Normal,
        },
        FoamQuality::High => FoamQualityProfile {
            max_aggregates: 256,
            raymarch_steps: 96,
            microstructure_quality: MicrostructureQuality::Detailed,
        },
    }
}

pub open spec fn spec_label(q: FoamQuality) -> Seq<char> {
    match q {
        FoamQuality::Low => seq!['L', 'o', 'w'],
        FoamQuality::Medium => seq!['M', 'e', 'd', 'i', 'u', 'm'],
        FoamQuality::High => seq!['H', 'i', 'g', 'h'],
    }
}

pub open spec fn spec_microstructure_code(m: MicrostructureQuality) -> u32 {
    match m {
        MicrostructureQuality::Simple => 0,
        MicrostructureQuality::Normal => 1,
        MicrostructureQuality::Detailed => 2,
    }
}

/// Rank of a quality level: Low < Medium < High.
pub open spec fn quality_rank(q: FoamQuality) -> int {
    match q {
        FoamQuality::Low => 0,
        FoamQuality::Medium => 1,
        FoamQuality::High => 2,
    }
}

impl Default for FoamQuality {
    /// Medium is the quality a new game starts with.
    fn default() -> (r: FoamQuality)
        ensures
            r == FoamQuality::Medium,
    {
        FoamQuality::Medium
    }
}

impl FoamQuality {
    pub fn profile(self) -> (r: FoamQualityProfile)
        ensures
            r == spec_profile(self),
    {
        match self {
            FoamQuality::Low => FoamQualityProfile {
                max_aggregates: 16,
                raymarch_steps: 32,
                microstructure_quality: MicrostructureQuality::Simple,
            },
            FoamQuality::Medium => FoamQualityProfile {
                max_aggregates: 64,
                raymarch_steps: 64,
                microstructure_quality: MicrostructureQuality::Normal,
            },
            FoamQuality::High => FoamQualityProfile {
                max_aggregates: 256,
                raymarch_steps: 96,
                microstructure_quality: MicrostructureQuality::Detailed,
            },
        }
    }

    pub fn label(self) -> (r: &'static str)
        ensures
            r@ == spec_label(self),
    {
        match self {
            FoamQuality::Low => {
                let s = "Low";
                proof {
                    reveal_strlit("Low");
                }
                s
            },
            FoamQuality::Medium => {
                let s = "Medium";
                proof {
                    reveal_strlit("Medium");
                }
                s
            },
            FoamQuality::High => {
                let s = "High";
                proof {
                    reveal_strlit("High");
                }
                s
            },
        }
    }
}

impl MicrostructureQuality {
    /// The code the renderer receives for this detail level.
    pub fn as_u32(self) -> (r: u32)
        ensures
            r == spec_microstructure_code(self),
    {
        match self {
            MicrostructureQuality::Simple => 0,
            MicrostructureQuality::Normal => 1,
            MicrostructureQuality::Detailed => 2,
        }
    }
}

impl Default for FoamQualitySetting {
    fn default() -> (r: FoamQualitySetting)
        ensures
            r.0 == FoamQuality::Medium,
    {
        FoamQualitySetting(FoamQuality::Medium)
    }
}

/// The quality chosen by the hotkeys 1, 2 and 3 (Low, Medium, High). When
/// several are pressed in the same frame the lowest digit wins; when none is
/// pressed the current quality stays.
pub open spec fn spec_hotkey_quality(current: FoamQuality, digit1: bool, digit2: bool, digit3: bool) -> FoamQuality {
    if digit1 {
        FoamQuality::Low
    } else if digit2 {
        FoamQuality::Medium
    } else if digit3 {
        FoamQuality::High
    } else {
        current
    }
}

/// Applies the quality hotkeys pressed this frame to the setting.
pub fn handle_quality_hotkeys(setting: &mut FoamQualitySetting, digit1: bool, digit2: bool, digit3: bool)
    ensures
        final(setting).0 == spec_hotkey_quality(old(setting).0, digit1, digit2, digit3),
        !digit1 && !digit2 && !digit3 ==> final(setting).0 == old(setting).0,
        digit1 ==> final(setting).0 == FoamQuality::Low,
        !digit1 && digit2 ==> final(setting).0 == FoamQuality::Medium,
        !digit1 && !digit2 && digit3 ==> final(setting).0 == FoamQuality::High,
{
    if digit1 {
        setting.0 = FoamQuality::Low;
    } else if digit2 {
        setting.0 = FoamQuality::Medium;
    } else if digit3 {
        setting.0 = FoamQuality::High;
    }
}

/// The hotkeys only ever act when pressed: a frame without any of them keeps
/// whatever quality was chosen before, and a pressed key selects its own level
/// (1 Low, 2 Medium, 3 High), the lowest pressed digit winning.
pub proof fn lemma_hotkeys_keep_choice(current: FoamQuality, digit1: bool, digit2: bool, digit3: bool)
    ensures
        !digit1 && !digit2 && !digit3 ==> spec_hotkey_quality(current, digit1, digit2, digit3)
            == current,
        digit1 ==> spec_hotkey_quality(current, digit1, digit2, digit3) == FoamQuality::Low,
        !digit1 && digit2 ==> spec_hotkey_quality(current, digit1, digit2, digit3)
            == FoamQuality::Medium,
        !digit1 && !digit2 && digit3 ==> spec_hotkey_quality(current, digit1, digit2, digit3)
            == FoamQuality::High,
        spec_hotkey_quality(spec_hotkey_quality(current, digit1, digit2, digit3), false, false, false)
            == spec_hotkey_quality(current, digit1, digit2, digit3),
{
}

/// A higher quality level never allows fewer foam bubbles, fewer ray-march
/// steps or a coarser microstructure than a lower one.
pub proof fn lemma_profiles_grow_with_quality(a: FoamQuality, b: FoamQuality)
    requires
        quality_rank(a) <= quality_rank(b),
    ensures
        spec_profile(a).max_aggregates <= spec_profile(b).max_aggregates,
        spec_profile(a).raymarch_steps <= spec_profile(b).raymarch_steps,
        spec_microstructure_code(spec_profile(a).microstructure_quality)
            <= spec_microstructure_code(spec_profile(b).microstructure_quality),
{
}

/// Distinct quality levels have distinct labels and distinct budgets, and
/// distinct microstructure levels have distinct codes.
pub proof fn lemma_quality_levels_distinguishable(a: FoamQuality, b: FoamQuality)
    requires
        a != b,
    ensures
        spec_label(a) != spec_label(b),
        spec_profile(a).max_aggregates != spec_profile(b).max_aggregates,
        spec_microstructure_code(spec_profile(a).microstructure_quality)
            != spec_microstructure_code(spec_profile(b).microstructure_quality),
{
    let la = spec_label(a);
    let lb = spec_label(b);
    if la.len() == lb.len() {
        assert(la[0] != lb[0]);
    }
}

} // verus!
