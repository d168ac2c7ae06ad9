//! Mod identities and the legacy bit layout.
use vstd::prelude::*;

verus! {

/// The bits that building from a raw legacy value keeps: all but the two
/// highest. Mirror's pattern, bit 30, lies outside it.
pub const LEGACY_MASK: u32 = 0x3fff_ffff;

/// Identity of a game mod, independent of the game mode it is played in.
#[derive(Clone, Copy, Debug, PartialEq, Eq, Structural)]
pub enum ModId {
    AccuracyChallenge,
    AdaptiveSpeed,
    Alternate,
    ApproachDifferent,
    Autopilot,
    Autoplay,
    BarrelRoll,
    Blinds,
    Bubbles,
    Cinema,
    Classic,
    ConstantSpeed,
    Cover,
    Daycore,
    Deflate,
    Depth,
    DifficultyAdjust,
    DoubleTime,
    DualStages,
    Easy,
    EightKeys,
    FadeIn,
    FiveKeys,
    Flashlight,
    FloatingFruits,
    FourKeys,
    FreezeFrame,
    Grow,
    HalfTime,
    HardRock,
    Hidden,
    HoldOff,
    Invert,
    Magnetised,
    Mirror,
    Muted,
    Nightcore,
    NineKeys,
    NoFail,
    NoRelease,
    NoScope,
    OneKey,
    Perfect,
    Random,
    Relax,
    Repel,
    ScoreV2,
    SevenKeys,
    SingleTap,
    SixKeys,
    SpinIn,
    SpunOut,
    StrictTracking,
    SuddenDeath,
    Swap,
    Synesthesia,
    TargetPractice,
    TenKeys,
    ThreeKeys,
    TouchDevice,
    Traceable,
    Transform,
    TwoKeys,
    Wiggle,
    WindDown,
    WindUp,
    /// A mod that this catalog does not name.
    Unknown,
}

/// The legacy bit pattern of an identity, where the legacy layout has one.
pub open spec fn legacy_bits_of(id: ModId) -> Option<u32> {
    match id {
        ModId::Autopilot => Some(8192u32),
        ModId::Autoplay => Some(2048u32),
        ModId::Cinema => Some(4194304u32),
        ModId::DoubleTime => Some(64u32),
        ModId::DualStages => Some(33554432u32),
        ModId::Easy => Some(2u32),
        ModId::EightKeys => Some(524288u32),
        ModId::FadeIn => Some(1048576u32),
        ModId::FiveKeys => Some(65536u32),
        ModId::Flashlight => Some(1024u32),
        ModId::FourKeys => Some(32768u32),
        ModId::HalfTime => Some(256u32),
        ModId::HardRock => Some(16u32),
        ModId::Hidden => Some(8u32),
        ModId::Mirror => Some(1073741824u32),
        ModId::Nightcore => Some(576u32),
        ModId::NineKeys => Some(16777216u32),
        ModId::NoFail => Some(1u32),
        ModId::OneKey => Some(67108864u32),
        ModId::Perfect => Some(16416u32),
        ModId::Random => Some(2097152u32),
        ModId::Relax => Some(128u32),
        ModId::ScoreV2 => Some(536870912u32),
        ModId::SevenKeys => Some(262144u32),
        ModId::SixKeys => Some(131072u32),
        ModId::SpunOut => Some(4096u32),
        ModId::SuddenDeath => Some(32u32),
        ModId::TargetPractice => Some(8388608u32),
        ModId::ThreeKeys => Some(134217728u32),
        ModId::TouchDevice => Some(4u32),
        ModId::TwoKeys => Some(268435456u32),
        _ => None,
    }
}

impl ModId {
    /// The legacy bit pattern of this identity, or `None` for one that postdates the legacy layout.
    pub fn legacy_bits(self) -> (r: Option<u32>)
        ensures
            r == legacy_bits_of(self),
    {
        match self {
            ModId::Autopilot => Some(8192),
            ModId::Autoplay => Some(2048),
            ModId::Cinema => Some(4194304),
            ModId::DoubleTime => Some(64),
            ModId::DualStages => Some(33554432),
            ModId::Easy => Some(2),
            ModId::EightKeys => Some(524288),
            ModId::FadeIn => Some(1048576),
            ModId::FiveKeys => Some(65536),
            ModId::Flashlight => Some(1024),
            ModId::FourKeys => Some(32768),
            ModId::HalfTime => Some(256),
            ModId::HardRock => Some(16),
            ModId::Hidden => Some(8),
            ModId::Mirror => Some(1073741824),
            ModId::Nightcore => Some(576),
            ModId::NineKeys => Some(16777216),
            ModId::NoFail => Some(1),
            ModId::OneKey => Some(67108864),
            ModId::Perfect => Some(16416),
            ModId::Random => Some(2097152),
            ModId::Relax => Some(128),
            ModId::ScoreV2 => Some(536870912),
            ModId::SevenKeys => Some(262144),
            ModId::SixKeys => Some(131072),
            ModId::SpunOut => Some(4096),
            ModId::SuddenDeath => Some(32),
            ModId::TargetPractice => Some(8388608),
            ModId::ThreeKeys => Some(134217728),
            ModId::TouchDevice => Some(4),
            ModId::TwoKeys => Some(268435456),
            _ => None,
        }
    }
}

/// Whether a legacy bit pattern holds every bit of the identity's own pattern.
/// Identities that postdate the legacy layout are never held.
pub open spec fn legacy_holds(bits: u32, id: ModId) -> bool {
    match legacy_bits_of(id) {
        Some(f) => bits & f == f,
        None => false,
    }
}

/// The legacy bits of an identity, zero where it has none.
pub open spec fn legacy_bits_or_zero(id: ModId) -> u32 {
    match legacy_bits_of(id) {
        Some(f) => f,
        None => 0,
    }
}

/// The union of the legacy bits of all identities in `s`; identities without
/// legacy bits add nothing.
pub open spec fn union_bits(s: Seq<ModId>) -> u32
    decreases s.len(),
{
    if s.len() == 0 {
        0
    } else {
        union_bits(s.drop_last()) | legacy_bits_or_zero(s.last())
    }
}

/// Whether every identity in `s` has a legacy bit pattern.
pub open spec fn all_legacy(s: Seq<ModId>) -> bool {
    forall|i: int| 0 <= i < s.len() ==> (#[trigger] legacy_bits_of(s[i])).is_some()
}

/// Relies on `rosu_mods::GameModsLegacy::from_bits`, which keeps the known
/// bits of a raw value and drops the others.
#[verifier::external_body]
pub(crate) fn legacy_from_bits(bits: u32) -> (r: u32)
    ensures
        r == bits & LEGACY_MASK,
{
    rosu_mods::GameModsLegacy::from_bits(bits).bits()
}

/// The union of the legacy bits of the identities in `ids`.
pub fn legacy_union(ids: &Vec<ModId>) -> (r: u32)
    ensures
        r == union_bits(ids@),
{
    let mut acc: u32 = 0;
    let mut i: usize = 0;
    while i < ids.len()
        invariant
            0 <= i <= ids@.len(),
            acc == union_bits(ids@.take(i as int)),
        decreases ids@.len() - i,
    {
        let id = ids[i];
        let b: u32 = match id.legacy_bits() {
            Some(f) => f,
            None => 0,
        };
        assert(ids@.take(i as int + 1).drop_last() =~= ids@.take(i as int));
        acc = acc | b;
        i = i + 1;
    }
    assert(ids@.take(ids@.len() as int) =~= ids@);
    acc
}

/// The legacy bit pattern equivalent to `ids`, or `None` where some identity
/// has no legacy bits.
pub fn checked_legacy_union(ids: &Vec<ModId>) -> (r: Option<u32>)
    ensures
        r == (if all_legacy(ids@) {
            Some(union_bits(ids@))
        } else {
            None
        }),
{
    let mut i: usize = 0;
    while i < ids.len()
        invariant
            0 <= i <= ids@.len(),
            forall|j: int| 0 <= j < i ==> (#[trigger] legacy_bits_of(ids@[j])).is_some(),
        decreases ids@.len() - i,
    {
        if ids[i].legacy_bits().is_none() {
            return None;
        }
        i = i + 1;
    }
    Some(legacy_union(ids))
}

} // verus!
