//! Laws that relate the constructors and the queries.
use vstd::prelude::*;

use crate::ids::{all_legacy, legacy_bits_of, legacy_bits_or_zero, legacy_holds, union_bits, ModId, LEGACY_MASK};
use crate::mods::{downgrade, F32Bits, ModsView, Reflection, RATE_NORMAL};

verus! {

/// Building from a raw bitmask holds hard rock exactly when the bitmask has
/// the hard-rock bit set.
pub proof fn law_bits_hard_rock(bits: u32)
    ensures
        ModsView::Legacy(bits & LEGACY_MASK).has(ModId::HardRock) == (bits & 16 == 16),
{
    assert((bits & 0x3fff_ffffu32) & 16u32 == 16u32 <==> bits & 16u32 == 16u32) by (bit_vector);
}

/// Whether no identity is held.
pub open spec fn holds_nothing(m: ModsView) -> bool {
    forall|id: ModId| !(#[trigger] m.has(id))
}

/// Without any identity held, no key count is forced from `from` on.
pub proof fn lemma_no_keys_from(m: ModsView, from: int)
    requires
        holds_nothing(m),
    ensures
        m.first_keys_from(from) == None::<u32>,
    decreases 11 - from,
{
    if 1 <= from <= 10 {
        assert(!m.has(crate::mods::key_mod(from)));
        lemma_no_keys_from(m, from + 1);
    }
}

/// No mods hold no identity, play at rate one with multiplier one, and
/// override nothing.
pub proof fn law_no_mods(lazer: bool)
    ensures
        holds_nothing(ModsView::Legacy(0)),
        ModsView::Legacy(0).clock_rate() == F32Bits(RATE_NORMAL),
        ModsView::Legacy(0).od_ar_hp_multiplier() == 10,
        ModsView::Legacy(0).ar() == None::<F32Bits>,
        ModsView::Legacy(0).cs() == None::<F32Bits>,
        ModsView::Legacy(0).hp() == None::<F32Bits>,
        ModsView::Legacy(0).od() == None::<F32Bits>,
        ModsView::Legacy(0).scroll_speed() == None::<F32Bits>,
        ModsView::Legacy(0).random_seed() == None::<i32>,
        ModsView::Legacy(0).mania_keys() == None::<u32>,
        ModsView::Legacy(0).reflection() == Reflection::Neither,
        !ModsView::Legacy(0).hardrock_offsets(),
        ModsView::Legacy(0).no_slider_head_acc(lazer) == !lazer,
{
    assert(forall|f: u32| f != 0 ==> 0u32 & f != f) by (bit_vector);
    assert(0u32 & 64u32 != 64u32 && 0u32 & 256u32 != 256u32) by (bit_vector);
    assert forall|id: ModId| !(#[trigger] ModsView::Legacy(0).has(id)) by {
        match legacy_bits_of(id) {
            Some(f) => assert(f != 0),
            None => {},
        }
    }
    lemma_no_keys_from(ModsView::Legacy(0), 1);
}

/// Whether `id` is one of the identities that a presence predicate asks about.
pub open spec fn is_catalog(id: ModId) -> bool {
    id == ModId::NoFail || id == ModId::Easy || id == ModId::TouchDevice || id == ModId::Hidden
        || id == ModId::HardRock || id == ModId::Relax || id == ModId::Flashlight
        || id == ModId::SpunOut || id == ModId::Autopilot || id == ModId::Blinds
        || id == ModId::Classic || id == ModId::Invert || id == ModId::HoldOff
        || id == ModId::Traceable
}

/// Whether two mod sets give the same answer to every query.
pub open spec fn same_answers(a: ModsView, b: ModsView) -> bool {
    &&& forall|id: ModId| is_catalog(id) ==> a.has(id) == b.has(id)
    &&& a.clock_rate() == b.clock_rate()
    &&& a.od_ar_hp_multiplier() == b.od_ar_hp_multiplier()
    &&& a.ar() == b.ar()
    &&& a.cs() == b.cs()
    &&& a.hp() == b.hp()
    &&& a.od() == b.od()
    &&& a.scroll_speed() == b.scroll_speed()
    &&& a.random_seed() == b.random_seed()
    &&& a.hardrock_offsets() == b.hardrock_offsets()
    &&& forall|lazer: bool| a.no_slider_head_acc(lazer) == b.no_slider_head_acc(lazer)
    &&& a.reflection() == b.reflection()
    &&& a.mania_keys() == b.mania_keys()
}

/// The legacy bit pattern of every identity but mirror lies within the known
/// bits.
pub proof fn lemma_legacy_bits_bounded(id: ModId)
    requires
        id != ModId::Mirror,
    ensures
        legacy_bits_or_zero(id) < 0x4000_0000,
{
    match id {
        ModId::Autopilot => {},
        ModId::Autoplay => {},
        ModId::Cinema => {},
        ModId::DoubleTime => {},
        ModId::DualStages => {},
        ModId::Easy => {},
        ModId::EightKeys => {},
        ModId::FadeIn => {},
        ModId::FiveKeys => {},
        ModId::Flashlight => {},
        ModId::FourKeys => {},
        ModId::HalfTime => {},
        ModId::HardRock => {},
        ModId::Hidden => {},
        ModId::Nightcore => {},
        ModId::NineKeys => {},
        ModId::NoFail => {},
        ModId::OneKey => {},
        ModId::Perfect => {},
        ModId::Random => {},
        ModId::Relax => {},
        ModId::ScoreV2 => {},
        ModId::SevenKeys => {},
        ModId::SixKeys => {},
        ModId::SpunOut => {},
        ModId::SuddenDeath => {},
        ModId::TargetPractice => {},
        ModId::ThreeKeys => {},
        ModId::TouchDevice => {},
        ModId::TwoKeys => {},
        _ => {},
    }
}

/// Dropping the unknown bits changes no answer about an identity but mirror.
pub proof fn lemma_mask_keeps_holds(bits: u32, id: ModId)
    requires
        id != ModId::Mirror,
    ensures
        ModsView::Legacy(bits & LEGACY_MASK).has(id) == ModsView::Legacy(bits).has(id),
{
    lemma_legacy_bits_bounded(id);
    let f = legacy_bits_or_zero(id);
    assert(f < 0x4000_0000u32 ==> ((bits & 0x3fff_ffffu32) & f == f <==> bits & f == f)) by (bit_vector);
}

/// Dropping the unknown bits forces the same key count from `from` on.
pub proof fn lemma_mask_keeps_keys(bits: u32, from: int)
    ensures
        ModsView::Legacy(bits & LEGACY_MASK).first_keys_from(from) == ModsView::Legacy(bits).first_keys_from(from),
    decreases 11 - from,
{
    if 1 <= from <= 10 {
        lemma_mask_keeps_holds(bits, crate::mods::key_mod(from));
        lemma_mask_keeps_keys(bits, from + 1);
    }
}

/// A legacy bit pattern and its known bits give the same answer to every
/// query.
pub proof fn lemma_mask_keeps_answers(bits: u32)
    ensures
        same_answers(ModsView::Legacy(bits & LEGACY_MASK), ModsView::Legacy(bits)),
{
    assert forall|id: ModId| is_catalog(id) implies ModsView::Legacy(bits & LEGACY_MASK).has(id)
        == ModsView::Legacy(bits).has(id) by {
        lemma_mask_keeps_holds(bits, id);
    }
    lemma_mask_keeps_holds(bits, ModId::HardRock);
    lemma_mask_keeps_holds(bits, ModId::Easy);
    lemma_mask_keeps_holds(bits, ModId::Classic);
    lemma_mask_keeps_keys(bits, 1);
    assert((bits & 0x3fff_ffffu32) & 64u32 == 64u32 <==> bits & 64u32 == 64u32) by (bit_vector);
    assert((bits & 0x3fff_ffffu32) & 256u32 == 256u32 <==> bits & 256u32 == 256u32) by (bit_vector);
}

/// Building from a borrowed identity set that the legacy layout can hold, and
/// building from the equivalent legacy bitmask, give the same answer to every
/// query.
pub proof fn law_borrowed_set_matches_bits(s: Seq<ModId>)
    requires
        all_legacy(s),
    ensures
        same_answers(downgrade(s), ModsView::Legacy(union_bits(s) & LEGACY_MASK)),
{
    lemma_mask_keeps_answers(union_bits(s));
}

/// Whether the legacy pattern of `id` is a single bit that no other
/// identity's pattern holds.
pub open spec fn owns_bit(id: ModId) -> bool {
    id == ModId::NoFail
        || id == ModId::Easy
        || id == ModId::TouchDevice
        || id == ModId::Hidden
        || id == ModId::HardRock
        || id == ModId::Relax
        || id == ModId::Flashlight
        || id == ModId::SpunOut
        || id == ModId::Autopilot
        || id == ModId::OneKey
        || id == ModId::TwoKeys
        || id == ModId::ThreeKeys
        || id == ModId::FourKeys
        || id == ModId::FiveKeys
        || id == ModId::SixKeys
        || id == ModId::SevenKeys
        || id == ModId::EightKeys
        || id == ModId::NineKeys
}

/// The legacy bits of every identity are zero or one of the table's patterns.
proof fn lemma_table_value(id: ModId)
    ensures
        (legacy_bits_or_zero(id) == 0u32 || legacy_bits_or_zero(id) == 1u32
            || legacy_bits_or_zero(id) == 2u32 || legacy_bits_or_zero(id) == 4u32
            || legacy_bits_or_zero(id) == 8u32 || legacy_bits_or_zero(id) == 16u32
            || legacy_bits_or_zero(id) == 32u32 || legacy_bits_or_zero(id) == 64u32
            || legacy_bits_or_zero(id) == 128u32 || legacy_bits_or_zero(id) == 256u32
            || legacy_bits_or_zero(id) == 576u32 || legacy_bits_or_zero(id) == 1024u32
            || legacy_bits_or_zero(id) == 2048u32 || legacy_bits_or_zero(id) == 4096u32
            || legacy_bits_or_zero(id) == 8192u32 || legacy_bits_or_zero(id) == 16416u32
            || legacy_bits_or_zero(id) == 32768u32 || legacy_bits_or_zero(id) == 65536u32
            || legacy_bits_or_zero(id) == 131072u32 || legacy_bits_or_zero(id) == 262144u32
            || legacy_bits_or_zero(id) == 524288u32 || legacy_bits_or_zero(id) == 1048576u32
            || legacy_bits_or_zero(id) == 2097152u32
            || legacy_bits_or_zero(id) == 4194304u32
            || legacy_bits_or_zero(id) == 8388608u32
            || legacy_bits_or_zero(id) == 16777216u32
            || legacy_bits_or_zero(id) == 33554432u32
            || legacy_bits_or_zero(id) == 67108864u32
            || legacy_bits_or_zero(id) == 134217728u32
            || legacy_bits_or_zero(id) == 268435456u32
            || legacy_bits_or_zero(id) == 536870912u32
            || legacy_bits_or_zero(id) == 1073741824u32),
{
    match id {
        ModId::Autopilot => {},
        ModId::Autoplay => {},
        ModId::Cinema => {},
        ModId::DoubleTime => {},
        ModId::DualStages => {},
        ModId::Easy => {},
        ModId::EightKeys => {},
        ModId::FadeIn => {},
        ModId::FiveKeys => {},
        ModId::Flashlight => {},
        ModId::FourKeys => {},
        ModId::HalfTime => {},
        ModId::HardRock => {},
        ModId::Hidden => {},
        ModId::Mirror => {},
        ModId::Nightcore => {},
        ModId::NineKeys => {},
        ModId::NoFail => {},
        ModId::OneKey => {},
        ModId::Perfect => {},
        ModId::Random => {},
        ModId::Relax => {},
        ModId::ScoreV2 => {},
        ModId::SevenKeys => {},
        ModId::SixKeys => {},
        ModId::SpunOut => {},
        ModId::SuddenDeath => {},
        ModId::TargetPractice => {},
        ModId::ThreeKeys => {},
        ModId::TouchDevice => {},
        ModId::TwoKeys => {},
        _ => {},
    }
}

/// An identity's pattern holds the bit that `id` owns exactly when it is `id`.
proof fn lemma_owned_bit(other: ModId, id: ModId)
    requires
        owns_bit(id),
    ensures
        (legacy_bits_or_zero(other) & legacy_bits_or_zero(id) == legacy_bits_or_zero(id)) == (other == id),
{
    lemma_table_value(other);
    let x = legacy_bits_or_zero(other);
    let f = legacy_bits_or_zero(id);
    assert((x == 0u32 || x == 1u32 || x == 2u32 || x == 4u32 || x == 8u32 || x == 16u32
        || x == 32u32 || x == 64u32 || x == 128u32 || x == 256u32 || x == 576u32
        || x == 1024u32 || x == 2048u32 || x == 4096u32 || x == 8192u32 || x == 16416u32
        || x == 32768u32 || x == 65536u32 || x == 131072u32 || x == 262144u32
        || x == 524288u32 || x == 1048576u32 || x == 2097152u32 || x == 4194304u32
        || x == 8388608u32 || x == 16777216u32 || x == 33554432u32 || x == 67108864u32
        || x == 134217728u32 || x == 268435456u32 || x == 536870912u32
        || x == 1073741824u32) && (f == 1u32 || f == 2u32 || f == 4u32 || f == 8u32 || f == 16u32 || f == 128u32
        || f == 1024u32 || f == 4096u32 || f == 8192u32 || f == 67108864u32
        || f == 268435456u32 || f == 134217728u32 || f == 32768u32 || f == 65536u32
        || f == 131072u32 || f == 262144u32 || f == 524288u32 || f == 16777216u32)
        ==> ((x & f == f) == (x == f))) by (bit_vector);
    match other {
        ModId::Autopilot => {},
        ModId::Autoplay => {},
        ModId::Cinema => {},
        ModId::DoubleTime => {},
        ModId::DualStages => {},
        ModId::Easy => {},
        ModId::EightKeys => {},
        ModId::FadeIn => {},
        ModId::FiveKeys => {},
        ModId::Flashlight => {},
        ModId::FourKeys => {},
        ModId::HalfTime => {},
        ModId::HardRock => {},
        ModId::Hidden => {},
        ModId::Mirror => {},
        ModId::Nightcore => {},
        ModId::NineKeys => {},
        ModId::NoFail => {},
        ModId::OneKey => {},
        ModId::Perfect => {},
        ModId::Random => {},
        ModId::Relax => {},
        ModId::ScoreV2 => {},
        ModId::SevenKeys => {},
        ModId::SixKeys => {},
        ModId::SpunOut => {},
        ModId::SuddenDeath => {},
        ModId::TargetPractice => {},
        ModId::ThreeKeys => {},
        ModId::TouchDevice => {},
        ModId::TwoKeys => {},
        _ => {},
    }
}

/// The union of a set's patterns holds the bit that `id` owns exactly when the
/// set holds `id`.
proof fn lemma_union_holds(s: Seq<ModId>, id: ModId)
    requires
        owns_bit(id),
    ensures
        legacy_holds(union_bits(s), id) == s.contains(id),
    decreases s.len(),
{
    let f = legacy_bits_or_zero(id);
    assert(f == legacy_bits_of(id).unwrap());
    if s.len() == 0 {
        assert((f == 1u32 || f == 2u32 || f == 4u32 || f == 8u32 || f == 16u32 || f == 128u32
            || f == 1024u32 || f == 4096u32 || f == 8192u32 || f == 67108864u32
            || f == 268435456u32 || f == 134217728u32 || f == 32768u32 || f == 65536u32
            || f == 131072u32 || f == 262144u32 || f == 524288u32 || f == 16777216u32) ==> 0u32 & f != f) by (bit_vector);
    } else {
        let t = s.drop_last();
        lemma_union_holds(t, id);
        lemma_owned_bit(s.last(), id);
        let u = union_bits(t);
        let x = legacy_bits_or_zero(s.last());
        assert((f == 1u32 || f == 2u32 || f == 4u32 || f == 8u32 || f == 16u32 || f == 128u32
            || f == 1024u32 || f == 4096u32 || f == 8192u32 || f == 67108864u32
            || f == 268435456u32 || f == 134217728u32 || f == 32768u32 || f == 65536u32
            || f == 131072u32 || f == 262144u32 || f == 524288u32 || f == 16777216u32)
            ==> (((u | x) & f == f) == ((u & f == f) || (x & f == f)))) by (bit_vector);
        if s.last() == id {
            assert(s[s.len() - 1] == id);
        }
        if t.contains(id) {
            let j = choose|j: int| 0 <= j < t.len() && t[j] == id;
            assert(s[j] == id);
        }
        if s.contains(id) {
            let j = choose|j: int| 0 <= j < s.len() && s[j] == id;
            if j < s.len() - 1 {
                assert(t[j] == id);
            }
        }
    }
}

/// A set whose identities all have legacy patterns holds no identity without one.
proof fn lemma_lacks_unpatterned(s: Seq<ModId>, id: ModId)
    requires
        all_legacy(s),
        legacy_bits_of(id).is_none(),
    ensures
        !s.contains(id),
{
    if s.contains(id) {
        let j = choose|j: int| 0 <= j < s.len() && s[j] == id;
        assert(legacy_bits_of(s[j]).is_some());
    }
}

/// A set and its narrowing hold the same identities among those the queries
/// ask about.
proof fn lemma_narrowing_keeps_holds(s: Seq<ModId>, id: ModId)
    requires
        all_legacy(s),
        owns_bit(id) || legacy_bits_of(id).is_none(),
    ensures
        ModsView::Intermode(s).has(id) == ModsView::Legacy(union_bits(s)).has(id),
{
    if owns_bit(id) {
        lemma_union_holds(s, id);
    } else {
        lemma_lacks_unpatterned(s, id);
    }
}

/// A set and its narrowing force the same key count from `from` on.
proof fn lemma_narrowing_keeps_keys(s: Seq<ModId>, from: int)
    requires
        all_legacy(s),
    ensures
        ModsView::Intermode(s).first_keys_from(from) == ModsView::Legacy(union_bits(s)).first_keys_from(from),
    decreases 11 - from,
{
    if 1 <= from <= 10 {
        lemma_narrowing_keeps_holds(s, crate::mods::key_mod(from));
        lemma_narrowing_keeps_keys(s, from + 1);
    }
}

/// Narrowing a borrowed identity set to legacy bits is unobservable: the set
/// and what building from it by reference gives answer every query alike.
pub proof fn law_narrowing_keeps_answers(s: Seq<ModId>)
    ensures
        same_answers(ModsView::Intermode(s), downgrade(s)),
{
    if all_legacy(s) {
        assert forall|id: ModId| is_catalog(id) implies ModsView::Intermode(s).has(id)
            == ModsView::Legacy(union_bits(s)).has(id) by {
            lemma_narrowing_keeps_holds(s, id);
        }
        lemma_narrowing_keeps_holds(s, ModId::HardRock);
        lemma_narrowing_keeps_holds(s, ModId::Easy);
        lemma_narrowing_keeps_holds(s, ModId::Classic);
        lemma_narrowing_keeps_keys(s, 1);
    }
}

/// With hard rock and easy both held, hard rock decides the multiplier.
pub proof fn law_hard_rock_before_easy(m: ModsView)
    requires
        m.has(ModId::HardRock),
        m.has(ModId::Easy),
    ensures
        m.od_ar_hp_multiplier() == 14,
{
}

/// The legacy encoding never holds an identity that postdates it, whatever
/// its bits.
pub proof fn law_legacy_lacks_modern_only(bits: u32)
    ensures
        !ModsView::Legacy(bits).has(ModId::Blinds),
        !ModsView::Legacy(bits).has(ModId::Classic),
        !ModsView::Legacy(bits).has(ModId::Invert),
        !ModsView::Legacy(bits).has(ModId::HoldOff),
        !ModsView::Legacy(bits).has(ModId::Traceable),
        !ModsView::Legacy(bits).has(ModId::TenKeys),
{
}

} // verus!
