//! The mod set in its three encodings and the queries over it.
use vstd::prelude::*;

use crate::ids::{
    all_legacy, checked_legacy_union, legacy_from_bits, legacy_holds, legacy_union, union_bits, ModId,
    LEGACY_MASK,
};

verus! {

/// The game mode that a modern mod entry belongs to.
#[derive(Clone, Copy, Debug, PartialEq, Eq, Structural)]
pub enum GameMode {
    Osu,
    Taiko,
    Catch,
    Mania,
}

/// An `f32` carried by its IEEE-754 bit pattern. The library selects and
/// passes such values on; it never computes with them.
#[derive(Clone, Copy, Debug, PartialEq, Eq, Structural)]
pub struct F32Bits(pub u32);

/// The bit pattern of `1.0f32`.
pub const RATE_NORMAL: u32 = 0x3f80_0000;

/// The bit pattern of `1.5f32`, the nominal rate of the faster speed mods.
pub const RATE_FAST: u32 = 0x3fc0_0000;

/// The bit pattern of `0.75f32`, the nominal rate of the slower speed mods.
pub const RATE_SLOW: u32 = 0x3f40_0000;

/// The legacy bit of double time.
pub const BIT_DOUBLE_TIME: u32 = 64;

/// The legacy bit of half time.
pub const BIT_HALF_TIME: u32 = 256;

/// One entry of a modern mod collection: its identity, its mode and the
/// settings that the queries read. A setting that the entry's mod does not
/// have, or that was left at its default, is `None`.
#[derive(Clone, Debug, PartialEq)]
pub struct GameMod {
    pub id: ModId,
    pub mode: GameMode,
    /// The rate that a speed-changing mod plays at.
    pub clock_rate: Option<F32Bits>,
    pub approach_rate: Option<F32Bits>,
    pub circle_size: Option<F32Bits>,
    pub drain_rate: Option<F32Bits>,
    pub overall_difficulty: Option<F32Bits>,
    pub scroll_speed: Option<F32Bits>,
    pub hard_rock_offsets: Option<bool>,
    pub no_slider_head_accuracy: Option<bool>,
    /// The mirror mod's direction setting, as text.
    pub reflection: Option<String>,
    pub seed: Option<i32>,
}

impl GameMod {
    /// An entry of identity `id` in `mode` with every setting left unset.
    pub fn new(id: ModId, mode: GameMode) -> (r: GameMod)
        ensures
            r.id == id,
            r.mode == mode,
            r.clock_rate.is_none(),
            r.approach_rate.is_none(),
            r.circle_size.is_none(),
            r.drain_rate.is_none(),
            r.overall_difficulty.is_none(),
            r.scroll_speed.is_none(),
            r.hard_rock_offsets.is_none(),
            r.no_slider_head_accuracy.is_none(),
            r.reflection.is_none(),
            r.seed.is_none(),
    {
        GameMod {
            id,
            mode,
            clock_rate: None,
            approach_rate: None,
            circle_size: None,
            drain_rate: None,
            overall_difficulty: None,
            scroll_speed: None,
            hard_rock_offsets: None,
            no_slider_head_accuracy: None,
            reflection: None,
            seed: None,
        }
    }
}

/// A mirroring of the playfield that the mods imply.
#[derive(Clone, Copy, Debug, PartialEq, Eq, Structural)]
pub enum Reflection {
    /// No mirroring.
    Neither,
    Vertical,
    Horizontal,
    Both,
}

/// A collection of game mods in exactly one of three encodings.
#[derive(Clone, Debug, PartialEq)]
pub enum GameMods {
    /// Structured entries with settings, in collection order.
    Lazer(Vec<GameMod>),
    /// Identities only, without settings.
    Intermode(Vec<ModId>),
    /// The legacy bit layout.
    Legacy(u32),
}

/// The mathematical model of [`GameMods`].
pub enum ModsView {
    Lazer(Seq<GameMod>),
    Intermode(Seq<ModId>),
    Legacy(u32),
}

impl View for GameMods {
    type V = ModsView;

    open spec fn view(&self) -> ModsView {
        match self {
            GameMods::Lazer(v) => ModsView::Lazer(v@),
            GameMods::Intermode(v) => ModsView::Intermode(v@),
            GameMods::Legacy(b) => ModsView::Legacy(*b),
        }
    }
}

/// What borrowing an identity set builds: the legacy bit pattern where every
/// identity has one, else the set itself.
pub open spec fn downgrade(s: Seq<ModId>) -> ModsView {
    if all_legacy(s) {
        ModsView::Legacy(union_bits(s))
    } else {
        ModsView::Intermode(s)
    }
}

/// The first `Some` that `f` gives over `s`, scanning from the front.
pub open spec fn find_map<T>(s: Seq<GameMod>, f: spec_fn(GameMod) -> Option<T>) -> Option<T>
    decreases s.len(),
{
    if s.len() == 0 {
        None
    } else {
        match f(s[0]) {
            Some(x) => Some(x),
            None => find_map(s.drop_first(), f),
        }
    }
}

/// One step of [`find_map`] over a suffix of `s`.
pub proof fn lemma_find_map_step<T>(s: Seq<GameMod>, i: int, f: spec_fn(GameMod) -> Option<T>)
    requires
        0 <= i < s.len(),
    ensures
        find_map(s.subrange(i, s.len() as int), f) == (match f(s[i]) {
            Some(x) => Some(x),
            None => find_map(s.subrange(i + 1, s.len() as int), f),
        }),
{
    assert(s.subrange(i, s.len() as int).drop_first() =~= s.subrange(i + 1, s.len() as int));
}

/// Whether `id` is one of the four speed-changing identities.
pub open spec fn is_rate_mod(id: ModId) -> bool {
    id == ModId::DoubleTime || id == ModId::HalfTime || id == ModId::Nightcore || id == ModId::Daycore
}

/// The rate that an entry contributes to the clock-rate scan.
pub open spec fn rate_of(m: GameMod) -> Option<F32Bits> {
    if is_rate_mod(m.id) {
        m.clock_rate
    } else {
        None
    }
}

/// [`rate_of`] as a function value, for [`find_map`].
pub open spec fn rate_fn() -> spec_fn(GameMod) -> Option<F32Bits> {
    |m: GameMod| rate_of(m)
}

/// The nominal clock rate of a legacy bit pattern.
pub open spec fn legacy_rate(bits: u32) -> F32Bits {
    if bits & BIT_DOUBLE_TIME == BIT_DOUBLE_TIME {
        F32Bits(RATE_FAST)
    } else if bits & BIT_HALF_TIME == BIT_HALF_TIME {
        F32Bits(RATE_SLOW)
    } else {
        F32Bits(RATE_NORMAL)
    }
}

fn legacy_rate_exec(bits: u32) -> (r: F32Bits)
    ensures
        r == legacy_rate(bits),
{
    if bits & BIT_DOUBLE_TIME == BIT_DOUBLE_TIME {
        F32Bits(RATE_FAST)
    } else if bits & BIT_HALF_TIME == BIT_HALF_TIME {
        F32Bits(RATE_SLOW)
    } else {
        F32Bits(RATE_NORMAL)
    }
}


/// The approach-rate setting of an osu! or catch difficulty-adjust entry.
pub open spec fn ar_fn() -> spec_fn(GameMod) -> Option<F32Bits> {
    |m: GameMod|
        if m.id == ModId::DifficultyAdjust && (m.mode == GameMode::Osu || m.mode == GameMode::Catch) {
            m.approach_rate
        } else {
            None
        }
}

/// The circle-size setting of an osu! or catch difficulty-adjust entry.
pub open spec fn cs_fn() -> spec_fn(GameMod) -> Option<F32Bits> {
    |m: GameMod|
        if m.id == ModId::DifficultyAdjust && (m.mode == GameMode::Osu || m.mode == GameMode::Catch) {
            m.circle_size
        } else {
            None
        }
}

/// The drain-rate setting of a difficulty-adjust entry of any mode.
pub open spec fn hp_fn() -> spec_fn(GameMod) -> Option<F32Bits> {
    |m: GameMod|
        if m.id == ModId::DifficultyAdjust {
            m.drain_rate
        } else {
            None
        }
}

/// The overall-difficulty setting of a difficulty-adjust entry of any mode.
pub open spec fn od_fn() -> spec_fn(GameMod) -> Option<F32Bits> {
    |m: GameMod|
        if m.id == ModId::DifficultyAdjust {
            m.overall_difficulty
        } else {
            None
        }
}

/// The scroll-speed setting, itself optional, of a taiko difficulty-adjust entry.
pub open spec fn scroll_fn() -> spec_fn(GameMod) -> Option<Option<F32Bits>> {
    |m: GameMod|
        if m.id == ModId::DifficultyAdjust && m.mode == GameMode::Taiko {
            Some(m.scroll_speed)
        } else {
            None
        }
}

/// The hard-rock-offsets flag of a catch difficulty-adjust entry.
pub open spec fn hr_offsets_fn() -> spec_fn(GameMod) -> Option<bool> {
    |m: GameMod|
        if m.id == ModId::DifficultyAdjust && m.mode == GameMode::Catch {
            m.hard_rock_offsets
        } else {
            None
        }
}

/// Whether an osu! classic entry suppresses slider-head accuracy; it does
/// unless its flag says otherwise.
pub open spec fn classic_fn() -> spec_fn(GameMod) -> Option<bool> {
    |m: GameMod|
        if m.id == ModId::Classic && m.mode == GameMode::Osu {
            Some(
                match m.no_slider_head_accuracy {
                    Some(b) => b,
                    None => true,
                },
            )
        } else {
            None
        }
}

/// The seed of a taiko or mania random entry.
pub open spec fn seed_fn() -> spec_fn(GameMod) -> Option<i32> {
    |m: GameMod|
        if m.id == ModId::Random && (m.mode == GameMode::Taiko || m.mode == GameMode::Mania) {
            m.seed
        } else {
            None
        }
}

/// The reflection that a mirror direction setting selects: none given means
/// horizontal, `"1"` vertical, `"2"` both, anything else no mirroring.
pub open spec fn mirror_reflection(setting: Option<Seq<char>>) -> Reflection {
    match setting {
        None => Reflection::Horizontal,
        Some(t) => if t == seq!['1'] {
            Reflection::Vertical
        } else if t == seq!['2'] {
            Reflection::Both
        } else {
            Reflection::Neither
        },
    }
}

/// The text of an optional string setting.
pub open spec fn text_of(s: Option<String>) -> Option<Seq<char>> {
    match s {
        Some(t) => Some(t@),
        None => None,
    }
}

/// The reflection an entry implies: osu! hard rock flips vertically, osu!
/// mirror as its setting says, catch mirror horizontally.
pub open spec fn reflection_fn() -> spec_fn(GameMod) -> Option<Reflection> {
    |m: GameMod|
        if m.id == ModId::HardRock && m.mode == GameMode::Osu {
            Some(Reflection::Vertical)
        } else if m.id == ModId::Mirror && m.mode == GameMode::Osu {
            Some(mirror_reflection(text_of(m.reflection)))
        } else if m.id == ModId::Mirror && m.mode == GameMode::Catch {
            Some(Reflection::Horizontal)
        } else {
            None
        }
}

/// The identity of the `k`-keys mania mod, for `1 <= k <= 10`.
pub open spec fn key_mod(k: int) -> ModId {
    if k == 1 {
        ModId::OneKey
    } else if k == 2 {
        ModId::TwoKeys
    } else if k == 3 {
        ModId::ThreeKeys
    } else if k == 4 {
        ModId::FourKeys
    } else if k == 5 {
        ModId::FiveKeys
    } else if k == 6 {
        ModId::SixKeys
    } else if k == 7 {
        ModId::SevenKeys
    } else if k == 8 {
        ModId::EightKeys
    } else if k == 9 {
        ModId::NineKeys
    } else {
        ModId::TenKeys
    }
}

fn key_mod_exec(k: u32) -> (r: ModId)
    requires
        1 <= k <= 10,
    ensures
        r == key_mod(k as int),
{
    if k == 1 {
        ModId::OneKey
    } else if k == 2 {
        ModId::TwoKeys
    } else if k == 3 {
        ModId::ThreeKeys
    } else if k == 4 {
        ModId::FourKeys
    } else if k == 5 {
        ModId::FiveKeys
    } else if k == 6 {
        ModId::SixKeys
    } else if k == 7 {
        ModId::SevenKeys
    } else if k == 8 {
        ModId::EightKeys
    } else if k == 9 {
        ModId::NineKeys
    } else {
        ModId::TenKeys
    }
}

fn rate_of_entry(m: &GameMod) -> (r: Option<F32Bits>)
    ensures
        r == rate_fn()(*m),
{
    if m.id == ModId::DoubleTime || m.id == ModId::HalfTime || m.id == ModId::Nightcore || m.id == ModId::Daycore {
        m.clock_rate
    } else {
        None
    }
}

fn ar_of(m: &GameMod) -> (r: Option<F32Bits>)
    ensures
        r == ar_fn()(*m),
{
    if m.id == ModId::DifficultyAdjust && (m.mode == GameMode::Osu || m.mode == GameMode::Catch) {
        m.approach_rate
    } else {
        None
    }
}

fn cs_of(m: &GameMod) -> (r: Option<F32Bits>)
    ensures
        r == cs_fn()(*m),
{
    if m.id == ModId::DifficultyAdjust && (m.mode == GameMode::Osu || m.mode == GameMode::Catch) {
        m.circle_size
    } else {
        None
    }
}

fn hp_of(m: &GameMod) -> (r: Option<F32Bits>)
    ensures
        r == hp_fn()(*m),
{
    if m.id == ModId::DifficultyAdjust {
        m.drain_rate
    } else {
        None
    }
}

fn od_of(m: &GameMod) -> (r: Option<F32Bits>)
    ensures
        r == od_fn()(*m),
{
    if m.id == ModId::DifficultyAdjust {
        m.overall_difficulty
    } else {
        None
    }
}

fn scroll_of(m: &GameMod) -> (r: Option<Option<F32Bits>>)
    ensures
        r == scroll_fn()(*m),
{
    if m.id == ModId::DifficultyAdjust && m.mode == GameMode::Taiko {
        Some(m.scroll_speed)
    } else {
        None
    }
}

fn seed_of(m: &GameMod) -> (r: Option<i32>)
    ensures
        r == seed_fn()(*m),
{
    if m.id == ModId::Random && (m.mode == GameMode::Taiko || m.mode == GameMode::Mania) {
        m.seed
    } else {
        None
    }
}

fn hr_offsets_of(m: &GameMod) -> (r: Option<bool>)
    ensures
        r == hr_offsets_fn()(*m),
{
    if m.id == ModId::DifficultyAdjust && m.mode == GameMode::Catch {
        m.hard_rock_offsets
    } else {
        None
    }
}

fn classic_of(m: &GameMod) -> (r: Option<bool>)
    ensures
        r == classic_fn()(*m),
{
    if m.id == ModId::Classic && m.mode == GameMode::Osu {
        match m.no_slider_head_accuracy {
            Some(b) => Some(b),
            None => Some(true),
        }
    } else {
        None
    }
}

fn reflection_of(m: &GameMod) -> (r: Option<Reflection>)
    ensures
        r == reflection_fn()(*m),
{
    if m.id == ModId::HardRock && m.mode == GameMode::Osu {
        Some(Reflection::Vertical)
    } else if m.id == ModId::Mirror && m.mode == GameMode::Osu {
        match &m.reflection {
            None => Some(Reflection::Horizontal),
            Some(t) => if is_single_char(t, '1') {
                Some(Reflection::Vertical)
            } else if is_single_char(t, '2') {
                Some(Reflection::Both)
            } else {
                Some(Reflection::Neither)
            },
        }
    } else if m.id == ModId::Mirror && m.mode == GameMode::Catch {
        Some(Reflection::Horizontal)
    } else {
        None
    }
}

/// Whether `s` is exactly the one character `c`.
fn is_single_char(s: &String, c: char) -> (r: bool)
    ensures
        r == (s@ == seq![c]),
{
    let t = s.as_str();
    if t.unicode_len() == 1 {
        let d = t.get_char(0);
        if d == c {
            assert(s@ =~= seq![c]);
            true
        } else {
            false
        }
    } else {
        false
    }
}

/// The first entry of `v` that `f` maps to `Some`, mapped; `sel` states `f`.
fn find_setting<T, F: Fn(&GameMod) -> Option<T>>(
    v: &Vec<GameMod>,
    f: F,
    Ghost(sel): Ghost<spec_fn(GameMod) -> Option<T>>,
) -> (r: Option<T>)
    requires
        forall|m: &GameMod| #[trigger] f.requires((m,)),
        forall|m: &GameMod, x: Option<T>| #[trigger] f.ensures((m,), x) ==> x == sel(*m),
    ensures
        r == find_map(v@, sel),
{
    let mut i: usize = 0;
    assert(v@.subrange(0, v@.len() as int) =~= v@);
    while i < v.len()
        invariant
            0 <= i <= v@.len(),
            forall|m: &GameMod| #[trigger] f.requires((m,)),
            forall|m: &GameMod, x: Option<T>| #[trigger] f.ensures((m,), x) ==> x == sel(*m),
            find_map(v@.subrange(i as int, v@.len() as int), sel) == find_map(v@, sel),
        decreases v@.len() - i,
    {
        proof {
            lemma_find_map_step(v@, i as int, sel);
        }
        let x = f(&v[i]);
        if x.is_some() {
            return x;
        }
        i = i + 1;
    }
    None
}

impl ModsView {
    /// Whether the mods hold identity `id`.
    pub open spec fn has(self, id: ModId) -> bool {
        match self {
            ModsView::Lazer(s) => exists|i: int| 0 <= i < s.len() && (#[trigger] s[i]).id == id,
            ModsView::Intermode(s) => s.contains(id),
            ModsView::Legacy(b) => legacy_holds(b, id),
        }
    }

    /// The custom approach rate, if any.
    pub open spec fn ar(self) -> Option<F32Bits> {
        match self {
            ModsView::Lazer(s) => find_map(s, ar_fn()),
            _ => None,
        }
    }

    /// The custom circle size, if any.
    pub open spec fn cs(self) -> Option<F32Bits> {
        match self {
            ModsView::Lazer(s) => find_map(s, cs_fn()),
            _ => None,
        }
    }

    /// The custom drain rate, if any.
    pub open spec fn hp(self) -> Option<F32Bits> {
        match self {
            ModsView::Lazer(s) => find_map(s, hp_fn()),
            _ => None,
        }
    }

    /// The custom overall difficulty, if any.
    pub open spec fn od(self) -> Option<F32Bits> {
        match self {
            ModsView::Lazer(s) => find_map(s, od_fn()),
            _ => None,
        }
    }

    /// The custom taiko scroll speed, if any.
    pub open spec fn scroll_speed(self) -> Option<F32Bits> {
        match self {
            ModsView::Lazer(s) => match find_map(s, scroll_fn()) {
                Some(x) => x,
                None => None,
            },
            _ => None,
        }
    }

    /// The random seed of taiko or mania, if any.
    pub open spec fn random_seed(self) -> Option<i32> {
        match self {
            ModsView::Lazer(s) => find_map(s, seed_fn()),
            _ => None,
        }
    }

    /// Whether catch hard-rock offsets apply: an explicit flag decides,
    /// else the presence of hard rock.
    pub open spec fn hardrock_offsets(self) -> bool {
        let explicit = match self {
            ModsView::Lazer(s) => find_map(s, hr_offsets_fn()),
            _ => None,
        };
        match explicit {
            Some(b) => b,
            None => self.has(ModId::HardRock),
        }
    }

    /// Whether slider heads are exempt from accuracy; `lazer` tells whether
    /// the score was set on the modern client.
    pub open spec fn no_slider_head_acc(self, lazer: bool) -> bool {
        match self {
            ModsView::Lazer(s) => match find_map(s, classic_fn()) {
                Some(b) => b,
                None => !lazer,
            },
            _ => self.has(ModId::Classic) || !lazer,
        }
    }

    /// The reflection that the mods imply.
    pub open spec fn reflection(self) -> Reflection {
        match self {
            ModsView::Lazer(s) => match find_map(s, reflection_fn()) {
                Some(r) => r,
                None => Reflection::Neither,
            },
            _ => if self.has(ModId::HardRock) {
                Reflection::Vertical
            } else {
                Reflection::Neither
            },
        }
    }

    /// The smallest `k` in `from..=10` whose `k`-keys mod is held.
    pub open spec fn first_keys_from(self, from: int) -> Option<u32>
        decreases 11 - from,
    {
        if from < 1 || from > 10 {
            None
        } else if self.has(key_mod(from)) {
            Some(from as u32)
        } else {
            self.first_keys_from(from + 1)
        }
    }

    /// The forced mania key count: the first of the one- to ten-keys mods
    /// held, in ascending order.
    pub open spec fn mania_keys(self) -> Option<u32> {
        self.first_keys_from(1)
    }

    /// The multiplier of overall difficulty, approach rate and drain rate, in
    /// tenths: hard rock before easy.
    pub open spec fn od_ar_hp_multiplier(self) -> u32 {
        if self.has(ModId::HardRock) {
            14
        } else if self.has(ModId::Easy) {
            5
        } else {
            10
        }
    }

    /// The effective playback rate.
    pub open spec fn clock_rate(self) -> F32Bits {
        match self {
            ModsView::Lazer(s) => match find_map(s, rate_fn()) {
                Some(r) => r,
                None => F32Bits(RATE_NORMAL),
            },
            ModsView::Intermode(s) => legacy_rate(union_bits(s)),
            ModsView::Legacy(b) => legacy_rate(b),
        }
    }
}

impl GameMods {
    /// No mods: the legacy encoding with no bit set.
    pub fn no_mods() -> (r: GameMods)
        ensures
            r@ == ModsView::Legacy(0),
    {
        GameMods::Legacy(0)
    }

    /// The legacy encoding of a raw bitmask; unknown bits are dropped.
    pub fn from_bits(bits: u32) -> (r: GameMods)
        ensures
            r@ == ModsView::Legacy(bits & LEGACY_MASK),
    {
        GameMods::Legacy(legacy_from_bits(bits))
    }

    /// A modern collection, wrapped as it is.
    pub fn from_lazer(mods: Vec<GameMod>) -> (r: GameMods)
        ensures
            r@ == ModsView::Lazer(mods@),
    {
        GameMods::Lazer(mods)
    }

    /// An identity set, wrapped as it is.
    pub fn from_intermode(mods: Vec<ModId>) -> (r: GameMods)
        ensures
            r@ == ModsView::Intermode(mods@),
    {
        GameMods::Intermode(mods)
    }

    /// An identity set by reference: its legacy bit pattern where every
    /// identity has one, else a copy of the set.
    pub fn from_intermode_ref(mods: &Vec<ModId>) -> (r: GameMods)
        ensures
            r@ == downgrade(mods@),
    {
        match checked_legacy_union(mods) {
            Some(bits) => GameMods::Legacy(bits),
            None => {
                let mut copy: Vec<ModId> = Vec::new();
                let mut i: usize = 0;
                while i < mods.len()
                    invariant
                        0 <= i <= mods@.len(),
                        copy@ == mods@.take(i as int),
                    decreases mods@.len() - i,
                {
                    copy.push(mods[i]);
                    assert(copy@ =~= mods@.take(i as int + 1));
                    i = i + 1;
                }
                assert(mods@.take(mods@.len() as int) =~= mods@);
                GameMods::Intermode(copy)
            },
        }
    }

    /// Whether the mods hold identity `id`.
    pub fn has(&self, id: ModId) -> (r: bool)
        ensures
            r == self@.has(id),
    {
        match self {
            GameMods::Lazer(v) => {
                let mut i: usize = 0;
                while i < v.len()
                    invariant
                        0 <= i <= v@.len(),
                        self@ == ModsView::Lazer(v@),
                        forall|j: int| 0 <= j < i ==> (#[trigger] v@[j]).id != id,
                    decreases v@.len() - i,
                {
                    if v[i].id == id {
                        return true;
                    }
                    i = i + 1;
                }
                false
            },
            GameMods::Intermode(v) => {
                let mut i: usize = 0;
                while i < v.len()
                    invariant
                        0 <= i <= v@.len(),
                        self@ == ModsView::Intermode(v@),
                        forall|j: int| 0 <= j < i ==> v@[j] != id,
                    decreases v@.len() - i,
                {
                    if v[i] == id {
                        assert(v@[i as int] == id);
                        return true;
                    }
                    i = i + 1;
                }
                false
            },
            GameMods::Legacy(b) => match id.legacy_bits() {
                Some(f) => *b & f == f,
                None => false,
            },
        }
    }

    /// The effective playback rate: the first speed-changing entry with a
    /// rate decides for modern entries; identities and legacy bits map to the
    /// nominal rate of double time or half time.
    pub fn clock_rate(&self) -> (r: F32Bits)
        ensures
            r == self@.clock_rate(),
    {
        match self {
            GameMods::Lazer(v) => match find_setting(v, rate_of_entry, Ghost(rate_fn())) {
                Some(r) => r,
                None => F32Bits(RATE_NORMAL),
            },
            GameMods::Intermode(v) => legacy_rate_exec(legacy_union(v)),
            GameMods::Legacy(b) => legacy_rate_exec(*b),
        }
    }
    /// The custom approach rate of an osu! or catch difficulty-adjust entry.
    pub fn ar(&self) -> (r: Option<F32Bits>)
        ensures
            r == self@.ar(),
    {
        match self {
            GameMods::Lazer(v) => find_setting(
                v,
                ar_of,
                Ghost(ar_fn()),
            ),
            _ => None,
        }
    }

    /// The custom circle size of an osu! or catch difficulty-adjust entry.
    pub fn cs(&self) -> (r: Option<F32Bits>)
        ensures
            r == self@.cs(),
    {
        match self {
            GameMods::Lazer(v) => find_setting(
                v,
                cs_of,
                Ghost(cs_fn()),
            ),
            _ => None,
        }
    }

    /// The custom drain rate of a difficulty-adjust entry.
    pub fn hp(&self) -> (r: Option<F32Bits>)
        ensures
            r == self@.hp(),
    {
        match self {
            GameMods::Lazer(v) => find_setting(
                v,
                hp_of,
                Ghost(hp_fn()),
            ),
            _ => None,
        }
    }

    /// The custom overall difficulty of a difficulty-adjust entry.
    pub fn od(&self) -> (r: Option<F32Bits>)
        ensures
            r == self@.od(),
    {
        match self {
            GameMods::Lazer(v) => find_setting(
                v,
                od_of,
                Ghost(od_fn()),
            ),
            _ => None,
        }
    }

    /// The custom scroll speed of the first taiko difficulty-adjust entry.
    pub fn scroll_speed(&self) -> (r: Option<F32Bits>)
        ensures
            r == self@.scroll_speed(),
    {
        match self {
            GameMods::Lazer(v) => {
                let found = find_setting(
                    v,
                    scroll_of,
                    Ghost(scroll_fn()),
                );
                match found {
                    Some(x) => x,
                    None => None,
                }
            },
            _ => None,
        }
    }

    /// The seed of a taiko or mania random entry.
    pub fn random_seed(&self) -> (r: Option<i32>)
        ensures
            r == self@.random_seed(),
    {
        match self {
            GameMods::Lazer(v) => find_setting(
                v,
                seed_of,
                Ghost(seed_fn()),
            ),
            _ => None,
        }
    }

    /// Whether catch hard-rock offsets apply.
    pub fn hardrock_offsets(&self) -> (r: bool)
        ensures
            r == self@.hardrock_offsets(),
    {
        let explicit = match self {
            GameMods::Lazer(v) => find_setting(
                v,
                hr_offsets_of,
                Ghost(hr_offsets_fn()),
            ),
            _ => None,
        };
        match explicit {
            Some(b) => b,
            None => self.hr(),
        }
    }

    /// Whether slider heads are exempt from accuracy; `lazer` tells whether
    /// the score was set on the modern client.
    pub fn no_slider_head_acc(&self, lazer: bool) -> (r: bool)
        ensures
            r == self@.no_slider_head_acc(lazer),
    {
        match self {
            GameMods::Lazer(v) => {
                let found = find_setting(
                    v,
                    classic_of,
                    Ghost(classic_fn()),
                );
                match found {
                    Some(b) => b,
                    None => !lazer,
                }
            },
            _ => self.cl() || !lazer,
        }
    }

    /// The reflection that the mods imply.
    pub fn reflection(&self) -> (r: Reflection)
        ensures
            r == self@.reflection(),
    {
        match self {
            GameMods::Lazer(v) => {
                let found = find_setting(
                    v,
                    reflection_of,
                    Ghost(reflection_fn()),
                );
                match found {
                    Some(r) => r,
                    None => Reflection::Neither,
                }
            },
            _ => if self.hr() {
                Reflection::Vertical
            } else {
                Reflection::Neither
            },
        }
    }

    /// The forced mania key count: the first of the one- to ten-keys mods
    /// held, scanning upwards from one.
    pub fn mania_keys(&self) -> (r: Option<u32>)
        ensures
            r == self@.mania_keys(),
    {
        let mut k: u32 = 1;
        while k <= 10
            invariant
                1 <= k <= 11,
                self@.first_keys_from(k as int) == self@.mania_keys(),
            decreases 11 - k,
        {
            if self.has(key_mod_exec(k)) {
                return Some(k);
            }
            k = k + 1;
        }
        None
    }

    /// The multiplier of overall difficulty, approach rate and drain rate, in
    /// tenths: 14 with hard rock, else 5 with easy, else 10.
    pub fn od_ar_hp_multiplier(&self) -> (r: u32)
        ensures
            r == self@.od_ar_hp_multiplier(),
    {
        if self.hr() {
            14
        } else if self.ez() {
            5
        } else {
            10
        }
    }

    /// Whether the mods hold no fail.
    pub fn nf(&self) -> (r: bool)
        ensures
            r == self@.has(ModId::NoFail),
    {
        self.has(ModId::NoFail)
    }

    /// Whether the mods hold easy.
    pub fn ez(&self) -> (r: bool)
        ensures
            r == self@.has(ModId::Easy),
    {
        self.has(ModId::Easy)
    }

    /// Whether the mods hold touch device.
    pub fn td(&self) -> (r: bool)
        ensures
            r == self@.has(ModId::TouchDevice),
    {
        self.has(ModId::TouchDevice)
    }

    /// Whether the mods hold hidden.
    pub fn hd(&self) -> (r: bool)
        ensures
            r == self@.has(ModId::Hidden),
    {
        self.has(ModId::Hidden)
    }

    /// Whether the mods hold hard rock.
    pub fn hr(&self) -> (r: bool)
        ensures
            r == self@.has(ModId::HardRock),
    {
        self.has(ModId::HardRock)
    }

    /// Whether the mods hold relax.
    pub fn rx(&self) -> (r: bool)
        ensures
            r == self@.has(ModId::Relax),
    {
        self.has(ModId::Relax)
    }

    /// Whether the mods hold flashlight.
    pub fn fl(&self) -> (r: bool)
        ensures
            r == self@.has(ModId::Flashlight),
    {
        self.has(ModId::Flashlight)
    }

    /// Whether the mods hold spun out.
    pub fn so(&self) -> (r: bool)
        ensures
            r == self@.has(ModId::SpunOut),
    {
        self.has(ModId::SpunOut)
    }

    /// Whether the mods hold autopilot.
    pub fn ap(&self) -> (r: bool)
        ensures
            r == self@.has(ModId::Autopilot),
    {
        self.has(ModId::Autopilot)
    }

    /// Whether the mods hold blinds.
    pub fn bl(&self) -> (r: bool)
        ensures
            r == self@.has(ModId::Blinds),
    {
        self.has(ModId::Blinds)
    }

    /// Whether the mods hold classic.
    pub fn cl(&self) -> (r: bool)
        ensures
            r == self@.has(ModId::Classic),
    {
        self.has(ModId::Classic)
    }

    /// Whether the mods hold invert.
    pub fn invert(&self) -> (r: bool)
        ensures
            r == self@.has(ModId::Invert),
    {
        self.has(ModId::Invert)
    }

    /// Whether the mods hold hold off.
    pub fn ho(&self) -> (r: bool)
        ensures
            r == self@.has(ModId::HoldOff),
    {
        self.has(ModId::HoldOff)
    }

    /// Whether the mods hold traceable.
    pub fn tc(&self) -> (r: bool)
        ensures
            r == self@.has(ModId::Traceable),
    {
        self.has(ModId::Traceable)
    }
}

impl Default for GameMods {
    /// No mods.
    fn default() -> (r: GameMods)
        ensures
            r@ == ModsView::Legacy(0),
    {
        GameMods::no_mods()
    }
}

impl From<u32> for GameMods {
    fn from(bits: u32) -> (r: GameMods) {
        GameMods::from_bits(bits)
    }
}

impl vstd::std_specs::convert::FromSpecImpl<u32> for GameMods {
    open spec fn obeys_from_spec() -> bool {
        true
    }

    open spec fn from_spec(bits: u32) -> GameMods {
        GameMods::Legacy(bits & LEGACY_MASK)
    }
}

impl From<Vec<GameMod>> for GameMods {
    fn from(mods: Vec<GameMod>) -> (r: GameMods) {
        GameMods::Lazer(mods)
    }
}

impl vstd::std_specs::convert::FromSpecImpl<Vec<GameMod>> for GameMods {
    open spec fn obeys_from_spec() -> bool {
        true
    }

    open spec fn from_spec(mods: Vec<GameMod>) -> GameMods {
        GameMods::Lazer(mods)
    }
}

impl From<Vec<ModId>> for GameMods {
    fn from(mods: Vec<ModId>) -> (r: GameMods) {
        GameMods::Intermode(mods)
    }
}

impl vstd::std_specs::convert::FromSpecImpl<Vec<ModId>> for GameMods {
    open spec fn obeys_from_spec() -> bool {
        true
    }

    open spec fn from_spec(mods: Vec<ModId>) -> GameMods {
        GameMods::Intermode(mods)
    }
}

} // verus!
