use akatsuki_mods::{F32Bits, GameMod, GameMode, GameMods, ModId, Reflection};

fn bits(x: f32) -> F32Bits {
    F32Bits(x.to_bits())
}

fn entry(id: ModId, mode: GameMode) -> GameMod {
    GameMod::new(id, mode)
}

fn lazer(entries: Vec<GameMod>) -> GameMods {
    GameMods::from_lazer(entries)
}

#[test]
fn bitmask_hard_rock_follows_bit() {
    assert!(GameMods::from_bits(16).hr());
    assert!(GameMods::from_bits(8 + 16 + 64).hr());
    assert!(!GameMods::from_bits(8 + 64).hr());
    assert!(GameMods::from_bits(16 | 0xc000_0000).hr());
    assert!(!GameMods::from_bits(0).hr());
}

#[test]
fn bitmask_drops_unknown_bits() {
    assert_eq!(GameMods::from_bits(u32::MAX), GameMods::Legacy(0x3fff_ffff));
    assert_eq!(GameMods::from_bits(1 << 30), GameMods::Legacy(0));
    assert_eq!(GameMods::from(24u32), GameMods::Legacy(24));
}

#[test]
fn default_is_no_mods() {
    let m = GameMods::default();
    assert_eq!(m, GameMods::no_mods());
    assert!(!m.nf() && !m.ez() && !m.td() && !m.hd() && !m.hr() && !m.rx() && !m.fl());
    assert!(!m.so() && !m.ap() && !m.bl() && !m.cl() && !m.invert() && !m.ho() && !m.tc());
    assert_eq!(m.clock_rate(), bits(1.0));
    assert_eq!(m.od_ar_hp_multiplier(), 10);
    assert_eq!(m.ar(), None);
    assert_eq!(m.cs(), None);
    assert_eq!(m.hp(), None);
    assert_eq!(m.od(), None);
    assert_eq!(m.scroll_speed(), None);
    assert_eq!(m.random_seed(), None);
    assert_eq!(m.mania_keys(), None);
    assert_eq!(m.reflection(), Reflection::Neither);
    assert!(!m.hardrock_offsets());
    assert!(!m.no_slider_head_acc(true));
    assert!(m.no_slider_head_acc(false));
}

fn same_answers(a: &GameMods, b: &GameMods) {
    for lazer in [false, true] {
        assert_eq!(a.no_slider_head_acc(lazer), b.no_slider_head_acc(lazer));
    }
    assert_eq!(a.clock_rate(), b.clock_rate());
    assert_eq!(a.od_ar_hp_multiplier(), b.od_ar_hp_multiplier());
    assert_eq!(a.mania_keys(), b.mania_keys());
    assert_eq!(a.reflection(), b.reflection());
    assert_eq!(a.hardrock_offsets(), b.hardrock_offsets());
    assert_eq!(a.nf(), b.nf());
    assert_eq!(a.ez(), b.ez());
    assert_eq!(a.hd(), b.hd());
    assert_eq!(a.hr(), b.hr());
    assert_eq!(a.fl(), b.fl());
    assert_eq!(a.cl(), b.cl());
}

#[test]
fn borrowed_legacy_set_matches_bitmask() {
    let set = vec![ModId::HardRock, ModId::DoubleTime, ModId::Hidden];
    let borrowed = GameMods::from_intermode_ref(&set);
    assert_eq!(borrowed, GameMods::Legacy(8 + 16 + 64));
    let from_bits = GameMods::from_bits(8 + 16 + 64);
    same_answers(&borrowed, &from_bits);
    same_answers(&borrowed, &GameMods::from_intermode(set));
}

#[test]
fn borrowed_set_with_mirror_keeps_answers() {
    let set = vec![ModId::Mirror, ModId::FourKeys, ModId::Nightcore];
    let borrowed = GameMods::from_intermode_ref(&set);
    assert_eq!(borrowed, GameMods::Legacy((1 << 30) + 32768 + 576));
    let from_bits = GameMods::from_bits((1 << 30) + 32768 + 576);
    assert_eq!(from_bits, GameMods::Legacy(32768 + 576));
    same_answers(&borrowed, &from_bits);
    assert_eq!(borrowed.mania_keys(), Some(4));
    assert_eq!(borrowed.clock_rate(), bits(1.5));
}

#[test]
fn borrowed_modern_set_is_copied() {
    let set = vec![ModId::HardRock, ModId::Classic];
    let borrowed = GameMods::from_intermode_ref(&set);
    assert_eq!(borrowed, GameMods::Intermode(set.clone()));
    assert!(borrowed.cl());
    assert!(borrowed.hr());
}

#[test]
fn hard_rock_beats_easy() {
    assert_eq!(GameMods::from_bits(2 + 16).od_ar_hp_multiplier(), 14);
    assert_eq!(GameMods::from_intermode(vec![ModId::Easy, ModId::HardRock]).od_ar_hp_multiplier(), 14);
    let both = lazer(vec![entry(ModId::Easy, GameMode::Osu), entry(ModId::HardRock, GameMode::Osu)]);
    assert_eq!(both.od_ar_hp_multiplier(), 14);
    assert_eq!(GameMods::from_bits(2).od_ar_hp_multiplier(), 5);
    assert_eq!(GameMods::from_bits(8).od_ar_hp_multiplier(), 10);
}

#[test]
fn mania_keys_ascending_scan() {
    assert_eq!(lazer(vec![entry(ModId::FourKeys, GameMode::Mania)]).mania_keys(), Some(4));
    let two = lazer(vec![entry(ModId::FiveKeys, GameMode::Mania), entry(ModId::FourKeys, GameMode::Mania)]);
    assert_eq!(two.mania_keys(), Some(4));
    assert_eq!(lazer(vec![entry(ModId::TenKeys, GameMode::Mania)]).mania_keys(), Some(10));
    assert_eq!(lazer(vec![entry(ModId::Hidden, GameMode::Mania)]).mania_keys(), None);
    assert_eq!(GameMods::from_intermode(vec![ModId::TenKeys, ModId::OneKey]).mania_keys(), Some(1));
    assert_eq!(GameMods::from_bits(1 << 24).mania_keys(), Some(9));
    assert_eq!(GameMods::from_bits((1 << 28) | (1 << 27)).mania_keys(), Some(2));
}

fn mirror_osu(setting: Option<&str>) -> GameMods {
    let mut m = entry(ModId::Mirror, GameMode::Osu);
    m.reflection = setting.map(String::from);
    lazer(vec![m])
}

#[test]
fn reflection_from_mirror_setting() {
    assert_eq!(mirror_osu(Some("2")).reflection(), Reflection::Both);
    assert_eq!(mirror_osu(Some("1")).reflection(), Reflection::Vertical);
    assert_eq!(mirror_osu(None).reflection(), Reflection::Horizontal);
    assert_eq!(mirror_osu(Some("3")).reflection(), Reflection::Neither);
    assert_eq!(mirror_osu(Some("12")).reflection(), Reflection::Neither);
    assert_eq!(lazer(vec![]).reflection(), Reflection::Neither);
    assert_eq!(lazer(vec![entry(ModId::Hidden, GameMode::Osu)]).reflection(), Reflection::Neither);
}

#[test]
fn reflection_of_other_entries() {
    assert_eq!(lazer(vec![entry(ModId::HardRock, GameMode::Osu)]).reflection(), Reflection::Vertical);
    assert_eq!(lazer(vec![entry(ModId::HardRock, GameMode::Taiko)]).reflection(), Reflection::Neither);
    assert_eq!(lazer(vec![entry(ModId::Mirror, GameMode::Catch)]).reflection(), Reflection::Horizontal);
    assert_eq!(GameMods::from_bits(16).reflection(), Reflection::Vertical);
    assert_eq!(GameMods::from_intermode(vec![ModId::HardRock]).reflection(), Reflection::Vertical);
    assert_eq!(GameMods::from_intermode(vec![ModId::Mirror]).reflection(), Reflection::Neither);
}

#[test]
fn legacy_never_holds_modern_only() {
    for b in [0u32, u32::MAX, 0x3fff_ffff, 1 << 30, 0x5555_5555] {
        let m = GameMods::Legacy(b);
        assert!(!m.bl() && !m.cl() && !m.invert() && !m.ho() && !m.tc());
    }
}

#[test]
fn clock_rate_of_modern_entries() {
    let mut dt = entry(ModId::DoubleTime, GameMode::Osu);
    dt.clock_rate = Some(bits(1.2));
    assert_eq!(lazer(vec![dt.clone()]).clock_rate(), bits(1.2));
    let bare = entry(ModId::HalfTime, GameMode::Osu);
    let mut nc = entry(ModId::Nightcore, GameMode::Osu);
    nc.clock_rate = Some(bits(1.3));
    assert_eq!(lazer(vec![bare.clone(), nc]).clock_rate(), bits(1.3));
    assert_eq!(lazer(vec![bare]).clock_rate(), bits(1.0));
    let mut wu = entry(ModId::WindUp, GameMode::Osu);
    wu.clock_rate = Some(bits(2.0));
    assert_eq!(lazer(vec![wu, dt]).clock_rate(), bits(1.2));
    let mut dc = entry(ModId::Daycore, GameMode::Mania);
    dc.clock_rate = Some(bits(0.75));
    assert_eq!(lazer(vec![dc]).clock_rate(), bits(0.75));
}

#[test]
fn clock_rate_of_legacy_and_identities() {
    assert_eq!(GameMods::from_bits(64).clock_rate(), bits(1.5));
    assert_eq!(GameMods::from_bits(576).clock_rate(), bits(1.5));
    assert_eq!(GameMods::from_bits(256).clock_rate(), bits(0.75));
    assert_eq!(GameMods::from_bits(64 + 256).clock_rate(), bits(1.5));
    assert_eq!(GameMods::from_bits(8).clock_rate(), bits(1.0));
    assert_eq!(GameMods::from_intermode(vec![ModId::Nightcore]).clock_rate(), bits(1.5));
    assert_eq!(GameMods::from_intermode(vec![ModId::HalfTime]).clock_rate(), bits(0.75));
    assert_eq!(GameMods::from_intermode(vec![ModId::Daycore]).clock_rate(), bits(1.0));
}

#[test]
fn difficulty_overrides_by_mode() {
    let mut osu = entry(ModId::DifficultyAdjust, GameMode::Osu);
    osu.approach_rate = Some(bits(9.5));
    osu.circle_size = Some(bits(4.0));
    osu.drain_rate = Some(bits(5.0));
    osu.overall_difficulty = Some(bits(8.0));
    let m = lazer(vec![osu]);
    assert_eq!(m.ar(), Some(bits(9.5)));
    assert_eq!(m.cs(), Some(bits(4.0)));
    assert_eq!(m.hp(), Some(bits(5.0)));
    assert_eq!(m.od(), Some(bits(8.0)));

    let mut taiko = entry(ModId::DifficultyAdjust, GameMode::Taiko);
    taiko.approach_rate = Some(bits(9.5));
    taiko.overall_difficulty = Some(bits(6.0));
    let m = lazer(vec![taiko]);
    assert_eq!(m.ar(), None);
    assert_eq!(m.od(), Some(bits(6.0)));

    let mut first = entry(ModId::DifficultyAdjust, GameMode::Catch);
    first.drain_rate = None;
    let mut second = entry(ModId::DifficultyAdjust, GameMode::Mania);
    second.drain_rate = Some(bits(3.0));
    assert_eq!(lazer(vec![first, second]).hp(), Some(bits(3.0)));
    assert_eq!(GameMods::from_intermode(vec![ModId::DifficultyAdjust]).ar(), None);
}

#[test]
fn scroll_speed_of_first_taiko_entry() {
    let mut a = entry(ModId::DifficultyAdjust, GameMode::Taiko);
    a.scroll_speed = Some(bits(1.25));
    assert_eq!(lazer(vec![a.clone()]).scroll_speed(), Some(bits(1.25)));
    let unset = entry(ModId::DifficultyAdjust, GameMode::Taiko);
    assert_eq!(lazer(vec![unset, a.clone()]).scroll_speed(), None);
    let mut osu = entry(ModId::DifficultyAdjust, GameMode::Osu);
    osu.scroll_speed = Some(bits(2.0));
    assert_eq!(lazer(vec![osu, a]).scroll_speed(), Some(bits(1.25)));
    assert_eq!(GameMods::from_bits(0).scroll_speed(), None);
}

#[test]
fn random_seed_of_taiko_and_mania() {
    let mut mania = entry(ModId::Random, GameMode::Mania);
    mania.seed = Some(42);
    assert_eq!(lazer(vec![mania]).random_seed(), Some(42));
    let mut osu = entry(ModId::Random, GameMode::Osu);
    osu.seed = Some(7);
    assert_eq!(lazer(vec![osu]).random_seed(), None);
    assert_eq!(GameMods::from_bits(1 << 21).random_seed(), None);
}

#[test]
fn hardrock_offsets_explicit_or_hard_rock() {
    let mut da = entry(ModId::DifficultyAdjust, GameMode::Catch);
    da.hard_rock_offsets = Some(false);
    assert!(!lazer(vec![entry(ModId::HardRock, GameMode::Catch), da.clone()]).hardrock_offsets());
    da.hard_rock_offsets = Some(true);
    assert!(lazer(vec![da]).hardrock_offsets());
    assert!(lazer(vec![entry(ModId::HardRock, GameMode::Catch)]).hardrock_offsets());
    assert!(GameMods::from_bits(16).hardrock_offsets());
    assert!(!GameMods::from_intermode(vec![ModId::Easy]).hardrock_offsets());
}

#[test]
fn slider_head_accuracy_rules() {
    let classic = entry(ModId::Classic, GameMode::Osu);
    assert!(lazer(vec![classic.clone()]).no_slider_head_acc(true));
    let mut off = classic;
    off.no_slider_head_accuracy = Some(false);
    assert!(!lazer(vec![off]).no_slider_head_acc(false));
    assert!(!lazer(vec![]).no_slider_head_acc(true));
    assert!(lazer(vec![]).no_slider_head_acc(false));
    assert!(!lazer(vec![entry(ModId::Classic, GameMode::Taiko)]).no_slider_head_acc(true));
    assert!(GameMods::from_intermode(vec![ModId::Classic]).no_slider_head_acc(true));
    assert!(!GameMods::from_intermode(vec![ModId::Hidden]).no_slider_head_acc(true));
    assert!(!GameMods::from_bits(8).no_slider_head_acc(true));
    assert!(GameMods::from_bits(8).no_slider_head_acc(false));
}

#[test]
fn presence_across_encodings() {
    assert!(GameMods::from_bits(1 + 4 + 128 + 1024 + 4096 + 8192).nf());
    let m = GameMods::from_bits(1 + 4 + 128 + 1024 + 4096 + 8192);
    assert!(m.td() && m.rx() && m.fl() && m.so() && m.ap() && !m.hd());
    let i = GameMods::from_intermode(vec![ModId::Blinds, ModId::Traceable]);
    assert!(i.bl() && i.tc() && !i.ho() && !i.invert());
    let l = lazer(vec![entry(ModId::HoldOff, GameMode::Mania), entry(ModId::Invert, GameMode::Mania)]);
    assert!(l.ho() && l.invert() && !l.bl());
    assert!(l.has(ModId::HoldOff));
}

#[test]
fn legacy_bits_of_identities() {
    assert_eq!(ModId::Nightcore.legacy_bits(), Some(576));
    assert_eq!(ModId::Perfect.legacy_bits(), Some(16416));
    assert_eq!(ModId::Mirror.legacy_bits(), Some(1 << 30));
    assert_eq!(ModId::Classic.legacy_bits(), None);
    assert_eq!(akatsuki_mods::ids::legacy_union(&vec![ModId::Hidden, ModId::Classic, ModId::HardRock]), 24);
    assert_eq!(akatsuki_mods::ids::checked_legacy_union(&vec![ModId::Hidden, ModId::Classic]), None);
    assert_eq!(akatsuki_mods::ids::checked_legacy_union(&vec![]), Some(0));
}
