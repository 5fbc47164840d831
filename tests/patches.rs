use soulstas::barrier::FrameBarrier;
use soulstas::fps::{apply_fps_override, FpsOverride, RECORD_LEN};
use soulstas::gamepad::VirtualGamepad;
use soulstas::games::{
    capabilities, ds1r_playerctrl_offset, ds2_cutscene_movie_offset, export_module, export_name,
    flag_control, flag_cutscene, flag_save_active, needs_soulmods, select_game, Arch, Game,
    IpcSymbol, PatchModule, StatusReadings, Version,
};
use soulstas::input::{GamepadButton, InputType};
use soulstas::session::{CellWrite, GameSession, GamepadSlot, TargetCells};

#[test]
fn barrier_alternates_clear_and_set() {
    let mut b = FrameBarrier::new();
    b.set_enabled(true);
    let mut writes: Vec<bool> = Vec::new();
    // The target is first held at its boundary.
    assert!(b.enter_tick());
    writes.push(b.frame_running);
    let mut releases = 0;
    for _ in 0..5 {
        assert!(b.is_frame_complete());
        b.advance_one_frame();
        writes.push(b.frame_running);
        assert!(!b.is_frame_complete());
        if b.may_resume() {
            releases += 1;
        }
        assert!(b.enter_tick());
        writes.push(b.frame_running);
        assert!(!b.may_resume());
    }
    assert_eq!(releases, 5);
    assert_eq!(writes, vec![false, true, false, true, false, true, false, true, false, true, false]);
    b.set_enabled(false);
    assert!(b.may_resume());
    assert!(!b.enter_tick());
}

fn record_with_index(i: u32) -> Vec<u8> {
    let mut r: Vec<u8> = (0..RECORD_LEN as u32).map(|k| (k as u8).wrapping_mul(7)).collect();
    r[12..16].copy_from_slice(&i.to_le_bytes());
    r
}

fn u32_at(r: &[u8], off: usize) -> u32 {
    u32::from_le_bytes([r[off], r[off + 1], r[off + 2], r[off + 3]])
}

fn sample_override() -> FpsOverride {
    let d: f32 = 1.0 / 30.0;
    let third = d / 3.0;
    FpsOverride {
        deltatime: d.to_bits(),
        third: third.to_bits(),
        two_thirds: (third * 2.0).to_bits(),
        fps: (1.0 / d).to_bits(),
        timestamp: 123_456_789,
        performance_frequency: 10_000_000,
    }
}

#[test]
fn fps_override_rotates_the_empty_slot() {
    let v = sample_override();
    let mut rec = record_with_index(0);
    let before = rec.clone();
    let mut zero_slots = Vec::new();
    for _ in 0..6 {
        apply_fps_override(&mut rec, &v);
        let slots: Vec<u32> = (0..3).map(|k| u32_at(&rec, 4 * k)).collect();
        let zero: Vec<usize> = (0..3).filter(|&k| slots[k] == 0).collect();
        assert_eq!(zero.len(), 1);
        assert_eq!(u32_at(&rec, 12) as usize, zero[0]);
        let sum: f32 = slots.iter().map(|b| f32::from_bits(*b)).sum();
        assert!((sum - f32::from_bits(v.deltatime)).abs() < 1e-6);
        zero_slots.push(zero[0]);
    }
    assert_eq!(zero_slots, vec![2, 1, 0, 2, 1, 0]);
    assert_eq!(u32_at(&rec, 0x10), 999);
    assert_eq!(u32_at(&rec, 0x30), v.deltatime);
    assert_eq!(u32_at(&rec, 0x34), v.deltatime);
    assert_eq!(u32_at(&rec, 0x48), v.fps);
    assert_eq!(f32::from_bits(u32_at(&rec, 0x54)), -0.1);
    assert_eq!(u32_at(&rec, 0x58), 20);
    assert_eq!(rec[0x50], 1);
    assert_eq!(rec[0x51], 0);
    assert_eq!(&rec[0x18..0x20], &123_456_789i64.to_le_bytes());
    assert_eq!(&rec[0x40..0x48], &123_456_789i64.to_le_bytes());
    assert_eq!(&rec[0x20..0x28], &10_000_000i64.to_le_bytes());
    assert_eq!(&rec[0x38..0x40], &[0u8; 8]);
    // Fields the override does not know keep their bytes.
    assert_eq!(&rec[0x14..0x18], &before[0x14..0x18]);
    assert_eq!(&rec[0x28..0x30], &before[0x28..0x30]);
    assert_eq!(&rec[0x52..0x54], &before[0x52..0x54]);
}

#[test]
fn fps_override_out_of_range_index_counts_as_zero() {
    let v = sample_override();
    let mut rec = record_with_index(7);
    apply_fps_override(&mut rec, &v);
    assert_eq!(u32_at(&rec, 12), 2);
    assert_eq!(u32_at(&rec, 0), v.two_thirds);
    assert_eq!(u32_at(&rec, 4), v.third);
    assert_eq!(u32_at(&rec, 8), 0);
}

fn apply(c: &mut TargetCells, ws: &[CellWrite]) {
    for w in ws {
        match *w {
            CellWrite::FrameAdvanceEnabled(b) => c.frame_advance_enabled = b,
            CellWrite::FrameRunning(b) => c.frame_running = b,
            CellWrite::FpsPatchEnabled(b) => c.fps_patch_enabled = b,
            CellWrite::FpsLimit(v) => c.fps_limit = v,
            CellWrite::XinputPatchEnabled(b) => c.xinput_patch_enabled = b,
            CellWrite::XinputState(p) => c.xinput_state = p,
            CellWrite::GamepadIndex(i) => c.gamepad.index = i,
            CellWrite::GamepadFlags(f) => c.gamepad.flags = f,
        }
    }
}

#[test]
fn gamepad_slot_round_trip() {
    for game in [Game::DarkSouls3, Game::Sekiro, Game::DarkSouls1Remastered, Game::NightReign] {
        let saved = GamepadSlot { index: 1, flags: 0xdead_beef };
        let mut cells = TargetCells {
            frame_advance_enabled: false,
            frame_running: false,
            fps_patch_enabled: false,
            fps_limit: 0,
            xinput_patch_enabled: false,
            xinput_state: VirtualGamepad::new(),
            gamepad: saved,
        };
        let (session, start) = GameSession::script_start(game, cells.gamepad);
        apply(&mut cells, &start);
        assert!(cells.frame_advance_enabled);
        let mut pad = VirtualGamepad::new();
        for f in 0..50u32 {
            if f % 7 == 0 {
                pad.send_gamepad_button(GamepadButton::A, InputType::Down);
            }
            apply(&mut cells, &session.frame_end(&pad));
            apply(&mut cells, &session.set_fps(f));
            apply(&mut cells, &session.frame_next());
        }
        if capabilities(game).gamepad_slot {
            assert_eq!(cells.gamepad, GamepadSlot { index: 999, flags: 795 });
        }
        apply(&mut cells, &session.script_end());
        assert_eq!(cells.gamepad, saved);
        assert!(!cells.frame_advance_enabled);
        assert!(!cells.fps_patch_enabled);
        assert!(!cells.xinput_patch_enabled);
    }
}

#[test]
fn start_and_end_writes_follow_capabilities() {
    let (s, start) = GameSession::script_start(Game::ArmoredCore6, GamepadSlot { index: 0, flags: 0 });
    assert_eq!(
        start,
        vec![
            CellWrite::FrameAdvanceEnabled(true),
            CellWrite::FpsPatchEnabled(true),
            CellWrite::FpsLimit(0)
        ]
    );
    assert!(s.frame_end(&VirtualGamepad::new()).is_empty());
    let (s, _) = GameSession::script_start(Game::DarkSouls1, GamepadSlot { index: 3, flags: 4 });
    assert!(s.set_fps(5).is_empty());
    assert_eq!(
        s.script_end(),
        vec![
            CellWrite::FrameAdvanceEnabled(false),
            CellWrite::XinputPatchEnabled(false),
            CellWrite::GamepadIndex(3),
            CellWrite::GamepadFlags(4)
        ]
    );
}

#[test]
fn game_selection() {
    assert_eq!(select_game("DSR", Arch::X64), Some(Game::DarkSouls1Remastered));
    assert_eq!(select_game("Sotfs", Arch::X64), Some(Game::DarkSouls2Sotfs));
    assert_eq!(select_game("ac6", Arch::X64), Some(Game::ArmoredCore6));
    assert_eq!(select_game("NR", Arch::X64), Some(Game::NightReign));
    assert_eq!(select_game("ds1", Arch::X64), None);
    assert_eq!(select_game("PTDE", Arch::X86), Some(Game::DarkSouls1));
    assert_eq!(select_game("ds2", Arch::X86), Some(Game::DarkSouls2));
    assert_eq!(select_game("ds3", Arch::X86), None);
    assert_eq!(select_game("bloodborne", Arch::X64), None);
}

#[test]
fn export_names_and_modules() {
    assert_eq!(export_name(Game::DarkSouls3, IpcSymbol::FrameRunning), "DS3_FRAME_RUNNING");
    assert_eq!(
        export_name(Game::DarkSouls2Sotfs, IpcSymbol::FpsCustomLimit),
        "DS2SOTFS_FPS_CUSTOM_LIMIT"
    );
    assert_eq!(export_name(Game::NightReign, IpcSymbol::XinputState), "NR_XINPUT_STATE");
    assert_eq!(export_module(Game::DarkSouls3, IpcSymbol::FrameAdvanceEnabled), PatchModule::Soulmods);
    assert_eq!(export_module(Game::DarkSouls3, IpcSymbol::XinputState), PatchModule::SoulstasPatches);
    assert_eq!(export_module(Game::Sekiro, IpcSymbol::FpsPatchEnabled), PatchModule::Soulmods);
    assert_eq!(export_module(Game::Sekiro, IpcSymbol::FrameRunning), PatchModule::SoulstasPatches);
    assert_eq!(export_module(Game::ArmoredCore6, IpcSymbol::FpsPatchEnabled), PatchModule::SoulstasPatches);
    assert!(needs_soulmods(Game::NightReign));
    assert!(!needs_soulmods(Game::DarkSouls1Remastered));
}

fn readings(input_state: u32, save_active: i32, game_state: i32, c1: u8, c2: u8) -> StatusReadings {
    StatusReadings { input_state, save_active, game_state, cutscene_primary: c1, cutscene_secondary: c2 }
}

#[test]
fn status_flags_per_game() {
    assert!(flag_control(Game::DarkSouls3, &readings(0x1_0002, 0, 0, 0, 0)));
    assert!(!flag_control(Game::DarkSouls3, &readings(0x0_0003, 0, 0, 0, 0)));
    assert!(flag_control(Game::Sekiro, &readings(0x03, 0, 0, 0, 0)));
    assert!(!flag_control(Game::Sekiro, &readings(0x02, 0, 0, 0, 0)));
    assert!(flag_control(Game::ArmoredCore6, &readings(0x0f, 0, 0, 0, 0)));
    assert!(!flag_control(Game::ArmoredCore6, &readings(0x07, 0, 0, 0, 0)));
    assert!(flag_control(Game::NightReign, &readings(0x60, 0, 0, 0, 0)));
    assert!(!flag_control(Game::NightReign, &readings(0x20, 0, 0, 0, 0)));
    assert!(flag_control(Game::DarkSouls2, &readings(0, 0, 30, 0, 0)));
    assert!(!flag_control(Game::DarkSouls2, &readings(0, 0, 10, 0, 0)));
    assert!(flag_cutscene(Game::DarkSouls3, &readings(0, 0, 0, 0xf9, 0)));
    assert!(!flag_cutscene(Game::DarkSouls3, &readings(0, 0, 0, 1, 0)));
    assert!(flag_cutscene(Game::Sekiro, &readings(0, 0, 0, 0, 1)));
    assert!(flag_cutscene(Game::ArmoredCore6, &readings(0, 0, 0, 0x08, 0)));
    assert!(!flag_cutscene(Game::ArmoredCore6, &readings(0, 0, 0, 0x07, 2)));
    assert!(flag_cutscene(Game::DarkSouls2, &readings(0, 0, 0, 0, 1)));
    assert!(!flag_cutscene(Game::DarkSouls2, &readings(0, 0, 0, 2, 0)));
    assert!(flag_cutscene(Game::DarkSouls1, &readings(0, 0, 0, 2, 0)));
    assert!(!flag_cutscene(Game::NightReign, &readings(0, 0, 0, 0, 1)));
    assert!(flag_save_active(Game::DarkSouls3, &readings(0, 0, 0, 0, 0)));
    assert!(!flag_save_active(Game::DarkSouls3, &readings(0, -1, 0, 0, 0)));
    assert!(flag_save_active(Game::DarkSouls2, &readings(0, -1, 10, 0, 0)));
    assert!(flag_save_active(Game::DarkSouls2Sotfs, &readings(0, -1, 0, 0, 0)));
}

#[test]
fn version_dependent_offsets() {
    let v = |a, b, c, d| Version { major: a, minor: b, build: c, revision: d };
    assert_eq!(ds1r_playerctrl_offset(&v(1, 3, 0, 0)), 0x48);
    assert_eq!(ds1r_playerctrl_offset(&v(1, 2, 9, 9)), 0x48);
    assert_eq!(ds1r_playerctrl_offset(&v(1, 3, 0, 1)), 0x68);
    assert_eq!(ds2_cutscene_movie_offset(&v(1, 0, 4, 0)), 0xd8);
    assert_eq!(ds2_cutscene_movie_offset(&v(1, 0, 3, 99)), 0xd4);
    assert_eq!(ds2_cutscene_movie_offset(&v(2, 0, 0, 0)), 0xd8);
}
