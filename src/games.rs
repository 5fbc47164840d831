//! The supported games: selection by name, the per-game capability table, the
//! names under which the injected modules export their shared cells, and the
//! per-game reading of status values out of the target's memory.
use vstd::prelude::*;
use vstd::string::*;
use crate::text::{lower_of, lowercase, str_eq};

verus! {

#[derive(Clone, Copy, Debug, PartialEq, Eq, Structural)]
pub enum Game {
    DarkSouls1,
    DarkSouls1Remastered,
    DarkSouls2,
    DarkSouls2Sotfs,
    DarkSouls3,
    Sekiro,
    EldenRing,
    ArmoredCore6,
    NightReign,
}

/// The controller's own architecture; each game runs under exactly one.
#[derive(Clone, Copy, Debug, PartialEq, Eq, Structural)]
pub enum Arch {
    X86,
    X64,
}

/// Game of a lowercased identifier, among the 64-bit titles.
pub open spec fn x64_game_of_name(l: Seq<char>) -> Option<Game> {
    if l == "darksouls1remastered"@ || l == "ds1r"@ || l == "dsr"@ {
        Some(Game::DarkSouls1Remastered)
    } else if l == "darksouls2sotfs"@ || l == "ds2s"@ || l == "sotfs"@ {
        Some(Game::DarkSouls2Sotfs)
    } else if l == "darksouls3"@ || l == "ds3"@ {
        Some(Game::DarkSouls3)
    } else if l == "sekiro"@ {
        Some(Game::Sekiro)
    } else if l == "eldenring"@ || l == "er"@ {
        Some(Game::EldenRing)
    } else if l == "armoredcore6"@ || l == "ac6"@ {
        Some(Game::ArmoredCore6)
    } else if l == "nightreign"@ || l == "nr"@ {
        Some(Game::NightReign)
    } else {
        None
    }
}

/// Looks up an already lowercased name.
pub fn x64_game_from_lower(l: &str) -> (r: Option<Game>)
    ensures
        r == x64_game_of_name(l@),
{
    if str_eq(l, "darksouls1remastered") || str_eq(l, "ds1r") || str_eq(l, "dsr") {
        Some(Game::DarkSouls1Remastered)
    } else if str_eq(l, "darksouls2sotfs") || str_eq(l, "ds2s") || str_eq(l, "sotfs") {
        Some(Game::DarkSouls2Sotfs)
    } else if str_eq(l, "darksouls3") || str_eq(l, "ds3") {
        Some(Game::DarkSouls3)
    } else if str_eq(l, "sekiro") {
        Some(Game::Sekiro)
    } else if str_eq(l, "eldenring") || str_eq(l, "er") {
        Some(Game::EldenRing)
    } else if str_eq(l, "armoredcore6") || str_eq(l, "ac6") {
        Some(Game::ArmoredCore6)
    } else if str_eq(l, "nightreign") || str_eq(l, "nr") {
        Some(Game::NightReign)
    } else {
        None
    }
}

/// Game of a lowercased identifier, among the 32-bit titles.
pub open spec fn x86_game_of_name(l: Seq<char>) -> Option<Game> {
    if l == "darksouls1"@ || l == "ds1"@ || l == "ptde"@ {
        Some(Game::DarkSouls1)
    } else if l == "darksouls2"@ || l == "ds2"@ {
        Some(Game::DarkSouls2)
    } else {
        None
    }
}

/// Looks up an already lowercased name.
pub fn x86_game_from_lower(l: &str) -> (r: Option<Game>)
    ensures
        r == x86_game_of_name(l@),
{
    if str_eq(l, "darksouls1") || str_eq(l, "ds1") || str_eq(l, "ptde") {
        Some(Game::DarkSouls1)
    } else if str_eq(l, "darksouls2") || str_eq(l, "ds2") {
        Some(Game::DarkSouls2)
    } else {
        None
    }
}

/// The game a command-line identifier names, matched without regard to case;
/// `None` for an unknown name or a game of the other architecture.
pub fn select_game(name: &str, arch: Arch) -> (r: Option<Game>)
    ensures
        r == match arch {
            Arch::X64 => x64_game_of_name(lower_of(name@)),
            Arch::X86 => x86_game_of_name(lower_of(name@)),
        },
{
    let l = lowercase(name);
    match arch {
        Arch::X64 => x64_game_from_lower(l.as_str()),
        Arch::X86 => x86_game_from_lower(l.as_str()),
    }
}

/// What the patches can do for a game: override the frame rate, replace the
/// controller state, and take over the game's gamepad slot (whose index and
/// flags are then saved at the start and restored at the end).
#[derive(Clone, Copy, Debug, PartialEq, Eq, Structural)]
pub struct Capabilities {
    pub fps_override: bool,
    pub gamepad_override: bool,
    pub gamepad_slot: bool,
}

pub open spec fn capabilities_of(game: Game) -> Capabilities {
    match game {
        Game::DarkSouls1 | Game::DarkSouls1Remastered => Capabilities {
            fps_override: false,
            gamepad_override: true,
            gamepad_slot: true,
        },
        Game::DarkSouls2 | Game::DarkSouls2Sotfs | Game::EldenRing => Capabilities {
            fps_override: true,
            gamepad_override: true,
            gamepad_slot: false,
        },
        Game::DarkSouls3 | Game::Sekiro => Capabilities {
            fps_override: true,
            gamepad_override: true,
            gamepad_slot: true,
        },
        Game::ArmoredCore6 | Game::NightReign => Capabilities {
            fps_override: true,
            gamepad_override: false,
            gamepad_slot: false,
        },
    }
}

pub fn capabilities(game: Game) -> (r: Capabilities)
    ensures
        r == capabilities_of(game),
{
    match game {
        Game::DarkSouls1 | Game::DarkSouls1Remastered => Capabilities {
            fps_override: false,
            gamepad_override: true,
            gamepad_slot: true,
        },
        Game::DarkSouls2 | Game::DarkSouls2Sotfs | Game::EldenRing => Capabilities {
            fps_override: true,
            gamepad_override: true,
            gamepad_slot: false,
        },
        Game::DarkSouls3 | Game::Sekiro => Capabilities {
            fps_override: true,
            gamepad_override: true,
            gamepad_slot: true,
        },
        Game::ArmoredCore6 | Game::NightReign => Capabilities {
            fps_override: true,
            gamepad_override: false,
            gamepad_slot: false,
        },
    }
}

/// The executable the game runs as.
pub fn process_name(game: Game) -> &'static str {
    match game {
        Game::DarkSouls1 => "DARKSOULS.exe",
        Game::DarkSouls1Remastered => "DarkSoulsRemastered.exe",
        Game::DarkSouls2 | Game::DarkSouls2Sotfs => "DarkSoulsII.exe",
        Game::DarkSouls3 => "DarkSoulsIII.exe",
        Game::Sekiro => "sekiro.exe",
        Game::EldenRing => "eldenring.exe",
        Game::ArmoredCore6 => "armoredcore6.exe",
        Game::NightReign => "nightreign.exe",
    }
}

/// The two modules injected into the target.
#[derive(Clone, Copy, Debug, PartialEq, Eq, Structural)]
pub enum PatchModule {
    /// The general-purpose mod module, which holds the frame-rate override
    /// (and, for one game, frame advance).
    Soulmods,
    /// The module holding frame advance and the controller override.
    SoulstasPatches,
}

/// A shared cell exported by an injected module.
#[derive(Clone, Copy, Debug, PartialEq, Eq, Structural)]
pub enum IpcSymbol {
    FrameAdvanceEnabled,
    FrameRunning,
    FpsPatchEnabled,
    FpsCustomLimit,
    XinputPatchEnabled,
    XinputState,
}

pub open spec fn is_fps_symbol(s: IpcSymbol) -> bool {
    s == IpcSymbol::FpsPatchEnabled || s == IpcSymbol::FpsCustomLimit
}

/// The module that exports a game's cell.
pub open spec fn exporting_module(game: Game, sym: IpcSymbol) -> PatchModule {
    match game {
        Game::DarkSouls3 => if sym == IpcSymbol::XinputPatchEnabled || sym == IpcSymbol::XinputState {
            PatchModule::SoulstasPatches
        } else {
            PatchModule::Soulmods
        },
        Game::Sekiro | Game::NightReign | Game::EldenRing => if is_fps_symbol(sym) {
            PatchModule::Soulmods
        } else {
            PatchModule::SoulstasPatches
        },
        _ => PatchModule::SoulstasPatches,
    }
}

pub fn export_module(game: Game, sym: IpcSymbol) -> (r: PatchModule)
    ensures
        r == exporting_module(game, sym),
{
    match game {
        Game::DarkSouls3 => if sym == IpcSymbol::XinputPatchEnabled || sym == IpcSymbol::XinputState {
            PatchModule::SoulstasPatches
        } else {
            PatchModule::Soulmods
        },
        Game::Sekiro | Game::NightReign | Game::EldenRing => if sym == IpcSymbol::FpsPatchEnabled
            || sym == IpcSymbol::FpsCustomLimit {
            PatchModule::Soulmods
        } else {
            PatchModule::SoulstasPatches
        },
        _ => PatchModule::SoulstasPatches,
    }
}

/// Whether the general-purpose mod module has to be injected for a game.
pub open spec fn uses_soulmods(game: Game) -> bool {
    game == Game::DarkSouls3 || game == Game::Sekiro || game == Game::NightReign || game
        == Game::EldenRing
}

pub fn needs_soulmods(game: Game) -> (r: bool)
    ensures
        r == uses_soulmods(game),
        r == exists|s: IpcSymbol| exporting_module(game, s) == PatchModule::Soulmods,
{
    assert(exporting_module(game, IpcSymbol::FpsPatchEnabled) == PatchModule::Soulmods
        <== uses_soulmods(game));
    game == Game::DarkSouls3 || game == Game::Sekiro || game == Game::NightReign || game
        == Game::EldenRing
}

/// The file a module is injected from.
pub fn module_file_name(m: PatchModule, arch: Arch) -> &'static str {
    match m {
        PatchModule::Soulmods => "soulmods_x64.dll",
        PatchModule::SoulstasPatches => match arch {
            Arch::X64 => "soulstas_patches_x64.dll",
            Arch::X86 => "soulstas_patches_x86.dll",
        },
    }
}

/// The export that a module sets once its patches are in place.
pub fn initialized_export(m: PatchModule) -> &'static str {
    match m {
        PatchModule::Soulmods => "SOULMODS_INITIALIZED",
        PatchModule::SoulstasPatches => "SOULSTAS_PATCHES_INITIALIZED",
    }
}

pub open spec fn game_prefix(game: Game) -> Seq<char> {
    match game {
        Game::DarkSouls1 => "DS1"@,
        Game::DarkSouls1Remastered => "DS1R"@,
        Game::DarkSouls2 => "DS2"@,
        Game::DarkSouls2Sotfs => "DS2SOTFS"@,
        Game::DarkSouls3 => "DS3"@,
        Game::Sekiro => "SEKIRO"@,
        Game::EldenRing => "ER"@,
        Game::ArmoredCore6 => "AC6"@,
        Game::NightReign => "NR"@,
    }
}

pub open spec fn symbol_suffix(sym: IpcSymbol) -> Seq<char> {
    match sym {
        IpcSymbol::FrameAdvanceEnabled => "FRAME_ADVANCE_ENABLED"@,
        IpcSymbol::FrameRunning => "FRAME_RUNNING"@,
        IpcSymbol::FpsPatchEnabled => "FPS_PATCH_ENABLED"@,
        IpcSymbol::FpsCustomLimit => "FPS_CUSTOM_LIMIT"@,
        IpcSymbol::XinputPatchEnabled => "XINPUT_PATCH_ENABLED"@,
        IpcSymbol::XinputState => "XINPUT_STATE"@,
    }
}

fn prefix_text(game: Game) -> (r: &'static str)
    ensures
        r@ == game_prefix(game),
{
    match game {
        Game::DarkSouls1 => "DS1",
        Game::DarkSouls1Remastered => "DS1R",
        Game::DarkSouls2 => "DS2",
        Game::DarkSouls2Sotfs => "DS2SOTFS",
        Game::DarkSouls3 => "DS3",
        Game::Sekiro => "SEKIRO",
        Game::EldenRing => "ER",
        Game::ArmoredCore6 => "AC6",
        Game::NightReign => "NR",
    }
}

fn suffix_text(sym: IpcSymbol) -> (r: &'static str)
    ensures
        r@ == symbol_suffix(sym),
{
    match sym {
        IpcSymbol::FrameAdvanceEnabled => "FRAME_ADVANCE_ENABLED",
        IpcSymbol::FrameRunning => "FRAME_RUNNING",
        IpcSymbol::FpsPatchEnabled => "FPS_PATCH_ENABLED",
        IpcSymbol::FpsCustomLimit => "FPS_CUSTOM_LIMIT",
        IpcSymbol::XinputPatchEnabled => "XINPUT_PATCH_ENABLED",
        IpcSymbol::XinputState => "XINPUT_STATE",
    }
}

/// The exported name of a game's cell: the game's prefix, `_`, the cell's name.
pub fn export_name(game: Game, sym: IpcSymbol) -> (r: String)
    ensures
        r@ == game_prefix(game) + "_"@ + symbol_suffix(sym),
{
    let mut r = String::from_str(prefix_text(game));
    r.append("_");
    r.append(suffix_text(sym));
    r
}

/// Raw values read from the target for its status queries: an input-state
/// word (a byte, for the games that keep one), the save slot in use, the
/// game-state number, and the two cutscene bytes.
#[derive(Clone, Copy, Debug, PartialEq, Eq, Structural)]
pub struct StatusReadings {
    pub input_state: u32,
    pub save_active: i32,
    pub game_state: i32,
    pub cutscene_primary: u8,
    pub cutscene_secondary: u8,
}

/// Game-state number of being in the world with control (the 32-bit second game).
pub const GAME_STATE_INGAME: i32 = 30;
/// Game-state number of the main menu (the 32-bit second game).
pub const GAME_STATE_MAIN_MENU: i32 = 10;
/// The 3D-cutscene byte of the third game and Sekiro while one plays (-7 as a signed byte).
pub const CUTSCENE_3D_PLAYING: u8 = 0xf9;

/// The player has control.
pub open spec fn has_control(game: Game, r: StatusReadings) -> bool {
    match game {
        Game::DarkSouls1 | Game::DarkSouls1Remastered | Game::Sekiro => r.input_state & 0x3 == 0x3,
        Game::DarkSouls3 => (r.input_state >> 1) & 1 == 1 && (r.input_state >> 16) & 1 == 1,
        Game::ArmoredCore6 => r.input_state & 0xf == 0xf,
        Game::NightReign => (r.input_state >> 5) & 1 == 1 && (r.input_state >> 6) & 1 == 1,
        Game::DarkSouls2 => r.game_state == GAME_STATE_INGAME,
        Game::DarkSouls2Sotfs | Game::EldenRing => true,
    }
}

/// A cutscene of some kind plays.
pub open spec fn in_cutscene(game: Game, r: StatusReadings) -> bool {
    match game {
        Game::DarkSouls1 | Game::DarkSouls1Remastered => r.cutscene_primary != 0
            || r.cutscene_secondary != 0,
        Game::DarkSouls2 => r.cutscene_primary == 1 || r.cutscene_secondary == 1,
        Game::DarkSouls3 | Game::Sekiro => r.cutscene_primary == CUTSCENE_3D_PLAYING
            || r.cutscene_secondary != 0,
        Game::ArmoredCore6 => (r.cutscene_primary >> 3) & 1 == 1 || r.cutscene_secondary == 1,
        Game::NightReign => r.cutscene_primary != 0,
        Game::DarkSouls2Sotfs | Game::EldenRing => true,
    }
}

/// A save is loaded (so the main menu has been left).
pub open spec fn save_active(game: Game, r: StatusReadings) -> bool {
    match game {
        Game::DarkSouls2 => r.game_state == GAME_STATE_MAIN_MENU,
        Game::DarkSouls2Sotfs | Game::EldenRing => true,
        _ => r.save_active != -1,
    }
}

pub fn flag_control(game: Game, r: &StatusReadings) -> (b: bool)
    ensures
        b == has_control(game, *r),
{
    match game {
        Game::DarkSouls1 | Game::DarkSouls1Remastered | Game::Sekiro => r.input_state & 0x3 == 0x3,
        Game::DarkSouls3 => (r.input_state >> 1) & 1 == 1 && (r.input_state >> 16) & 1 == 1,
        Game::ArmoredCore6 => r.input_state & 0xf == 0xf,
        Game::NightReign => (r.input_state >> 5) & 1 == 1 && (r.input_state >> 6) & 1 == 1,
        Game::DarkSouls2 => r.game_state == GAME_STATE_INGAME,
        Game::DarkSouls2Sotfs | Game::EldenRing => true,
    }
}

pub fn flag_cutscene(game: Game, r: &StatusReadings) -> (b: bool)
    ensures
        b == in_cutscene(game, *r),
{
    match game {
        Game::DarkSouls1 | Game::DarkSouls1Remastered => r.cutscene_primary != 0
            || r.cutscene_secondary != 0,
        Game::DarkSouls2 => r.cutscene_primary == 1 || r.cutscene_secondary == 1,
        Game::DarkSouls3 | Game::Sekiro => r.cutscene_primary == CUTSCENE_3D_PLAYING
            || r.cutscene_secondary != 0,
        Game::ArmoredCore6 => (r.cutscene_primary >> 3) & 1 == 1 || r.cutscene_secondary == 1,
        Game::NightReign => r.cutscene_primary != 0,
        Game::DarkSouls2Sotfs | Game::EldenRing => true,
    }
}

pub fn flag_save_active(game: Game, r: &StatusReadings) -> (b: bool)
    ensures
        b == save_active(game, *r),
{
    match game {
        Game::DarkSouls2 => r.game_state == GAME_STATE_MAIN_MENU,
        Game::DarkSouls2Sotfs | Game::EldenRing => true,
        _ => r.save_active != -1,
    }
}

/// A file version: major, minor, build, revision, compared in that order.
#[derive(Clone, Copy, Debug, PartialEq, Eq, Structural)]
pub struct Version {
    pub major: u16,
    pub minor: u16,
    pub build: u16,
    pub revision: u16,
}

pub open spec fn version_key(v: Version) -> int {
    ((v.major as int * 0x10000 + v.minor as int) * 0x10000 + v.build as int) * 0x10000
        + v.revision as int
}

/// `a` is the same release as `b` or an earlier one.
pub fn version_le(a: &Version, b: &Version) -> (r: bool)
    ensures
        r == (version_key(*a) <= version_key(*b)),
{
    if a.major != b.major {
        a.major < b.major
    } else if a.minor != b.minor {
        a.minor < b.minor
    } else if a.build != b.build {
        a.build < b.build
    } else {
        a.revision <= b.revision
    }
}

/// Offset of the player-control block in the remastered first game: it moved
/// after release 1.3.0.0.
pub fn ds1r_playerctrl_offset(v: &Version) -> (r: usize)
    ensures
        r == if version_key(*v) <= version_key(Version { major: 1, minor: 3, build: 0, revision: 0 }) {
            0x48usize
        } else {
            0x68usize
        },
{
    if version_le(v, &Version { major: 1, minor: 3, build: 0, revision: 0 }) {
        0x48
    } else {
        0x68
    }
}

/// Offset of the movie-cutscene flag in the 32-bit second game: it moved in
/// release 1.0.4.0.
pub fn ds2_cutscene_movie_offset(v: &Version) -> (r: usize)
    ensures
        r == if version_key(Version { major: 1, minor: 0, build: 4, revision: 0 }) <= version_key(*v) {
            0xd8usize
        } else {
            0xd4usize
        },
{
    if version_le(&Version { major: 1, minor: 0, build: 4, revision: 0 }, v) {
        0xd8
    } else {
        0xd4
    }
}

} // verus!
