use ini::Ini;
use ssbu_optimizer::config::{
    AdvancedOption, EmuFileSystem, LocalPersistantData, Optimization, OptimizerConfig,
    UserStatus,
};
use ssbu_optimizer::error::ErrorKind;
use ssbu_optimizer::profile::UserProfile;

fn profile(name: &str, uuid0: u64, uuid1: u64) -> UserProfile {
    UserProfile { name: String::from(name), uuid0, uuid1 }
}

fn storage_ini(entries: &[(&str, &str)]) -> Ini {
    let mut conf = Ini::new();
    for (k, v) in entries {
        conf.with_section(Some("Data%20Storage")).set(*k, *v);
    }
    conf
}

fn resolved_filesystem(nand: Option<&str>, sdmc: Option<&str>) -> EmuFileSystem {
    EmuFileSystem {
        emu_name: Some(String::from("yuzu")),
        config_folder: Some(String::from("/emu/config")),
        nand_folder: nand.map(String::from),
        sdmc_folder: sdmc.map(String::from),
    }
}

fn empty_local_data() -> LocalPersistantData {
    LocalPersistantData {
        emu_folder: None,
        selected_user_profile: None,
        user_statuses: Vec::new(),
    }
}

#[test]
fn default_flag_true_forces_fallback_over_explicit_value() {
    let conf = storage_ini(&[("nand_directory\\default", "true"), ("nand_directory", "/explicit")]);
    let r = EmuFileSystem::get_emu_config_path(
        &conf,
        "Data%20Storage",
        "nand_directory",
        Some("/fallback"),
    );
    assert_eq!(r.as_deref(), Some("/fallback"));
}

#[test]
fn default_flag_false_uses_explicit_value() {
    let conf = storage_ini(&[("nand_directory\\default", "false"), ("nand_directory", "/explicit")]);
    let r = EmuFileSystem::get_emu_config_path(
        &conf,
        "Data%20Storage",
        "nand_directory",
        Some("/fallback"),
    );
    assert_eq!(r.as_deref(), Some("/explicit"));
}

#[test]
fn absent_flag_uses_explicit_value() {
    let conf = storage_ini(&[("nand_directory", "/explicit")]);
    let r = EmuFileSystem::get_emu_config_path(
        &conf,
        "Data%20Storage",
        "nand_directory",
        Some("/fallback"),
    );
    assert_eq!(r.as_deref(), Some("/explicit"));
}

#[test]
fn unparsable_flag_counts_as_false() {
    let conf = storage_ini(&[("nand_directory\\default", "yes"), ("nand_directory", "/explicit")]);
    let r = EmuFileSystem::get_emu_config_path(
        &conf,
        "Data%20Storage",
        "nand_directory",
        Some("/fallback"),
    );
    assert_eq!(r.as_deref(), Some("/explicit"));
}

#[test]
fn no_explicit_value_after_false_flag_yields_nothing() {
    let conf = storage_ini(&[("nand_directory\\default", "false")]);
    let r = EmuFileSystem::get_emu_config_path(
        &conf,
        "Data%20Storage",
        "nand_directory",
        Some("/fallback"),
    );
    assert_eq!(r, None);
}

#[test]
fn missing_section_yields_nothing() {
    let conf = Ini::new();
    let r = EmuFileSystem::get_emu_config_path(
        &conf,
        "Data%20Storage",
        "nand_directory",
        Some("/fallback"),
    );
    assert_eq!(r, None);
}

#[test]
fn filesystem_load_resolves_both_roots() {
    let conf = storage_ini(&[
        ("nand_directory\\default", "true"),
        ("nand_directory", "/explicit-nand"),
        ("sdmc_directory", "/explicit-sdmc"),
    ]);
    let fs = EmuFileSystem::load(
        "/emu",
        String::from("yuzu"),
        String::from("/emu/config"),
        Some(&conf),
    );
    assert_eq!(fs.emu_name.as_deref(), Some("yuzu"));
    assert_eq!(fs.config_folder.as_deref(), Some("/emu/config"));
    assert_eq!(fs.nand_folder.as_deref(), Some("/emu/nand"));
    assert_eq!(fs.sdmc_folder.as_deref(), Some("/explicit-sdmc"));
}

#[test]
fn filesystem_load_without_config_is_wholly_empty() {
    let fs = EmuFileSystem::load("/emu", String::from("yuzu"), String::from("/emu/config"), None);
    assert!(fs.emu_name.is_none());
    assert!(fs.config_folder.is_none());
    assert!(fs.nand_folder.is_none());
    assert!(fs.sdmc_folder.is_none());
}

#[test]
fn user_placeholder_segment_is_case_insensitive() {
    assert!(EmuFileSystem::is_user_data_segment("user"));
    assert!(EmuFileSystem::is_user_data_segment("USER"));
    assert!(EmuFileSystem::is_user_data_segment("User"));
    assert!(!EmuFileSystem::is_user_data_segment("yuzu"));
    assert!(!EmuFileSystem::is_user_data_segment("users"));
}

#[test]
fn infer_emu_binary_picks_largest_and_last_on_tie() {
    assert_eq!(EmuFileSystem::infer_emu_binary(&Vec::new()), None);
    let entries = vec![
        (10u64, String::from("small")),
        (20u64, String::from("first-big")),
        (20u64, String::from("second-big")),
    ];
    assert_eq!(EmuFileSystem::infer_emu_binary(&entries).as_deref(), Some("second-big"));
    let entries2 = vec![(30u64, String::from("x")), (20u64, String::from("y"))];
    assert_eq!(EmuFileSystem::infer_emu_binary(&entries2).as_deref(), Some("x"));
}

#[test]
fn config_dir_depends_on_platform_and_layout() {
    let windows = EmuFileSystem::config_dir("/emu", "yuzu", false, true, Some("/home/u/.config"));
    assert_eq!(windows.as_deref(), Some("/emu/config"));
    let local = EmuFileSystem::config_dir("/emu", "yuzu", true, false, Some("/home/u/.config"));
    assert_eq!(local.as_deref(), Some("/emu/config"));
    let unix = EmuFileSystem::config_dir("/emu", "yuzu", false, false, Some("/home/u/.config"));
    assert_eq!(unix.as_deref(), Some("/home/u/.config/yuzu"));
    let unknown_root = EmuFileSystem::config_dir("/emu", "yuzu", false, false, None);
    assert_eq!(unknown_root, None);
}

#[test]
fn main_config_file_is_under_config_folder() {
    assert_eq!(EmuFileSystem::main_config_file("/emu/config"), "/emu/config/qt-config.ini");
}

#[test]
fn status_upsert_creates_then_extends_then_is_idempotent() {
    let mut data = empty_local_data();
    let p = profile("A", 1, 2);
    data.record_optimization(&p, Optimization::Settings);
    assert_eq!(
        data.get_user_status(&p),
        UserStatus { settings_optimized: true, mods_optimized: false, save_optimized: false }
    );
    data.record_optimization(&p, Optimization::Mods);
    assert_eq!(
        data.get_user_status(&p),
        UserStatus { settings_optimized: true, mods_optimized: true, save_optimized: false }
    );
    data.record_optimization(&p, Optimization::Settings);
    assert_eq!(
        data.get_user_status(&p),
        UserStatus { settings_optimized: true, mods_optimized: true, save_optimized: false }
    );
}

#[test]
fn status_records_are_per_profile() {
    let mut data = empty_local_data();
    let a = profile("A", 1, 2);
    let b = profile("A", 1, 3);
    data.record_optimization(&a, Optimization::Save);
    assert_eq!(
        data.get_user_status(&a),
        UserStatus { settings_optimized: false, mods_optimized: false, save_optimized: true }
    );
    assert_eq!(
        data.get_user_status(&b),
        UserStatus { settings_optimized: false, mods_optimized: false, save_optimized: false }
    );
    assert_eq!(data.user_statuses.len(), 1);
}

#[test]
fn unknown_profile_has_default_status() {
    let data = empty_local_data();
    let p = profile("A", 1, 2);
    assert_eq!(data.get_user_status(&p), UserStatus::default());
}

#[test]
fn selection_kept_when_still_present() {
    let mut local = empty_local_data();
    local.selected_user_profile = Some(profile("B", 3, 4));
    let profiles = vec![profile("A", 1, 2), profile("B", 3, 4)];
    let config = OptimizerConfig::load(
        local,
        String::from("/emu"),
        resolved_filesystem(Some("/nand"), None),
        Some(profiles),
    );
    assert_eq!(config.local_data.emu_folder.as_deref(), Some("/emu"));
    assert_eq!(config.local_data.selected_user_profile, Some(profile("B", 3, 4)));
    assert_eq!(config.user_profiles.len(), 2);
}

#[test]
fn stale_selection_resets_to_first_profile() {
    let mut local = empty_local_data();
    local.selected_user_profile = Some(profile("Gone", 9, 9));
    let profiles = vec![profile("A", 1, 2), profile("B", 3, 4)];
    let config = OptimizerConfig::load(
        local,
        String::from("/emu"),
        resolved_filesystem(Some("/nand"), None),
        Some(profiles),
    );
    assert_eq!(config.local_data.selected_user_profile, Some(profile("A", 1, 2)));
}

#[test]
fn stale_selection_clears_when_no_profiles_remain() {
    let mut local = empty_local_data();
    local.selected_user_profile = Some(profile("Gone", 9, 9));
    let config = OptimizerConfig::load(
        local,
        String::from("/emu"),
        resolved_filesystem(Some("/nand"), None),
        Some(Vec::new()),
    );
    assert_eq!(config.local_data.selected_user_profile, None);
}

#[test]
fn failed_profile_derivation_clears_folder_and_selection() {
    let mut local = empty_local_data();
    local.emu_folder = Some(String::from("/old"));
    local.selected_user_profile = Some(profile("A", 1, 2));
    let config = OptimizerConfig::load(
        local,
        String::from("/emu"),
        resolved_filesystem(None, None),
        None,
    );
    assert_eq!(config.local_data.emu_folder, None);
    assert_eq!(config.local_data.selected_user_profile, None);
    assert!(config.user_profiles.is_empty());
}

#[test]
fn update_selected_user_replaces_selection() {
    let mut data = empty_local_data();
    data.update_selected_user(Some(profile("A", 1, 2)));
    assert_eq!(data.selected_user_profile, Some(profile("A", 1, 2)));
    data.update_selected_user(None);
    assert_eq!(data.selected_user_profile, None);
}

#[test]
fn emulator_name_falls_back_to_default() {
    let mut config = OptimizerConfig {
        local_data: empty_local_data(),
        user_profiles: Vec::new(),
        emu_filesystem: resolved_filesystem(None, None),
    };
    assert_eq!(config.get_emulator_name(), "yuzu");
    config.emu_filesystem.emu_name = Some(String::from("suyu"));
    assert_eq!(config.get_emulator_name(), "suyu");
    config.emu_filesystem.emu_name = None;
    assert_eq!(config.get_emulator_name(), "yuzu");
}

#[test]
fn save_folder_layout_is_exact() {
    let config = OptimizerConfig {
        local_data: empty_local_data(),
        user_profiles: Vec::new(),
        emu_filesystem: resolved_filesystem(Some("/nand"), None),
    };
    let p = profile("A", 1, 2);
    assert_eq!(
        config.get_save_folder(&p).unwrap(),
        "/nand/user/save/0000000000000000/00000000000000020000000000000001/01006A800016E000"
    );
}

#[test]
fn save_folder_requires_nand_root() {
    let config = OptimizerConfig {
        local_data: empty_local_data(),
        user_profiles: Vec::new(),
        emu_filesystem: resolved_filesystem(None, Some("/sdmc")),
    };
    let err = config.get_save_folder(&profile("A", 1, 2)).unwrap_err();
    assert_eq!(err.kind, ErrorKind::NotFound);
}

#[test]
fn arc_config_folder_layout_is_exact() {
    let config = OptimizerConfig {
        local_data: empty_local_data(),
        user_profiles: Vec::new(),
        emu_filesystem: resolved_filesystem(None, Some("/sdmc")),
    };
    let p = profile("A", 17, 42);
    assert_eq!(
        config.get_arc_config_folder(&p).unwrap(),
        "/sdmc/ultimate/arcropolis/config/17/42"
    );
}

#[test]
fn arc_config_folder_requires_sdmc_root() {
    let config = OptimizerConfig {
        local_data: empty_local_data(),
        user_profiles: Vec::new(),
        emu_filesystem: resolved_filesystem(Some("/nand"), None),
    };
    let err = config.get_arc_config_folder(&profile("A", 1, 2)).unwrap_err();
    assert_eq!(err.kind, ErrorKind::NotFound);
}

#[test]
fn optimization_labels_match_names() {
    assert_eq!(Optimization::Settings.label(), "Settings");
    assert_eq!(Optimization::Mods.label(), "Mods");
    assert_eq!(Optimization::Save.label(), "Save");
    assert!(AdvancedOption::CleanSkyline != AdvancedOption::CleanArc);
}
