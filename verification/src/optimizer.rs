//! The optimization engine: computes, for each of the three named
//! operations, the deployment plan — which directories to clean first and
//! which bundled asset tree goes to which resolved target path — and, for
//! the Settings operation, patches the emulator's main INI configuration.
//!
//! The plans are pure functions of the resolved environment and the
//! selected profile; carrying them out against the disk happens outside
//! the library. A cleanup entry means "delete this directory tree if it
//! exists"; deployments copy every file of a bundled tree to its place
//! under the target, overwriting freely, which makes them idempotent.
use vstd::prelude::*;

use crate::config::{
    arc_config_folder_spec, save_folder_spec, AdvancedOption, OptimizerConfig, SSBU_TITLE_ID,
};
use crate::error::{ErrorKind, OptimizerError};
use crate::ini_file::{ini_insert, ini_section, ini_view};
use crate::profile::{UserProfile, UserProfileView};

verus! {

/// Web API endpoint written into the WebService section.
pub const WEB_API_URL: &'static str = "api.ynet-fun.xyz";

/// Fixed token written into the WebService section.
pub const WEB_API_TOKEN: &'static str =
    "aaaaaaaaaaaaaaaaaaaaaaaaaaaaaaaaaaaaaaaaaaaaaaaaaaaaa";

/// The five bundled asset trees shipped with the program.
#[derive(Debug, Clone, Copy, PartialEq, Eq, Structural)]
pub enum BundledTree {
    SsbuSettings,
    ArcConfig,
    ArcMods,
    Skyline,
    SaveData,
}

/// What an operation asks of the file system: directories to delete
/// first (each only if present, in order), then bundled trees to deploy
/// to their target paths, in order.
#[derive(Debug, Clone)]
pub struct DeploymentPlan {
    pub cleanups: Vec<String>,
    pub deployments: Vec<(BundledTree, String)>,
}

/// The character sequences of a path list.
pub open spec fn path_views(paths: Seq<String>) -> Seq<Seq<char>> {
    paths.map_values(|p: String| p@)
}

/// The views of a deployment list.
pub open spec fn deployment_views(ds: Seq<(BundledTree, String)>) -> Seq<(BundledTree, Seq<char>)> {
    ds.map_values(|d: (BundledTree, String)| (d.0, d.1@))
}

/// The skyline plugin target under the secondary storage root.
pub open spec fn skyline_folder_spec(sdmc: Seq<char>) -> Seq<char> {
    sdmc + "/"@ + "atmosphere"@ + "/"@ + "contents"@ + "/"@ + SSBU_TITLE_ID@
}

/// The shared mods directory root under the secondary storage root.
pub open spec fn ultimate_folder_spec(sdmc: Seq<char>) -> Seq<char> {
    sdmc + "/"@ + "ultimate"@
}

/// The shared mods deployment target under the secondary storage root.
pub open spec fn arc_mods_folder_spec(sdmc: Seq<char>) -> Seq<char> {
    ultimate_folder_spec(sdmc) + "/"@ + "mods"@
}

/// The settings deployment target under the installation directory.
pub open spec fn custom_settings_folder_spec(emu_folder: Seq<char>) -> Seq<char> {
    emu_folder + "/"@ + "config"@ + "/"@ + "custom"@
}

/// The directories the Mods operation deletes before deploying: the
/// skyline target when CleanSkyline is set, then the per-profile
/// arcropolis configuration and the whole shared `ultimate` directory
/// when CleanArc is set.
pub open spec fn mods_cleanups_spec(
    sdmc: Seq<char>,
    profile: UserProfileView,
    clean_skyline: bool,
    clean_arc: bool,
) -> Seq<Seq<char>> {
    let skyline = if clean_skyline {
        seq![skyline_folder_spec(sdmc)]
    } else {
        Seq::empty()
    };
    let arc = if clean_arc {
        seq![arc_config_folder_spec(sdmc, profile), ultimate_folder_spec(sdmc)]
    } else {
        Seq::empty()
    };
    skyline + arc
}

/// Whether the advanced options include the given one.
fn has_option(advanced_options: &Vec<AdvancedOption>, option: AdvancedOption) -> (r: bool)
    ensures
        r == advanced_options@.contains(option),
{
    let n: usize = advanced_options.len();
    let mut i: usize = 0;
    while i < n
        invariant
            i <= n,
            n == advanced_options@.len(),
            forall|j: int| 0 <= j < i ==> advanced_options@[j] != option,
        decreases n - i,
    {
        if advanced_options[i] == option {
            return true;
        }
        i = i + 1;
    }
    false
}

/// The WebService section contents after the Settings patch: telemetry
/// forced off, the fixed web API endpoint, and the emulator-specific
/// username and token keys set for the given profile, each paired with a
/// `\default` flag forced to `false` so the explicit values are honored.
pub open spec fn web_service_patched(
    sections: Map<Seq<char>, Map<Seq<char>, Seq<char>>>,
    emu_name: Seq<char>,
    user_name: Seq<char>,
) -> Map<Seq<char>, Map<Seq<char>, Seq<char>>> {
    let props = sections["WebService"@].insert("enable_telemetry\\default"@, "false"@).insert(
        "enable_telemetry"@,
        "false"@,
    ).insert("web_api_url\\default"@, "false"@).insert("web_api_url"@, WEB_API_URL@).insert(
        emu_name + "_username\\default"@,
        "false"@,
    ).insert(emu_name + "_username"@, user_name).insert(
        emu_name + "_token\\default"@,
        "false"@,
    ).insert(emu_name + "_token"@, WEB_API_TOKEN@);
    sections.insert("WebService"@, props)
}

/// Computes the Settings plan and applies the WebService patch to the
/// loaded main configuration.
///
/// Fails with a not-found error, leaving the configuration untouched,
/// exactly when no emulator data directory is recorded or the
/// configuration has no WebService section.
pub fn optimize_settings(
    config: &OptimizerConfig,
    user_profile: &UserProfile,
    main_config: &mut ini::Ini,
) -> (r: Result<DeploymentPlan, OptimizerError>)
    ensures
        match config.local_data.emu_folder {
            None => {
                &&& r matches Err(e) && e.kind == ErrorKind::NotFound
                &&& ini_view(*final(main_config)) == ini_view(*old(main_config))
            },
            Some(folder) => {
                if ini_view(*old(main_config)).dom().contains("WebService"@) {
                    &&& r matches Ok(plan)
                    &&& plan.cleanups@.len() == 0
                    &&& deployment_views(plan.deployments@) == seq![
                        (BundledTree::SsbuSettings, custom_settings_folder_spec(folder@)),
                    ]
                    &&& ini_view(*final(main_config)) == web_service_patched(
                        ini_view(*old(main_config)),
                        config.emulator_name_spec(),
                        user_profile.name@,
                    )
                } else {
                    &&& r matches Err(e) && e.kind == ErrorKind::NotFound
                    &&& ini_view(*final(main_config)) == ini_view(*old(main_config))
                }
            },
        },
{
    let folder = match config.local_data.emu_folder.as_ref() {
        None => {
            return Err(
                OptimizerError::new(ErrorKind::NotFound, "Emulator data folder not found"),
            );
        },
        Some(f) => f,
    };
    let has_section = match ini_section(main_config, "WebService") {
        Some(_) => true,
        None => false,
    };
    if !has_section {
        return Err(
            OptimizerError::new(
                ErrorKind::NotFound,
                "Unable to find WebService section in config",
            ),
        );
    }
    let emu_name = config.get_emulator_name();
    let ok1 = ini_insert(main_config, "WebService", "enable_telemetry\\default", "false");
    let ok2 = ini_insert(main_config, "WebService", "enable_telemetry", "false");
    let ok3 = ini_insert(main_config, "WebService", "web_api_url\\default", "false");
    let ok4 = ini_insert(main_config, "WebService", "web_api_url", WEB_API_URL);
    let mut username_flag_key = emu_name.clone();
    username_flag_key.append("_username\\default");
    let ok5 = ini_insert(main_config, "WebService", username_flag_key.as_str(), "false");
    let mut username_key = emu_name.clone();
    username_key.append("_username");
    let ok6 = ini_insert(
        main_config,
        "WebService",
        username_key.as_str(),
        user_profile.name.as_str(),
    );
    let mut token_flag_key = emu_name.clone();
    token_flag_key.append("_token\\default");
    let ok7 = ini_insert(main_config, "WebService", token_flag_key.as_str(), "false");
    let mut token_key = emu_name.clone();
    token_key.append("_token");
    let ok8 = ini_insert(main_config, "WebService", token_key.as_str(), WEB_API_TOKEN);
    proof {
        assert(ok1 && ok2 && ok3 && ok4 && ok5 && ok6 && ok7 && ok8);
        assert(ini_view(*main_config) =~= web_service_patched(
            ini_view(*old(main_config)),
            config.emulator_name_spec(),
            user_profile.name@,
        ));
    }
    let mut target = folder.clone();
    target.append("/");
    target.append("config");
    target.append("/");
    target.append("custom");
    let deployments: Vec<(BundledTree, String)> = vec![(BundledTree::SsbuSettings, target)];
    let plan = DeploymentPlan { cleanups: Vec::new(), deployments };
    proof {
        assert(deployment_views(plan.deployments@) =~= seq![
            (
                BundledTree::SsbuSettings,
                custom_settings_folder_spec(config.local_data.emu_folder->Some_0@),
            ),
        ]);
    }
    Ok(plan)
}

/// Computes the Mods plan: the optional destructive pre-cleans, then the
/// skyline, per-profile arcropolis configuration, and shared mods
/// deployments.
///
/// Fails with a not-found error exactly when the secondary storage root
/// is unresolved.
pub fn optimize_mods(
    config: &OptimizerConfig,
    user_profile: &UserProfile,
    advanced_options: Vec<AdvancedOption>,
) -> (r: Result<DeploymentPlan, OptimizerError>)
    ensures
        match config.emu_filesystem.sdmc_folder {
            None => r matches Err(e) && e.kind == ErrorKind::NotFound,
            Some(sdmc) => {
                &&& r matches Ok(plan)
                &&& path_views(plan.cleanups@) == mods_cleanups_spec(
                    sdmc@,
                    user_profile@,
                    advanced_options@.contains(AdvancedOption::CleanSkyline),
                    advanced_options@.contains(AdvancedOption::CleanArc),
                )
                &&& deployment_views(plan.deployments@) == seq![
                    (BundledTree::Skyline, skyline_folder_spec(sdmc@)),
                    (BundledTree::ArcConfig, arc_config_folder_spec(sdmc@, user_profile@)),
                    (BundledTree::ArcMods, arc_mods_folder_spec(sdmc@)),
                ]
            },
        },
{
    let sdmc = match config.emu_filesystem.sdmc_folder.as_ref() {
        None => {
            return Err(
                OptimizerError::new(ErrorKind::NotFound, "Unable to find sdmc directory"),
            );
        },
        Some(s) => s,
    };
    let mut skyline_path = sdmc.clone();
    skyline_path.append("/");
    skyline_path.append("atmosphere");
    skyline_path.append("/");
    skyline_path.append("contents");
    skyline_path.append("/");
    skyline_path.append(SSBU_TITLE_ID);
    let arc_config_path = match config.get_arc_config_folder(user_profile) {
        Ok(p) => p,
        Err(e) => {
            return Err(e);
        },
    };
    let mut ultimate_path = sdmc.clone();
    ultimate_path.append("/");
    ultimate_path.append("ultimate");
    let mut arc_mods_path = ultimate_path.clone();
    arc_mods_path.append("/");
    arc_mods_path.append("mods");

    let mut cleanups: Vec<String> = Vec::new();
    if has_option(&advanced_options, AdvancedOption::CleanSkyline) {
        cleanups.push(skyline_path.clone());
    }
    if has_option(&advanced_options, AdvancedOption::CleanArc) {
        cleanups.push(arc_config_path.clone());
        cleanups.push(ultimate_path.clone());
    }
    let mut deployments: Vec<(BundledTree, String)> = Vec::new();
    deployments.push((BundledTree::Skyline, skyline_path));
    deployments.push((BundledTree::ArcConfig, arc_config_path));
    deployments.push((BundledTree::ArcMods, arc_mods_path));
    let plan = DeploymentPlan { cleanups, deployments };
    proof {
        let sdmc_chars = config.emu_filesystem.sdmc_folder->Some_0@;
        assert(path_views(plan.cleanups@) =~= mods_cleanups_spec(
            sdmc_chars,
            user_profile@,
            advanced_options@.contains(AdvancedOption::CleanSkyline),
            advanced_options@.contains(AdvancedOption::CleanArc),
        ));
        assert(deployment_views(plan.deployments@) =~= seq![
            (BundledTree::Skyline, skyline_folder_spec(sdmc_chars)),
            (BundledTree::ArcConfig, arc_config_folder_spec(sdmc_chars, user_profile@)),
            (BundledTree::ArcMods, arc_mods_folder_spec(sdmc_chars)),
        ]);
    }
    Ok(plan)
}

/// Computes the Save plan: one deployment of the bundled save data into
/// the profile's per-title save directory.
///
/// Fails with a not-found error exactly when the primary storage root is
/// unresolved.
pub fn optimize_save(config: &OptimizerConfig, user_profile: &UserProfile) -> (r: Result<
    DeploymentPlan,
    OptimizerError,
>)
    ensures
        match config.emu_filesystem.nand_folder {
            None => r matches Err(e) && e.kind == ErrorKind::NotFound,
            Some(nand) => {
                &&& r matches Ok(plan)
                &&& plan.cleanups@.len() == 0
                &&& deployment_views(plan.deployments@) == seq![
                    (BundledTree::SaveData, save_folder_spec(nand@, user_profile@)),
                ]
            },
        },
{
    let save_file_path = match config.get_save_folder(user_profile) {
        Ok(p) => p,
        Err(e) => {
            return Err(e);
        },
    };
    let deployments: Vec<(BundledTree, String)> = vec![(BundledTree::SaveData, save_file_path)];
    let plan = DeploymentPlan { cleanups: Vec::new(), deployments };
    proof {
        assert(deployment_views(plan.deployments@) =~= seq![
            (
                BundledTree::SaveData,
                save_folder_spec(config.emu_filesystem.nand_folder->Some_0@, user_profile@),
            ),
        ]);
    }
    Ok(plan)
}

} // verus!
