//! Session configuration: the emulator's resolved file-system layout, the
//! list of known console profiles, and the locally persisted state with
//! its per-profile optimization status bookkeeping.
use vstd::prelude::*;

use crate::error::{ErrorKind, OptimizerError};
use crate::ini_file::{ini_section, ini_view, props_get};
use crate::profile::{
    opt_profile_view, profile_views, UserProfile, UserProfileView,
};
use crate::strutil::{
    dec_str, hex16, lower_of, lowercase, opt_string_view, opt_str_view, str_eq,
};

verus! {

/// Emulator assumed when none has been resolved.
pub const DEFAULT_EMU: &'static str = "yuzu";

/// Title identifier of the game all deployments target.
pub const SSBU_TITLE_ID: &'static str = "01006A800016E000";

/// The three named operations the optimizer can apply for a profile.
#[derive(Debug, Clone, Copy, PartialEq, Eq, Structural)]
pub enum Optimization {
    Settings,
    Mods,
    Save,
}

impl Optimization {
    /// The operation's display name.
    pub fn label(&self) -> (r: &'static str)
        ensures
            r@ == match self {
                Optimization::Settings => "Settings"@,
                Optimization::Mods => "Mods"@,
                Optimization::Save => "Save"@,
            },
    {
        match self {
            Optimization::Settings => "Settings",
            Optimization::Mods => "Mods",
            Optimization::Save => "Save",
        }
    }
}

/// Optional destructive pre-clean steps of the Mods operation.
#[derive(Debug, Clone, Copy, PartialEq, Eq, Structural)]
pub enum AdvancedOption {
    CleanSkyline,
    CleanArc,
}

/// Which of the three operations have completed for one profile.
#[derive(Debug, Clone, Copy, PartialEq, Eq, Structural)]
pub struct UserStatus {
    pub settings_optimized: bool,
    pub mods_optimized: bool,
    pub save_optimized: bool,
}

impl UserStatus {
    /// The status of a profile nothing has been applied for.
    pub open spec fn none_applied() -> UserStatus {
        UserStatus { settings_optimized: false, mods_optimized: false, save_optimized: false }
    }
}

impl Default for UserStatus {
    /// All three flags start out false.
    fn default() -> (r: UserStatus)
        ensures
            r == UserStatus::none_applied(),
    {
        UserStatus { settings_optimized: false, mods_optimized: false, save_optimized: false }
    }
}

/// The given status with the flag of the just-completed operation set,
/// the other two left untouched.
pub open spec fn status_with(status: UserStatus, optimization: Optimization) -> UserStatus {
    match optimization {
        Optimization::Settings => UserStatus {
            settings_optimized: true,
            mods_optimized: status.mods_optimized,
            save_optimized: status.save_optimized,
        },
        Optimization::Mods => UserStatus {
            settings_optimized: status.settings_optimized,
            mods_optimized: true,
            save_optimized: status.save_optimized,
        },
        Optimization::Save => UserStatus {
            settings_optimized: status.settings_optimized,
            mods_optimized: status.mods_optimized,
            save_optimized: true,
        },
    }
}

/// The status map an entry list denotes; a later entry for the same key
/// would win, though well-formed lists have unique keys.
pub open spec fn statuses_map_of(entries: Seq<(UserProfile, UserStatus)>) -> Map<
    UserProfileView,
    UserStatus,
>
    decreases entries.len(),
{
    if entries.len() == 0 {
        Map::empty()
    } else {
        statuses_map_of(entries.drop_last()).insert(entries.last().0@, entries.last().1)
    }
}

/// The upsert the status bookkeeping performs after an operation
/// completes: a missing entry starts from the all-false status, and only
/// the completed operation's flag is raised.
pub open spec fn recorded(
    m: Map<UserProfileView, UserStatus>,
    k: UserProfileView,
    optimization: Optimization,
) -> Map<UserProfileView, UserStatus> {
    let base = if m.dom().contains(k) {
        m[k]
    } else {
        UserStatus::none_applied()
    };
    m.insert(k, status_with(base, optimization))
}

/// Law: recording an operation for a previously unknown profile creates a
/// record with only that operation's flag set; recording another
/// operation raises its flag and keeps the first; recording the first
/// operation again changes nothing — flags never regress.
pub proof fn lemma_status_upsert_progression(m: Map<UserProfileView, UserStatus>, k: UserProfileView)
    requires
        !m.dom().contains(k),
    ensures
        recorded(m, k, Optimization::Settings)[k] == (UserStatus {
            settings_optimized: true,
            mods_optimized: false,
            save_optimized: false,
        }),
        recorded(recorded(m, k, Optimization::Settings), k, Optimization::Mods)[k] == (UserStatus {
            settings_optimized: true,
            mods_optimized: true,
            save_optimized: false,
        }),
        recorded(
            recorded(recorded(m, k, Optimization::Settings), k, Optimization::Mods),
            k,
            Optimization::Settings,
        )[k] == (UserStatus {
            settings_optimized: true,
            mods_optimized: true,
            save_optimized: false,
        }),
{
}

/// Locally persisted state: the chosen emulator data directory, the
/// selected profile, and the per-profile status records (unique keys,
/// insertion order irrelevant).
#[derive(Debug, Clone)]
pub struct LocalPersistantData {
    pub emu_folder: Option<String>,
    pub selected_user_profile: Option<UserProfile>,
    pub user_statuses: Vec<(UserProfile, UserStatus)>,
}

impl Default for LocalPersistantData {
    /// Fresh state: nothing chosen, nothing recorded.
    fn default() -> (r: LocalPersistantData)
        ensures
            r.emu_folder.is_none(),
            r.selected_user_profile.is_none(),
            r.user_statuses@.len() == 0,
    {
        LocalPersistantData {
            emu_folder: None,
            selected_user_profile: None,
            user_statuses: Vec::new(),
        }
    }
}

proof fn lemma_statuses_map_skip_tail(
    entries: Seq<(UserProfile, UserStatus)>,
    k: UserProfileView,
    i: int,
)
    requires
        0 <= i <= entries.len(),
        forall|j: int| i <= j < entries.len() ==> entries[j].0@ != k,
    ensures
        statuses_map_of(entries).dom().contains(k) == statuses_map_of(
            entries.take(i),
        ).dom().contains(k),
        statuses_map_of(entries).dom().contains(k) ==> statuses_map_of(entries)[k]
            == statuses_map_of(entries.take(i))[k],
    decreases entries.len() - i,
{
    if i < entries.len() {
        lemma_statuses_map_skip_tail(entries.drop_last(), k, i);
        assert(entries.drop_last().take(i) =~= entries.take(i));
    } else {
        assert(entries.take(i) =~= entries);
    }
}

proof fn lemma_statuses_map_update(
    entries: Seq<(UserProfile, UserStatus)>,
    idx: int,
    entry: (UserProfile, UserStatus),
)
    requires
        0 <= idx < entries.len(),
        entries[idx].0@ == entry.0@,
        forall|i: int, j: int|
            0 <= i < j < entries.len() ==> entries[i].0@ != entries[j].0@,
    ensures
        statuses_map_of(entries.update(idx, entry)) == statuses_map_of(entries).insert(
            entry.0@,
            entry.1,
        ),
    decreases entries.len(),
{
    let updated = entries.update(idx, entry);
    if idx == entries.len() - 1 {
        assert(updated.drop_last() =~= entries.drop_last());
        assert(statuses_map_of(updated) =~= statuses_map_of(entries).insert(entry.0@, entry.1));
    } else {
        lemma_statuses_map_update(entries.drop_last(), idx, entry);
        assert(updated.drop_last() =~= entries.drop_last().update(idx, entry));
        assert(entries.last().0@ != entry.0@);
        assert(statuses_map_of(updated) =~= statuses_map_of(entries).insert(entry.0@, entry.1));
    }
}

impl LocalPersistantData {
    /// The status records as a map from profile identity to status.
    pub open spec fn statuses_map(self) -> Map<UserProfileView, UserStatus> {
        statuses_map_of(self.user_statuses@)
    }

    /// Status entries never repeat a profile key.
    pub open spec fn wf(self) -> bool {
        forall|i: int, j: int|
            0 <= i < j < self.user_statuses@.len() ==> self.user_statuses@[i].0@
                != self.user_statuses@[j].0@
    }

    /// The status recorded for the given profile, or the all-false
    /// status when none has been recorded.
    pub fn get_user_status(&self, user_profile: &UserProfile) -> (r: UserStatus)
        requires
            self.wf(),
        ensures
            r == if self.statuses_map().dom().contains(user_profile@) {
                self.statuses_map()[user_profile@]
            } else {
                UserStatus::none_applied()
            },
    {
        let n: usize = self.user_statuses.len();
        let mut i: usize = 0;
        while i < n
            invariant
                i <= n,
                n == self.user_statuses@.len(),
                self.wf(),
                forall|j: int| 0 <= j < i ==> self.user_statuses@[j].0@ != user_profile@,
            decreases n - i,
        {
            if self.user_statuses[i].0.eq(user_profile) {
                proof {
                    lemma_statuses_map_skip_tail(self.user_statuses@, user_profile@, i as int + 1);
                    let prefix = self.user_statuses@.take(i as int + 1);
                    assert(prefix.drop_last() =~= self.user_statuses@.take(i as int));
                    assert(prefix.last() == self.user_statuses@[i as int]);
                }
                return self.user_statuses[i].1;
            }
            i = i + 1;
        }
        proof {
            lemma_statuses_map_skip_tail(self.user_statuses@, user_profile@, 0);
            assert(self.user_statuses@.take(0) =~= Seq::<(UserProfile, UserStatus)>::empty());
        }
        UserStatus::default()
    }

    /// Upserts the status record of the given profile after the given
    /// operation completed: only that operation's flag is raised, the
    /// other two are left as they were (false for a new record).
    pub fn record_optimization(&mut self, user_profile: &UserProfile, optimization: Optimization)
        requires
            old(self).wf(),
        ensures
            final(self).wf(),
            final(self).statuses_map() == recorded(
                old(self).statuses_map(),
                user_profile@,
                optimization,
            ),
            final(self).emu_folder == old(self).emu_folder,
            final(self).selected_user_profile == old(self).selected_user_profile,
    {
        let current = self.get_user_status(user_profile);
        let updated = match optimization {
            Optimization::Settings => UserStatus { settings_optimized: true, ..current },
            Optimization::Mods => UserStatus { mods_optimized: true, ..current },
            Optimization::Save => UserStatus { save_optimized: true, ..current },
        };
        let n: usize = self.user_statuses.len();
        let mut i: usize = 0;
        while i < n
            invariant
                i <= n,
                n == self.user_statuses@.len(),
                old(self).wf(),
                *self == *old(self),
                forall|j: int| 0 <= j < i ==> self.user_statuses@[j].0@ != user_profile@,
                updated == status_with(
                    if old(self).statuses_map().dom().contains(user_profile@) {
                        old(self).statuses_map()[user_profile@]
                    } else {
                        UserStatus::none_applied()
                    },
                    optimization,
                ),
            decreases n - i,
        {
            if self.user_statuses[i].0.eq(user_profile) {
                let key = self.user_statuses.remove(i);
                let entry = (key.0, updated);
                self.user_statuses.insert(i, entry);
                proof {
                    assert(self.user_statuses@ =~= old(self).user_statuses@.update(
                        i as int,
                        (old(self).user_statuses@[i as int].0, updated),
                    ));
                    lemma_statuses_map_update(
                        old(self).user_statuses@,
                        i as int,
                        (old(self).user_statuses@[i as int].0, updated),
                    );
                }
                return ;
            }
            i = i + 1;
        }
        let entry = (user_profile.duplicate(), updated);
        self.user_statuses.push(entry);
        proof {
            assert(self.user_statuses@.drop_last() =~= old(self).user_statuses@);
            lemma_statuses_map_skip_tail(old(self).user_statuses@, user_profile@, 0);
            assert(old(self).user_statuses@.take(0) =~= Seq::<(UserProfile, UserStatus)>::empty());
        }
    }

    /// Replaces the selected profile.
    pub fn update_selected_user(&mut self, user_profile: Option<UserProfile>)
        ensures
            final(self).selected_user_profile == user_profile,
            final(self).emu_folder == old(self).emu_folder,
            final(self).user_statuses == old(self).user_statuses,
    {
        self.selected_user_profile = user_profile;
    }
}

/// The value the default-override convention resolves a key of a section
/// to: when the section is missing, nothing; when the boolean flag at
/// `<key>\default` is present and `true`, the hardcoded fallback
/// (regardless of any explicit value); otherwise the explicit value under
/// the key, and nothing when it is absent.
pub open spec fn resolve_config_path(
    sections: Map<Seq<char>, Map<Seq<char>, Seq<char>>>,
    section: Seq<char>,
    key: Seq<char>,
    default: Option<Seq<char>>,
) -> Option<Seq<char>> {
    if !sections.dom().contains(section) {
        None
    } else {
        let props = sections[section];
        let flag_key = key + "\\default"@;
        let use_default = props.dom().contains(flag_key) && props[flag_key] == "true"@;
        if use_default {
            default
        } else if props.dom().contains(key) {
            Some(props[key])
        } else {
            None
        }
    }
}

/// The largest entry of a non-empty list of (size, name) candidates;
/// among equally large entries the last one wins.
pub open spec fn largest_entry(entries: Seq<(u64, String)>) -> (u64, String)
    recommends
        entries.len() > 0,
    decreases entries.len(),
{
    if entries.len() <= 1 {
        entries[0]
    } else {
        let rest = largest_entry(entries.drop_last());
        if entries.last().0 >= rest.0 {
            entries.last()
        } else {
            rest
        }
    }
}

/// The emulator's resolved on-disk layout: its name, the directory of its
/// INI configuration, and the two storage roots. Fields the resolution
/// could not determine stay `None`.
#[derive(Debug, Clone)]
pub struct EmuFileSystem {
    pub emu_name: Option<String>,
    pub config_folder: Option<String>,
    pub nand_folder: Option<String>,
    pub sdmc_folder: Option<String>,
}

impl Default for EmuFileSystem {
    /// A wholly unresolved layout.
    fn default() -> (r: EmuFileSystem)
        ensures
            r.emu_name.is_none(),
            r.config_folder.is_none(),
            r.nand_folder.is_none(),
            r.sdmc_folder.is_none(),
    {
        EmuFileSystem { emu_name: None, config_folder: None, nand_folder: None, sdmc_folder: None }
    }
}

impl EmuFileSystem {
    /// Whether a directory's final path segment is the `user` placeholder
    /// (compared in lowercase), marking a local emulator data directory
    /// whose sibling executable names the real emulator.
    pub fn is_user_data_segment(segment: &str) -> (r: bool)
        ensures
            r == (lower_of(segment@) == "user"@),
    {
        let lowered = lowercase(segment);
        str_eq(lowered.as_str(), "user")
    }

    /// The name of the inferred emulator binary: the largest candidate by
    /// byte size, the last one on a tie; nothing when there are no
    /// candidates.
    pub fn infer_emu_binary(entries: &Vec<(u64, String)>) -> (r: Option<String>)
        ensures
            r.is_some() == (entries@.len() > 0),
            r matches Some(name) ==> name@ == largest_entry(entries@).1@,
    {
        let n: usize = entries.len();
        if n == 0 {
            return None;
        }
        let mut best_size: u64 = entries[0].0;
        let mut best_name: String = entries[0].1.clone();
        let mut i: usize = 1;
        while i < n
            invariant
                1 <= i <= n,
                n == entries@.len(),
                best_size == largest_entry(entries@.take(i as int)).0,
                best_name@ == largest_entry(entries@.take(i as int)).1@,
            decreases n - i,
        {
            proof {
                let prefix = entries@.take(i as int + 1);
                assert(prefix.drop_last() =~= entries@.take(i as int));
                assert(prefix.last() == entries@[i as int]);
            }
            if entries[i].0 >= best_size {
                best_size = entries[i].0;
                best_name = entries[i].1.clone();
            }
            i = i + 1;
        }
        proof {
            assert(entries@.take(n as int) =~= entries@);
        }
        Some(best_name)
    }

    /// The directory holding the emulator's INI configuration: `config`
    /// under the installation directory on Windows or for a local `user`
    /// data directory, else the platform configuration root joined with
    /// the emulator's name (nothing when that root is unknown).
    pub fn config_dir(
        emu_folder: &str,
        emu_name: &str,
        local_user_data: bool,
        windows: bool,
        platform_config_root: Option<&str>,
    ) -> (r: Option<String>)
        ensures
            (windows || local_user_data) ==> opt_string_view(r) == Some(
                emu_folder@ + "/"@ + "config"@,
            ),
            !(windows || local_user_data) ==> opt_string_view(r) == (match platform_config_root {
                Some(root) => Some(root@ + "/"@ + emu_name@),
                None => None,
            }),
    {
        if windows || local_user_data {
            Some(crate::strutil::join_path(emu_folder, "config"))
        } else {
            match platform_config_root {
                Some(root) => Some(crate::strutil::join_path(root, emu_name)),
                None => None,
            }
        }
    }

    /// The path of the emulator's main INI configuration file inside its
    /// configuration directory.
    pub fn main_config_file(config_folder: &str) -> (r: String)
        ensures
            r@ == config_folder@ + "/"@ + "qt-config.ini"@,
    {
        crate::strutil::join_path(config_folder, "qt-config.ini")
    }

    /// Resolves one path key of a section by the default-override
    /// convention (see [`resolve_config_path`]).
    pub fn get_emu_config_path(
        conf: &ini::Ini,
        section: &str,
        key: &str,
        default: Option<&str>,
    ) -> (r: Option<String>)
        ensures
            opt_string_view(r) == resolve_config_path(
                ini_view(*conf),
                section@,
                key@,
                opt_str_view(default),
            ),
    {
        let props = match ini_section(conf, section) {
            Some(p) => p,
            None => {
                return None;
            },
        };
        let mut flag_key: String = key.to_owned();
        flag_key.append("\\default");
        let use_default = match props_get(props, flag_key.as_str()) {
            Some(v) => str_eq(v, "true"),
            None => false,
        };
        if use_default {
            match default {
                Some(d) => Some(d.to_owned()),
                None => None,
            }
        } else {
            match props_get(props, key) {
                Some(v) => Some(v.to_owned()),
                None => None,
            }
        }
    }

    /// Assembles the resolved layout from the emulator's name, its
    /// configuration directory, and its loaded INI configuration. With no
    /// configuration (the INI file was missing or malformed) the whole
    /// layout is unresolved; the storage roots are never computed then.
    /// Each storage root follows the default-override convention, with
    /// `<installation dir>/nand` and `/sdmc` as the hardcoded fallbacks.
    pub fn load(
        emu_folder: &str,
        emu_name: String,
        config_folder: String,
        conf: Option<&ini::Ini>,
    ) -> (r: EmuFileSystem)
        ensures
            match conf {
                None => {
                    &&& r.emu_name.is_none()
                    &&& r.config_folder.is_none()
                    &&& r.nand_folder.is_none()
                    &&& r.sdmc_folder.is_none()
                },
                Some(c) => {
                    &&& opt_string_view(r.emu_name) == Some(emu_name@)
                    &&& opt_string_view(r.config_folder) == Some(config_folder@)
                    &&& opt_string_view(r.nand_folder) == resolve_config_path(
                        ini_view(*c),
                        "Data%20Storage"@,
                        "nand_directory"@,
                        Some(emu_folder@ + "/"@ + "nand"@),
                    )
                    &&& opt_string_view(r.sdmc_folder) == resolve_config_path(
                        ini_view(*c),
                        "Data%20Storage"@,
                        "sdmc_directory"@,
                        Some(emu_folder@ + "/"@ + "sdmc"@),
                    )
                },
            },
    {
        let conf = match conf {
            None => {
                return EmuFileSystem::default();
            },
            Some(c) => c,
        };
        let default_nand = crate::strutil::join_path(emu_folder, "nand");
        let nand_folder = EmuFileSystem::get_emu_config_path(
            conf,
            "Data%20Storage",
            "nand_directory",
            Some(default_nand.as_str()),
        );
        let default_sdmc = crate::strutil::join_path(emu_folder, "sdmc");
        let sdmc_folder = EmuFileSystem::get_emu_config_path(
            conf,
            "Data%20Storage",
            "sdmc_directory",
            Some(default_sdmc.as_str()),
        );
        EmuFileSystem {
            emu_name: Some(emu_name),
            config_folder: Some(config_folder),
            nand_folder,
            sdmc_folder,
        }
    }
}

/// Whether a profile list contains the given identity.
pub fn profiles_contain(profiles: &Vec<UserProfile>, target: &UserProfile) -> (r: bool)
    ensures
        r == profile_views(profiles@).contains(target@),
{
    let n: usize = profiles.len();
    let mut i: usize = 0;
    while i < n
        invariant
            i <= n,
            n == profiles@.len(),
            forall|j: int| 0 <= j < i ==> profile_views(profiles@)[j] != target@,
        decreases n - i,
    {
        if profiles[i].eq(target) {
            proof {
                assert(profile_views(profiles@)[i as int] == target@);
            }
            return true;
        }
        i = i + 1;
    }
    proof {
        assert(!profile_views(profiles@).contains(target@));
    }
    false
}

/// The full derived session configuration.
#[derive(Debug, Clone)]
pub struct OptimizerConfig {
    pub local_data: LocalPersistantData,
    pub user_profiles: Vec<UserProfile>,
    pub emu_filesystem: EmuFileSystem,
}

/// The save-data deployment target of a profile under the primary
/// storage root.
pub open spec fn save_folder_spec(nand: Seq<char>, profile: UserProfileView) -> Seq<char> {
    nand + "/"@ + "user"@ + "/"@ + "save"@ + "/"@ + "0000000000000000"@ + "/"@ + hex16(
        profile.uuid1,
    ) + hex16(profile.uuid0) + "/"@ + SSBU_TITLE_ID@
}

/// The per-profile arcropolis configuration directory under the
/// secondary storage root.
pub open spec fn arc_config_folder_spec(sdmc: Seq<char>, profile: UserProfileView) -> Seq<char> {
    sdmc + "/"@ + "ultimate"@ + "/"@ + "arcropolis"@ + "/"@ + "config"@ + "/"@ + dec_str(
        profile.uuid0,
    ) + "/"@ + dec_str(profile.uuid1)
}

impl OptimizerConfig {
    /// Builds the session configuration from freshly derived parts and
    /// reconciles the persisted selection with the new profile list:
    /// when the profiles could not be derived, the persisted directory
    /// and selection are cleared; otherwise the directory is recorded,
    /// and a selection no longer present in the list is reset to the
    /// list's first entry, or cleared when the list is empty.
    pub fn load(
        local_data: LocalPersistantData,
        emu_folder: String,
        emu_filesystem: EmuFileSystem,
        user_profiles: Option<Vec<UserProfile>>,
    ) -> (r: OptimizerConfig)
        ensures
            r.emu_filesystem == emu_filesystem,
            r.local_data.user_statuses == local_data.user_statuses,
            match user_profiles {
                None => {
                    &&& r.user_profiles@.len() == 0
                    &&& r.local_data.emu_folder.is_none()
                    &&& r.local_data.selected_user_profile.is_none()
                },
                Some(ps) => {
                    &&& r.user_profiles == ps
                    &&& opt_string_view(r.local_data.emu_folder) == Some(emu_folder@)
                    &&& match local_data.selected_user_profile {
                        None => r.local_data.selected_user_profile.is_none(),
                        Some(sel) => {
                            if profile_views(ps@).contains(sel@) {
                                opt_profile_view(r.local_data.selected_user_profile) == Some(sel@)
                            } else if ps@.len() > 0 {
                                opt_profile_view(r.local_data.selected_user_profile) == Some(
                                    ps@[0]@,
                                )
                            } else {
                                r.local_data.selected_user_profile.is_none()
                            }
                        },
                    }
                },
            },
    {
        let mut local_data = local_data;
        match user_profiles {
            Some(user_profiles) => {
                local_data.emu_folder = Some(emu_folder);
                let keep_selection = match local_data.selected_user_profile.as_ref() {
                    Some(selected) => profiles_contain(&user_profiles, selected),
                    None => true,
                };
                if !keep_selection {
                    if user_profiles.len() > 0 {
                        local_data.selected_user_profile = Some(user_profiles[0].duplicate());
                    } else {
                        local_data.selected_user_profile = None;
                    }
                }
                OptimizerConfig { local_data, user_profiles, emu_filesystem }
            },
            None => {
                local_data.emu_folder = None;
                local_data.selected_user_profile = None;
                OptimizerConfig { local_data, user_profiles: Vec::new(), emu_filesystem }
            },
        }
    }

    /// The emulator name in use: the resolved one, or the default when
    /// none is known.
    pub open spec fn emulator_name_spec(self) -> Seq<char> {
        match self.emu_filesystem.emu_name {
            Some(n) => n@,
            None => DEFAULT_EMU@,
        }
    }

    /// The resolved emulator name, or the default when none is known.
    pub fn get_emulator_name(&self) -> (r: String)
        ensures
            r@ == self.emulator_name_spec(),
    {
        match self.emu_filesystem.emu_name.as_ref() {
            Some(n) => n.clone(),
            None => DEFAULT_EMU.to_owned(),
        }
    }

    /// The save-data deployment target for a profile, or a not-found
    /// error exactly when the primary storage root is unresolved.
    pub fn get_save_folder(&self, user_profile: &UserProfile) -> (r: Result<String, OptimizerError>)
        ensures
            match self.emu_filesystem.nand_folder {
                None => r matches Err(e) && e.kind == ErrorKind::NotFound,
                Some(nand) => r matches Ok(p) && p@ == save_folder_spec(nand@, user_profile@),
            },
    {
        match self.emu_filesystem.nand_folder.as_ref() {
            None => Err(OptimizerError::new(ErrorKind::NotFound, "Unable to find nand folder")),
            Some(nand) => {
                let mut p = nand.clone();
                p.append("/");
                p.append("user");
                p.append("/");
                p.append("save");
                p.append("/");
                p.append("0000000000000000");
                p.append("/");
                let encoded = user_profile.get_uuid_emu_storage_string();
                p.append(encoded.as_str());
                p.append("/");
                p.append(SSBU_TITLE_ID);
                proof {
                    assert(p@ =~= save_folder_spec(nand@, user_profile@));
                }
                Ok(p)
            },
        }
    }

    /// The per-profile arcropolis configuration directory, or a
    /// not-found error exactly when the secondary storage root is
    /// unresolved.
    pub fn get_arc_config_folder(&self, user_profile: &UserProfile) -> (r: Result<
        String,
        OptimizerError,
    >)
        ensures
            match self.emu_filesystem.sdmc_folder {
                None => r matches Err(e) && e.kind == ErrorKind::NotFound,
                Some(sdmc) => r matches Ok(p) && p@ == arc_config_folder_spec(
                    sdmc@,
                    user_profile@,
                ),
            },
    {
        match self.emu_filesystem.sdmc_folder.as_ref() {
            None => Err(OptimizerError::new(ErrorKind::NotFound, "Unable to find sdmc folder")),
            Some(sdmc) => {
                let uuids = user_profile.get_uuid_arc_storage_strings();
                let mut p = sdmc.clone();
                p.append("/");
                p.append("ultimate");
                p.append("/");
                p.append("arcropolis");
                p.append("/");
                p.append("config");
                p.append("/");
                p.append(uuids.0.as_str());
                p.append("/");
                p.append(uuids.1.as_str());
                proof {
                    assert(p@ =~= arc_config_folder_spec(sdmc@, user_profile@));
                }
                Ok(p)
            },
        }
    }
}

} // verus!
