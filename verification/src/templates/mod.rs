//! The values behind the generated configuration files. The library carries
//! them from the manifest to whoever renders the files; it reads none of them.

pub mod intbool;
pub mod onoffbool;
pub mod yesnobool;

use vstd::prelude::*;
use vstd::string::*;

pub use intbool::IntBool;
pub use onoffbool::OnOffBool;
pub use yesnobool::YesNoBool;

verus! {

/// How a configuration file is written down.
#[derive(Debug, Clone, Copy, PartialEq, Eq, Structural)]
pub enum Format {
    CFG,
    KV,
    TEMPLATE,
}

/// A switch that older configuration files spell `0` and `1`.
#[derive(Debug, Clone, Copy, PartialEq, Eq, Structural)]
pub enum Toggle {
    Off,
    On,
}

impl Toggle {
    pub open spec fn text(self) -> Seq<char> {
        match self {
            Toggle::Off => "0"@,
            Toggle::On => "1"@,
        }
    }

    pub fn to_string(&self) -> (r: String)
        ensures
            r@ == self.text(),
    {
        match self {
            Toggle::Off => String::from_str("0"),
            Toggle::On => String::from_str("1"),
        }
    }
}

/// Who gets a reserved slot when the server is full.
#[derive(Debug, Clone, Copy, PartialEq, Eq, Structural)]
pub enum ReserveType {
    Public,
    DropHighLatency,
    DropHighLatencyLimited,
}

impl ReserveType {
    pub open spec fn text(self) -> Seq<char> {
        match self {
            ReserveType::Public => "0"@,
            ReserveType::DropHighLatency => "1"@,
            ReserveType::DropHighLatencyLimited => "2"@,
        }
    }

    pub fn to_string(&self) -> (r: String)
        ensures
            r@ == self.text(),
    {
        match self {
            ReserveType::Public => String::from_str("0"),
            ReserveType::DropHighLatency => String::from_str("1"),
            ReserveType::DropHighLatencyLimited => String::from_str("2"),
        }
    }
}

/// How admin immunity is applied.
#[derive(Debug, Clone, Copy, PartialEq, Eq, Structural)]
pub enum ImmunityMode {
    Ignore,
    ProtectLowerAccessOnly,
    ProtectEqualOrLowerAccess,
    ProtectEqualOrLowerAccessNoAdminImmunity,
}

impl ImmunityMode {
    pub open spec fn text(self) -> Seq<char> {
        match self {
            ImmunityMode::Ignore => "0"@,
            ImmunityMode::ProtectLowerAccessOnly => "1"@,
            ImmunityMode::ProtectEqualOrLowerAccess => "2"@,
            ImmunityMode::ProtectEqualOrLowerAccessNoAdminImmunity => "3"@,
        }
    }

    pub fn to_string(&self) -> (r: String)
        ensures
            r@ == self.text(),
    {
        match self {
            ImmunityMode::Ignore => String::from_str("0"),
            ImmunityMode::ProtectLowerAccessOnly => String::from_str("1"),
            ImmunityMode::ProtectEqualOrLowerAccess => String::from_str("2"),
            ImmunityMode::ProtectEqualOrLowerAccessNoAdminImmunity => String::from_str("3"),
        }
    }
}

/// Values of `cfg/sourcemod/sourcemod.cfg`.
#[derive(Debug, Clone)]
pub struct SourcemodCfg {
    pub sm_show_activity: Option<u8>,
    pub sm_menu_sounds: Option<IntBool>,
    pub sm_vote_delay: Option<u32>,
    pub sm_datetime_format: Option<String>,
    pub sm_immunity_mode: Option<ImmunityMode>,
    pub sm_time_adjustment: Option<u32>,
    /// Seconds between chat messages, held as the bits of the single-precision
    /// number so that it passes through unchanged.
    pub sm_flood_time_bits: Option<u32>,
    pub sm_reserve_type: Option<ReserveType>,
    pub sm_reserved_slots: Option<u8>,
    pub sm_hide_slots: Option<IntBool>,
    pub sm_chat_mode: Option<IntBool>,
    pub sm_timeleft_interval: Option<u32>,
    pub sm_trigger_show: Option<IntBool>,
    pub sm_vote_progress_hintbox: Option<IntBool>,
    pub sm_vote_progress_chat: Option<IntBool>,
    pub sm_vote_progress_console: Option<IntBool>,
    pub sm_vote_progress_client_console: Option<IntBool>,
}

/// Values of `addons/sourcemod/configs/core.cfg`.
#[derive(Debug, Clone)]
pub struct CoreCfg {
    pub logging: Option<OnOffBool>,
    pub log_mode: Option<String>,
    pub log_time_format: Option<String>,
    pub server_lang: Option<String>,
    pub public_chat_trigger: Option<String>,
    pub silent_chat_trigger: Option<String>,
    pub silent_fail_suppress: Option<YesNoBool>,
    pub pass_info_var: Option<String>,
    pub allow_cl_language_var: Option<OnOffBool>,
    pub disable_auto_update: Option<YesNoBool>,
    pub force_restart_after_update: Option<YesNoBool>,
    pub auto_update_url: Option<String>,
    pub debug_spew: Option<YesNoBool>,
    pub steam_authstring_validation: Option<YesNoBool>,
    pub block_bad_plugins: Option<YesNoBool>,
    pub slow_script_timeout: Option<u32>,
    pub follow_csgo_server_guidelines: Option<YesNoBool>,
    pub jit_metadata: Option<String>,
    pub enable_line_debugging: Option<YesNoBool>,
}

/// One connection of `databases.cfg`.
#[derive(Debug, Clone)]
pub struct SourcemodDatabase {
    pub name: String,
    pub database: String,
    pub driver: Option<String>,
    pub host: Option<String>,
    pub port: Option<u16>,
    pub user: Option<String>,
    pub pass: Option<String>,
    pub timeout: Option<u32>,
}

/// Values of `addons/sourcemod/configs/databases.cfg`.
#[derive(Debug, Clone)]
pub struct DatabasesCfg {
    pub driver_default: Option<String>,
    pub databases: Option<Vec<SourcemodDatabase>>,
}

/// Values of `addons/sourcemod/configs/maplists.cfg`.
#[derive(Debug, Clone)]
pub struct MaplistsCfg {
    pub default_target: Option<String>,
}

/// One line of `admins_simple.ini`.
#[derive(Debug, Clone)]
pub struct SourcemodSimpleAdmin {
    pub identity: String,
    pub password: Option<String>,
    pub flags: String,
    pub immunity: Option<u8>,
}

/// Values of `addons/sourcemod/configs/admins_simple.ini`.
#[derive(Debug, Clone)]
pub struct AdminsSimpleIni {
    pub users: Option<Vec<SourcemodSimpleAdmin>>,
}

/// One admin of `admins.cfg`.
#[derive(Debug, Clone)]
pub struct SourcemodAdmin {
    pub name: String,
    pub auth: String,
    pub identity: String,
    pub password: Option<String>,
    pub group: Option<String>,
    pub flags: Option<String>,
    pub immunity: Option<u8>,
}

/// Values of `addons/sourcemod/configs/admins.cfg`.
#[derive(Debug, Clone)]
pub struct AdminsCfg {
    pub users: Option<Vec<SourcemodAdmin>>,
}

/// A command override inside an admin group.
#[derive(Debug, Clone)]
pub struct Override {
    pub command: String,
    pub action: String,
}

/// One group of `admin_groups.cfg`.
#[derive(Debug, Clone)]
pub struct AdminGroup {
    pub name: String,
    pub flags: Option<String>,
    pub immunity: Option<u8>,
    pub overrides: Option<Vec<Override>>,
}

/// Values of `addons/sourcemod/configs/admin_groups.cfg`.
#[derive(Debug, Clone)]
pub struct AdminGroupsCfg {
    pub default_immunity: Option<String>,
    pub groups: Option<Vec<AdminGroup>>,
}

/// One line of `admin_overrides.cfg`.
#[derive(Debug, Clone)]
pub struct AdminOverride {
    pub command: String,
    pub flags: String,
}

/// Values of `addons/sourcemod/configs/admin_overrides.cfg`.
#[derive(Debug, Clone)]
pub struct AdminOverridesCfg {
    pub overrides: Option<Vec<AdminOverride>>,
}

/// Options of the generated start script.
#[derive(Debug, Clone)]
pub struct StartSh {
    pub use_64bit: Option<bool>,
    pub mod_folder: String,
    pub port: Option<u16>,
    pub tv_port: Option<u16>,
    pub client_port: Option<u16>,
    pub max_players: Option<u8>,
    pub unrestricted_max_players: Option<bool>,
    pub map: Option<String>,
    pub gslt: Option<String>,
    pub rcon_password: Option<String>,
    pub sv_password: Option<String>,
    pub region: Option<u8>,
    pub ip: Option<String>,
    pub sdr_enable: Option<bool>,
    pub workshop_authkey: Option<String>,
}

/// A configuration file described by its format, its place and its content.
#[derive(Debug, Clone)]
pub struct FileConfig {
    pub format: Format,
    pub path: String,
    /// Text that is written as it is, before the options.
    pub raw: Option<String>,
    pub options: Option<Vec<(String, String)>>,
}

/// The lines of a plain configuration: `key = value`, one line for each
/// value, in order.
pub open spec fn cfg_lines(values: Seq<(Seq<char>, Seq<char>)>) -> Seq<char>
    decreases values.len(),
{
    if values.len() == 0 {
        Seq::empty()
    } else {
        cfg_lines(values.drop_last()) + values.last().0 + " = "@ + values.last().1 + "\n"@
    }
}

/// Renders a plain configuration.
pub fn render_cfg(values: &Vec<(String, String)>) -> (r: String)
    ensures
        r@ == cfg_lines(values.deep_view()),
{
    let ghost all = values.deep_view();
    let mut r = String::new();
    let mut i: usize = 0;
    assert(all.take(0) =~= Seq::empty());
    while i < values.len()
        invariant
            i <= values.len(),
            all == values.deep_view(),
            r@ == cfg_lines(all.take(i as int)),
        decreases values.len() - i,
    {
        let ghost before = r@;
        r.append(values[i].0.as_str());
        r.append(" = ");
        r.append(values[i].1.as_str());
        r.append("\n");
        proof {
            assert(all.take(i + 1).drop_last() =~= all.take(i as int));
            assert(all.take(i + 1).last() == values@[i as int].deep_view());
            assert(r@ =~= before + values@[i as int].0@ + " = "@ + values@[i as int].1@ + "\n"@);
        }
        i += 1;
    }
    assert(all.take(i as int) =~= all);
    r
}

impl Default for SourcemodCfg {
    /// The values that SourceMod ships with.
    fn default() -> (r: Self)
        ensures
            r.sm_show_activity == Some(13u8),
            r.sm_menu_sounds == Some(IntBool::True),
            r.sm_vote_delay == Some(30u32),
            r.sm_datetime_format.deep_view() == Some("%m/%d/%Y - %H:%M:%S"@),
            r.sm_immunity_mode == Some(ImmunityMode::ProtectLowerAccessOnly),
            r.sm_time_adjustment == Some(0u32),
            r.sm_flood_time_bits == Some(0x3F40_0000u32),
            r.sm_reserve_type == Some(ReserveType::Public),
            r.sm_reserved_slots == Some(0u8),
            r.sm_hide_slots == Some(IntBool::False),
            r.sm_chat_mode == Some(IntBool::False),
            r.sm_timeleft_interval == Some(0u32),
            r.sm_trigger_show == Some(IntBool::False),
            r.sm_vote_progress_hintbox == Some(IntBool::False),
            r.sm_vote_progress_chat == Some(IntBool::False),
            r.sm_vote_progress_console == Some(IntBool::False),
            r.sm_vote_progress_client_console == Some(IntBool::False),
    {
        SourcemodCfg {
            sm_show_activity: Some(13),
            sm_menu_sounds: Some(IntBool::True),
            sm_vote_delay: Some(30),
            sm_datetime_format: Some(String::from_str("%m/%d/%Y - %H:%M:%S")),
            sm_immunity_mode: Some(ImmunityMode::ProtectLowerAccessOnly),
            sm_time_adjustment: Some(0),
            // Three quarters of a second.
            sm_flood_time_bits: Some(0x3F40_0000),
            sm_reserve_type: Some(ReserveType::Public),
            sm_reserved_slots: Some(0),
            sm_hide_slots: Some(IntBool::False),
            sm_chat_mode: Some(IntBool::False),
            sm_timeleft_interval: Some(0),
            sm_trigger_show: Some(IntBool::False),
            sm_vote_progress_hintbox: Some(IntBool::False),
            sm_vote_progress_chat: Some(IntBool::False),
            sm_vote_progress_console: Some(IntBool::False),
            sm_vote_progress_client_console: Some(IntBool::False),
        }
    }
}

impl Default for CoreCfg {
    /// The values that SourceMod ships with.
    fn default() -> (r: Self)
        ensures
            r.logging == Some(OnOffBool::True),
            r.log_mode.deep_view() == Some("daily"@),
            r.log_time_format.deep_view() == Some("default"@),
            r.server_lang.deep_view() == Some("en"@),
            r.public_chat_trigger.deep_view() == Some("!"@),
            r.silent_chat_trigger.deep_view() == Some("/"@),
            r.silent_fail_suppress == Some(YesNoBool::False),
            r.pass_info_var.deep_view() == Some("_password"@),
            r.allow_cl_language_var == Some(OnOffBool::True),
            r.disable_auto_update == Some(YesNoBool::False),
            r.force_restart_after_update == Some(YesNoBool::False),
            r.auto_update_url.deep_view() == Some("http://update.sourcemod.net/update/"@),
            r.debug_spew == Some(YesNoBool::False),
            r.steam_authstring_validation == Some(YesNoBool::True),
            r.block_bad_plugins == Some(YesNoBool::True),
            r.slow_script_timeout == Some(8u32),
            r.follow_csgo_server_guidelines == Some(YesNoBool::True),
            r.jit_metadata.deep_view() == Some("default"@),
            r.enable_line_debugging == Some(YesNoBool::False),
    {
        CoreCfg {
            logging: Some(OnOffBool::True),
            log_mode: Some(String::from_str("daily")),
            log_time_format: Some(String::from_str("default")),
            server_lang: Some(String::from_str("en")),
            public_chat_trigger: Some(String::from_str("!")),
            silent_chat_trigger: Some(String::from_str("/")),
            silent_fail_suppress: Some(YesNoBool::False),
            pass_info_var: Some(String::from_str("_password")),
            allow_cl_language_var: Some(OnOffBool::True),
            disable_auto_update: Some(YesNoBool::False),
            force_restart_after_update: Some(YesNoBool::False),
            auto_update_url: Some(String::from_str("http://update.sourcemod.net/update/")),
            debug_spew: Some(YesNoBool::False),
            steam_authstring_validation: Some(YesNoBool::True),
            block_bad_plugins: Some(YesNoBool::True),
            slow_script_timeout: Some(8),
            follow_csgo_server_guidelines: Some(YesNoBool::True),
            jit_metadata: Some(String::from_str("default")),
            enable_line_debugging: Some(YesNoBool::False),
        }
    }
}

impl Default for DatabasesCfg {
    fn default() -> (r: Self)
        ensures
            r.driver_default is None,
            r.databases is None,
    {
        DatabasesCfg { driver_default: None, databases: None }
    }
}

impl Default for MaplistsCfg {
    fn default() -> (r: Self)
        ensures
            r.default_target is None,
    {
        MaplistsCfg { default_target: None }
    }
}

impl Default for AdminsSimpleIni {
    fn default() -> (r: Self)
        ensures
            r.users is None,
    {
        AdminsSimpleIni { users: None }
    }
}

impl Default for AdminsCfg {
    fn default() -> (r: Self)
        ensures
            r.users is None,
    {
        AdminsCfg { users: None }
    }
}

impl Default for AdminGroupsCfg {
    fn default() -> (r: Self)
        ensures
            r.default_immunity is None,
            r.groups is None,
    {
        AdminGroupsCfg { default_immunity: None, groups: None }
    }
}

impl Default for AdminOverridesCfg {
    fn default() -> (r: Self)
        ensures
            r.overrides is None,
    {
        AdminOverridesCfg { overrides: None }
    }
}

} // verus!
