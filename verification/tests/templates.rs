use sm_pkg::config::Config;
use sm_pkg::sdk::CompilerArgs;
use sm_pkg::templates::{
    render_cfg, ImmunityMode, IntBool, OnOffBool, ReserveType, Toggle, YesNoBool,
};

#[test]
fn booleans_are_spelled_as_the_files_want_them() {
    assert_eq!(IntBool::False.to_string(), "0");
    assert_eq!(IntBool::True.to_string(), "1");
    assert_eq!(OnOffBool::False.to_string(), "off");
    assert_eq!(OnOffBool::True.to_string(), "On");
    assert_eq!(YesNoBool::False.to_string(), "no");
    assert_eq!(YesNoBool::True.to_string(), "yes");
    assert_eq!(Toggle::Off.to_string(), "0");
    assert_eq!(Toggle::On.to_string(), "1");
}

#[test]
fn booleans_convert_both_ways() {
    for value in [false, true] {
        assert_eq!(IntBool::from_bool(value).as_bool(), value);
        assert_eq!(OnOffBool::from_bool(value).as_bool(), value);
        assert_eq!(YesNoBool::from_bool(value).as_bool(), value);
    }
    assert_eq!(IntBool::from_bool(true), IntBool::True);
    assert_eq!(YesNoBool::from_bool(false), YesNoBool::False);
}

#[test]
fn modes_are_spelled_as_numbers() {
    assert_eq!(ReserveType::Public.to_string(), "0");
    assert_eq!(ReserveType::DropHighLatency.to_string(), "1");
    assert_eq!(ReserveType::DropHighLatencyLimited.to_string(), "2");
    assert_eq!(ImmunityMode::Ignore.to_string(), "0");
    assert_eq!(ImmunityMode::ProtectLowerAccessOnly.to_string(), "1");
    assert_eq!(ImmunityMode::ProtectEqualOrLowerAccess.to_string(), "2");
    assert_eq!(ImmunityMode::ProtectEqualOrLowerAccessNoAdminImmunity.to_string(), "3");
}

#[test]
fn a_plain_configuration_is_rendered_line_by_line() {
    let values = vec![
        ("hostname".to_string(), "my server".to_string()),
        ("sv_lan".to_string(), "0".to_string()),
    ];
    assert_eq!(render_cfg(&values), "hostname = my server\nsv_lan = 0\n");
    assert_eq!(render_cfg(&Vec::new()), "");
}

#[test]
fn settings_fall_back_to_the_default_options() {
    let fallback = Config::open_or_default(None);
    assert_eq!(fallback.compiler_args.compress_level, Some(9));
    assert!(fallback.compiler_args.includes.is_empty());
    let mut stored = CompilerArgs::default();
    stored.tabsize = Some(8);
    let config = Config::open_or_default(Some(Config { compiler_args: stored }));
    assert_eq!(config.compiler_args.tabsize, Some(8));
}

#[test]
fn the_values_sourcemod_ships_with() {
    let sm = sm_pkg::templates::SourcemodCfg::default();
    assert_eq!(sm.sm_show_activity, Some(13));
    assert_eq!(sm.sm_menu_sounds, Some(IntBool::True));
    assert_eq!(sm.sm_vote_delay, Some(30));
    assert_eq!(sm.sm_datetime_format, Some("%m/%d/%Y - %H:%M:%S".to_string()));
    assert_eq!(sm.sm_flood_time_bits.map(f32::from_bits), Some(0.75));
    assert_eq!(sm.sm_hide_slots, Some(IntBool::False));
    let core = sm_pkg::templates::CoreCfg::default();
    assert_eq!(core.logging, Some(OnOffBool::True));
    assert_eq!(core.log_mode, Some("daily".to_string()));
    assert_eq!(core.silent_fail_suppress, Some(YesNoBool::False));
    assert_eq!(core.block_bad_plugins, Some(YesNoBool::True));
    assert_eq!(core.slow_script_timeout, Some(8));
    assert_eq!(core.auto_update_url, Some("http://update.sourcemod.net/update/".to_string()));
    assert!(sm_pkg::templates::DatabasesCfg::default().databases.is_none());
    assert!(sm_pkg::templates::MaplistsCfg::default().default_target.is_none());
    assert!(sm_pkg::templates::AdminsSimpleIni::default().users.is_none());
    assert!(sm_pkg::templates::AdminsCfg::default().users.is_none());
    assert!(sm_pkg::templates::AdminGroupsCfg::default().groups.is_none());
    assert!(sm_pkg::templates::AdminOverridesCfg::default().overrides.is_none());
}
