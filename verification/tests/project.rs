use sm_pkg::plugins::Definition;
use sm_pkg::project::configs::{
    merge_options, put_option, render_options, tag_at, write_tag, ConfigSource, TagFormat,
    TemplateKind,
};
use sm_pkg::project::{Game, Package, Project, ProjectError, SimpleConfig, TemplateSet};
use sm_pkg::repo::LocalRepo;
use sm_pkg::sdk::Branch;
use sm_pkg::templates::{AdminsCfg, CoreCfg, MaplistsCfg, StartSh};

fn plugin(name: &str) -> Definition {
    Definition {
        name: name.to_string(),
        description: String::new(),
        version: "1.0.0".to_string(),
        inputs: None,
        url: None,
        authors: None,
        license: None,
        dependencies: None,
        path: None,
        configs: None,
        games: None,
    }
}

fn option(key: &str, value: &str) -> (String, String) {
    (key.to_string(), value.to_string())
}

fn start_options() -> StartSh {
    StartSh {
        use_64bit: None,
        mod_folder: "tf".to_string(),
        port: None,
        tv_port: None,
        client_port: None,
        max_players: None,
        unrestricted_max_players: None,
        map: None,
        gslt: None,
        rcon_password: None,
        sv_password: None,
        region: None,
        ip: None,
        sdr_enable: None,
        workshop_authkey: None,
    }
}

fn core_cfg() -> CoreCfg {
    CoreCfg {
        logging: None,
        log_mode: None,
        log_time_format: None,
        server_lang: None,
        public_chat_trigger: None,
        silent_chat_trigger: None,
        silent_fail_suppress: None,
        pass_info_var: None,
        allow_cl_language_var: None,
        disable_auto_update: None,
        force_restart_after_update: None,
        auto_update_url: None,
        debug_spew: None,
        steam_authstring_validation: None,
        block_bad_plugins: None,
        slow_script_timeout: None,
        follow_csgo_server_guidelines: None,
        jit_metadata: None,
        enable_line_debugging: None,
    }
}

fn loaded<'p>(repo: &'p LocalRepo, plugins: &[&str]) -> Project<'p> {
    let mut project = Project::new("/srv/tf2", repo).unwrap();
    let mut package = Package::new(Game::TF, Branch::Stable);
    package.plugins = plugins.iter().map(|p| p.to_string()).collect();
    project.open(Some(package)).unwrap();
    project
}

#[test]
fn a_new_project_has_no_manifest() {
    let repo = LocalRepo::new("/srv/app");
    let project = Project::new("/srv/tf2", &repo).unwrap();
    assert!(project.package.is_none());
    assert_eq!(project.project_root(), "/srv/tf2");
    assert_eq!(project.project_file_path(), "/srv/tf2/sm-pkg.yaml");
    assert!(!project.has_plugin("connect"));
    assert!(matches!(project.save_package_config(), Err(ProjectError::NoPackage)));
}

#[test]
fn open_without_a_manifest_fails() {
    let repo = LocalRepo::new("/srv/app");
    let mut project = Project::new("/srv/tf2", &repo).unwrap();
    let err = project.open(None).unwrap_err();
    assert!(matches!(err, ProjectError::NotInitialized));
    assert_eq!(err.message(), "No sm-pkg.yaml found, has the project been initialized?");
    assert!(project.package.is_none());
}

#[test]
fn open_or_new_starts_a_manifest_only_where_there_is_none() {
    let repo = LocalRepo::new("/srv/app");
    let mut fresh = Project::new("/srv/tf2", &repo).unwrap();
    assert!(fresh.open_or_new(None, Branch::Dev, Game::TF));
    let package = fresh.package.as_ref().unwrap();
    assert_eq!(package.game, Game::TF);
    assert_eq!(package.branch, Branch::Dev);
    assert!(package.plugins.is_empty());
    assert!(package.templates.is_none());

    let mut existing = Package::new(Game::TF, Branch::Stable);
    existing.plugins.push("connect".to_string());
    let mut project = Project::new("/srv/tf2", &repo).unwrap();
    assert!(!project.open_or_new(Some(existing), Branch::Dev, Game::TF));
    assert_eq!(project.package.as_ref().unwrap().branch, Branch::Stable);
    assert_eq!(project.package.as_ref().unwrap().plugins, vec!["connect".to_string()]);
}

#[test]
fn the_manifest_that_is_saved_is_the_one_loaded() {
    let repo = LocalRepo::new("/srv/app");
    let project = loaded(&repo, &["connect", "sourcemod-misc"]);
    let saved = project.save_package_config().unwrap();
    assert_eq!(saved.game, Game::TF);
    assert_eq!(saved.branch, Branch::Stable);
    assert_eq!(saved.plugins, vec!["connect".to_string(), "sourcemod-misc".to_string()]);
}

#[test]
fn add_plugin_stores_the_lower_case_name() {
    let repo = LocalRepo::new("/srv/app");
    let mut project = loaded(&repo, &["connect"]);
    project.add_plugin(plugin("Discord")).unwrap();
    assert_eq!(
        project.package.as_ref().unwrap().plugins,
        vec!["connect".to_string(), "discord".to_string()]
    );
    assert!(project.has_plugin("discord"));
    assert!(project.has_plugin("DISCORD"));
    assert!(!project.has_plugin("disc"));
}

#[test]
fn adding_a_present_plugin_fails_and_changes_nothing() {
    let repo = LocalRepo::new("/srv/app");
    let mut project = loaded(&repo, &["connect", "discord"]);
    for name in ["connect", "Connect", "DISCORD"] {
        match project.add_plugin(plugin(name)) {
            Err(ProjectError::AlreadyExists(n)) => assert_eq!(n, name),
            other => panic!("unexpected: {:?}", other),
        }
        assert_eq!(
            project.package.as_ref().unwrap().plugins,
            vec!["connect".to_string(), "discord".to_string()]
        );
    }
}

#[test]
fn adding_without_a_manifest_fails() {
    let repo = LocalRepo::new("/srv/app");
    let mut project = Project::new("/srv/tf2", &repo).unwrap();
    assert!(matches!(project.add_plugin(plugin("connect")), Err(ProjectError::NoPackage)));
    assert!(project.package.is_none());
}

#[test]
fn removing_an_absent_plugin_fails_and_changes_nothing() {
    let repo = LocalRepo::new("/srv/app");
    let mut project = loaded(&repo, &["connect", "discord"]);
    match project.remove_plugin(plugin("ghost")) {
        Err(ProjectError::NotFound(n)) => assert_eq!(n, "ghost"),
        other => panic!("unexpected: {:?}", other),
    }
    assert_eq!(
        project.package.as_ref().unwrap().plugins,
        vec!["connect".to_string(), "discord".to_string()]
    );
    let mut empty = Project::new("/srv/tf2", &repo).unwrap();
    assert!(matches!(empty.remove_plugin(plugin("connect")), Err(ProjectError::NotFound(_))));
}

#[test]
fn remove_plugin_takes_the_name_out_and_keeps_the_order() {
    let repo = LocalRepo::new("/srv/app");
    let mut project = loaded(&repo, &["a", "connect", "b"]);
    project.remove_plugin(plugin("connect")).unwrap();
    assert_eq!(project.package.as_ref().unwrap().plugins, vec!["a".to_string(), "b".to_string()]);
    assert!(!project.has_plugin("connect"));
}

#[test]
fn remove_plugin_matches_without_regard_to_case() {
    let repo = LocalRepo::new("/srv/app");
    let mut project = loaded(&repo, &["a", "connect", "b"]);
    project.remove_plugin(plugin("Connect")).unwrap();
    assert_eq!(project.package.as_ref().unwrap().plugins, vec!["a".to_string(), "b".to_string()]);
    assert!(!project.has_plugin("connect"));
    assert!(!project.has_plugin("Connect"));
    assert!(matches!(project.remove_plugin(plugin("CONNECT")), Err(ProjectError::NotFound(_))));
}

#[test]
fn the_tag_names_version_and_time() {
    assert_eq!(
        write_tag(&TagFormat::Ini, "2024-05-01 12:00:00"),
        "// Generated by sm-pkg-0.1.0 - 2024-05-01 12:00:00\n// DO NOT EDIT THIS FILE MANUALLY\n"
    );
    assert_eq!(
        write_tag(&TagFormat::Shell, "2024-05-01 12:00:00"),
        "# Generated by sm-pkg-0.1.0 - 2024-05-01 12:00:00\n# DO NOT EDIT THIS FILE MANUALLY\n"
    );
}

#[test]
fn the_tag_of_a_moment_is_written_in_utc() {
    assert_eq!(
        tag_at(&TagFormat::Ini, 0).unwrap(),
        "// Generated by sm-pkg-0.1.0 - 1970-01-01 00:00:00\n// DO NOT EDIT THIS FILE MANUALLY\n"
    );
    assert_eq!(
        tag_at(&TagFormat::Shell, 1_700_000_000).unwrap(),
        "# Generated by sm-pkg-0.1.0 - 2023-11-14 22:13:20\n# DO NOT EDIT THIS FILE MANUALLY\n"
    );
    assert!(tag_at(&TagFormat::Ini, i64::MAX).is_none());
}

#[test]
fn options_are_rendered_one_line_each() {
    let options = vec![option("sm_cvar", "1"), option("hostname", "my server")];
    assert_eq!(render_options(&options), "sm_cvar \"1\"\nhostname \"my server\"\n");
    assert_eq!(render_options(&Vec::new()), "");
}

#[test]
fn put_option_replaces_or_appends() {
    let mut options = vec![option("a", "1"), option("b", "2")];
    put_option(&mut options, "b".to_string(), "3".to_string());
    assert_eq!(options, vec![option("a", "1"), option("b", "3")]);
    put_option(&mut options, "c".to_string(), "4".to_string());
    assert_eq!(options, vec![option("a", "1"), option("b", "3"), option("c", "4")]);
    let mut empty = Vec::new();
    put_option(&mut empty, "k".to_string(), "v".to_string());
    assert_eq!(empty, vec![option("k", "v")]);
}

#[test]
fn merge_options_puts_the_overrides_over_the_base() {
    let mut base = vec![option("a", "1"), option("b", "2")];
    merge_options(&mut base, &vec![option("z", "26"), option("a", "one"), option("z", "again")]);
    assert_eq!(base, vec![option("a", "one"), option("b", "2"), option("z", "again")]);
}

#[test]
fn without_a_manifest_nothing_is_written() {
    let repo = LocalRepo::new("/srv/app");
    let project = Project::new("/srv/tf2", &repo).unwrap();
    let plan = project.write_configs();
    assert!(plan.writes.is_empty());
    assert!(matches!(plan.failure, Some(ProjectError::NoPackage)));
    assert_eq!(plan.failure.unwrap().message(), "No package loaded");
}

#[test]
fn templates_are_written_in_a_fixed_order() {
    let repo = LocalRepo::new("/srv/app");
    let mut project = loaded(&repo, &[]);
    project.package.as_mut().unwrap().templates = Some(TemplateSet {
        sourcemod_cfg: None,
        maplists_cfg: Some(MaplistsCfg { default_target: None }),
        databases_cfg: None,
        core_cfg: Some(core_cfg()),
        admins_simple_ini: None,
        admins_cfg: Some(AdminsCfg { users: None }),
        admin_groups_cfg: None,
        admin_overrides_cfg: None,
    });
    let plan = project.write_configs();
    assert!(plan.failure.is_none());
    let paths: Vec<&str> = plan.writes.iter().map(|w| w.path.as_str()).collect();
    assert_eq!(
        paths,
        vec![
            "/srv/tf2/tf/addons/sourcemod/configs/core.cfg",
            "/srv/tf2/tf/addons/sourcemod/configs/maplists.cfg",
            "/srv/tf2/tf/addons/sourcemod/configs/admins.cfg",
        ]
    );
    for write in &plan.writes {
        assert_eq!(write.format, TagFormat::Ini);
        assert!(!write.executable);
        assert!(write.render("2024-05-01 12:00:00").is_none());
        assert!(write.body().is_none());
    }
    assert!(matches!(plan.writes[0].source, ConfigSource::Template(TemplateKind::CoreCfg)));
    assert_eq!(TemplateKind::SourcemodCfg.path(), "tf/cfg/sourcemod/sourcemod.cfg");
}

#[test]
fn raw_configs_are_rendered_after_the_tag() {
    let repo = LocalRepo::new("/srv/app");
    let mut project = loaded(&repo, &[]);
    project.package.as_mut().unwrap().raw_configs = Some(vec![SimpleConfig {
        path: "tf/cfg/server.cfg".to_string(),
        options: vec![option("hostname", "my server"), option("sv_lan", "0")],
    }]);
    let plan = project.write_configs();
    assert!(plan.failure.is_none());
    assert_eq!(plan.writes.len(), 1);
    let write = &plan.writes[0];
    assert_eq!(write.path, "/srv/tf2/tf/cfg/server.cfg");
    assert_eq!(write.body().unwrap(), "hostname \"my server\"\nsv_lan \"0\"\n");
    assert_eq!(
        write.render("2024-05-01 12:00:00").unwrap(),
        "// Generated by sm-pkg-0.1.0 - 2024-05-01 12:00:00\n// DO NOT EDIT THIS FILE MANUALLY\nhostname \"my server\"\nsv_lan \"0\"\n"
    );
    assert_eq!(write.tag("t"), write_tag(&TagFormat::Ini, "t"));
}

#[test]
fn rendering_twice_differs_only_in_the_time_stamp_line() {
    let repo = LocalRepo::new("/srv/app");
    let mut project = loaded(&repo, &[]);
    project.package.as_mut().unwrap().raw_configs = Some(vec![SimpleConfig {
        path: "tf/cfg/server.cfg".to_string(),
        options: vec![option("hostname", "my server"), option("sv_lan", "0")],
    }]);
    let first = project.write_configs();
    let second = project.write_configs();
    assert_eq!(first.writes.len(), second.writes.len());
    let a = first.writes[0].render("2024-05-01 12:00:00").unwrap();
    let b = second.writes[0].render("2031-01-01 00:00:01").unwrap();
    assert_ne!(a, b);
    let a_lines: Vec<&str> = a.lines().collect();
    let b_lines: Vec<&str> = b.lines().collect();
    assert_eq!(a_lines.len(), b_lines.len());
    assert_ne!(a_lines[0], b_lines[0]);
    assert_eq!(a_lines[1..], b_lines[1..]);
    assert_eq!(
        first.writes[0].render("same").unwrap(),
        second.writes[0].render("same").unwrap()
    );
}

#[test]
fn a_start_script_without_options_ends_the_generation() {
    let repo = LocalRepo::with_index("/srv/app", vec![plugin("connect")]);
    let mut project = loaded(&repo, &["connect"]);
    {
        let package = project.package.as_mut().unwrap();
        package.create_startup_script = Some(true);
        package.raw_configs =
            Some(vec![SimpleConfig { path: "a.cfg".to_string(), options: Vec::new() }]);
    }
    let plan = project.write_configs();
    assert_eq!(plan.writes.len(), 1);
    assert_eq!(plan.writes[0].path, "/srv/tf2/a.cfg");
    let failure = plan.failure.unwrap();
    assert!(matches!(failure, ProjectError::NoStartupOptions));
    assert_eq!(failure.message(), "No startup_opts definition found");
}

#[test]
fn the_start_script_is_a_shell_file_made_executable() {
    let repo = LocalRepo::new("/srv/app");
    let mut project = loaded(&repo, &[]);
    {
        let package = project.package.as_mut().unwrap();
        package.create_startup_script = Some(true);
        package.startup_opts = Some(start_options());
    }
    let plan = project.write_configs();
    assert!(plan.failure.is_none());
    assert_eq!(plan.writes.len(), 1);
    assert_eq!(plan.writes[0].path, "/srv/tf2/start.sh");
    assert_eq!(plan.writes[0].format, TagFormat::Shell);
    assert!(plan.writes[0].executable);

    project.package.as_mut().unwrap().create_startup_script = Some(false);
    assert!(project.write_configs().writes.is_empty());
}

#[test]
fn plugin_configs_take_the_options_of_the_project() {
    let mut connect = plugin("connect");
    connect.configs = Some(vec![
        SimpleConfig {
            path: "tf/cfg/sourcemod/connect.cfg".to_string(),
            options: vec![option("connect_enabled", "1"), option("connect_mode", "a")],
        },
        SimpleConfig { path: "tf/cfg/sourcemod/other.cfg".to_string(), options: vec![option("x", "y")] },
    ]);
    let repo = LocalRepo::with_index("/srv/app", vec![plugin("plain"), connect]);
    let mut project = loaded(&repo, &["plain", "connect"]);
    project.package.as_mut().unwrap().plugin_configs = Some(vec![SimpleConfig {
        path: "tf/cfg/sourcemod/connect.cfg".to_string(),
        options: vec![option("connect_mode", "b"), option("connect_extra", "z")],
    }]);
    let plan = project.write_configs();
    assert!(plan.failure.is_none());
    assert_eq!(plan.writes.len(), 2);
    assert_eq!(plan.writes[0].path, "/srv/tf2/tf/cfg/sourcemod/connect.cfg");
    assert_eq!(
        plan.writes[0].body().unwrap(),
        "connect_enabled \"1\"\nconnect_mode \"b\"\nconnect_extra \"z\"\n"
    );
    assert_eq!(plan.writes[1].path, "/srv/tf2/tf/cfg/sourcemod/other.cfg");
    assert_eq!(plan.writes[1].body().unwrap(), "x \"y\"\n");
}

#[test]
fn an_unknown_plugin_ends_the_generation() {
    let mut connect = plugin("connect");
    connect.configs =
        Some(vec![SimpleConfig { path: "connect.cfg".to_string(), options: Vec::new() }]);
    let mut late = plugin("late");
    late.configs = Some(vec![SimpleConfig { path: "late.cfg".to_string(), options: Vec::new() }]);
    let repo = LocalRepo::with_index("/srv/app", vec![connect, late]);
    let project = loaded(&repo, &["connect", "ghost", "late"]);
    let plan = project.write_configs();
    assert_eq!(plan.writes.len(), 1);
    assert_eq!(plan.writes[0].path, "/srv/tf2/connect.cfg");
    match plan.failure {
        Some(ProjectError::UnknownPlugin(name)) => assert_eq!(name, "ghost"),
        other => panic!("unexpected: {:?}", other),
    }
}

#[test]
fn only_team_fortress_has_a_folder() {
    assert!(Game::TF.is_supported());
    assert!(!Game::CSTRIKE.is_supported());
    assert_eq!(Game::TF.mod_folder(), "tf");
    assert_eq!(Game::TF.to_string(), "Team Fortress 2");
    assert_eq!(Game::default(), Game::TF);
}

#[test]
fn names_are_kept_once_and_in_order() {
    let mut package = Package::new(Game::TF, Branch::Stable);
    assert!(package.add_name("connect".to_string()));
    assert!(package.add_name("discord".to_string()));
    assert!(!package.add_name("connect".to_string()));
    assert_eq!(package.plugins, vec!["connect".to_string(), "discord".to_string()]);
    assert!(package.has_name("discord"));
    assert!(!package.has_name("Discord"));
    package.remove_name("connect");
    assert_eq!(package.plugins, vec!["discord".to_string()]);
    package.remove_name("ghost");
    assert_eq!(package.plugins, vec!["discord".to_string()]);
}

#[test]
fn a_manifest_that_is_opened_is_saved_unchanged() {
    let repo = LocalRepo::new("/srv/app");
    let mut package = Package::new(Game::TF, Branch::Dev);
    package.plugins = vec!["B".to_string(), "a".to_string(), "B".to_string()];
    package.description = Some("my server".to_string());
    let mut project = Project::new("/srv/tf2", &repo).unwrap();
    project.open(Some(package)).unwrap();
    let saved = project.save_package_config().unwrap();
    assert_eq!(saved.game, Game::TF);
    assert_eq!(saved.branch, Branch::Dev);
    assert_eq!(saved.plugins, vec!["B".to_string(), "a".to_string(), "B".to_string()]);
    assert_eq!(saved.description, Some("my server".to_string()));
}
