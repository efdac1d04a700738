use sm_pkg::install::{install, plan_install, InstallError, InstallStep};
use sm_pkg::plugins::Definition;
use sm_pkg::project::{Game, Package};
use sm_pkg::repo::{LocalRepo, RepoError};
use sm_pkg::sdk::{Branch, SdkError};
use sm_pkg::tree::{merge_tree, FileOp, TreeEntry};
use std::collections::BTreeMap;

fn installable(name: &str) -> Definition {
    Definition {
        name: name.to_string(),
        description: String::new(),
        version: "1.0.0".to_string(),
        inputs: None,
        url: None,
        authors: None,
        license: None,
        dependencies: None,
        path: None,
        configs: None,
        games: None,
    }
}

fn told(steps: &[InstallStep]) -> Vec<String> {
    steps
        .iter()
        .map(|step| match step {
            InstallStep::RequireModFolder { path } => format!("require {}", path),
            InstallStep::InstallMetamod { branch, target_dir } => {
                format!("metamod {} {}", branch.to_string(), target_dir)
            }
            InstallStep::InstallSourcemod { branch, target_dir } => {
                format!("sourcemod {} {}", branch.to_string(), target_dir)
            }
            InstallStep::MergeTree { from, to } => format!("merge {} -> {}", from, to),
            InstallStep::WriteConfigs => "configs".to_string(),
        })
        .collect()
}

#[test]
fn build_outputs_are_merged_over_the_plugins_of_the_game() {
    let manifest = Package::new(Game::TF, Branch::Stable);
    let outputs = vec!["/srv/app/build/bld-100/pluginA".to_string()];
    let steps = plan_install("/srv/tf2", &manifest, &outputs);
    assert_eq!(
        told(&steps),
        vec![
            "require /srv/tf2/tf",
            "metamod stable /srv/tf2/tf",
            "sourcemod stable /srv/tf2/tf",
            "merge /srv/app/build/bld-100/pluginA -> /srv/tf2/tf/addons/sourcemod",
            "configs",
        ]
    );
}

#[test]
fn the_configs_are_written_even_when_nothing_was_built() {
    let manifest = Package::new(Game::TF, Branch::Dev);
    let steps = plan_install("/srv/tf2", &manifest, &Vec::new());
    assert_eq!(
        told(&steps),
        vec!["require /srv/tf2/tf", "metamod dev /srv/tf2/tf", "sourcemod dev /srv/tf2/tf", "configs"]
    );
}

#[test]
fn a_missing_game_folder_ends_the_installation() {
    let manifest = Package::new(Game::TF, Branch::Stable);
    let steps = plan_install("/srv/tf2", &manifest, &Vec::new());
    assert!(steps[0].check(true).is_ok());
    match steps[0].check(false) {
        Err(InstallError::ModFolderMissing(path)) => {
            assert_eq!(path, "/srv/tf2/tf");
            assert_eq!(
                InstallError::ModFolderMissing(path).message(),
                "Mod folder does not exist: /srv/tf2/tf"
            );
        }
        other => panic!("unexpected: {:?}", other),
    }
    for step in &steps[1..] {
        assert!(step.check(false).is_ok());
    }
}

#[test]
fn an_installation_builds_the_plugins_of_the_manifest_in_order() {
    let repo = LocalRepo::with_index("/srv/app", vec![installable("a"), installable("b")]);
    let mut manifest = Package::new(Game::TF, Branch::Stable);
    manifest.plugins = vec!["b".to_string(), "a".to_string()];
    let sdks = vec!["sourcemod-1.13".to_string(), "sourcemod-1.12".to_string()];
    let plan = install("/srv/app", &manifest, "/srv/tf2", &repo, &sdks, 7).unwrap();
    assert_eq!(plan.sdk_env.sdk_root(), "/srv/app/sdks/sourcemod-1.12");
    assert_eq!(plan.build_root, "/srv/app/build/bld-7");
    assert_eq!(plan.builds.len(), 2);
    assert_eq!(plan.builds[0].build_dir, "/srv/app/build/bld-7/b");
    assert_eq!(
        plan.builds[0].args.includes,
        vec!["/srv/app/sdks/sourcemod-1.12/addons/sourcemod/scripting/include".to_string()]
    );
    assert_eq!(
        told(&plan.steps.unwrap()),
        vec![
            "require /srv/tf2/tf",
            "metamod stable /srv/tf2/tf",
            "sourcemod stable /srv/tf2/tf",
            "merge /srv/app/build/bld-7/b -> /srv/tf2/tf/addons/sourcemod",
            "merge /srv/app/build/bld-7/a -> /srv/tf2/tf/addons/sourcemod",
            "configs",
        ]
    );
}

#[test]
fn an_installation_with_a_relative_root_finds_its_sdk() {
    let repo = LocalRepo::with_index("app", vec![installable("a")]);
    let mut manifest = Package::new(Game::TF, Branch::Dev);
    manifest.plugins = vec!["a".to_string()];
    let sdks = vec!["sourcemod-1.13".to_string()];
    let plan = install("app", &manifest, "server", &repo, &sdks, 9).unwrap();
    assert_eq!(plan.sdk_env.sdk_root(), "app/sdks/sourcemod-1.13");
    assert_eq!(plan.build_root, "app/build/bld-9");
    assert_eq!(told(&plan.steps.unwrap())[0], "require server/tf");
}

#[test]
fn a_game_without_a_known_folder_is_built_but_has_no_steps() {
    let repo = LocalRepo::with_index("/srv/app", vec![installable("a")]);
    let mut manifest = Package::new(Game::CSTRIKE, Branch::Stable);
    manifest.plugins = vec!["a".to_string()];
    let sdks = vec!["sourcemod-1.12".to_string()];
    let plan = install("/srv/app", &manifest, "/srv/cs", &repo, &sdks, 7).unwrap();
    assert_eq!(plan.builds.len(), 1);
    assert!(plan.steps.is_none());
    match install("/srv/app", &manifest, "/srv/cs", &repo, &Vec::new(), 7) {
        Err(InstallError::Sdk(SdkError::NoSdksInstalled)) => {}
        other => panic!("unexpected: {:?}", other.map(|p| p.builds.len())),
    }
}

#[test]
fn an_installation_needs_the_sdk_of_the_branch() {
    let repo = LocalRepo::with_index("/srv/app", vec![installable("a")]);
    let mut manifest = Package::new(Game::TF, Branch::Dev);
    manifest.plugins = vec!["ghost".to_string()];
    match install("/srv/app", &manifest, "/srv/tf2", &repo, &Vec::new(), 7) {
        Err(InstallError::Sdk(SdkError::NoSdksInstalled)) => {}
        other => panic!("unexpected: {:?}", other.map(|p| p.builds.len())),
    }
    let sdks = vec!["sourcemod-1.12".to_string()];
    match install("/srv/app", &manifest, "/srv/tf2", &repo, &sdks, 7) {
        Err(e) => {
            assert!(matches!(e, InstallError::Sdk(SdkError::NoSdkForBranch)));
            assert_eq!(e.message(), "No SDK found for branch");
        }
        Ok(plan) => panic!("unexpected: {:?}", plan.builds.len()),
    }
}

#[test]
fn an_unknown_plugin_fails_the_installation_before_anything_is_planned() {
    let repo = LocalRepo::with_index("/srv/app", vec![installable("a")]);
    let mut manifest = Package::new(Game::TF, Branch::Stable);
    manifest.plugins = vec!["a".to_string(), "ghost".to_string()];
    let sdks = vec!["sourcemod-1.12".to_string()];
    match install("/srv/app", &manifest, "/srv/tf2", &repo, &sdks, 7) {
        Err(e) => {
            assert!(matches!(&e, InstallError::Plugin(RepoError::NotFound(name)) if name == "ghost"));
            assert_eq!(e.message(), "Plugin not found: ghost");
        }
        Ok(plan) => panic!("unexpected: {:?}", plan.builds.len()),
    }
}

fn entry(path: &str, is_dir: bool) -> TreeEntry {
    TreeEntry { path: path.to_string(), is_dir }
}

#[test]
fn a_merge_creates_the_target_and_copies_each_file() {
    let entries = vec![entry("plugins", true), entry("plugins/a.smx", false), entry("b.txt", false)];
    let ops = merge_tree("/from", "/to", &entries);
    let told: Vec<String> = ops
        .iter()
        .map(|op| match op {
            FileOp::CreateDir { path } => format!("mkdir {}", path),
            FileOp::CopyFile { from, to } => format!("copy {} -> {}", from, to),
        })
        .collect();
    assert_eq!(
        told,
        vec![
            "mkdir /to",
            "mkdir /to/plugins",
            "copy /from/plugins/a.smx -> /to/plugins/a.smx",
            "copy /from/b.txt -> /to/b.txt",
        ]
    );
    assert_eq!(merge_tree("/from", "/to", &Vec::new()).len(), 1);
}

#[test]
fn installing_leaves_unrelated_files_and_overwrites_the_ones_built() {
    let manifest = Package::new(Game::TF, Branch::Stable);
    let output = "/srv/app/build/bld-100/pluginA".to_string();
    let steps = plan_install("/srv/tf2", &manifest, &vec![output.clone()]);

    let mut files: BTreeMap<String, String> = BTreeMap::new();
    files.insert("/srv/tf2/tf/addons/sourcemod/plugins/other.smx".to_string(), "other".to_string());
    files.insert("/srv/tf2/tf/addons/sourcemod/plugins/pluginA.smx".to_string(), "stale".to_string());
    files.insert(format!("{}/plugins/pluginA.smx", output), "fresh".to_string());
    files.insert(format!("{}/scripting/pluginA.sp", output), "source".to_string());
    let built = vec![
        entry("plugins", true),
        entry("plugins/pluginA.smx", false),
        entry("scripting", true),
        entry("scripting/pluginA.sp", false),
    ];

    for step in &steps {
        if let InstallStep::MergeTree { from, to } = step {
            assert_eq!(from, &output);
            for op in merge_tree(from, to, &built) {
                if let FileOp::CopyFile { from, to } = op {
                    let content = files[&from].clone();
                    files.insert(to, content);
                }
            }
        }
    }
    assert_eq!(files["/srv/tf2/tf/addons/sourcemod/plugins/other.smx"], "other");
    assert_eq!(files["/srv/tf2/tf/addons/sourcemod/plugins/pluginA.smx"], "fresh");
    assert_eq!(files["/srv/tf2/tf/addons/sourcemod/scripting/pluginA.sp"], "source");
    assert_eq!(files.len(), 5);
}
