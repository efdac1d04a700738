use sm_pkg::plugins::{
    build, build_one, create_build_root, outputs, BuildError, BuildStep, Definition,
};
use sm_pkg::repo::{LocalRepo, RepoError};
use sm_pkg::sdk::Environment;

fn buildable(name: &str, dependencies: Option<Vec<&str>>) -> Definition {
    Definition {
        name: name.to_string(),
        description: String::new(),
        version: "1.0.0".to_string(),
        inputs: Some(vec![format!("{}.sp", name)]),
        url: None,
        authors: None,
        license: None,
        dependencies: dependencies.map(|list| list.iter().map(|d| d.to_string()).collect()),
        path: None,
        configs: None,
        games: None,
    }
}

fn shown(steps: &[BuildStep]) -> Vec<String> {
    steps
        .iter()
        .map(|step| match step {
            BuildStep::RequireSource { path, plugin } => format!("source {} {}", plugin, path),
            BuildStep::CreateDir { path } => format!("mkdir {}", path),
            BuildStep::CopyTree { from, to } => format!("copy {} -> {}", from, to),
            BuildStep::RequireIncludes { path, dependency } => {
                format!("includes {} {}", dependency, path)
            }
        })
        .collect()
}

/// Carries the steps out on a file system that holds the directories `present`.
fn run(steps: &[BuildStep], present: &[&str]) -> Result<Vec<String>, BuildError> {
    let mut done = Vec::new();
    for step in steps {
        let exists = match step.required_dir() {
            Some(dir) => present.contains(&dir),
            None => true,
        };
        step.check(exists)?;
        match step {
            BuildStep::CreateDir { path } => done.push(format!("mkdir {}", path)),
            BuildStep::CopyTree { from, to } => done.push(format!("copy {} -> {}", from, to)),
            _ => {}
        }
    }
    Ok(done)
}

#[test]
fn a_build_root_is_named_by_the_second() {
    assert_eq!(create_build_root("/srv/app", 100), "/srv/app/build/bld-100");
    assert_eq!(create_build_root("/srv/app", 1_700_000_000), "/srv/app/build/bld-1700000000");
    assert_eq!(create_build_root("/srv/app", 0), "/srv/app/build/bld-0");
}

#[test]
fn building_a_plugin_stages_its_sources_and_the_includes_of_its_dependency() {
    let repo = LocalRepo::with_index(
        "/srv/app",
        vec![buildable("connect", Some(vec!["sourcemod-misc"])), buildable("sourcemod-misc", None)],
    );
    let env = Environment::new("/srv/app/sdks/sourcemod-1.12".to_string());
    let builds =
        build("/srv/app", &env, "/srv/app/build/bld-100", &repo, &vec!["connect".to_string()])
            .unwrap();
    assert_eq!(builds.len(), 1);
    let connect = &builds[0];
    assert_eq!(connect.definition.name, "connect");
    assert_eq!(
        shown(&connect.steps),
        vec![
            "source connect /srv/app/repo/connect/src",
            "mkdir /srv/app/build/bld-100/connect",
            "copy /srv/app/repo/connect/src -> /srv/app/build/bld-100/connect",
            "mkdir /srv/app/build/bld-100/connect/include",
            "includes sourcemod-misc /srv/app/repo/sourcemod-misc/src/scripting/include",
            "copy /srv/app/repo/sourcemod-misc/src/scripting/include -> /srv/app/build/bld-100/connect/include",
        ]
    );
    assert_eq!(connect.include_dir, "/srv/app/build/bld-100/connect/include");
    assert_eq!(
        connect.args.active_dir,
        Some("/srv/app/build/bld-100/connect/scripting".to_string())
    );
    assert_eq!(
        connect.args.includes,
        vec!["/srv/app/sdks/sourcemod-1.12/addons/sourcemod/scripting/include".to_string()]
    );
    let out = outputs(&builds);
    assert_eq!(out.len(), 1);
    assert!(out[0].ends_with("/connect"));
    assert_eq!(out[0], "/srv/app/build/bld-100/connect");
    assert_eq!(connect.build_dir, out[0]);
}

#[test]
fn a_dependency_without_includes_ends_the_build() {
    let repo = LocalRepo::with_index(
        "/srv/app",
        vec![buildable("connect", Some(vec!["sourcemod-misc"])), buildable("sourcemod-misc", None)],
    );
    let env = Environment::new("/sdk".to_string());
    let builds = build("/srv/app", &env, "/b", &repo, &vec!["connect".to_string()]).unwrap();
    let err = run(&builds[0].steps, &["/srv/app/repo/connect/src"]).unwrap_err();
    match &err {
        BuildError::IncludesMissing { dependency, path } => {
            assert_eq!(dependency, "sourcemod-misc");
            assert_eq!(path, "/srv/app/repo/sourcemod-misc/src/scripting/include");
        }
        other => panic!("unexpected: {:?}", other),
    }
    assert_eq!(
        err.message(),
        "Include directory of dependency sourcemod-misc not found: /srv/app/repo/sourcemod-misc/src/scripting/include"
    );
    let done = run(
        &builds[0].steps,
        &["/srv/app/repo/connect/src", "/srv/app/repo/sourcemod-misc/src/scripting/include"],
    )
    .unwrap();
    assert_eq!(done.len(), 4);
}

#[test]
fn a_plugin_without_sources_ends_the_build_before_anything_is_done() {
    let env = Environment::new("/sdk".to_string());
    let one = build_one("/srv/app", &env, "/b", buildable("connect", None));
    match run(&one.steps, &[]).unwrap_err() {
        BuildError::SourceMissing { plugin, path } => {
            assert_eq!(plugin, "connect");
            assert_eq!(path, "/srv/app/repo/connect/src");
        }
        other => panic!("unexpected: {:?}", other),
    }
    assert!(one.steps[1].check(false).is_ok());
    assert!(one.steps[1].required_dir().is_none());
}

#[test]
fn dependencies_are_staged_in_the_order_declared() {
    let env = Environment::new("/sdk".to_string());
    let one = build_one("/a", &env, "/b", buildable("p", Some(vec!["first", "second"])));
    assert_eq!(
        shown(&one.steps)[3..],
        [
            "mkdir /b/p/include",
            "includes first /a/repo/first/src/scripting/include",
            "copy /a/repo/first/src/scripting/include -> /b/p/include",
            "includes second /a/repo/second/src/scripting/include",
            "copy /a/repo/second/src/scripting/include -> /b/p/include",
        ]
    );
    let none = build_one("/a", &env, "/b", buildable("p", Some(Vec::new())));
    assert_eq!(shown(&none.steps).len(), 4);
    let plain = build_one("/a", &env, "/b", buildable("p", None));
    assert_eq!(
        shown(&plain.steps),
        vec!["source p /a/repo/p/src", "mkdir /b/p", "copy /a/repo/p/src -> /b/p", "mkdir /b/p/include"]
    );
    assert_eq!(plain.include_dir, "/b/p/include");
}

#[test]
fn builds_come_in_the_order_of_the_names() {
    let repo = LocalRepo::with_index(
        "/srv/app",
        vec![buildable("a", None), buildable("b", None), buildable("c", None)],
    );
    let env = Environment::new("/sdk".to_string());
    let wanted = vec!["c".to_string(), "a".to_string(), "c".to_string()];
    let builds = build("/srv/app", &env, "/b", &repo, &wanted).unwrap();
    assert_eq!(outputs(&builds), vec!["/b/c".to_string(), "/b/a".to_string(), "/b/c".to_string()]);
    assert!(build("/srv/app", &env, "/b", &repo, &Vec::new()).unwrap().is_empty());
}

#[test]
fn an_unknown_plugin_fails_the_whole_build() {
    let repo = LocalRepo::with_index("/srv/app", vec![buildable("a", None)]);
    let env = Environment::new("/sdk".to_string());
    let wanted = vec!["a".to_string(), "ghost".to_string(), "other".to_string()];
    match build("/srv/app", &env, "/b", &repo, &wanted) {
        Err(RepoError::NotFound(name)) => assert_eq!(name, "ghost"),
        other => panic!("unexpected: {:?}", other.map(|b| b.len())),
    }
}

#[test]
fn a_build_compiles_with_the_staged_includes_on_the_path() {
    let env = Environment::new("/sdk".to_string());
    let one = build_one("/a", &env, "/b", buildable("connect", None));
    let calls = one.compile(&env, "/abs/b/connect/include".to_string());
    assert_eq!(calls.len(), 1);
    assert_eq!(calls[0].input, "connect.sp");
    assert_eq!(calls[0].output, "/b/connect/scripting/../plugins/connect.smx");
    assert_eq!(
        calls[0].args,
        vec![
            "-z", "9", "-t", "4", "-D", "/b/connect/scripting", "-o",
            "/b/connect/scripting/../plugins/connect.smx", "-i",
            "/sdk/addons/sourcemod/scripting/include", "-i", "/abs/b/connect/include", "-E",
            "--require-semicolons", "--use-stderr", "--show-stats", "connect.sp",
        ]
    );
    assert_eq!(one.args.includes.len(), 1);
}

#[test]
fn builds_started_in_the_same_second_share_a_root() {
    assert_eq!(create_build_root("/srv/app", 1234), create_build_root("/srv/app", 1234));
    assert_ne!(create_build_root("/srv/app", 1234), create_build_root("/srv/app", 1235));
}

#[test]
fn plugins_that_depend_on_each_other_are_both_staged() {
    let repo = LocalRepo::with_index(
        "/srv/app",
        vec![buildable("a", Some(vec!["b"])), buildable("b", Some(vec!["a"]))],
    );
    let env = Environment::new("/sdk".to_string());
    let wanted = vec!["a".to_string(), "b".to_string()];
    let builds = build("/srv/app", &env, "/r", &repo, &wanted).unwrap();
    assert_eq!(
        shown(&builds[0].steps)[4..],
        [
            "includes b /srv/app/repo/b/src/scripting/include",
            "copy /srv/app/repo/b/src/scripting/include -> /r/a/include",
        ]
    );
    assert_eq!(
        shown(&builds[1].steps)[4..],
        [
            "includes a /srv/app/repo/a/src/scripting/include",
            "copy /srv/app/repo/a/src/scripting/include -> /r/b/include",
        ]
    );
}

#[test]
fn a_missing_source_tree_is_named_in_the_message() {
    let err = BuildError::SourceMissing {
        plugin: "connect".to_string(),
        path: "/srv/app/repo/connect/src".to_string(),
    };
    assert_eq!(
        err.message(),
        "Source directory of plugin connect not found: /srv/app/repo/connect/src"
    );
}
