use sm_pkg::plugins::Definition;
use sm_pkg::repo::local_path::PathOverlay;
use sm_pkg::repo::overlay::PluginOverlays;
use sm_pkg::repo::{
    is_hit, open_default_overlays, position_of, validate_index, LocalRepo, Overlay,
    PluginDefinitionProvider, RepoError,
};

fn definition(name: &str, description: &str) -> Definition {
    Definition {
        name: name.to_string(),
        description: description.to_string(),
        version: "1.0.0".to_string(),
        inputs: Some(vec![format!("{}.sp", name)]),
        url: None,
        authors: None,
        license: None,
        dependencies: None,
        path: None,
        configs: None,
        games: None,
    }
}

fn names(list: &[&str]) -> Vec<String> {
    list.iter().map(|n| n.to_string()).collect()
}

fn index() -> Vec<Definition> {
    vec![
        definition("connect", "Connection extension"),
        definition("sourcemod-misc", "Shared include files"),
        definition("Discord", "Chat RELAY"),
    ]
}

#[test]
fn local_repo_resolves_a_name_and_fills_in_the_path() {
    let repo = LocalRepo::with_index("/srv/app", index());
    let found = repo.find_plugin_definition(&"connect".to_string()).unwrap();
    assert_eq!(found.name, "connect");
    assert_eq!(found.description, "Connection extension");
    assert_eq!(found.inputs, Some(vec!["connect.sp".to_string()]));
    assert_eq!(found.path, Some("/srv/app/repo/connect/src/scripting".to_string()));
}

#[test]
fn local_repo_without_index_knows_nothing() {
    let repo = LocalRepo::new("/srv/app");
    assert_eq!(repo.root_dir(), "/srv/app");
    assert_eq!(repo.index_path(), "/srv/app/repo/index.yaml");
    match repo.find_plugin_definition(&"connect".to_string()) {
        Err(RepoError::NotFound(name)) => assert_eq!(name, "connect"),
        other => panic!("unexpected: {:?}", other),
    }
}

#[test]
fn names_are_matched_exactly() {
    let repo = LocalRepo::with_index("/srv/app", index());
    assert!(repo.find_plugin_definition(&"Connect".to_string()).is_err());
    assert!(repo.find_plugin_definition(&"discord".to_string()).is_err());
    assert!(repo.find_plugin_definition(&"Discord".to_string()).is_ok());
}

#[test]
fn batch_lookup_keeps_length_order_and_names() {
    let repo = LocalRepo::with_index("/srv/app", index());
    let wanted = names(&["sourcemod-misc", "connect", "Discord", "connect"]);
    let found = repo.find_plugin_definitions(&wanted).unwrap();
    assert_eq!(found.len(), wanted.len());
    for (d, name) in found.iter().zip(wanted.iter()) {
        assert_eq!(&d.name, name);
        assert_eq!(d.path, Some(format!("/srv/app/repo/{}/src/scripting", name)));
    }
}

#[test]
fn batch_lookup_of_nothing_finds_nothing() {
    let repo = LocalRepo::with_index("/srv/app", index());
    assert!(repo.find_plugin_definitions(&Vec::new()).unwrap().is_empty());
}

#[test]
fn batch_lookup_fails_on_the_first_unknown_name() {
    let repo = LocalRepo::with_index("/srv/app", index());
    let wanted = names(&["connect", "nope", "sourcemod-misc", "neither"]);
    match repo.find_plugin_definitions(&wanted) {
        Err(RepoError::NotFound(name)) => assert_eq!(name, "nope"),
        other => panic!("unexpected: {:?}", other),
    }
}

#[test]
fn unknown_name_fails_and_the_error_names_it() {
    let repo = LocalRepo::with_index("/srv/app", index());
    let err = repo.find_plugin_definition(&"ghost".to_string()).unwrap_err();
    assert_eq!(err.message(), "Plugin not found: ghost");
    let mut chain: PluginOverlays<LocalRepo> = PluginOverlays::default();
    chain.add_overlay(repo);
    match chain.find_plugin_definition(&"ghost".to_string()) {
        Err(RepoError::NotFound(name)) => assert_eq!(name, "ghost"),
        other => panic!("unexpected: {:?}", other),
    }
    match chain.find_plugin_definitions(&names(&["connect", "ghost", "spirit"])) {
        Err(RepoError::NotFound(name)) => assert_eq!(name, "ghost"),
        other => panic!("unexpected: {:?}", other),
    }
}

#[test]
fn empty_chain_resolves_nothing() {
    let chain: PluginOverlays<LocalRepo> = PluginOverlays::default();
    assert_eq!(chain.len(), 0);
    assert!(chain.find_plugin_definition(&"connect".to_string()).is_err());
    assert!(chain.find_plugin_definitions(&Vec::new()).unwrap().is_empty());
}

#[test]
fn the_overlay_added_last_wins() {
    let a = LocalRepo::with_index("/a", vec![definition("X", "from a"), definition("only-a", "a")]);
    let b = LocalRepo::with_index("/b", vec![definition("X", "from b"), definition("only-b", "b")]);
    let mut chain: PluginOverlays<LocalRepo> = PluginOverlays::default();
    chain.add_overlay(a);
    assert_eq!(
        chain.find_plugin_definition(&"X".to_string()).unwrap().path,
        Some("/a/repo/X/src/scripting".to_string())
    );
    chain.add_overlay(b);
    assert_eq!(chain.len(), 2);
    let x = chain.find_plugin_definition(&"X".to_string()).unwrap();
    assert_eq!(x.path, Some("/b/repo/X/src/scripting".to_string()));
    assert_eq!(x.description, "from b");
    let only_a = chain.find_plugin_definition(&"only-a".to_string()).unwrap();
    assert_eq!(only_a.path, Some("/a/repo/only-a/src/scripting".to_string()));
    let only_b = chain.find_plugin_definition(&"only-b".to_string()).unwrap();
    assert_eq!(only_b.path, Some("/b/repo/only-b/src/scripting".to_string()));
}

#[test]
fn chain_resolves_each_name_of_a_batch_by_itself() {
    let a = LocalRepo::with_index("/a", vec![definition("X", "from a"), definition("only-a", "a")]);
    let b = LocalRepo::with_index("/b", vec![definition("X", "from b")]);
    let mut chain: PluginOverlays<LocalRepo> = PluginOverlays::default();
    chain.add_overlay(a);
    chain.add_overlay(b);
    let found = chain.find_plugin_definitions(&names(&["only-a", "X"])).unwrap();
    assert_eq!(found.len(), 2);
    assert_eq!(found[0].path, Some("/a/repo/only-a/src/scripting".to_string()));
    assert_eq!(found[1].path, Some("/b/repo/X/src/scripting".to_string()));
}

#[test]
fn a_path_overlay_shadows_the_index() {
    let local = PathOverlay::with_definitions("/home/dev/plugins", vec![definition("connect", "wip")]);
    assert_eq!(local.definition_path("connect"), "/home/dev/plugins/connect/plugin.yaml");
    let mut chain = open_default_overlays("/srv/app", index());
    assert_eq!(chain.len(), 1);
    assert_eq!(
        chain.find_plugin_definition(&"connect".to_string()).unwrap().path,
        Some("/srv/app/repo/connect/src/scripting".to_string())
    );
    chain.add_overlay(Overlay::Path(local));
    let shadowed = chain.find_plugin_definition(&"connect".to_string()).unwrap();
    assert_eq!(shadowed.path, Some("/home/dev/plugins/connect/src/scripting".to_string()));
    assert_eq!(shadowed.description, "wip");
    let kept = chain.find_plugin_definition(&"sourcemod-misc".to_string()).unwrap();
    assert_eq!(kept.path, Some("/srv/app/repo/sourcemod-misc/src/scripting".to_string()));
}

#[test]
fn an_empty_path_overlay_knows_nothing() {
    let local = PathOverlay::new("/home/dev/plugins");
    match local.find_plugin_definitions(&names(&["connect"])) {
        Err(RepoError::NotFound(name)) => assert_eq!(name, "connect"),
        other => panic!("unexpected: {:?}", other),
    }
}

#[test]
fn search_matches_lower_cased_name_or_description() {
    let repo = LocalRepo::with_index("/srv/app", index());
    let by_name = repo.search("disc").unwrap();
    assert_eq!(by_name.len(), 1);
    assert_eq!(by_name[0].name, "Discord");
    let by_description = repo.search("relay").unwrap();
    assert_eq!(by_description.len(), 1);
    assert_eq!(by_description[0].name, "Discord");
    let several = repo.search("c").unwrap();
    let found: Vec<&str> = several.iter().map(|d| d.name.as_str()).collect();
    assert_eq!(found, vec!["connect", "sourcemod-misc", "Discord"]);
}

#[test]
fn search_does_not_lower_the_query() {
    let repo = LocalRepo::with_index("/srv/app", index());
    match repo.search("Disc") {
        Err(RepoError::NoMatches) => {}
        other => panic!("unexpected: {:?}", other),
    }
    assert_eq!(repo.search("zzz").unwrap_err().message(), "No matches found");
}

#[test]
fn plugins_lists_the_whole_index_resolved() {
    let repo = LocalRepo::with_index("/srv/app/", index());
    let all = repo.plugins();
    assert_eq!(all.len(), 3);
    assert_eq!(all[0].path, Some("/srv/app/repo/connect/src/scripting".to_string()));
    assert_eq!(all[2].path, Some("/srv/app/repo/Discord/src/scripting".to_string()));
}

#[test]
fn a_definition_is_shown_by_its_name() {
    assert_eq!(definition("connect", "x").to_string(), "connect");
}

#[test]
fn an_index_names_no_plugin_twice() {
    assert!(validate_index(&index()).is_ok());
    assert!(validate_index(&Vec::new()).is_ok());
    let mut twice = index();
    twice.push(definition("other", "x"));
    twice.push(definition("sourcemod-misc", "again"));
    twice.push(definition("connect", "again"));
    match validate_index(&twice) {
        Err(RepoError::DuplicateName(name)) => {
            assert_eq!(name, "sourcemod-misc");
            assert_eq!(
                RepoError::DuplicateName(name).message(),
                "Plugin defined twice: sourcemod-misc"
            );
        }
        other => panic!("unexpected: {:?}", other),
    }
}

#[test]
fn the_first_definition_of_a_name_is_found() {
    let mut twice = index();
    twice.push(definition("connect", "again"));
    assert_eq!(position_of(&twice, "connect"), Some(0));
    assert_eq!(position_of(&twice, "Discord"), Some(2));
    assert_eq!(position_of(&twice, "ghost"), None);
    let repo = LocalRepo::with_index("/srv/app", twice);
    assert_eq!(
        repo.find_plugin_definition(&"connect".to_string()).unwrap().description,
        "Connection extension"
    );
}

#[test]
fn a_hit_is_a_query_found_in_name_or_description() {
    assert!(is_hit("connect", "connection extension", "nn"));
    assert!(is_hit("connect", "", "connect"));
    assert!(is_hit("x", "shared include files", "include"));
    assert!(is_hit("x", "y", ""));
    assert!(!is_hit("connect", "connection extension", "Conn"));
    assert!(!is_hit("", "", "a"));
}
