use blend::config::{
    get_config, manifest_text, Config, Dependency, Hooks, PathKind, MANIFEST_FILE_NAME,
};
use std::cell::Cell;

fn dependency(repo: &str, hash: &str, remote_path: &str, local_path: &str) -> Dependency {
    Dependency {
        repo: repo.to_string(),
        hash: hash.to_string(),
        remote_path: remote_path.to_string(),
        local_path: local_path.to_string(),
    }
}

fn unset() -> Config {
    Config { name: None, description: None, hooks: None, dependencies: None }
}

fn text_field(value: &serde_yaml::Value, key: &str) -> Option<String> {
    value.get(key).and_then(|field| field.as_str()).map(|field| field.to_string())
}

fn parse_yaml(text: String) -> Option<Config> {
    let document: serde_yaml::Value = serde_yaml::from_str(&text).ok()?;
    document.as_mapping()?;
    let dependencies = match document.get("dependencies") {
        None => None,
        Some(list) => {
            let mut records = Vec::new();
            for item in list.as_sequence()? {
                records.push(Dependency {
                    repo: text_field(item, "repo")?,
                    hash: text_field(item, "hash")?,
                    remote_path: text_field(item, "remote_path")?,
                    local_path: text_field(item, "local_path")?,
                });
            }
            Some(records)
        }
    };
    Some(Config {
        name: text_field(&document, "name"),
        description: text_field(&document, "description"),
        hooks: None,
        dependencies,
    })
}

#[test]
fn manifest_file_name_is_fixed() {
    assert_eq!(MANIFEST_FILE_NAME, "blend.yml");
}

#[test]
fn empty_manifest_has_an_empty_list() {
    assert_eq!(
        Config::empty(),
        Config { name: None, description: None, hooks: None, dependencies: Some(vec![]) }
    );
}

#[test]
fn first_record_starts_the_list_where_it_was_unset() {
    let mut config = unset();
    let added = config.add_dependency_if_not_exists(dependency("r", "h", "libs/foo", "vendor/foo"));
    assert!(added);
    assert_eq!(config.dependencies, Some(vec![dependency("r", "h", "libs/foo", "vendor/foo")]));
}

#[test]
fn first_record_goes_into_an_empty_list() {
    let mut config = Config::empty();
    assert!(config.add_dependency_if_not_exists(dependency("r", "h", "a", "b")));
    assert_eq!(config.dependencies, Some(vec![dependency("r", "h", "a", "b")]));
}

#[test]
fn two_records_at_distinct_local_paths_are_both_added_in_order() {
    for mut config in [unset(), Config::empty()] {
        let r = dependency("repo-r", "1", "src/r", "vendor/r");
        let s = dependency("repo-s", "2", "src/s", "vendor/s");
        assert!(config.add_dependency_if_not_exists(r));
        assert!(config.add_dependency_if_not_exists(s));
        assert_eq!(
            config.dependencies,
            Some(vec![
                dependency("repo-r", "1", "src/r", "vendor/r"),
                dependency("repo-s", "2", "src/s", "vendor/s"),
            ])
        );
    }
}

#[test]
fn records_are_appended_after_the_prior_ones() {
    let mut config = Config::empty();
    for name in ["c", "a", "b"] {
        assert!(config.add_dependency_if_not_exists(dependency("r", "h", name, name)));
    }
    let order: Vec<String> =
        config.dependencies.unwrap().into_iter().map(|record| record.local_path).collect();
    assert_eq!(order, vec!["c", "a", "b"]);
}

#[test]
fn second_record_at_the_same_local_path_is_refused() {
    let mut config = unset();
    assert!(config.add_dependency_if_not_exists(dependency("r", "h", "libs/foo", "vendor/foo")));
    let added = config.add_dependency_if_not_exists(dependency("other", "0", "x", "vendor/foo"));
    assert!(!added);
    assert_eq!(config.dependencies, Some(vec![dependency("r", "h", "libs/foo", "vendor/foo")]));
}

#[test]
fn same_record_twice_is_added_once() {
    let mut config = Config::empty();
    assert!(config.add_dependency_if_not_exists(dependency("r", "h", "a", "b")));
    assert!(!config.add_dependency_if_not_exists(dependency("r", "h", "a", "b")));
    assert_eq!(config.dependencies.as_ref().map(|records| records.len()), Some(1));
}

#[test]
fn record_at_a_declared_path_is_refused_wherever_it_stands() {
    let mut config = Config::empty();
    for name in ["a", "b", "c"] {
        assert!(config.add_dependency_if_not_exists(dependency("r", "h", name, name)));
    }
    for name in ["a", "b", "c"] {
        assert!(!config.add_dependency_if_not_exists(dependency("x", "y", "z", name)));
    }
    assert_eq!(config.dependencies.map(|records| records.len()), Some(3));
}

#[test]
fn local_paths_are_compared_as_they_are_written() {
    let mut config = Config::empty();
    assert!(config.add_dependency_if_not_exists(dependency("r", "h", "a", "vendor/foo")));
    assert!(config.add_dependency_if_not_exists(dependency("r", "h", "a", "vendor/foo/")));
    assert!(config.add_dependency_if_not_exists(dependency("r", "h", "a", "Vendor/foo")));
    assert!(config.add_dependency_if_not_exists(dependency("r", "h", "a", "")));
    assert!(!config.add_dependency_if_not_exists(dependency("r", "h", "a", "")));
}

#[test]
fn merging_leaves_metadata_and_hooks_alone() {
    let hooks = Hooks {
        preinstall: Some("make".to_string()),
        postinstall: None,
        preuninstall: None,
        postuninstall: Some("make clean".to_string()),
    };
    let mut config = Config {
        name: Some("widget".to_string()),
        description: None,
        hooks: Some(hooks.clone()),
        dependencies: None,
    };
    assert!(config.add_dependency_if_not_exists(dependency("r", "h", "a", "b")));
    assert_eq!(config.name, Some("widget".to_string()));
    assert_eq!(config.description, None);
    assert_eq!(config.hooks, Some(hooks));
}

#[test]
fn has_local_path_finds_declared_paths() {
    let mut config = unset();
    assert!(!config.has_local_path(&"a".to_string()));
    config.add_dependency_if_not_exists(dependency("r", "h", "x", "a"));
    config.add_dependency_if_not_exists(dependency("r", "h", "x", "b"));
    assert!(config.has_local_path(&"a".to_string()));
    assert!(config.has_local_path(&"b".to_string()));
    assert!(!config.has_local_path(&"x".to_string()));
}

#[test]
fn manifest_text_of_each_kind_of_location() {
    let file = "/*\nname: x\n*/\ncode\n".to_string();
    assert_eq!(manifest_text(PathKind::Unreadable, Some(file.clone())), None);
    assert_eq!(manifest_text(PathKind::Unreadable, None), None);
    assert_eq!(manifest_text(PathKind::Directory, Some(file.clone())), Some(file.clone()));
    assert_eq!(manifest_text(PathKind::Directory, None), None);
    assert_eq!(manifest_text(PathKind::File, Some(file)), Some("name: x".to_string()));
    assert_eq!(manifest_text(PathKind::File, Some("code\n".to_string())), None);
    assert_eq!(manifest_text(PathKind::File, None), None);
}

#[test]
fn directory_without_a_manifest_file_has_no_manifest() {
    let asked = Cell::new(0);
    let found = get_config(PathKind::Directory, None, |text| {
        asked.set(asked.get() + 1);
        parse_yaml(text)
    });
    assert_eq!(found, None);
    assert_eq!(asked.get(), 0);
}

#[test]
fn unreadable_path_has_no_manifest() {
    let asked = Cell::new(0);
    let found = get_config(PathKind::Unreadable, Some("name: x".to_string()), |text| {
        asked.set(asked.get() + 1);
        parse_yaml(text)
    });
    assert_eq!(found, None);
    assert_eq!(asked.get(), 0);
}

#[test]
fn directory_manifest_is_parsed_whole() {
    let text = "name: widget\ndependencies:\n  - repo: r\n    hash: h\n    remote_path: a\n    local_path: b\n";
    let found = get_config(PathKind::Directory, Some(text.to_string()), parse_yaml);
    assert_eq!(
        found,
        Some(Config {
            name: Some("widget".to_string()),
            description: None,
            hooks: None,
            dependencies: Some(vec![dependency("r", "h", "a", "b")]),
        })
    );
}

#[test]
fn directory_manifest_that_does_not_parse_is_no_manifest() {
    let found = get_config(PathKind::Directory, Some("name: [unclosed".to_string()), parse_yaml);
    assert_eq!(found, None);
}

#[test]
fn file_without_a_block_comment_has_no_manifest() {
    let asked = Cell::new(0);
    let found = get_config(PathKind::File, Some("name: widget\n".to_string()), |text| {
        asked.set(asked.get() + 1);
        parse_yaml(text)
    });
    assert_eq!(found, None);
    assert_eq!(asked.get(), 0);
}

#[test]
fn file_with_a_manifest_in_its_block_comment() {
    let text = "/*\nname: widget\ndescription: embedded\n*/\nint main() {}\n";
    let found = get_config(PathKind::File, Some(text.to_string()), parse_yaml);
    assert_eq!(
        found,
        Some(Config {
            name: Some("widget".to_string()),
            description: Some("embedded".to_string()),
            hooks: None,
            dependencies: None,
        })
    );
}

#[test]
fn file_whose_block_comment_is_no_manifest_has_no_manifest() {
    let text = "/*\n - just\n - a list\n*/\n";
    assert_eq!(get_config(PathKind::File, Some(text.to_string()), parse_yaml), None);
    let text = "/* name: [unclosed */\n";
    assert_eq!(get_config(PathKind::File, Some(text.to_string()), parse_yaml), None);
}

#[test]
fn parser_is_handed_the_comment_without_its_delimiters() {
    let seen = Cell::new(None);
    let found = get_config(PathKind::File, Some("x /*  a: b  */ y".to_string()), |text| {
        seen.set(Some(text));
        None
    });
    assert_eq!(found, None);
    assert_eq!(seen.take(), Some("a: b".to_string()));
}
