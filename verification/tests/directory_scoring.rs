use std::collections::HashMap;

use deepwiki_rs::directory_scoring::{
    directory_lookup_keys, normalize_path_key, DirectoryInfo,
};

fn dir_at(path: &str, name: &str) -> DirectoryInfo {
    DirectoryInfo {
        path: path.to_string(),
        name: name.to_string(),
        file_count: 0,
        subdirectory_count: 0,
        total_size: 0,
    }
}

#[test]
fn matches_windows_dot_prefixed_paths_from_cache() {
    let project = ".";
    let dirs = vec![
        dir_at(r".\assets", "assets"),
        dir_at(r".\assets\skill-litho", "skill-litho"),
        dir_at(r".\src\generator", "generator"),
    ];
    let mut score_map = HashMap::new();
    for (path, score) in [
        ("assets", 0.1),
        ("assets/skill-litho", 0.1),
        ("src/generator", 0.9),
    ] {
        score_map.insert(normalize_path_key(path), score);
    }

    for dir in &dirs {
        let keys = directory_lookup_keys(dir, project, None);
        let matched = keys.iter().find_map(|key| score_map.get(key).copied());
        assert!(
            matched.is_some(),
            "no match for {:?}, keys={:?}, map={:?}",
            dir.path,
            keys,
            score_map
        );
    }
}

#[test]
fn normalize_path_key_strips_leading_separator_from_strip_prefix() {
    assert_eq!(normalize_path_key(r"\assets\skill-litho"), "assets/skill-litho");
    assert_eq!(normalize_path_key("/assets/skill-litho"), "assets/skill-litho");
}

#[test]
fn normalize_path_key_unifies_separators_and_prefix() {
    assert_eq!(
        normalize_path_key(r".\assets\skill-litho\scripts"),
        "assets/skill-litho/scripts"
    );
    assert_eq!(normalize_path_key("docs/en/"), "docs/en");
}

#[test]
fn directory_lookup_keys_prefers_relative_path() {
    let project = String::from(r"C:\proj");
    let dir = dir_at(r"C:\proj\assets\skill-litho", "skill-litho");
    let keys = directory_lookup_keys(&dir, &project, None);
    assert_eq!(keys[0], "assets/skill-litho");
}

#[test]
fn score_map_matches_llm_relative_path_against_absolute_dir() {
    let mut score_map = HashMap::new();
    score_map.insert(normalize_path_key("assets/skill-litho"), 0.9);

    let project = String::from(r"C:\proj");
    let dir = dir_at(r"C:\proj\assets\skill-litho", "skill-litho");
    let matched = directory_lookup_keys(&dir, &project, None)
        .iter()
        .find_map(|key| score_map.get(key).copied());

    assert_eq!(matched, Some(0.9));
}

use deepwiki_rs::directory_scoring::{
    cache_scope, match_directory_scores, relative_path_key, DirectoryScorer,
};

#[test]
fn normalize_path_key_trims_whitespace_and_repeated_prefixes() {
    assert_eq!(normalize_path_key("  ././src//  "), "src");
    assert_eq!(normalize_path_key("///"), "");
    assert_eq!(normalize_path_key(""), "");
    assert_eq!(normalize_path_key("a\\b/c"), "a/b/c");
}

#[test]
fn normalize_path_key_separator_style_does_not_matter() {
    let with_backslashes = normalize_path_key(r"src\generator\agents\");
    let with_slashes = normalize_path_key("src/generator/agents/");
    assert_eq!(with_backslashes, with_slashes);
    assert_eq!(with_slashes, "src/generator/agents");
}

#[test]
fn normalize_path_key_twice_is_once_for_plain_keys() {
    let once = normalize_path_key(" ./docs/en/ ");
    assert_eq!(normalize_path_key(&once), once);
}

#[test]
fn relative_path_key_lexical_prefix() {
    let dir = dir_at("/home/user/proj/src/lib", "lib");
    assert_eq!(
        relative_path_key(&dir, "/home/user/proj", None),
        Some("src/lib".to_string())
    );
    assert_eq!(relative_path_key(&dir, "/home/user/other", None), None);
    // The root itself leaves nothing, and nothing else is known.
    let root = dir_at("/home/user/proj", "proj");
    assert_eq!(relative_path_key(&root, "/home/user/proj", None), None);
}

#[test]
fn relative_path_key_uses_canonical_paths_when_prefix_fails() {
    let dir = dir_at("/abs/cwd/assets", "assets");
    let key = relative_path_key(&dir, ".", Some(("/abs/cwd/assets", "/abs/cwd")));
    assert_eq!(key, Some("assets".to_string()));
    let nested = relative_path_key(&dir, ".", Some(("/a/b/c", "/a")));
    assert_eq!(nested, Some("b/c".to_string()));
}

#[test]
fn directory_lookup_keys_without_relative_key() {
    let dir = dir_at("/elsewhere/x/", " x ");
    let keys = directory_lookup_keys(&dir, "/proj", None);
    assert_eq!(keys, vec!["elsewhere/x".to_string(), "x".to_string()]);
}

#[test]
fn match_directory_scores_takes_last_entry_and_reports_missing() {
    let dirs = vec![
        dir_at(r"C:\proj\src", "src"),
        dir_at(r"C:\proj\docs", "docs"),
        dir_at(r"C:\proj\tools", "tools"),
    ];
    let canonicals = vec![None, None, None];
    let paths = vec![
        "src".to_string(),
        "./docs/".to_string(),
        r"src\".to_string(),
        "".to_string(),
    ];
    let matched = match_directory_scores(&dirs, r"C:\proj", &canonicals, &paths);
    assert_eq!(matched, vec![Some(2), Some(1), None]);
}

#[test]
fn match_directory_scores_falls_back_to_name() {
    let dirs = vec![dir_at("/other/place/widgets", "widgets")];
    let canonicals = vec![None];
    let paths = vec!["widgets".to_string()];
    let matched = match_directory_scores(&dirs, "/proj", &canonicals, &paths);
    assert_eq!(matched, vec![Some(0)]);
}

#[test]
fn cache_scope_replaces_separators_and_dots() {
    assert_eq!(cache_scope("/home/u/my.proj"), "directory_scoring__home_u_my_proj");
    assert_eq!(cache_scope(r"C:\p"), "directory_scoring_C__p");
}

#[test]
fn build_scoring_prompt_lists_directories() {
    let scorer = DirectoryScorer::new();
    let dirs = vec![DirectoryInfo {
        path: "/proj/src".to_string(),
        name: "src".to_string(),
        file_count: 12,
        subdirectory_count: 3,
        total_size: 0,
    }];
    let names = vec![vec![
        ".hidden".to_string(),
        "main.rs".to_string(),
        "lib \"x\".rs".to_string(),
    ]];
    let prompt = scorer.build_scoring_prompt(&dirs, "/proj", &vec![None], &names);
    assert!(prompt.starts_with("Rate the business importance of each directory"));
    assert!(prompt.contains(
        "Directories to rate:\n- src (rel_path: src, 12 files, 3 subdirs): [\"main.rs\", \"lib \\\"x\\\".rs\"]\n\n\nOutput JSON"
    ));
    assert!(prompt.ends_with("IMPORTANT: Output valid JSON only, no markdown fences."));
}

#[test]
fn build_scoring_prompt_shows_at_most_twenty_names() {
    let scorer = DirectoryScorer::new();
    let dirs = vec![dir_at("/x/y", "y")];
    let names: Vec<String> = (0..30).map(|i| format!("f{}", i)).collect();
    let prompt = scorer.build_scoring_prompt(&dirs, "/proj", &vec![None], &vec![names]);
    assert!(prompt.contains("\"f19\"]"));
    assert!(!prompt.contains("\"f20\""));
    assert!(prompt.contains("- y (rel_path: y, 0 files, 0 subdirs)"));
}

#[test]
fn normalize_path_key_ignores_one_more_leading_dot_slash() {
    for p in ["src/generator", "assets\\skill-litho", "docs/en/", "", "./a", "a b "] {
        assert_eq!(normalize_path_key(&format!("./{}", p)), normalize_path_key(p));
    }
    assert_eq!(normalize_path_key("./"), "");
}
