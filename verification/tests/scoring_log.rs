use deepwiki_rs::directory_scoring::{has_directories_to_score, scoring_log_tag, DirectoryInfo};

fn dir_named(path: &str, name: &str) -> DirectoryInfo {
    DirectoryInfo {
        path: path.to_string(),
        name: name.to_string(),
        file_count: 0,
        subdirectory_count: 0,
        total_size: 0,
    }
}

#[test]
fn empty_directory_list_is_not_scored() {
    assert!(!has_directories_to_score(&Vec::new()));
    assert!(has_directories_to_score(&vec![dir_named("a", "a")]));
}

#[test]
fn log_tag_names_first_five_and_counts_the_rest() {
    let dirs: Vec<DirectoryInfo> = ["a", "b", "c", "d", "e", "f", "g"]
        .iter()
        .map(|n| dir_named(&format!("C:\\proj\\{}", n), n))
        .collect();
    let canonicals = vec![None; dirs.len()];
    assert_eq!(
        scoring_log_tag("proj", &dirs, "C:\\proj", &canonicals),
        "dir_score(proj): 7 dirs (a, b, c, d, e, +2 more)"
    );
}

#[test]
fn log_tag_falls_back_to_the_name() {
    let dirs = vec![
        dir_named("/work/proj/src/generator", "generator"),
        dir_named("/elsewhere/tools", " tools/ "),
    ];
    let canonicals = vec![None, None];
    assert_eq!(
        scoring_log_tag("proj", &dirs, "/work/proj", &canonicals),
        "dir_score(proj): 2 dirs (src/generator, tools)"
    );
}
