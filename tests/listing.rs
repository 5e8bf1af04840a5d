use file_explorer_tui::archive::is_path_supported_archive;
use file_explorer_tui::file::{
    get_files_for_dir, precedes_with_folded_names, remove_path,
    sort_file_paths_dirs_first_then_files, toggle_selected_file, File,
};
use file_explorer_tui::path::{get_basename, get_parent_dir};
use file_explorer_tui::state::listing_from;

fn raw(entries: &[(&str, bool)]) -> Vec<(String, bool)> {
    entries.iter().map(|(p, d)| (p.to_string(), *d)).collect()
}

fn names(files: &[File]) -> Vec<String> {
    files.iter().map(|f| f.display_name.clone()).collect()
}

fn entry(path: &str, is_dir: bool) -> File {
    File::from_path(path.to_string(), is_dir)
}

#[test]
fn listing_hides_dot_names_unless_asked() {
    let home = raw(&[("/home/u/a.txt", false), ("/home/u/.hidden", false), ("/home/u/sub", true)]);
    assert_eq!(names(&listing_from(&home, false)), vec!["sub/", "a.txt"]);
    assert_eq!(names(&listing_from(&home, true)), vec!["sub/", "a.txt", ".hidden"]);
}

#[test]
fn files_for_dir_keep_read_order_and_build_names() {
    let files = get_files_for_dir(&raw(&[("/x/b", false), ("/x/.git", true), ("/x/a", true)]), true);
    assert_eq!(names(&files), vec!["b", ".git/", "a/"]);
    assert_eq!(files[1].full_path, "/x/.git");
    assert!(files[1].is_dir);
    let shown = get_files_for_dir(&raw(&[("/x/b", false), ("/x/.git", true), ("/x/a", true)]), false);
    assert_eq!(names(&shown), vec!["b", "a/"]);
}

#[test]
fn sort_puts_dirs_first_and_dot_names_last() {
    let files = vec![
        entry("/d/.zrc", false),
        entry("/d/b.txt", false),
        entry("/d/.cache", true),
        entry("/d/A.txt", false),
        entry("/d/zoo", true),
        entry("/d/Music", true),
    ];
    let sorted = sort_file_paths_dirs_first_then_files(&files);
    assert_eq!(names(&sorted), vec!["Music/", "zoo/", ".cache/", "A.txt", "b.txt", ".zrc"]);
    let again = sort_file_paths_dirs_first_then_files(&sorted);
    assert_eq!(names(&again), names(&sorted));
}

#[test]
fn sort_folds_case_before_comparing() {
    let files = vec![entry("/d/B.txt", false), entry("/d/a.txt", false), entry("/d/C", false)];
    let sorted = sort_file_paths_dirs_first_then_files(&files);
    assert_eq!(names(&sorted), vec!["a.txt", "B.txt", "C"]);
}

#[test]
fn sort_is_stable_for_equal_folded_names() {
    let files = vec![entry("/one/Readme", false), entry("/two/README", false), entry("/three/readme", false)];
    let sorted = sort_file_paths_dirs_first_then_files(&files);
    let paths: Vec<String> = sorted.iter().map(|f| f.full_path.clone()).collect();
    assert_eq!(paths, vec!["/one/Readme", "/two/README", "/three/readme"]);
}

#[test]
fn sort_of_empty_listing_is_empty() {
    assert!(sort_file_paths_dirs_first_then_files(&vec![]).is_empty());
}

#[test]
fn comparison_uses_the_given_folded_names() {
    let a = entry("/d/x", false);
    let b = entry("/d/y", false);
    let fa: Vec<char> = "zz".chars().collect();
    let fb: Vec<char> = "aa".chars().collect();
    assert!(!precedes_with_folded_names(&a, &fa, &b, &fb));
    assert!(precedes_with_folded_names(&b, &fb, &a, &fa));
    let dir = entry("/d/q", true);
    assert!(precedes_with_folded_names(&dir, &fa, &a, &fb));
    let dot = entry("/d/.a", false);
    assert!(!precedes_with_folded_names(&dot, &fb, &a, &fa));
    assert!(precedes_with_folded_names(&a, &fa, &a, &fa));
}

#[test]
fn selecting_puts_the_latest_first_and_toggling_removes() {
    let a = entry("/home/u/a.txt", false);
    let sub = entry("/home/u/sub", true);
    let s1 = toggle_selected_file(&vec![], &a);
    let s2 = toggle_selected_file(&s1, &sub);
    assert_eq!(names(&s2), vec!["sub/", "a.txt"]);
    let s3 = toggle_selected_file(&s2, &a);
    assert_eq!(names(&s3), vec!["sub/"]);
}

#[test]
fn toggling_twice_gives_back_the_selection() {
    let a = entry("/p/a", false);
    let b = entry("/p/b", false);
    let c = entry("/p/c", false);
    let s = vec![b.clone(), a.clone()];
    let twice = toggle_selected_file(&toggle_selected_file(&s, &c), &c);
    assert_eq!(names(&twice), names(&s));
    let front = toggle_selected_file(&toggle_selected_file(&s, &b), &b);
    assert_eq!(names(&front), names(&s));
}

#[test]
fn selection_membership_is_by_full_path() {
    let a1 = entry("/one/a", false);
    let a2 = entry("/two/a", false);
    let s = toggle_selected_file(&toggle_selected_file(&vec![], &a1), &a2);
    assert_eq!(s.len(), 2);
    let upper = entry("/one/A", false);
    assert_eq!(toggle_selected_file(&s, &upper).len(), 3);
    let left = remove_path(&s, &"/one/a".to_string());
    assert_eq!(left.len(), 1);
    assert_eq!(left[0].full_path, "/two/a");
}

#[test]
fn parent_of_paths() {
    assert_eq!(get_parent_dir(&"/home/u".to_string()), "/home");
    assert_eq!(get_parent_dir(&"/home".to_string()), "/");
    assert_eq!(get_parent_dir(&"/".to_string()), "/");
    assert_eq!(get_parent_dir(&"name".to_string()), "");
    assert_eq!(get_parent_dir(&"/a/b/c/".to_string()), "/a/b/c");
}

#[test]
fn basename_of_paths() {
    assert_eq!(get_basename(&"/home/u/file.rs".to_string()), "file.rs");
    assert_eq!(get_basename(&"plain".to_string()), "plain");
    assert_eq!(get_basename(&"/".to_string()), "");
    assert_eq!(entry("/home/u/sub", true).display_name, "sub/");
}

#[test]
fn archives_are_recognised_by_suffix() {
    assert!(is_path_supported_archive(&"/tmp/a.zip".to_string()));
    assert!(is_path_supported_archive(&".zip".to_string()));
    assert!(!is_path_supported_archive(&"/tmp/a.zip.txt".to_string()));
    assert!(!is_path_supported_archive(&"zip".to_string()));
    assert!(!is_path_supported_archive(&"/tmp/a.ZIP".to_string()));
}
