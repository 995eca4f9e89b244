use fenlu::ids::{generate_id, IdCounter};
use fenlu::order::{path_less, sort_paths};
use fenlu::paths::{
    config_path_for, is_script_whitelisted, path_to_name, script_names, script_whitelisted,
    try_path_to_name, try_script_names,
    try_whitelisted_scripts, whitelisted_scripts,
};
use fenlu::text::{ends_with, replace_char, split_once, str_eq, strip_suffix_or_keep, to_decimal};

fn strings(v: &[&str]) -> Vec<String> {
    v.iter().map(|s| s.to_string()).collect()
}

#[test]
fn ends_with_suffixes() {
    assert!(ends_with("scripts/a-source.fnl", "-source.fnl"));
    assert!(ends_with("abc", ""));
    assert!(ends_with("abc", "abc"));
    assert!(!ends_with("abc", "xabc"));
    assert!(!ends_with("abc", "b"));
    assert!(ends_with("héllo", "llo"));
}

#[test]
fn strings_compare_by_characters() {
    assert!(str_eq("load", "load"));
    assert!(!str_eq("load", "Load"));
    assert!(!str_eq("load", "loads"));
}

#[test]
fn strip_suffix_only_where_present() {
    assert_eq!(strip_suffix_or_keep("a.fnl", "fnl"), "a.");
    assert_eq!(strip_suffix_or_keep("a.lua", "fnl"), "a.lua");
    assert_eq!(strip_suffix_or_keep("fnl", "fnl"), "");
}

#[test]
fn split_at_first_separator() {
    assert_eq!(split_once("tagger/add/tag", '/'), Some(("tagger".to_string(), "add/tag".to_string())));
    assert_eq!(split_once("/x", '/'), Some((String::new(), "x".to_string())));
    assert_eq!(split_once("nothing", '/'), None);
}

#[test]
fn replace_every_placeholder() {
    assert_eq!(replace_char("echo % %", '%', "{}"), "echo {} {}");
    assert_eq!(replace_char("echo", '%', "{}"), "echo");
    assert_eq!(replace_char("%", '%', ""), "");
    let long = replace_char("a%b%c", '%', "xyz");
    assert_eq!(long.chars().count(), 3 + 2 * 3);
}

#[test]
fn decimal_writing() {
    assert_eq!(to_decimal(0), "0");
    assert_eq!(to_decimal(7), "7");
    assert_eq!(to_decimal(10), "10");
    assert_eq!(to_decimal(1024), "1024");
    assert_eq!(to_decimal(usize::MAX), usize::MAX.to_string());
    assert_eq!(to_decimal(90210).parse::<usize>().unwrap(), 90210);
    assert_ne!(to_decimal(12), to_decimal(21));
}

#[test]
fn ids_count_up_and_differ() {
    let mut ids = IdCounter::new();
    assert_eq!(generate_id(&mut ids), "0");
    assert_eq!(generate_id(&mut ids), "1");
    assert_eq!(generate_id(&mut ids), "2");
    assert_eq!(ids.next, 3);
}

#[test]
fn ids_wrap_around() {
    let mut ids = IdCounter { next: usize::MAX };
    assert_eq!(generate_id(&mut ids), usize::MAX.to_string());
    assert_eq!(ids.next, 0);
    assert_eq!(generate_id(&mut ids), "0");
}

#[test]
fn file_name_of_script_paths() {
    assert_eq!(path_to_name("scripts/tagger-transform.fnl"), "tagger-transform.fnl");
    assert_eq!(path_to_name("plain"), "plain");
    assert_eq!(path_to_name("dir/sub/"), "sub");
    assert_eq!(try_path_to_name("/"), None);
    assert_eq!(try_path_to_name("a/.."), None);
    assert_eq!(try_path_to_name("a/b"), Some("b".to_string()));
    assert_eq!(try_path_to_name("a/."), Some("a".to_string()));
    assert_eq!(try_path_to_name("a//b/"), Some("b".to_string()));
    assert_eq!(try_path_to_name("foo.txt/.."), None);
    assert_eq!(try_path_to_name(""), None);
}

#[test]
fn whitelist_matches_name_suffix() {
    let whitelist = strings(&["source.fnl", "tagger-filter.fnl"]);
    assert!(is_script_whitelisted("scripts/files-source.fnl", &whitelist));
    assert!(is_script_whitelisted("scripts/tagger-filter.fnl", &whitelist));
    assert!(!is_script_whitelisted("scripts/other-filter.fnl", &whitelist));
    assert!(!is_script_whitelisted("scripts/files-source.fnl", &Vec::new()));
    assert_eq!(script_whitelisted("/", &whitelist), None);
    assert_eq!(script_whitelisted("x/files-source.fnl", &whitelist), Some(true));
}

#[test]
fn whitelisted_scripts_keep_order() {
    let whitelist = strings(&["-source.fnl"]);
    let paths = strings(&["scripts/b-source.fnl", "scripts/x.fnl", "scripts/a-source.fnl"]);
    assert_eq!(
        whitelisted_scripts(paths.clone(), &whitelist),
        strings(&["scripts/b-source.fnl", "scripts/a-source.fnl"])
    );
    assert_eq!(
        try_whitelisted_scripts(paths, &whitelist),
        Some(strings(&["scripts/b-source.fnl", "scripts/a-source.fnl"]))
    );
    assert_eq!(try_whitelisted_scripts(strings(&["a", "/"]), &whitelist), None);
}

#[test]
fn config_beside_script() {
    assert_eq!(config_path_for("scripts/tagger-filter.fnl"), "scripts/tagger-filter.toml");
    assert_eq!(config_path_for("scripts/run"), "scripts/runtoml");
}

#[test]
fn paths_sort_by_components() {
    let paths = strings(&[
        "scripts/b-transform.fnl",
        "a-b",
        "scripts/a-transform.fnl",
        "a/b",
        "/x",
        "x",
        "./x",
        "scripts/a-transform.fnl",
    ]);
    let mut expected = paths.clone();
    expected.sort_by(|a, b| std::path::Path::new(a).cmp(std::path::Path::new(b)));
    let sorted = sort_paths(paths);
    assert_eq!(sorted, expected);
    assert_eq!(sorted[0], "/x");
    assert!(path_less("a/b", "a-b"));
    assert!(!path_less("a-b", "a/b"));
    assert!(!path_less("x", "x"));
    assert!(path_less("x", "x/y"));
    assert!(sort_paths(Vec::new()).is_empty());
}

#[test]
fn names_of_whitelisted_scripts() {
    let whitelist = strings(&["tagger-filter.fnl", "-source.fnl"]);
    let paths = strings(&["scripts/tagger-filter.fnl", "scripts/x-transform.fnl", "scripts/files-source.fnl"]);
    assert_eq!(script_names(paths.clone(), &whitelist), strings(&["tagger-filter.fnl", "files-source.fnl"]));
    assert_eq!(try_script_names(paths, &whitelist), Some(strings(&["tagger-filter.fnl", "files-source.fnl"])));
    assert_eq!(try_script_names(strings(&[".."]), &whitelist), None);
    let listed = fenlu::viewer::FenluScripts::new(strings(&["a", "b"]));
    assert_eq!(listed.total, 2);
    assert_eq!(listed.item(1), "b");
    assert_eq!(listed.item(2), "");
}

#[test]
fn paths_compare_by_their_slash_components() {
    // repeated separators, inner `.` and a trailing `/` are not components
    assert!(!path_less("a//b/./c/", "a/b/c"));
    assert!(!path_less("a/b/c", "a//b/./c/"));
    // a leading `.` is a component and comes before any name
    assert!(path_less("./b", "a"));
    // `..` is a parent component, before names
    assert!(path_less("../z", "a"));
    // the root comes first
    assert!(path_less("/z", "./a"));
}
