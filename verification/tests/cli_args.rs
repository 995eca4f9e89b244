use fenlu::cli::{
    choose_source_mode, classify_path, destination_from_matches, parse_args, run_plan, ArgsError,
    Destination, SourceMode,
};

fn strings(v: &[&str]) -> Vec<String> {
    v.iter().map(|s| s.to_string()).collect()
}

#[test]
fn source_mode_words() {
    assert_eq!(SourceMode::from_str("load"), Ok(SourceMode::Load));
    assert_eq!(SourceMode::from_str("save"), Ok(SourceMode::Save));
    assert_eq!(SourceMode::from_str("calculate"), Ok(SourceMode::Calculate));
    assert_eq!(SourceMode::from_str("LOAD"), Err(ArgsError::UnknownSourceMode));
    assert_eq!(SourceMode::from_str(""), Err(ArgsError::UnknownSourceMode));
    assert_eq!(SourceMode::default(), SourceMode::Calculate);
}

#[test]
fn long_option_wins_then_short_then_default() {
    assert_eq!(choose_source_mode(Some("save".into()), Some("load".into())), SourceMode::Save);
    assert_eq!(choose_source_mode(Some("bogus".into()), Some("load".into())), SourceMode::Load);
    assert_eq!(choose_source_mode(None, Some("load".into())), SourceMode::Load);
    assert_eq!(choose_source_mode(None, Some("bogus".into())), SourceMode::Calculate);
    assert_eq!(choose_source_mode(None, None), SourceMode::Calculate);
}

#[test]
fn roles_from_matches() {
    assert_eq!(destination_from_matches(true, true, true), Some(Destination::Source));
    assert_eq!(destination_from_matches(false, true, true), Some(Destination::Transform));
    assert_eq!(destination_from_matches(false, false, true), Some(Destination::Filter));
    assert_eq!(destination_from_matches(false, false, false), None);
}

#[test]
fn roles_from_globs() {
    assert_eq!(classify_path("scripts/files-source.fnl"), Some(Destination::Source));
    assert_eq!(classify_path("tagger-transform.fnl"), Some(Destination::Transform));
    assert_eq!(classify_path("a/b/nsfw-filter.fnl"), Some(Destination::Filter));
    assert_eq!(classify_path("scripts/files-source.lua"), None);
    assert_eq!(classify_path("-source.fnl.bak"), None);
    assert_eq!(classify_path("-source.fnl"), Some(Destination::Source));
    assert_eq!(classify_path("line\nbreak-filter.fnl"), Some(Destination::Filter));
    assert_eq!(classify_path("x-filter.fnl/y-transform.fnl"), Some(Destination::Transform));
}

#[test]
fn free_arguments_sorted_by_role() {
    let args = parse_args(
        None,
        Some("save".into()),
        strings(&[
            "scripts/b-source.fnl",
            "scripts/t-transform.fnl",
            "README.md",
            "scripts/a-source.fnl",
            "scripts/f-filter.fnl",
        ]),
    );
    assert_eq!(args.source_mode, SourceMode::Save);
    assert_eq!(args.sources, strings(&["scripts/b-source.fnl", "scripts/a-source.fnl"]));
    assert_eq!(args.transforms, strings(&["scripts/t-transform.fnl"]));
    assert_eq!(args.filters, strings(&["scripts/f-filter.fnl"]));
}

#[test]
fn no_arguments() {
    let args = parse_args(None, None, Vec::new());
    assert_eq!(args.source_mode, SourceMode::Calculate);
    assert!(args.sources.is_empty() && args.transforms.is_empty() && args.filters.is_empty());
}

#[test]
fn database_steps_by_mode() {
    let load = run_plan(SourceMode::Load);
    assert!(!load.create_db_file && load.use_database && load.load_from_database && !load.save_to_database);
    let save = run_plan(SourceMode::Save);
    assert!(save.create_db_file && save.use_database && !save.load_from_database && save.save_to_database);
    let calc = run_plan(SourceMode::Calculate);
    assert!(!calc.create_db_file && !calc.use_database && !calc.load_from_database && !calc.save_to_database);
}

#[test]
fn args_error_message() {
    assert_eq!(ArgsError::UnknownSourceMode.message(), "could not match source mode");
}
