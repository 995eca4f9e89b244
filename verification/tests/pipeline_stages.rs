use fenlu::config::{
    default_buffer_size, default_media_update_interval, default_pipeline_mode,
    default_thumbnail_size, PipelineMode,
};
use fenlu::viewer::{default_generation_script, default_load_script};
use fenlu::metadata::{accept_source_metadata, check_uri, verdict_from_parse, Metadata, UriError};
use fenlu::models::{Effect, Main, Message, Screen};
use fenlu::pipeline::{
    append_history, filter_step, generate_request, keep_by_verdicts, source_step, stamp_history,
    try_append_history, Pipeline, ScriptTable, SourceProgress,
};
use fenlu::protocol::capabilities::{Capabilities, Query, Type};
use fenlu::protocol::media::{GenerateResponse, Media};

fn media(title: &str) -> Media {
    Media {
        title: title.to_string(),
        uri: format!("file:///{}", title),
        extra_source: String::new(),
        history: Vec::new(),
        tags: Vec::new(),
        extra: None,
    }
}

fn caps(role: Type, query: bool, actions: &[&str]) -> Capabilities {
    Capabilities {
        media: (role, None),
        query: Query { set: query },
        actions: actions.iter().map(|s| s.to_string()).collect(),
    }
}

fn titles(v: &[Media]) -> Vec<String> {
    v.iter().map(|m| m.title.clone()).collect()
}

#[test]
fn config_defaults() {
    assert_eq!(default_media_update_interval(), 1000);
    assert_eq!(default_buffer_size(), 1024);
    assert_eq!(default_thumbnail_size(), 296);
    assert_eq!(default_pipeline_mode(true), PipelineMode::Load);
    assert_eq!(default_pipeline_mode(false), PipelineMode::GenerateSave);
    assert_eq!(PipelineMode::default(), PipelineMode::Load);
    assert_eq!(default_generation_script(), "fenlu-cli -m save scripts/*");
    assert_eq!(default_load_script(), "fenlu-cli -m load scripts/*");
}

#[test]
fn uri_checks() {
    assert_eq!(check_uri("https://example.com/a.png"), Ok(()));
    assert_eq!(check_uri("file:///home/a.png"), Ok(()));
    assert_eq!(check_uri("/home/a.png"), Err(UriError::NotAbsolute));
    assert_eq!(check_uri("a b"), Err(UriError::Malformed));
    assert_eq!(verdict_from_parse(None), Err(UriError::Malformed));
    assert_eq!(verdict_from_parse(Some(false)), Err(UriError::NotAbsolute));
    assert_eq!(verdict_from_parse(Some(true)), Ok(()));
}

#[test]
fn source_metadata_gets_its_source() {
    let m = Metadata {
        uri: "https://example.com/x".to_string(),
        extra_source: String::new(),
        source: String::new(),
        mime: "image/png".to_string(),
        tags: vec![],
        extra: None,
    };
    let accepted = accept_source_metadata(m, "files-source.fnl".to_string()).unwrap();
    assert_eq!(accepted.source, "files-source.fnl");
    assert_eq!(accepted.mime, "image/png");
    let relative = Metadata {
        uri: "x.png".to_string(),
        extra_source: String::new(),
        source: String::new(),
        mime: String::new(),
        tags: vec![],
        extra: None,
    };
    assert_eq!(accept_source_metadata(relative, "s".to_string()).unwrap_err(), UriError::NotAbsolute);
}

#[test]
fn history_records_script_names() {
    let mut m = media("a");
    append_history("scripts/files-source.fnl", &mut m);
    append_history("scripts/tag-transform.fnl", &mut m);
    assert_eq!(m.history, vec!["files-source.fnl".to_string(), "tag-transform.fnl".to_string()]);
    assert!(!try_append_history("/", &mut m));
    assert_eq!(m.history.len(), 2);
    assert!(try_append_history("x/y", &mut m));
    assert_eq!(m.history.last().unwrap(), "y");
}

#[test]
fn stamping_a_batch() {
    let out = stamp_history(&"t".to_string(), vec![media("a"), media("b")]);
    assert_eq!(titles(&out), vec!["a", "b"]);
    assert!(out.iter().all(|m| m.history == vec!["t".to_string()]));
}

#[test]
fn filters_keep_accepted_media() {
    let batch = vec![media("a"), media("b"), media("c")];
    let kept = keep_by_verdicts(batch, &vec![true, false, true]);
    assert_eq!(titles(&kept), vec!["a", "c"]);
    let batch = vec![media("a"), media("b")];
    let out = filter_step(batch, &vec![false, true, true], &"f".to_string());
    assert_eq!(titles(&out), vec!["b"]);
    assert_eq!(out[0].history, vec!["f".to_string()]);
    assert!(filter_step(vec![], &vec![], &"f".to_string()).is_empty());
}

#[test]
fn sources_advance_until_finished() {
    let mut progress = SourceProgress::new();
    let req = generate_request(&progress, 1024);
    assert_eq!((req.batch_size, req.state), (1024, 0));
    let out = source_step(
        &mut progress,
        &"s".to_string(),
        GenerateResponse { media: vec![media("a")], finished: false },
    );
    assert_eq!(titles(&out), vec!["a"]);
    assert_eq!(progress, SourceProgress { state: 1, finished: false });
    let out = source_step(&mut progress, &"s".to_string(), GenerateResponse { media: vec![], finished: true });
    assert!(out.is_empty());
    assert_eq!(progress, SourceProgress { state: 2, finished: true });
    assert_eq!(generate_request(&progress, usize::MAX).batch_size, u32::MAX);
}

#[test]
fn script_table_roles_queries_actions() {
    let mut table = ScriptTable::new();
    table.insert("src".to_string(), caps(Type::Source, false, &[]));
    table.insert("tag".to_string(), caps(Type::Transform, true, &["add", "remove"]));
    table.insert("nsfw".to_string(), caps(Type::Filter, true, &["hide"]));
    table.insert("src2".to_string(), caps(Type::Source, false, &[]));
    assert_eq!(table.len(), 4);
    let roles = table.roles();
    assert_eq!(roles.sources, vec!["src", "src2"]);
    assert_eq!(roles.transforms, vec!["tag"]);
    assert_eq!(roles.filters, vec!["nsfw"]);
    assert_eq!(roles.sources.len() + roles.transforms.len() + roles.filters.len(), table.len());
    assert_eq!(table.queryable_scripts(), vec!["tag", "nsfw"]);
    let history = vec!["src".to_string(), "tag".to_string(), "gone".to_string(), "nsfw".to_string()];
    assert_eq!(table.actions_for_scripts(&history), vec!["tag/add", "tag/remove", "nsfw/hide"]);
}

#[test]
fn script_table_replaces_in_place() {
    let mut table = ScriptTable::new();
    table.insert("a".to_string(), caps(Type::Source, false, &[]));
    table.insert("b".to_string(), caps(Type::Filter, false, &[]));
    table.insert("a".to_string(), caps(Type::Transform, true, &["x"]));
    assert_eq!(table.len(), 2);
    assert_eq!(table.get("a").unwrap().media.0, Type::Transform);
    assert_eq!(table.get("b").unwrap().media.0, Type::Filter);
    assert!(table.get("c").is_none());
    assert_eq!(table.roles().transforms, vec!["a"]);
    let pipeline = Pipeline::default();
    assert_eq!(pipeline.scripts.len(), 0);
}

#[test]
fn capabilities_defaults() {
    let c = Capabilities::default();
    assert_eq!(c.media, (Type::Source, None));
    assert!(!c.query.set && c.actions.is_empty());
    assert_eq!(Type::default(), Type::Source);
}

#[test]
fn window_follows_messages() {
    let mut main: Main<u32, &str> = Main::new();
    assert_eq!(main.view(), Screen::Loading);
    assert_eq!(main.update(Message::NewMedia((media("a"), 7))), Effect::Nothing);
    assert_eq!(main.media_list.media.len(), 1);
    assert_eq!(main.media_list.media[0].1, 7);
    assert_eq!(main.view(), Screen::Loading);
    assert_eq!(main.update(Message::PipelineReady("control")), Effect::StartRun);
    assert_eq!(main.pipeline_control, Some("control"));
    assert_eq!(main.view(), Screen::MediaList);
    assert_eq!(main.update(Message::PipelineFinished), Effect::Nothing);
    assert_eq!(main.media_list.media.len(), 1);
}
