use fenlu::sink::actions::ActionsRust;
use fenlu::sink::config::{Action, Config};
use fenlu::sink::media::{media_record, EssentialMetadata, Field, Media, TypeMetadata};
use fenlu::sink::media_list::MediaListRust;
use fenlu::sink::protocol::{
    handle_initialize, make_response, route_method, InitializeParams, Response, SinkError,
    SinkMethod, SINK_METHOD, VERSION,
};
use fenlu::viewer::{split_action, FenluPipeline, UrlFeed};
use serde_json::Value;

fn json(text: &str) -> Value {
    serde_json::from_str(text).unwrap()
}

fn strings(v: &[&str]) -> Vec<String> {
    v.iter().map(|s| s.to_string()).collect()
}

#[test]
fn viewer_batches_and_redraws() {
    let mut view = FenluPipeline::new();
    view.start_run(100);
    assert_eq!(view.receive_batch(strings(&["a", "b"]), 150, 1000), None);
    assert_eq!(view.total, 0);
    assert_eq!(view.receive_batch(strings(&["c"]), 1101, 1000), Some(3));
    assert_eq!(view.total, 3);
    assert_eq!(view.last_update_ms, 1101);
    assert_eq!(view.receive_batch(strings(&["d"]), 2101, 1000), None);
    assert_eq!(view.items(1), strings(&["b", "c", "d"]));
    assert_eq!(view.items(4), Vec::<String>::new());
    assert_eq!(view.item(0), "a");
    assert_eq!(view.item(9), "");
    assert_eq!(view.finish_run(), 4);
    assert_eq!(view.total, 4);
    view.set_running(true);
    assert!(view.running);
    view.start_run(5);
    assert!(view.items.is_empty() && view.total == 0);
}

#[test]
fn viewer_clock_going_back_does_not_redraw() {
    let mut view = FenluPipeline::new();
    view.start_run(500);
    assert_eq!(view.receive_batch(strings(&["a"]), 10, 0), None);
}

#[test]
fn actions_split_at_first_slash() {
    assert_eq!(split_action("tagger/add"), Some(("tagger".to_string(), "add".to_string())));
    assert_eq!(split_action("a/b/c"), Some(("a".to_string(), "b/c".to_string())));
    assert_eq!(split_action("noslash"), None);
}

#[test]
fn responses_read_back() {
    let ok = make_response(3, Ok(json("{\"a\": 1}")));
    assert_eq!(ok.id, 3);
    assert_eq!(ok.error, None);
    assert_eq!(ok.result(), Ok(json("{\"a\": 1}")));
    let err = make_response(4, Err("bad".to_string()));
    assert_eq!(err.result, None);
    assert_eq!(err.result(), Err("bad".to_string()));
    let both = Response { id: 5, result: Some(json("1")), error: Some("e".to_string()) };
    assert_eq!(both.result(), Err("e".to_string()));
}

#[test]
fn methods_route() {
    assert_eq!(route_method("initialize/initialize"), Ok(SinkMethod::Initialize));
    assert_eq!(route_method("media/sink"), Ok(SinkMethod::Sink));
    assert_eq!(route_method("media/other"), Err(SinkError::UnsupportedMethod));
}

#[test]
fn initialize_keeps_config() {
    let mut slot = None;
    let params = InitializeParams {
        config: Some(Config {
            actions: vec![Action { name: "open".into(), command: "xdg-open %".into() }],
            render_amount: 30,
        }),
    };
    let res = handle_initialize(&mut slot, params).unwrap();
    assert_eq!(res.capabilities, vec![SINK_METHOD.to_string()]);
    assert_eq!(res.version, VERSION);
    let config = slot.unwrap();
    assert_eq!(config.render_amount, 30);
    assert_eq!(config.actions[0].name, "open");
    let mut slot = None;
    handle_initialize(&mut slot, InitializeParams { config: None }).unwrap();
    let config = slot.unwrap();
    assert_eq!(config.render_amount, 0);
    assert!(config.actions.is_empty());
}

#[test]
fn actions_by_name_and_command_line() {
    let actions = ActionsRust::from_config(&vec![
        Action { name: "open".into(), command: "xdg-open %".into() },
        Action { name: "echo".into(), command: "echo % %".into() },
        Action { name: "open".into(), command: "feh %".into() },
    ]);
    assert_eq!(actions.command_for("open"), Some("feh %".to_string()));
    assert_eq!(actions.command_for("missing"), None);
    let inv = actions.invocation("echo", "{\"url\":\"u\"}", false).unwrap();
    assert_eq!((inv.shell.as_str(), inv.flag.as_str()), ("sh", "-c"));
    assert_eq!(inv.arg, "echo {\"url\":\"u\"} {\"url\":\"u\"}");
    let win = actions.invocation("open", "M", true).unwrap();
    assert_eq!((win.shell.as_str(), win.flag.as_str(), win.arg.as_str()), ("cmd", "/c", "feh M"));
    assert!(actions.invocation("missing", "M", false).is_none());
}

fn text(record: &fenlu::keyed::KeyedList<Field>, key: &str) -> Option<String> {
    match record.get(key) {
        Some(Field::Text(s)) | Some(Field::Url(s)) => Some(s.clone()),
        _ => None,
    }
}

#[test]
fn media_fields_shown() {
    let image = Media {
        url: "file:///a.png".into(),
        essential_metadata: EssentialMetadata { title: "a".into(), creation: -5 },
        type_metadata: TypeMetadata::Image { width: 4, height: 3 },
        extra_metadata: Some(vec![("camera".into(), "\"x\"".into()), ("title".into(), "\"b\"".into())]),
    };
    let record = media_record(&image);
    assert_eq!(text(&record, "url"), Some("file:///a.png".to_string()));
    assert_eq!(text(&record, "title"), Some("\"b\"".to_string()));
    assert!(matches!(record.get("creation"), Some(Field::Int(-5))));
    assert!(matches!(record.get("width"), Some(Field::UInt(4))));
    assert!(matches!(record.get("height"), Some(Field::UInt(3))));
    assert_eq!(text(&record, "type"), Some("image".to_string()));
    assert_eq!(text(&record, "camera"), Some("\"x\"".to_string()));
    assert_eq!(record.len(), 7);
    let pdf = Media {
        type_metadata: TypeMetadata::PDF { author: "me".into(), summary: "s".into() },
        ..Media::default()
    };
    let record = media_record(&pdf);
    assert_eq!(text(&record, "width"), Some("me".to_string()));
    assert_eq!(text(&record, "height"), Some("s".to_string()));
    assert_eq!(text(&record, "type"), Some("pdf".to_string()));
    assert_eq!(TypeMetadata::default().kind_name(), "image");
    assert_eq!(pdf.type_metadata.kind_name(), "pdf");
}

#[test]
fn media_list_window() {
    let mut list: MediaListRust<u32> = MediaListRust::new();
    list.render_amount = 3;
    list.offset = 2;
    assert_eq!(list.append_batch(vec![0, 1]), (2, 2));
    assert_eq!(list.total, 0);
    assert_eq!(list.append_batch(vec![2, 3, 4, 5]), (2, 5));
    assert_eq!(list.total, 2);
    assert_eq!(list.media, vec![0, 1, 2, 3, 4, 5]);
    assert_eq!(list.rerender(), (2, 5));
    list.offset = 5;
    assert_eq!(list.rerender(), (5, 6));
    assert_eq!(list.append_batch(vec![6, 7, 8, 9]), (6, 8));
    let mut far: MediaListRust<u32> = MediaListRust::new();
    far.offset = usize::MAX;
    far.render_amount = 1;
    assert_eq!(far.append_batch(vec![]), (usize::MAX, usize::MAX));
}

#[test]
fn url_feed_hands_over_every_half_second() {
    let mut feed = UrlFeed::new(1000);
    assert_eq!(feed.push_url("a".into(), 1200), None);
    assert_eq!(feed.push_url("b".into(), 1500), Some(strings(&["a", "b"])));
    assert_eq!(feed.last_update_ms, 1500);
    assert_eq!(feed.push_url("c".into(), 1999), None);
    assert_eq!(feed.push_url("d".into(), 400), None);
    assert_eq!(feed.finish(), strings(&["a", "b", "c", "d"]));
}

#[test]
fn viewer_totals_rise_through_a_run() {
    let mut view = FenluPipeline::new();
    view.start_run(0);
    let mut shown = vec![view.total];
    for (i, batch) in [&["a"][..], &["b", "c"][..], &["d"][..]].iter().enumerate() {
        view.receive_batch(strings(batch), 2000 * (i as u64 + 1), 1000);
        shown.push(view.total);
    }
    shown.push(view.finish_run());
    assert_eq!(shown, vec![0, 1, 3, 4, 4]);
    assert!(shown.windows(2).all(|w| w[0] <= w[1]));
    assert_eq!(*shown.last().unwrap(), view.items.len());
}

#[test]
fn running_flag_drops_only_after_success() {
    let mut view = FenluPipeline::new();
    view.set_running(true);
    view.pipeline_returned(false);
    assert!(view.running);
    view.pipeline_returned(true);
    assert!(!view.running);
}

#[test]
fn sink_error_message() {
    assert_eq!(SinkError::UnsupportedMethod.message(), "unsupported method");
}

#[test]
fn a_whole_run_with_a_failed_start() {
    let mut view = FenluPipeline::new();
    view.set_running(true);
    view.start_run(0);
    assert_eq!(view.total, 0);
    assert_eq!(view.receive_batch(strings(&["a", "b"]), 10, 1000), None);
    assert_eq!(view.total, 0);
    assert_eq!(view.finish_run(), 2);
    view.pipeline_returned(false);
    assert!(view.running);
    assert_eq!(view.total, 2);
}
