use media_plugins::pipeline_snapshot::emscripten::{escape_js, notify_new_dot};
use media_plugins::pipeline_snapshot::settings::{
    cleanup_mode_from, CleanupMode, NoCacheDir, Params, Settings,
};
use media_plugins::pipeline_snapshot::snapshot::{is_dot_file, PipelineSnapshot};

#[test]
fn texts_are_escaped() {
    assert_eq!(escape_js("a`b$c\\d"), "a\\`b\\$c\\\\d");
    assert_eq!(escape_js(""), "");
    assert_eq!(
        notify_new_dot("p`", "digraph {}"),
        "if (typeof globalThis.__gstDotsWasm !== 'undefined') { globalThis.__gstDotsWasm.onNewDot(`p\\``, `digraph {}`); }"
    );
}

fn text(s: &str) -> Option<String> {
    Some(s.to_string())
}

fn params() -> Params {
    Params {
        dot_dir: None,
        dot_prefix: None,
        dot_ts: None,
        dot_pipeline_ptr: None,
        cleanup_mode: None,
    }
}

#[test]
fn settings_are_updated() {
    let mut s = Settings::default();
    assert_eq!(s.dot_prefix.as_deref(), Some("pipeline-snapshot-"));
    assert!(s.dot_ts && !s.dot_pipeline_ptr && !s.use_folders);
    assert_eq!(s.cleanup_mode, CleanupMode::Never);
    let given = Params {
        dot_dir: Some(text("/tmp/dots")),
        dot_prefix: Some(text("badger-")),
        dot_ts: Some(false),
        dot_pipeline_ptr: Some(true),
        cleanup_mode: text("automatic"),
    };
    assert_eq!(s.update_from_params(given, None), Ok(()));
    assert_eq!(s.dot_dir.as_deref(), Some("/tmp/dots"));
    assert_eq!(s.dot_prefix.as_deref(), Some("badger-"));
    assert!(!s.dot_ts && s.dot_pipeline_ptr);
    assert_eq!(s.cleanup_mode, CleanupMode::Automatic);
    assert_eq!(s.update_from_params(params(), text("/env")), Ok(()));
    assert_eq!(s.dot_dir.as_deref(), Some("/tmp/dots"));
    let mut none = params();
    none.dot_dir = Some(None);
    none.dot_prefix = Some(None);
    none.cleanup_mode = text("sometimes");
    assert_eq!(s.update_from_params(none, text("/env")), Ok(()));
    assert_eq!(s.dot_dir.as_deref(), Some("/env"));
    assert_eq!(s.dot_prefix, None);
    assert_eq!(s.cleanup_mode, CleanupMode::Never);
    assert_eq!(cleanup_mode_from("initial"), CleanupMode::Initial);
    assert_eq!(cleanup_mode_from("none"), CleanupMode::Never);
}

#[test]
fn graphs_go_to_the_cache_directory() {
    let mut s = Settings::default();
    s.place_dots(text("xdg-cache"), text("/home/a/.cache"), None);
    assert_eq!(s.dot_dir.as_deref(), Some("/home/a/.cache/gstreamer-dots"));
    s.place_dots(text("xdg-cache"), text("/cache/"), None);
    assert_eq!(s.dot_dir.as_deref(), Some("/cache/gstreamer-dots"));
    s.place_dots(text("xdg-cache"), None, text("/env"));
    assert_eq!(s.dot_dir, None);
    s.place_dots(text("/x"), text("/cache"), text("/env"));
    assert_eq!(s.dot_dir.as_deref(), Some("/x"));

    match (dirs::cache_dir(), s.set_dot_dir(text("xdg-cache"), None)) {
        (Some(dir), r) => {
            assert_eq!(r, Ok(()));
            let expected = dir.join("gstreamer-dots");
            assert_eq!(s.dot_dir.as_deref(), expected.to_str());
        }
        (None, r) => {
            assert_eq!(r, Err(NoCacheDir));
            assert_eq!(s.dot_dir.as_deref(), Some("/x"));
        }
    }
    assert_eq!(s.set_dot_dir(None, text("/env")), Ok(()));
    assert_eq!(s.dot_dir.as_deref(), Some("/env"));
}

#[test]
fn pipelines_come_and_go() {
    let mut tracer = PipelineSnapshot::new(Settings::default());
    tracer.element_new(true, 16, 1);
    tracer.element_new(false, 32, 2);
    assert_eq!(tracer.pipelines.len(), 1);
    assert_eq!(tracer.pipelines.get(&16), Some(&1));
    assert!(!tracer.object_destroyed(32));
    assert!(tracer.object_destroyed(16));
    assert!(!tracer.object_destroyed(16));
}

#[test]
fn each_snapshot_has_its_folder() {
    let mut tracer = PipelineSnapshot::new(Settings::default());
    assert_eq!(tracer.snapshot_folder(), None);
    tracer.settings.use_folders = true;
    assert_eq!(tracer.snapshot_folder(), None);
    assert_eq!(tracer.current_folder, 0);
    tracer.settings.dot_dir = text("/dots");
    assert_eq!(tracer.snapshot_folder().as_deref(), Some("/dots/0"));
    assert_eq!(tracer.snapshot_folder().as_deref(), Some("/dots/1"));
    tracer.current_folder = 120;
    assert_eq!(tracer.snapshot_folder().as_deref(), Some("/dots/120"));
    tracer.settings.use_folders = false;
    assert_eq!(tracer.snapshot_folder().as_deref(), Some("/dots"));
    assert_eq!(tracer.current_folder, 121);
}

#[test]
fn paths_of_graphs() {
    let mut tracer = PipelineSnapshot::new(Settings::default());
    assert_eq!(
        tracer.dot_path("/dots", "0:00:01", "pipeline0", "0x10"),
        "/dots/0:00:01-pipeline-snapshot-pipeline0.dot"
    );
    tracer.settings.dot_ts = false;
    tracer.settings.dot_pipeline_ptr = true;
    tracer.settings.dot_prefix = None;
    assert_eq!(
        tracer.dot_path("/dots", "0:00:01", "pipeline0", "0x10"),
        "/dots/pipeline0-0x10.dot"
    );
}

#[test]
fn old_graphs_are_removed() {
    assert!(is_dot_file("a.dot"));
    assert!(is_dot_file("a.b.dot"));
    assert!(!is_dot_file(".dot"));
    assert!(!is_dot_file("dot"));
    assert!(!is_dot_file("a.dots"));
    assert!(!is_dot_file("a.dot.png"));
    let mut tracer = PipelineSnapshot::new(Settings::default());
    assert!(!tracer.cleanup_at_start() && !tracer.cleanup_before_snapshot());
    tracer.settings.cleanup_mode = CleanupMode::Initial;
    assert!(tracer.cleanup_at_start() && !tracer.cleanup_before_snapshot());
    tracer.settings.cleanup_mode = CleanupMode::Automatic;
    assert!(!tracer.cleanup_at_start() && tracer.cleanup_before_snapshot());
}
