use spin_info::component::{render_component, Build, Component, EnvVar, FileMount, Footprint, MountSize};
use spin_info::error::{InfoError, LoadPhase};
use spin_info::files::{decimal_string, local_source_path, tally, WalkEntry};
use spin_info::info::{render_report, Manifest};
use spin_info::metadata::{
    render_host_requirements, render_metadata, render_triggers, render_variables, show, MetaEntry,
    MetaValue, Trigger, Variable,
};

fn text(s: &str) -> MetaValue {
    MetaValue { text: format!("\"{}\"", s), string: Some(s.to_string()), strings: None }
}

fn list(items: &[&str]) -> MetaValue {
    let quoted: Vec<String> = items.iter().map(|s| format!("\"{}\"", s)).collect();
    MetaValue {
        text: format!("[{}]", quoted.join(",")),
        string: None,
        strings: Some(items.iter().map(|s| s.to_string()).collect()),
    }
}

fn other(json: &str) -> MetaValue {
    MetaValue { text: json.to_string(), string: None, strings: None }
}

fn entry(k: &str, v: MetaValue) -> MetaEntry {
    MetaEntry { key: k.to_string(), value: v }
}

fn todo_metadata() -> Vec<MetaEntry> {
    vec![entry("name", text("todo-app")), entry("version", text("1.2.0")), entry("authors", list(&["A", "B"]))]
}

fn component(id: &str, metadata: Vec<MetaEntry>, build: Option<Build>) -> Component {
    Component {
        id: id.to_string(),
        metadata,
        build,
        content_type: "application/wasm".to_string(),
        source: Some("file:///tmp/app.wasm".to_string()),
        env: vec![],
        files: vec![],
    }
}

#[test]
fn identity_then_authors() {
    let lines = render_metadata(&todo_metadata()).unwrap();
    assert_eq!(lines, vec!["todo-app@1.2.0", "Author: A", "Author: B"]);
}

#[test]
fn rendering_twice_is_identical() {
    let m = todo_metadata();
    assert_eq!(render_metadata(&m), render_metadata(&m));
}

#[test]
fn missing_version_fails() {
    let m = vec![entry("name", text("todo-app")), entry("authors", list(&["A"]))];
    assert_eq!(render_metadata(&m), Err(InfoError::MissingVersion));
}

#[test]
fn missing_name_fails() {
    let m = vec![entry("version", text("1.0.0"))];
    assert_eq!(render_metadata(&m), Err(InfoError::MissingName));
}

#[test]
fn authors_must_be_strings() {
    let m = vec![entry("name", text("a")), entry("version", text("1")), entry("authors", other("[1,2]"))];
    assert_eq!(render_metadata(&m), Err(InfoError::AuthorsNotStrings));
}

#[test]
fn description_and_other_keys() {
    let m = vec![
        entry("origin", text("oci://x")),
        entry("name", text("a")),
        entry("version", other("2")),
        entry("description", text("does things")),
        entry("trigger", other("{\"type\":\"http\"}")),
    ];
    let lines = render_metadata(&m).unwrap();
    assert_eq!(
        lines,
        vec!["a@2", "Description: does things", "origin: oci://x", "trigger: {\"type\":\"http\"}"]
    );
}

#[test]
fn first_of_repeated_key_counts() {
    let m = vec![entry("name", text("first")), entry("name", text("second")), entry("version", text("1"))];
    assert_eq!(render_metadata(&m).unwrap(), vec!["first@1"]);
}

#[test]
fn show_unquotes_strings_only() {
    assert_eq!(show(&text("x")), "x");
    assert_eq!(show(&other("[1]")), "[1]");
}

#[test]
fn triggers_in_order() {
    let ts = vec![
        Trigger { id: "t1".to_string(), trigger_type: "http".to_string(), config: "{\"route\":\"/\"}".to_string() },
        Trigger { id: "t2".to_string(), trigger_type: "redis".to_string(), config: "{}".to_string() },
    ];
    assert_eq!(
        render_triggers(&ts),
        vec![
            "Application will be triggered by:",
            "   * http trigger: t1: {\"route\":\"/\"}",
            "   * redis trigger: t2: {}",
        ]
    );
}

#[test]
fn variables_skipped_when_empty() {
    assert!(render_variables(&vec![]).is_empty());
    let vs = vec![
        Variable { name: "api_key".to_string(), default: None, secret: true },
        Variable { name: "region".to_string(), default: Some("eu".to_string()), secret: false },
    ];
    assert_eq!(
        render_variables(&vs),
        vec!["Variables:", "   * api_key: default none, secret true", "   * region: default eu, secret false"]
    );
}

#[test]
fn host_requirements_on_one_line() {
    assert!(render_host_requirements(&vec![]).is_empty());
    let m = vec![entry("a", text("x")), entry("b", other("1"))];
    assert_eq!(render_host_requirements(&m), vec!["Host Requirements: a: \"x\", b: 1"]);
}

#[test]
fn absent_outbound_hosts_rendered_as_none() {
    let c = component("api", vec![entry("key_value_stores", list(&["default"]))], None);
    let fp = Footprint { artifact_size: "1.5 KB".to_string(), mounts: vec![] };
    let lines = render_component(&c, &fp).unwrap();
    assert_eq!(lines.len(), 6);
    assert_eq!(lines[0], "Component api");
    assert_eq!(lines[1], "Component Information:");
    let table = &lines[2];
    assert!(table.contains("Field"));
    let hosts = table.lines().find(|l| l.contains("Allowed Outbound Hosts")).unwrap();
    assert!(hosts.contains("None"));
    let kv = table.lines().find(|l| l.contains("Allowed Key/Value Stores")).unwrap();
    assert!(kv.contains("[\"default\"]"));
    let db = table.lines().find(|l| l.contains("Allowed Databases")).unwrap();
    assert!(db.contains("[]"));
    let build = table.lines().find(|l| l.contains("Build Command")).unwrap();
    assert!(build.contains("None"));
    assert_eq!(lines[3], "   The source for component api");
    assert_eq!(lines[4], "      * content type: application/wasm");
    assert_eq!(lines[5], "      * file size: 1.5 KB");
}

#[test]
fn build_without_command_fails() {
    let c = component("api", vec![], Some(Build { command: None }));
    let fp = Footprint { artifact_size: "1 KB".to_string(), mounts: vec![] };
    assert_eq!(render_component(&c, &fp), Err(InfoError::BuildWithoutCommand("api".to_string())));
}

#[test]
fn build_command_env_and_files() {
    let mut c = component("web", vec![], Some(Build { command: Some("cargo build".to_string()) }));
    c.env = vec![EnvVar { key: "A".to_string(), value: "1".to_string() }];
    c.files = vec![FileMount { path: "/static".to_string(), source: Some("file:///tmp/s".to_string()) }];
    let fp = Footprint {
        artifact_size: "2 MB".to_string(),
        mounts: vec![MountSize { count: 4, size: "2 KB".to_string() }],
    };
    let lines = render_component(&c, &fp).unwrap();
    assert!(lines[2].contains("cargo build"));
    assert_eq!(
        lines[6..].to_vec(),
        vec![
            "   Environment variables:",
            "      * A=1",
            "   Files:",
            "      * 4 files mounted at path /static, 2 KB in total",
        ]
    );
}

#[test]
fn mounted_tree_tally() {
    let entries = vec![
        WalkEntry { is_file: false, size: 4096 },
        WalkEntry { is_file: true, size: 512 },
        WalkEntry { is_file: true, size: 512 },
        WalkEntry { is_file: true, size: 512 },
        WalkEntry { is_file: false, size: 4096 },
        WalkEntry { is_file: true, size: 512 },
    ];
    let t = tally(&entries);
    assert_eq!(t.count, 4);
    assert_eq!(t.bytes, 2048);
    assert_eq!(human_bytes::human_bytes(t.bytes as f64), "2 KiB");
}

#[test]
fn empty_tree_tally() {
    let t = tally(&vec![]);
    assert_eq!((t.count, t.bytes), (0, 0));
}

#[test]
fn tally_of_largest_sizes_does_not_overflow() {
    let t = tally(&vec![WalkEntry { is_file: true, size: u64::MAX }, WalkEntry { is_file: true, size: u64::MAX }]);
    assert_eq!(t.bytes, 2 * (u64::MAX as u128));
}

#[test]
fn decimal_digits() {
    assert_eq!(decimal_string(0), "0");
    assert_eq!(decimal_string(7), "7");
    assert_eq!(decimal_string(1536), "1536");
    assert_eq!(decimal_string(u64::MAX), "18446744073709551615");
}

#[test]
fn file_uri_paths() {
    assert_eq!(local_source_path(&Some("file:///tmp/a.wasm".to_string()), "c"), Ok("/tmp/a.wasm".to_string()));
    assert_eq!(
        local_source_path(&Some("https://x/a.wasm".to_string()), "c"),
        Err(InfoError::NotFileUri("https://x/a.wasm".to_string()))
    );
    assert_eq!(local_source_path(&Some("file:".to_string()), "c"), Err(InfoError::NotFileUri("file:".to_string())));
    assert_eq!(local_source_path(&None, "c"), Err(InfoError::MissingSource("c".to_string())));
}

#[test]
fn load_failure_names_reference() {
    let e = InfoError::load_failed("ghcr.io/u/missing:v1", LoadPhase::Load, "not found".to_string());
    let msg = e.message();
    assert!(msg.contains("ghcr.io/u/missing:v1"));
    assert_eq!(msg, "cannot load application for 'ghcr.io/u/missing:v1': not found");
    let e = InfoError::load_failed("r/a:1", LoadPhase::Client, "no network".to_string());
    assert_eq!(e.message(), "cannot create registry client for 'r/a:1': no network");
}

#[test]
fn error_messages() {
    assert_eq!(InfoError::NoSource.message(), "No application source was specified");
    assert_eq!(InfoError::Unresolvable("m".to_string()).message(), "m");
    assert!(InfoError::MissingVersion.message().contains("version"));
    assert!(InfoError::BuildWithoutCommand("api".to_string()).message().contains("'api'"));
    assert!(InfoError::LocalUnsupported("/a".to_string()).message().ends_with("/a"));
}

#[test]
fn report_header_precedes_components() {
    let app = Manifest {
        metadata: todo_metadata(),
        triggers: vec![],
        variables: vec![],
        host_requirements: vec![],
        components: vec![component("api", vec![], None)],
    };
    let fps = vec![Footprint { artifact_size: "1 KB".to_string(), mounts: vec![] }];
    let lines = render_report(&app, &fps).unwrap();
    assert_eq!(lines[0], "todo-app@1.2.0");
    assert_eq!(lines[3], "Application will be triggered by:");
    assert_eq!(lines[4], "Component api");
    assert_eq!(lines.len(), 10);
}

#[test]
fn report_fails_on_malformed_metadata_first() {
    let app = Manifest {
        metadata: vec![entry("name", text("a"))],
        triggers: vec![],
        variables: vec![],
        host_requirements: vec![],
        components: vec![component("api", vec![], Some(Build { command: None }))],
    };
    let fps = vec![Footprint { artifact_size: "1 KB".to_string(), mounts: vec![] }];
    assert_eq!(render_report(&app, &fps), Err(InfoError::MissingVersion));
}

#[test]
fn report_fails_on_first_bad_component() {
    let app = Manifest {
        metadata: todo_metadata(),
        triggers: vec![],
        variables: vec![],
        host_requirements: vec![],
        components: vec![
            component("ok", vec![], None),
            component("bad1", vec![], Some(Build { command: None })),
            component("bad2", vec![], Some(Build { command: None })),
        ],
    };
    let fp = || Footprint { artifact_size: "1 KB".to_string(), mounts: vec![] };
    let fps = vec![fp(), fp(), fp()];
    assert_eq!(render_report(&app, &fps), Err(InfoError::BuildWithoutCommand("bad1".to_string())));
}
