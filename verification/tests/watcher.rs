use visrs::bundle::{ShaderBundle, ShaderRole, SourceProbe, TrackedSource};
use visrs::ledger::ModificationLedger;
use visrs::watcher::{observe, Watcher, POLL_INTERVAL_MS};

fn pair() -> Vec<TrackedSource> {
    vec![
        TrackedSource::new("a.vert".to_string(), ShaderRole::Vertex),
        TrackedSource::new("a.frag".to_string(), ShaderRole::Fragment),
    ]
}

fn opened(modified: u64, text: &str) -> SourceProbe {
    SourceProbe::Opened { modified, content: Some(text.to_string()) }
}

fn bundle(vertex: Option<&str>, fragment: Option<&str>, geometry: Option<&str>) -> ShaderBundle {
    ShaderBundle {
        vertex: vertex.map(|text| text.to_string()),
        fragment: fragment.map(|text| text.to_string()),
        geometry: geometry.map(|text| text.to_string()),
    }
}

#[test]
fn poll_interval_is_half_a_second() {
    assert_eq!(POLL_INTERVAL_MS, 500);
}

#[test]
fn new_watcher_has_seen_nothing() {
    let watcher = Watcher::new(pair());
    assert_eq!(watcher.watch_list(), &pair());
    assert_eq!(watcher.ledger().len(), 0);
}

#[test]
fn first_cycle_sends_everything_read() {
    let mut watcher = Watcher::new(pair());
    let sent = watcher.scan(&vec![opened(100, "v1"), opened(100, "f1")]);
    assert_eq!(sent, Some(bundle(Some("v1"), Some("f1"), None)));
    assert_eq!(watcher.ledger().last_seen(&"a.vert".to_string()), Some(100));
    assert_eq!(watcher.ledger().last_seen(&"a.frag".to_string()), Some(100));
}

#[test]
fn unchanged_times_send_nothing() {
    let mut watcher = Watcher::new(pair());
    let probes = vec![opened(100, "v1"), opened(100, "f1")];
    assert!(watcher.scan(&probes).is_some());
    assert_eq!(watcher.scan(&probes), None);
    assert_eq!(watcher.scan(&probes), None);
    assert_eq!(watcher.ledger().last_seen(&"a.vert".to_string()), Some(100));
    assert_eq!(watcher.ledger().len(), 2);
}

#[test]
fn changed_text_under_the_same_time_sends_nothing() {
    let mut watcher = Watcher::new(pair());
    assert!(watcher.scan(&vec![opened(100, "v1"), opened(100, "f1")]).is_some());
    assert_eq!(watcher.scan(&vec![opened(100, "v2"), opened(100, "f2")]), None);
}

#[test]
fn a_time_that_goes_back_sends_nothing() {
    let mut watcher = Watcher::new(pair());
    assert!(watcher.scan(&vec![opened(100, "v1"), opened(100, "f1")]).is_some());
    assert_eq!(watcher.scan(&vec![opened(90, "v0"), opened(100, "f1")]), None);
    assert_eq!(watcher.ledger().last_seen(&"a.vert".to_string()), Some(100));
}

#[test]
fn one_newer_file_sends_the_whole_bundle() {
    let mut watcher = Watcher::new(pair());
    assert!(watcher.scan(&vec![opened(100, "v1"), opened(100, "f1")]).is_some());
    let sent = watcher.scan(&vec![opened(100, "v1"), opened(105, "f2")]);
    assert_eq!(sent, Some(bundle(Some("v1"), Some("f2"), None)));
    assert_eq!(watcher.ledger().last_seen(&"a.vert".to_string()), Some(100));
    assert_eq!(watcher.ledger().last_seen(&"a.frag".to_string()), Some(105));
}

#[test]
fn unavailable_source_is_skipped() {
    let mut watcher = Watcher::new(pair());
    let sent = watcher.scan(&vec![SourceProbe::Unavailable, opened(100, "f1")]);
    assert_eq!(sent, Some(bundle(None, Some("f1"), None)));
    assert_eq!(watcher.ledger().last_seen(&"a.vert".to_string()), None);
    assert_eq!(watcher.ledger().len(), 1);
}

#[test]
fn all_unavailable_sends_nothing() {
    let mut watcher = Watcher::new(pair());
    assert_eq!(watcher.scan(&vec![SourceProbe::Unavailable, SourceProbe::Unavailable]), None);
    assert_eq!(watcher.ledger().len(), 0);
}

#[test]
fn unavailable_role_is_not_carried_over() {
    let mut watcher = Watcher::new(pair());
    assert!(watcher.scan(&vec![opened(100, "v1"), opened(100, "f1")]).is_some());
    let sent = watcher.scan(&vec![SourceProbe::Unavailable, opened(105, "f2")]);
    assert_eq!(sent, Some(bundle(None, Some("f2"), None)));
}

#[test]
fn source_that_comes_back_unchanged_is_not_news() {
    let mut watcher = Watcher::new(pair());
    assert!(watcher.scan(&vec![opened(100, "v1"), opened(100, "f1")]).is_some());
    assert_eq!(watcher.scan(&vec![SourceProbe::Unavailable, opened(100, "f1")]), None);
    assert_eq!(watcher.scan(&vec![opened(100, "v1"), opened(100, "f1")]), None);
}

#[test]
fn read_failure_notes_the_time_and_omits_the_role() {
    let mut watcher = Watcher::new(pair());
    let unread = SourceProbe::Opened { modified: 100, content: None };
    let sent = watcher.scan(&vec![opened(100, "v1"), unread.clone()]);
    assert_eq!(sent, Some(bundle(Some("v1"), None, None)));
    assert_eq!(watcher.ledger().last_seen(&"a.frag".to_string()), Some(100));
    assert_eq!(watcher.scan(&vec![opened(100, "v1"), opened(100, "f1")]), None);
}

#[test]
fn missing_probes_count_as_unavailable() {
    let mut watcher = Watcher::new(pair());
    let sent = watcher.scan(&vec![opened(100, "v1")]);
    assert_eq!(sent, Some(bundle(Some("v1"), None, None)));
    assert_eq!(watcher.scan(&vec![]), None);
}

#[test]
fn surplus_probes_are_ignored() {
    let mut watcher = Watcher::new(pair());
    let sent = watcher.scan(&vec![opened(100, "v1"), opened(100, "f1"), opened(500, "x")]);
    assert_eq!(sent, Some(bundle(Some("v1"), Some("f1"), None)));
    assert_eq!(watcher.ledger().len(), 2);
}

#[test]
fn empty_watch_list_never_sends() {
    let mut watcher = Watcher::new(vec![]);
    assert_eq!(watcher.scan(&vec![opened(100, "v1")]), None);
    assert_eq!(watcher.scan(&vec![]), None);
}

#[test]
fn later_source_of_a_role_wins() {
    let mut watcher = Watcher::new(vec![
        TrackedSource::new("a.frag".to_string(), ShaderRole::Fragment),
        TrackedSource::new("a.vert".to_string(), ShaderRole::Vertex),
        TrackedSource::new("b.frag".to_string(), ShaderRole::Fragment),
    ]);
    let sent = watcher.scan(&vec![opened(1, "first"), opened(1, "v"), opened(1, "second")]);
    assert_eq!(sent, Some(bundle(Some("v"), Some("second"), None)));
    let sent = watcher.scan(&vec![opened(2, "newer"), opened(1, "v"), opened(1, "second")]);
    assert_eq!(sent, Some(bundle(Some("v"), Some("second"), None)));
    let sent = watcher.scan(&vec![opened(3, "newest"), opened(1, "v"), SourceProbe::Unavailable]);
    assert_eq!(sent, Some(bundle(Some("v"), Some("newest"), None)));
}

#[test]
fn geometry_text_is_carried() {
    let mut watcher = Watcher::new(vec![
        TrackedSource::new("a.vert".to_string(), ShaderRole::Vertex),
        TrackedSource::new("a.frag".to_string(), ShaderRole::Fragment),
        TrackedSource::new("a.geom".to_string(), ShaderRole::Geometry),
    ]);
    let sent = watcher.scan(&vec![opened(1, "v"), opened(2, "f"), opened(3, "g")]);
    assert_eq!(sent, Some(bundle(Some("v"), Some("f"), Some("g"))));
}

#[test]
fn one_identifier_under_two_roles_is_news_once() {
    let mut watcher = Watcher::new(vec![
        TrackedSource::new("both.glsl".to_string(), ShaderRole::Vertex),
        TrackedSource::new("both.glsl".to_string(), ShaderRole::Fragment),
    ]);
    let sent = watcher.scan(&vec![opened(10, "text"), opened(10, "text")]);
    assert_eq!(sent, Some(bundle(Some("text"), Some("text"), None)));
    assert_eq!(watcher.ledger().len(), 1);
    assert_eq!(watcher.scan(&vec![opened(10, "text"), opened(10, "text")]), None);
}

#[test]
fn observe_unavailable_changes_nothing() {
    let mut ledger = ModificationLedger::new();
    let mut assembled = ShaderBundle::new();
    let source = TrackedSource::new("a.vert".to_string(), ShaderRole::Vertex);
    assert!(!observe(&mut ledger, &mut assembled, &source, &SourceProbe::Unavailable));
    assert_eq!(ledger.len(), 0);
    assert_eq!(assembled, ShaderBundle::new());
}

#[test]
fn observe_stores_text_even_when_not_news() {
    let mut ledger = ModificationLedger::new();
    let mut assembled = ShaderBundle::new();
    let source = TrackedSource::new("a.vert".to_string(), ShaderRole::Vertex);
    assert!(observe(&mut ledger, &mut assembled, &source, &opened(5, "v1")));
    assert!(!observe(&mut ledger, &mut assembled, &source, &opened(5, "v2")));
    assert_eq!(assembled, bundle(Some("v2"), None, None));
    assert_eq!(ledger.last_seen(&"a.vert".to_string()), Some(5));
}
