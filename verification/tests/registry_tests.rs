use udesk_core::registry::ContainerConfig;
use udesk_core::registry::Registry;
use udesk_core::engine::synthesize_container_name;

fn config(workspace: &str) -> ContainerConfig {
    ContainerConfig {
        name: "dev".to_string(),
        image: "udesk/udos:latest".to_string(),
        workspace_path: workspace.to_string(),
        extensions: vec!["udesk-base".to_string()],
        theme: "C64".to_string(),
        role: "USER".to_string(),
    }
}

#[test]
fn new_registry_tracks_nothing() {
    let r = Registry::new();
    assert!(!r.contains("abc"));
    assert!(r.get("abc").is_none());
}

#[test]
fn successful_start_inserts_one_running_entry() {
    let mut r = Registry::new();
    r.record_start(&config("/home/me/work"), "id-1".to_string(), "udesk-12345678".to_string());
    assert!(r.contains("id-1"));
    let e = r.get("id-1").unwrap();
    assert_eq!(e.id, "id-1");
    assert_eq!(e.name, "udesk-12345678");
    assert_eq!(e.status, "running");
    assert_eq!(e.ports, vec!["2222:22".to_string(), "8080:8080".to_string()]);
    assert!(!e.created.is_empty());
}

#[test]
fn stop_of_absent_id_is_not_an_error() {
    let mut r = Registry::new();
    r.record_stop("never-started");
    assert!(!r.contains("never-started"));
    r.record_start(&config("/w"), "id-1".to_string(), "udesk-aaaaaaaa".to_string());
    r.record_stop("some-other-id");
    assert!(r.contains("id-1"));
}

#[test]
fn keys_track_starts_not_yet_stopped() {
    let mut r = Registry::new();
    r.record_start(&config("/w"), "a".to_string(), "udesk-aaaaaaaa".to_string());
    r.record_start(&config("/w"), "b".to_string(), "udesk-bbbbbbbb".to_string());
    assert!(r.contains("a") && r.contains("b"));
    r.record_stop("a");
    assert!(!r.contains("a"));
    assert!(r.contains("b"));
    r.record_start(&config("/w"), "a".to_string(), "udesk-cccccccc".to_string());
    assert!(r.contains("a"));
    r.record_stop("b");
    r.record_stop("a");
    assert!(!r.contains("a") && !r.contains("b"));
}

#[test]
fn duplicate_id_overwrites_the_earlier_entry() {
    let mut r = Registry::new();
    r.record_start(&config("/w1"), "dup".to_string(), "udesk-first000".to_string());
    r.record_start(&config("/w2"), "dup".to_string(), "udesk-second00".to_string());
    let e = r.get("dup").unwrap();
    assert_eq!(e.name, "udesk-second00");
    r.record_stop("dup");
    assert!(!r.contains("dup"));
}

#[test]
fn start_records_the_active_workspace() {
    let mut r = Registry::new();
    r.record_start(&config("/home/me/space"), "id".to_string(), "udesk-xyzxyzxy".to_string());
    assert_eq!(r.resolve_workspace_path(""), "/home/me/space");
    assert_eq!(r.resolve_workspace_path("src/lib.rs"), "/home/me/space/src/lib.rs");
}

#[test]
fn synthesized_names_carry_the_prefix() {
    let n = synthesize_container_name();
    assert_eq!(n.chars().count(), 14);
    assert!(n.starts_with("udesk-"));
    let m = synthesize_container_name();
    assert_eq!(m.chars().count(), 14);
}
