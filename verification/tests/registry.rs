use player_lifecycle::MpvProcess;
use player_lifecycle::Registry;

fn record(id: u32, url: &str, title: &str) -> MpvProcess {
    MpvProcess {
        id,
        url: url.to_string(),
        start_time: 100,
        last_known_time: None,
        title: title.to_string(),
        thumbnail: None,
    }
}

#[test]
fn snapshot_of_empty_registry_is_empty() {
    let reg = Registry::new();
    assert_eq!(reg.snapshot().len(), 0);
    assert_eq!(reg.len(), 0);
}

#[test]
fn insert_and_snapshot() {
    let mut reg = Registry::new();
    reg.insert(record(1, "http://h/a.mp4", "A"));
    reg.insert(record(2, "http://h/b.mp4", "B"));
    let snap = reg.snapshot();
    assert_eq!(snap.len(), 2);
    assert!(snap.iter().any(|p| p.id == 1 && p.url == "http://h/a.mp4" && p.title == "A"));
    assert!(snap.iter().any(|p| p.id == 2 && p.url == "http://h/b.mp4" && p.title == "B"));
}

#[test]
fn insert_replaces_entry_with_equal_id() {
    let mut reg = Registry::new();
    reg.insert(record(5, "http://h/old.mp4", "Old"));
    reg.insert(record(5, "http://h/new.mp4", "New"));
    let snap = reg.snapshot();
    assert_eq!(snap.len(), 1);
    assert_eq!(snap[0].id, 5);
    assert_eq!(snap[0].url, "http://h/new.mp4");
    assert_eq!(snap[0].title, "New");
}

#[test]
fn ids_stay_unique_across_operations() {
    let mut reg = Registry::new();
    reg.insert(record(1, "http://h/a.mp4", "A"));
    reg.insert(record(2, "http://h/b.mp4", "B"));
    reg.insert(record(1, "http://h/c.mp4", "C"));
    reg.remove(2);
    reg.insert(record(2, "http://h/d.mp4", "D"));
    let snap = reg.snapshot();
    for i in 0..snap.len() {
        for j in 0..snap.len() {
            if i != j {
                assert_ne!(snap[i].id, snap[j].id);
            }
        }
    }
    assert_eq!(snap.len(), 2);
}

#[test]
fn remove_returns_entry_then_nothing() {
    let mut reg = Registry::new();
    reg.insert(record(9, "http://h/a.mp4", "A"));
    let first = reg.remove(9);
    assert!(first.is_some());
    assert_eq!(first.unwrap().url, "http://h/a.mp4");
    let second = reg.remove(9);
    assert!(second.is_none());
    assert_eq!(reg.len(), 0);
}

#[test]
fn remove_of_absent_id_changes_nothing() {
    let mut reg = Registry::new();
    reg.insert(record(3, "http://h/a.mp4", "A"));
    assert!(reg.remove(4).is_none());
    let snap = reg.snapshot();
    assert_eq!(snap.len(), 1);
    assert_eq!(snap[0].id, 3);
}
