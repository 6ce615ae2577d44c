use camrig::watch::{copy_bytes, path_of, same_bytes, video_name, WatchedSet};

#[test]
fn same_bytes_compares_contents() {
    assert!(same_bytes(b"", b""));
    assert!(same_bytes(b"video0", b"video0"));
    assert!(!same_bytes(b"video0", b"video1"));
    assert!(!same_bytes(b"video0", b"video"));
    assert!(!same_bytes(b"", b"v"));
}

#[test]
fn copy_bytes_copies() {
    assert_eq!(copy_bytes(b""), Vec::<u8>::new());
    assert_eq!(copy_bytes(b"video0"), b"video0".to_vec());
}

#[test]
fn video_name_wants_the_prefix() {
    assert!(video_name(b"video"));
    assert!(video_name(b"video0"));
    assert!(video_name(b"video0-event-joystick"));
    assert!(!video_name(b"vide"));
    assert!(!video_name(b""));
    assert!(!video_name(b"Video0"));
    assert!(!video_name(b"xvideo0"));
    assert!(!video_name(b"vidoe0"));
    assert!(!video_name(b"js0-event-joystick"));
}

#[test]
fn path_of_puts_the_directory_in_front() {
    assert_eq!(path_of(b"video0"), b"/dev/video0".to_vec());
    assert_eq!(path_of(b""), b"/dev/".to_vec());
}

#[test]
fn watched_set_keeps_each_name_once() {
    let mut set = WatchedSet::new();
    assert!(set.is_empty());
    assert!(!set.contains(b"video0"));
    assert!(set.insert(b"video0".to_vec()));
    assert!(!set.insert(b"video0".to_vec()));
    assert!(set.contains(b"video0"));
    assert!(!set.is_empty());
    assert!(set.insert(b"video1".to_vec()));
    assert!(set.remove(b"video0"));
    assert!(!set.contains(b"video0"));
    assert!(set.contains(b"video1"));
    assert!(!set.remove(b"video0"));
    assert!(set.remove(b"video1"));
    assert!(set.is_empty());
}

#[test]
fn watched_set_remove_from_the_middle() {
    let mut set = WatchedSet::new();
    for name in [&b"video0"[..], b"video1", b"video2"] {
        assert!(set.insert(name.to_vec()));
    }
    assert!(set.remove(b"video1"));
    assert!(set.contains(b"video0"));
    assert!(!set.contains(b"video1"));
    assert!(set.contains(b"video2"));
    assert!(!set.remove(b"video"));
}
