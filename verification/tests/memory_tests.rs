use weatherbot::memory::UserLocationMemory;

#[test]
fn memory_store_and_overwrite() {
    let mut mem = UserLocationMemory::new();
    assert_eq!(mem.lookup("alice"), None);
    mem.store("alice", "10001,+USA".to_string());
    assert_eq!(mem.lookup("alice").as_deref(), Some("10001,+USA"));
    mem.store("alice", "94040,+USA".to_string());
    assert_eq!(mem.lookup("alice").as_deref(), Some("94040,+USA"));
    assert_eq!(mem.lookup("bob"), None);
    mem.store("bob", "Paris".to_string());
    assert_eq!(mem.lookup("alice").as_deref(), Some("94040,+USA"));
    assert_eq!(mem.lookup("bob").as_deref(), Some("Paris"));
}
