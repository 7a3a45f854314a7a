use duo_oidc::error::DuoError;
use duo_oidc::store::ContextStore;

#[test]
fn save_find_delete() {
    let mut s = ContextStore::new();
    s.save("s1", "a@example.com", "n1", 100, 300).unwrap();
    assert_eq!(s.save("s1", "b@example.com", "n2", 100, 300).unwrap_err(), DuoError::Storage);
    let c = s.find_by_state("s1").unwrap();
    assert_eq!((c.user_email.as_str(), c.nonce.as_str(), c.exp), ("a@example.com", "n1", 400));
    assert!(s.find_by_state("s2").is_none());
    s.delete("s1");
    assert!(s.find_by_state("s1").is_none());
    assert_eq!(s.len(), 0);
    assert_eq!(s.save("s3", "a", "n", i64::MAX, 1).unwrap_err(), DuoError::Storage);
}

#[test]
fn extract_removes_even_expired() {
    let mut s = ContextStore::new();
    s.save("s1", "a", "n", 100, 300).unwrap();
    assert!(s.extract_context("s1", 401).is_none());
    assert_eq!(s.len(), 0);
    s.save("s1", "a", "n", 100, 300).unwrap();
    assert_eq!(s.extract_context("s1", 400).unwrap().nonce, "n");
    assert!(s.extract_context("s1", 400).is_none());
}

#[test]
fn purge_removes_only_expired() {
    let mut s = ContextStore::new();
    s.save("old", "a", "n", 0, 10).unwrap();
    s.save("edge", "a", "n", 0, 50).unwrap();
    s.save("new", "a", "n", 100, 300).unwrap();
    s.purge_expired(50);
    assert_eq!(s.len(), 2);
    assert!(s.find_by_state("old").is_none());
    assert!(s.find_by_state("edge").is_some());
    assert!(s.find_by_state("new").is_some());
}
