use vo_gix::{GixError, RepoStore};

#[test]
fn invalid_repo_id_fails() {
    let mut store: RepoStore<String> = RepoStore::new();
    let invalid = 9_999_999u64;
    // a status query looks the handle up first
    assert!(store.repo(invalid).is_err());
    // so does a branch listing
    assert!(store
        .with_repo(invalid, |repo: &String| Ok::<usize, GixError>(repo.len()))
        .is_err());
    assert!(store.close(invalid).is_err());
}

#[test]
fn store_lifecycle() {
    let mut store: RepoStore<String> = RepoStore::new();
    let id = store.put_repo("first".to_string());
    assert_eq!(id, 1);
    assert_eq!(store.repo(id as u64).unwrap(), "first");
    let second = store.put_repo("second".to_string());
    assert_eq!(second, 2);
    assert_eq!(store.repo(id as u64).unwrap(), "first");
    assert_eq!(store.repo(second as u64).unwrap(), "second");
    let len = store.with_repo(second as u64, |r: &String| Ok::<usize, GixError>(r.len()));
    assert_eq!(len, Ok(6));
    assert_eq!(store.close(id as u64), Ok(()));
    assert_eq!(store.repo(id as u64), Err(GixError::InvalidRepoId(1)));
    assert_eq!(store.close(id as u64), Err(GixError::InvalidRepoId(1)));
    assert_eq!(store.repo(second as u64).unwrap(), "second");
    assert_eq!(store.put_repo("third".to_string()), 3);
}

#[test]
fn closed_handle_message() {
    let mut store: RepoStore<u8> = RepoStore::new();
    let id = store.put_repo(7);
    store.close(id as u64).unwrap();
    let err = store.repo(id as u64).unwrap_err();
    assert_eq!(err.message(), "invalid repo id 1");
}

#[test]
fn wide_handle_refused() {
    let mut store: RepoStore<u8> = RepoStore::new();
    store.put_repo(1);
    let wide = (u32::MAX as u64) + 1;
    let err = store.repo(wide).unwrap_err();
    assert_eq!(err, GixError::IdOutOfRange(wide));
    assert_eq!(err.message(), "id out of range: 4294967296");
    assert_eq!(store.close(u64::MAX).unwrap_err().message(), "id out of range: 18446744073709551615");
    assert_eq!(RepoStore::<u8>::handle_of(u32::MAX as u64), Ok(u32::MAX));
}

#[test]
fn with_repo_passes_result_through() {
    let mut store: RepoStore<String> = RepoStore::new();
    let id = store.put_repo("x".to_string());
    let r: Result<(), GixError> =
        store.with_repo(id as u64, |_r: &String| Err(GixError::Git("boom".to_string())));
    assert_eq!(r.unwrap_err().message(), "boom");
    let missing: Result<(), GixError> = store.with_repo(42, |_r: &String| Ok(()));
    assert_eq!(missing.unwrap_err().message(), "invalid repo id 42");
}

#[test]
fn closed_handle_not_reissued() {
    let mut store: RepoStore<String> = RepoStore::new();
    let id = store.put_repo("repo".to_string());
    assert!(store.repo(id as u64).is_ok());
    store.close(id as u64).unwrap();
    for _ in 0..5 {
        let later = store.put_repo("other".to_string());
        assert_ne!(later, id);
        assert!(later > id);
    }
    assert_eq!(store.repo(id as u64).unwrap_err().message(), "invalid repo id 1");
}
