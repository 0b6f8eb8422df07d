use memo_store::error::MemoError;

#[test]
fn each_error_has_its_message() {
    assert_eq!(
        MemoError::Store("disk I/O error".to_string()).message(),
        "disk I/O error"
    );
    assert_eq!(
        MemoError::DuplicateName("a,b".to_string()).message(),
        "A memo named a,b already exists"
    );
    assert_eq!(
        MemoError::ExternalAppUnavailable.message(),
        "Things is not installed"
    );
    assert_eq!(
        MemoError::Capability.message(),
        "This command is only available on macOS"
    );
    assert_eq!(
        MemoError::FileNotFound("/memos/a.wav".to_string()).message(),
        "File /memos/a.wav doesn't exist"
    );
    assert_eq!(
        MemoError::InvalidUrl.message(),
        "The tasks do not fit into a URL"
    );
}
