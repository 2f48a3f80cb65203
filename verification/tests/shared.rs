use mentorminds::shared::SharedError;

#[test]
fn shared_error_codes() {
    let all = [
        SharedError::AlreadyInitialized,
        SharedError::NotInitialized,
        SharedError::Unauthorized,
        SharedError::NotFound,
        SharedError::InvalidAmount,
        SharedError::InvalidState,
        SharedError::DuplicateEntry,
        SharedError::UnsupportedOperation,
        SharedError::Overflow,
        SharedError::Underflow,
    ];
    let codes: Vec<u32> = all.iter().map(|e| e.code()).collect();
    assert_eq!(codes, (1..=10).collect::<Vec<u32>>());
}
