use lockdown::errors::LockdownError;

#[test]
fn every_error_has_a_distinct_description() {
    let errors = [
        LockdownError::AuthFailed,
        LockdownError::TokenNotFound,
        LockdownError::ChangeRejected,
        LockdownError::RevokeRejected,
        LockdownError::UnexpectedContactSurface,
        LockdownError::IOError,
    ];
    for (i, a) in errors.iter().enumerate() {
        assert!(!a.describe().is_empty());
        for (j, b) in errors.iter().enumerate() {
            if i != j {
                assert_ne!(a.describe(), b.describe());
            }
        }
    }
}
