use e6viu::errors::AppError;

#[test]
fn every_error_has_its_own_message() {
    let all = [
        AppError::Network,
        AppError::Parse,
        AppError::EmptyResult,
        AppError::AuthEncoding,
        AppError::Io,
        AppError::EmptyDefinitionSet,
    ];
    for (i, a) in all.iter().enumerate() {
        assert!(!a.message().is_empty());
        for b in all.iter().skip(i + 1) {
            assert_ne!(a.message(), b.message());
        }
    }
}

#[test]
fn empty_result_names_the_missing_posts() {
    assert_eq!(AppError::EmptyResult.message(), "no posts returned");
}
