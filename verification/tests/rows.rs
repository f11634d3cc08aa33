use record_store::errors::RepoError;
use record_store::rows::collect_rows;

#[test]
fn all_rows_decoded_yields_the_full_list() {
    let rows: Vec<Result<u32, RepoError>> = vec![Ok(1), Ok(2), Ok(3)];
    assert_eq!(collect_rows(rows), Ok(vec![1, 2, 3]));
}

#[test]
fn no_rows_yields_the_empty_list() {
    let rows: Vec<Result<u32, RepoError>> = Vec::new();
    assert_eq!(collect_rows(rows), Ok(Vec::new()));
}

#[test]
fn first_error_aborts_and_discards_decoded_rows() {
    let rows: Vec<Result<u32, RepoError>> = vec![
        Ok(1),
        Err(RepoError::DecodeError),
        Ok(3),
        Err(RepoError::StoreError),
    ];
    assert_eq!(collect_rows(rows), Err(RepoError::DecodeError));
}

#[test]
fn store_error_propagates_as_itself() {
    let rows: Vec<Result<u32, RepoError>> = vec![Err(RepoError::StoreError)];
    assert_eq!(collect_rows(rows), Err(RepoError::StoreError));
}

#[test]
fn error_labels_name_each_failure() {
    assert_eq!(RepoError::StoreError.label(), "store error");
    assert_eq!(RepoError::DecodeError.label(), "decode error");
    assert_eq!(RepoError::NotFound.label(), "not found");
    assert_eq!(RepoError::IncompleteBuilder.label(), "incomplete builder");
}
