use flag_store::decisions::{
    flag_bytes, read_response, removal_response, verify_readback, verify_removed,
};
use flag_store::error::ContractError;
use flag_store::msg::ReadResponse;
use flag_store::response::{log, InitResponse, LogAttribute};

#[test]
fn flag_is_encoded_as_the_byte_one() {
    assert_eq!(flag_bytes(), Ok(vec![1u8]));
}

#[test]
fn encoded_flag_passes_the_readback_check() {
    let bytes = flag_bytes().unwrap();
    assert_eq!(verify_readback(Some(bytes)), Ok(()));
}

#[test]
fn readback_of_true_passes() {
    assert_eq!(verify_readback(Some(vec![1])), Ok(()));
}

#[test]
fn readback_of_false_is_corruption() {
    assert_eq!(verify_readback(Some(vec![0])), Err(ContractError::Corruption));
}

#[test]
fn readback_of_nothing_is_missing_after_write() {
    assert_eq!(verify_readback(None), Err(ContractError::MissingAfterWrite));
}

#[test]
fn readback_of_undecodable_bytes_is_deserialization() {
    assert_eq!(verify_readback(Some(vec![2])), Err(ContractError::Deserialization));
    assert_eq!(verify_readback(Some(vec![255, 1])), Err(ContractError::Deserialization));
    assert_eq!(verify_readback(Some(vec![])), Err(ContractError::Deserialization));
}

#[test]
fn bytes_after_the_first_are_ignored() {
    assert_eq!(verify_readback(Some(vec![1, 0, 7])), Ok(()));
    assert_eq!(verify_readback(Some(vec![0, 1])), Err(ContractError::Corruption));
    assert_eq!(read_response(Some(vec![1, 9])), Ok(ReadResponse { val: true }));
}

#[test]
fn removal_check_passes_on_nothing() {
    assert_eq!(verify_removed(None), Ok(()));
}

#[test]
fn removal_check_fails_on_anything_found() {
    assert_eq!(verify_removed(Some(vec![1])), Err(ContractError::NotRemoved));
    assert_eq!(verify_removed(Some(vec![])), Err(ContractError::NotRemoved));
}

#[test]
fn read_decodes_both_values() {
    assert_eq!(read_response(Some(vec![1])), Ok(ReadResponse { val: true }));
    assert_eq!(read_response(Some(vec![0])), Ok(ReadResponse { val: false }));
}

#[test]
fn read_of_nothing_is_key_removed() {
    assert_eq!(read_response(None), Err(ContractError::KeyRemoved));
}

#[test]
fn read_of_undecodable_bytes_fails() {
    assert_eq!(read_response(Some(vec![7])), Err(ContractError::Deserialization));
    assert_eq!(read_response(Some(vec![])), Err(ContractError::Deserialization));
}

#[test]
fn error_messages() {
    assert_eq!(ContractError::Serialization.message(), "serialization error");
    assert_eq!(ContractError::Deserialization.message(), "deserialization error");
    assert_eq!(ContractError::Corruption.message(), "Corrupt retrieval from storage");
    assert_eq!(ContractError::MissingAfterWrite.message(), "Could not retrieve from storage");
    assert_eq!(ContractError::NotRemoved.message(), "Could not remove from storage");
    assert_eq!(ContractError::KeyRemoved.message(), "This key has been removed");
}

#[test]
fn log_entry_holds_key_and_value() {
    assert_eq!(
        log("status", "success"),
        LogAttribute {
            key: "status".to_string(),
            value: "success".to_string(),
        }
    );
}

#[test]
fn removal_is_acknowledged_with_status_success() {
    let response = removal_response();
    assert_eq!(response.log.len(), 1);
    assert_eq!(response.log[0].key, "status");
    assert_eq!(response.log[0].value, "success");
}

#[test]
fn default_init_response_is_empty() {
    assert_eq!(InitResponse::default(), InitResponse { log: vec![] });
}
