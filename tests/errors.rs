use yex::error::{deleted_error, Error, ErrorKind, SharedKind};

#[test]
fn error_kinds() {
    assert_eq!(Error::Transaction.kind(), ErrorKind::TransactionConflict);
    assert_eq!(Error::Deleted(SharedKind::YText).kind(), ErrorKind::DeletedReference);
    assert_eq!(Error::LockPoisoned.kind(), ErrorKind::LockPoisoned);
    assert_eq!(Error::UnexpectedStructure.kind(), ErrorKind::ProtocolViolation);
    assert_eq!(Error::UnexpectedTag(9).kind(), ErrorKind::ProtocolViolation);
    assert_eq!(Error::InvalidUtf8.kind(), ErrorKind::DecodingError);
    assert_eq!(Error::InvalidHandle.kind(), ErrorKind::DecodingError);
    assert_eq!(Error::MalformedFrame.kind(), ErrorKind::ProtocolViolation);
    assert_eq!(Error::MalformedPayload.kind(), ErrorKind::DecodingError);
}

#[test]
fn only_conflicts_are_retryable() {
    assert!(Error::Transaction.is_retryable());
    assert!(!Error::LockPoisoned.is_retryable());
    assert!(!Error::Deleted(SharedKind::YMap).is_retryable());
}

#[test]
fn kind_tags() {
    assert_eq!(ErrorKind::TransactionConflict.tag(), "transaction_conflict");
    assert_eq!(ErrorKind::DecodingError.tag(), "decoding_error");
    assert_eq!(ErrorKind::DeletedReference.tag(), "deleted_reference");
    assert_eq!(ErrorKind::LockPoisoned.tag(), "lock_poisoned");
    assert_eq!(ErrorKind::ProtocolViolation.tag(), "protocol_violation");
}

#[test]
fn deleted_messages_name_the_kind() {
    assert_eq!(deleted_error(SharedKind::YArray).message, "Array has been deleted");
    assert_eq!(deleted_error(SharedKind::YXmlText).message, "XmlText has been deleted");
    assert_eq!(deleted_error(SharedKind::YWeakLink).message, "WeakLink has been deleted");
}
