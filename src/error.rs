//! The closed set of failures the bridge reports to its host.
use vstd::prelude::*;

verus! {

/// What kind of shared type a handle points at.
#[derive(Clone, Copy, Debug, PartialEq, Eq, Structural)]
pub enum SharedKind {
    YText,
    YArray,
    YMap,
    YXmlFragment,
    YXmlElement,
    YXmlText,
    YWeakLink,
}

/// The host-visible class of an [`Error`].
#[derive(Clone, Copy, Debug, PartialEq, Eq, Structural)]
pub enum ErrorKind {
    /// A write transaction could not be acquired: another one is open.
    TransactionConflict,
    /// A binary payload (update, state vector, awareness update) is malformed.
    DecodingError,
    /// A shared-type handle no longer resolves.
    DeletedReference,
    /// A lock was left poisoned by an earlier panic.
    LockPoisoned,
    /// A sync or awareness frame has an unexpected structure.
    ProtocolViolation,
}

/// A failure of a bridge operation.
#[derive(Debug)]
pub enum Error {
    /// The document's transaction could not be acquired.
    Transaction,
    /// yrs could not integrate an update.
    Update(yrs::error::UpdateError),
    /// yrs could not serialize or find a presence state.
    Awareness(yrs::sync::awareness::Error),
    /// yrs's binary reader rejected a payload.
    Encoding(yrs::encoding::read::Error),
    /// A payload's lengths, counts or texts are not ones that yrs's decoder
    /// takes safely: columns that overrun it, a count larger than the
    /// payload, text that is not UTF-8.
    MalformedPayload,
    /// A string field of a frame is not valid UTF-8.
    InvalidUtf8,
    /// The binary form of a handle does not decode.
    InvalidHandle,
    /// The shared type of the given kind has been deleted.
    Deleted(SharedKind),
    /// The lock guarding a transaction slot was poisoned.
    LockPoisoned,
    /// A frame carries a top-level tag that is none of the known ones.
    UnexpectedTag(u8),
    /// A tag, length or buffer of a frame is missing, too long or overruns it.
    MalformedFrame,
    /// A host value does not have the shape of a frame.
    UnexpectedStructure,
}

/// The class each error belongs to.
pub open spec fn kind_of(e: Error) -> ErrorKind {
    match e {
        Error::Transaction => ErrorKind::TransactionConflict,
        Error::Update(_) => ErrorKind::DecodingError,
        Error::Awareness(_) => ErrorKind::DecodingError,
        Error::Encoding(_) => ErrorKind::DecodingError,
        Error::InvalidUtf8 => ErrorKind::DecodingError,
        Error::MalformedPayload => ErrorKind::DecodingError,
        Error::InvalidHandle => ErrorKind::DecodingError,
        Error::Deleted(_) => ErrorKind::DeletedReference,
        Error::LockPoisoned => ErrorKind::LockPoisoned,
        Error::UnexpectedTag(_) => ErrorKind::ProtocolViolation,
        Error::UnexpectedStructure => ErrorKind::ProtocolViolation,
        Error::MalformedFrame => ErrorKind::ProtocolViolation,
    }
}

impl Error {
    /// The host-visible class of this error.
    pub fn kind(&self) -> (r: ErrorKind)
        ensures
            r == kind_of(*self),
    {
        match self {
            Error::Transaction => ErrorKind::TransactionConflict,
            Error::Update(_) => ErrorKind::DecodingError,
            Error::Awareness(_) => ErrorKind::DecodingError,
            Error::Encoding(_) => ErrorKind::DecodingError,
            Error::InvalidUtf8 => ErrorKind::DecodingError,
            Error::MalformedPayload => ErrorKind::DecodingError,
            Error::InvalidHandle => ErrorKind::DecodingError,
            Error::Deleted(_) => ErrorKind::DeletedReference,
            Error::LockPoisoned => ErrorKind::LockPoisoned,
            Error::UnexpectedTag(_) => ErrorKind::ProtocolViolation,
            Error::UnexpectedStructure => ErrorKind::ProtocolViolation,
            Error::MalformedFrame => ErrorKind::ProtocolViolation,
        }
    }

    /// Whether the caller may retry the same request later: only a
    /// transaction conflict clears by itself.
    pub fn is_retryable(&self) -> (r: bool)
        ensures
            r == (kind_of(*self) == ErrorKind::TransactionConflict),
    {
        matches!(self, Error::Transaction)
    }
}

/// The tag that names a kind to the host.
pub open spec fn kind_tag(k: ErrorKind) -> Seq<char> {
    match k {
        ErrorKind::TransactionConflict => "transaction_conflict"@,
        ErrorKind::DecodingError => "decoding_error"@,
        ErrorKind::DeletedReference => "deleted_reference"@,
        ErrorKind::LockPoisoned => "lock_poisoned"@,
        ErrorKind::ProtocolViolation => "protocol_violation"@,
    }
}

impl ErrorKind {
    /// The tag that names this kind to the host.
    pub fn tag(&self) -> (r: &'static str)
        ensures
            r@ == kind_tag(*self),
    {
        match self {
            ErrorKind::TransactionConflict => "transaction_conflict",
            ErrorKind::DecodingError => "decoding_error",
            ErrorKind::DeletedReference => "deleted_reference",
            ErrorKind::LockPoisoned => "lock_poisoned",
            ErrorKind::ProtocolViolation => "protocol_violation",
        }
    }
}

/// The message reported when a shared type of the given kind has been deleted.
pub open spec fn deleted_message(kind: SharedKind) -> Seq<char> {
    match kind {
        SharedKind::YText => "Text has been deleted"@,
        SharedKind::YArray => "Array has been deleted"@,
        SharedKind::YMap => "Map has been deleted"@,
        SharedKind::YXmlFragment => "XmlFragment has been deleted"@,
        SharedKind::YXmlElement => "XmlElement has been deleted"@,
        SharedKind::YXmlText => "XmlText has been deleted"@,
        SharedKind::YWeakLink => "WeakLink has been deleted"@,
    }
}

/// The host-visible exception raised for a handle that no longer resolves.
#[derive(Clone, Debug, PartialEq, Eq)]
pub struct DeletedSharedTypeError {
    pub message: String,
}

/// The exception for a deleted shared type of the given kind.
pub fn deleted_error(kind: SharedKind) -> (r: DeletedSharedTypeError)
    ensures
        r.message@ == deleted_message(kind),
{
    let message = match kind {
        SharedKind::YText => "Text has been deleted",
        SharedKind::YArray => "Array has been deleted",
        SharedKind::YMap => "Map has been deleted",
        SharedKind::YXmlFragment => "XmlFragment has been deleted",
        SharedKind::YXmlElement => "XmlElement has been deleted",
        SharedKind::YXmlText => "XmlText has been deleted",
        SharedKind::YWeakLink => "WeakLink has been deleted",
    };
    DeletedSharedTypeError { message: message.to_owned() }
}

} // verus!
