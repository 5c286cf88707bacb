use vstd::prelude::*;
use vstd::string::StringExecFns;

verus! {

/// The backend's own error type, carried through as the cause of a failure.
#[verifier::external_type_specification]
#[verifier::external_body]
pub struct ExFirestoreError(firestore::errors::FirestoreError);

/// The standard library's integer parse error, carried through as the cause
/// of a malformed numeric setting.
#[verifier::external_type_specification]
#[verifier::external_body]
pub struct ExParseIntError(core::num::ParseIntError);

/// The text that the backend error `e` displays as.
pub uninterp spec fn backend_error_text(e: firestore::errors::FirestoreError) -> Seq<char>;

/// The text that the parse error `e` displays as.
pub uninterp spec fn parse_error_text(e: core::num::ParseIntError) -> Seq<char>;

/// Everything that can go wrong while configuring or using a client.
#[derive(Debug)]
pub enum Error {
    /// A required configuration key had no value; holds the scoped key.
    MissingConfig(String),
    /// A configuration value was present but did not parse.
    InvalidConfig {
        /// The scoped key.
        key: String,
        /// The raw value that was found under the key.
        value: String,
        /// Why the value did not parse.
        cause: core::num::ParseIntError,
    },
    /// The collection path had an odd number of tokens; holds the raw value.
    InvalidCollectionPath(String),
    /// The backend refused to open a connection or to compose a parent path.
    Initialize(firestore::errors::FirestoreError),
    /// The backend failed to write a document.
    Write(firestore::errors::FirestoreError),
    /// The backend failed to read a document.
    Read(firestore::errors::FirestoreError),
}

/// The error underneath an [`Error`], one level down the causal chain.
pub enum Cause<'a> {
    /// The failure came from the backend.
    Backend(&'a firestore::errors::FirestoreError),
    /// The failure came from parsing an integer.
    Parse(&'a core::num::ParseIntError),
}

/// What an [`Error`] says without its cause: the kind of failure and the
/// values that it names.
pub enum ErrorKind {
    MissingConfig(Seq<char>),
    InvalidConfig { key: Seq<char>, value: Seq<char> },
    InvalidCollectionPath(Seq<char>),
    Initialize,
    Write,
    Read,
}

/// Displays a backend error. Calls `ToString::to_string` on
/// `firestore::errors::FirestoreError`; the contract only gives the resulting
/// text its name.
#[verifier::external_body]
fn backend_text(e: &firestore::errors::FirestoreError) -> (s: String)
    ensures
        s@ == backend_error_text(*e),
{
    e.to_string()
}

/// Displays a parse error. Calls `ToString::to_string` on
/// `core::num::ParseIntError`; the contract only gives the resulting text its
/// name.
#[verifier::external_body]
fn parse_text(e: &core::num::ParseIntError) -> (s: String)
    ensures
        s@ == parse_error_text(*e),
{
    e.to_string()
}

impl Error {
    /// The human-readable text of this error.
    pub open spec fn text(self) -> Seq<char> {
        match self {
            Error::MissingConfig(key) => "Missing configuration value: "@ + key@,
            Error::InvalidConfig { key, value, cause } => "Invalid configuration value for "@
                + key@ + ": "@ + value@ + ": "@ + parse_error_text(cause),
            Error::InvalidCollectionPath(raw) => "Collection path must hold an even number of tokens: "@
                + raw@,
            Error::Initialize(e) => "Error initializing FirestoreDb: "@ + backend_error_text(e),
            Error::Write(e) => "Error Writing to Firestore: "@ + backend_error_text(e),
            Error::Read(e) => "Error Reading from Firestore: "@ + backend_error_text(e),
        }
    }

    /// The kind of failure and the values that it names.
    pub open spec fn kind(self) -> ErrorKind {
        match self {
            Error::MissingConfig(key) => ErrorKind::MissingConfig(key@),
            Error::InvalidConfig { key, value, .. } => ErrorKind::InvalidConfig {
                key: key@,
                value: value@,
            },
            Error::InvalidCollectionPath(raw) => ErrorKind::InvalidCollectionPath(raw@),
            Error::Initialize(_) => ErrorKind::Initialize,
            Error::Write(_) => ErrorKind::Write,
            Error::Read(_) => ErrorKind::Read,
        }
    }

    /// The backend error that caused this one, if one did.
    pub open spec fn backend_cause(self) -> Option<firestore::errors::FirestoreError> {
        match self {
            Error::Initialize(e) | Error::Write(e) | Error::Read(e) => Some(e),
            _ => None,
        }
    }

    /// The parse error that caused this one, if one did.
    pub open spec fn parse_cause(self) -> Option<core::num::ParseIntError> {
        match self {
            Error::InvalidConfig { cause, .. } => Some(cause),
            _ => None,
        }
    }

    /// Renders the error for a reader: a fixed phrase for the kind of failure,
    /// followed by the value or cause that it carries.
    pub fn message(&self) -> (s: String)
        ensures
            s@ == self.text(),
    {
        match self {
            Error::MissingConfig(key) => {
                String::from_str("Missing configuration value: ").concat(key.as_str())
            },
            Error::InvalidConfig { key, value, cause } => {
                let cause_text = parse_text(cause);
                String::from_str("Invalid configuration value for ").concat(key.as_str()).concat(
                    ": ",
                ).concat(value.as_str()).concat(": ").concat(cause_text.as_str())
            },
            Error::InvalidCollectionPath(raw) => {
                String::from_str("Collection path must hold an even number of tokens: ").concat(
                    raw.as_str(),
                )
            },
            Error::Initialize(e) => {
                let cause_text = backend_text(e);
                String::from_str("Error initializing FirestoreDb: ").concat(cause_text.as_str())
            },
            Error::Write(e) => {
                let cause_text = backend_text(e);
                String::from_str("Error Writing to Firestore: ").concat(cause_text.as_str())
            },
            Error::Read(e) => {
                let cause_text = backend_text(e);
                String::from_str("Error Reading from Firestore: ").concat(cause_text.as_str())
            },
        }
    }

    /// The error that caused this one, if it has one. Failures that this
    /// library detects by itself have no cause.
    pub fn source(&self) -> (c: Option<Cause<'_>>)
        ensures
            match c {
                Some(Cause::Backend(e)) => self.backend_cause() == Some(*e),
                Some(Cause::Parse(e)) => self.parse_cause() == Some(*e),
                None => self.backend_cause() is None && self.parse_cause() is None,
            },
    {
        match self {
            Error::MissingConfig(_) => None,
            Error::InvalidCollectionPath(_) => None,
            Error::InvalidConfig { cause, .. } => Some(Cause::Parse(cause)),
            Error::Initialize(e) => Some(Cause::Backend(e)),
            Error::Write(e) => Some(Cause::Backend(e)),
            Error::Read(e) => Some(Cause::Backend(e)),
        }
    }
}

} // verus!
