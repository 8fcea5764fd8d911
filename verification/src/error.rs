//! The failures that the service tells apart.

use vstd::prelude::*;

verus! {

/// Everything that can go wrong between reading a request and answering it.
#[derive(Debug, Clone, PartialEq, Eq)]
pub enum Error {
    /// The credentials header holds bytes that are not visible ASCII.
    FailedHeaderConversion,
    /// The credentials are not of the form `Basic <base64 of user:password>`.
    InvalidAuthentificationFormat,
    /// The credentials are not valid base64.
    DecodeError,
    /// The user name or the password is not valid UTF-8.
    ConversionError,
    /// The request body could not be read.
    TransmissionError,
    /// The request body is not a record.
    InvalidDataFormat,
    /// The query string does not describe a query.
    QueryParsingError,
    /// The request has no query string.
    QueryNotProvided,
    /// The request path is not the API's.
    QueryInvalidAPI,
    /// The query's fields are not one of the supported combinations.
    DatabaseQueryNotSupported,
    /// The store rejected the query as ill-formed.
    DatabaseQueryInvalidFormat,
    /// The store could not be configured.
    DatabaseConfigError(String),
    /// The store failed while reading.
    DatabaseQueryFailed(String),
    /// The store failed while deleting.
    DatabaseDeletionError(String),
    /// The store failed while updating.
    DatabaseUpdateError(String),
}

/// A value that can report itself to an operator.
pub trait Logging {
    /// Where a file report goes.
    type Path: ?Sized;

    /// What reporting hands back.
    type Output;

    /// Report on the terminal.
    fn log_to_cli(self) -> Self::Output;

    /// Report into the file at `path`.
    fn log_to_file(self, path: &Self::Path) -> Self::Output;
}

} // verus!
