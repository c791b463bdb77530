use vstd::prelude::*;
use std::sync::PoisonError;

verus! {

/// Everything an operation of this crate can fail with.
#[derive(Debug, Clone, Copy, PartialEq, Eq, Structural)]
pub enum Error {
    /// An identifier or token cannot be sent as a header value.
    InvalidHeader,
    /// The media server could not be reached or did not answer in time.
    NetworkError,
    /// The media server answered with a body that could not be understood.
    MalformedResponse,
    /// The pairing code has not been approved yet; polling again is expected.
    WaitingOnPin,
    NotAuthenticated,
    NoServerSelected,
    NoLibrarySelected,
    InvalidServerName,
    InvalidLibraryName,
    NoResourcesFound,
    NoLibrariesFound,
    NoAlbumsFound,
    NoAlbumFound,
    NoValidConnections,
    DownloadFailed,
    BookNotDownloaded,
    NoBookFound,
    /// The lock around the shared state was poisoned.
    LockFailure,
}

impl Error {
    /// The name of the variant, for logs and messages.
    pub fn name(&self) -> (text: &'static str)
        ensures
            text@ == self.name_text(),
    {
        match self {
            Error::InvalidHeader => "InvalidHeader",
            Error::NetworkError => "NetworkError",
            Error::MalformedResponse => "MalformedResponse",
            Error::WaitingOnPin => "WaitingOnPin",
            Error::NotAuthenticated => "NotAuthenticated",
            Error::NoServerSelected => "NoServerSelected",
            Error::NoLibrarySelected => "NoLibrarySelected",
            Error::InvalidServerName => "InvalidServerName",
            Error::InvalidLibraryName => "InvalidLibraryName",
            Error::NoResourcesFound => "NoResourcesFound",
            Error::NoLibrariesFound => "NoLibrariesFound",
            Error::NoAlbumsFound => "NoAlbumsFound",
            Error::NoAlbumFound => "NoAlbumFound",
            Error::NoValidConnections => "NoValidConnections",
            Error::DownloadFailed => "DownloadFailed",
            Error::BookNotDownloaded => "BookNotDownloaded",
            Error::NoBookFound => "NoBookFound",
            Error::LockFailure => "LockFailure",
        }
    }

    pub open spec fn name_text(&self) -> Seq<char> {
        match self {
            Error::InvalidHeader => "InvalidHeader"@,
            Error::NetworkError => "NetworkError"@,
            Error::MalformedResponse => "MalformedResponse"@,
            Error::WaitingOnPin => "WaitingOnPin"@,
            Error::NotAuthenticated => "NotAuthenticated"@,
            Error::NoServerSelected => "NoServerSelected"@,
            Error::NoLibrarySelected => "NoLibrarySelected"@,
            Error::InvalidServerName => "InvalidServerName"@,
            Error::InvalidLibraryName => "InvalidLibraryName"@,
            Error::NoResourcesFound => "NoResourcesFound"@,
            Error::NoLibrariesFound => "NoLibrariesFound"@,
            Error::NoAlbumsFound => "NoAlbumsFound"@,
            Error::NoAlbumFound => "NoAlbumFound"@,
            Error::NoValidConnections => "NoValidConnections"@,
            Error::DownloadFailed => "DownloadFailed"@,
            Error::BookNotDownloaded => "BookNotDownloaded"@,
            Error::NoBookFound => "NoBookFound"@,
            Error::LockFailure => "LockFailure"@,
        }
    }

    /// The error of a request that did not come to an answer: a body that
    /// could not be read is a `MalformedResponse`, everything else a
    /// `NetworkError`.
    pub fn of_request(unreadable: bool) -> (error: Error)
        ensures
            error == if unreadable {
                Error::MalformedResponse
            } else {
                Error::NetworkError
            },
    {
        if unreadable {
            Error::MalformedResponse
        } else {
            Error::NetworkError
        }
    }

    /// Whether the error is the expected answer of a poll that came too early.
    pub fn is_waiting(&self) -> (waiting: bool)
        ensures
            waiting == (*self == Error::WaitingOnPin),
    {
        match self {
            Error::WaitingOnPin => true,
            _ => false,
        }
    }
}

/// `std::sync::PoisonError`: what a lock hands out once a holder of it has
/// panicked.
#[verifier::external_type_specification]
#[verifier::external_body]
#[verifier::reject_recursive_types(T)]
pub struct ExPoisonError<T>(PoisonError<T>);

impl<T> From<PoisonError<T>> for Error {
    /// A poisoned lock is a `LockFailure`, whatever it guarded.
    fn from(poisoned: PoisonError<T>) -> (error: Error) {
        Error::LockFailure
    }
}

impl<T> vstd::std_specs::convert::FromSpecImpl<PoisonError<T>> for Error {
    open spec fn obeys_from_spec() -> bool {
        true
    }

    open spec fn from_spec(poisoned: PoisonError<T>) -> Error {
        Error::LockFailure
    }
}

} // verus!
