//! The failures a crawl can end in.

use vstd::prelude::*;

verus! {

/// The session could not be established.
#[derive(Clone, Copy, Debug, PartialEq, Eq, Structural)]
pub enum AuthError {
    /// The profile page's response carried no `csrftoken` cookie.
    MissingCsrfCookie,
}

/// A response did not have the expected shape.
#[derive(Clone, Copy, Debug, PartialEq, Eq, Structural)]
pub enum DataError {
    /// The body is not a JSON document.
    Syntax,
    /// The document is JSON, but a field is missing or of the wrong type.
    Shape,
}

/// The local store refused a change, or could not be written.
#[derive(Clone, Copy, Debug, PartialEq, Eq, Structural)]
pub enum StoreError {
    /// No row id is left for a new row.
    Full,
    /// Rows handed over as a table repeat a key that the table keeps unique.
    Corrupt,
    /// The storage engine behind the store reported a failure.
    Engine,
}

/// An address could not be built.
#[derive(Clone, Copy, Debug, PartialEq, Eq, Structural)]
pub enum UrlError {
    /// The base is not an absolute URL.
    Base,
    /// The reference does not resolve against the base.
    Reference,
}

/// Why a crawl was given up.
#[derive(Clone, Copy, Debug, PartialEq, Eq, Structural)]
pub enum Failure {
    /// The session could not be established.
    Auth(AuthError),
    /// A request failed in transport.
    Network,
    /// A response did not have the expected shape.
    Data(DataError),
    /// The store refused the write, or could not be written.
    Store(StoreError),
}

} // verus!
