//! Typed failures of device lookup and of baud-rate parsing.
//!
//! Construction of a device is fail-fast: the first failing step is reported
//! and nothing partial is handed out.  Each variant carries the context a
//! caller needs to report the failure: the offending attribute, address or
//! value.

use vstd::prelude::*;

verus! {

/// A failure of device lookup or of baud-rate parsing.
#[derive(Debug)]
pub enum Error {
    /// The address does not resolve to an existing device directory.
    PathNotFound { path: String },
    /// An identity attribute of the device directory could not be read.
    AttributeReadError { attribute: String, path: String },
    /// No serial device file was found under the device's interfaces.
    TtyResolutionError { address: String },
    /// The vendor/product pair is not in the debugger table.
    UnknownDebugger { id_vendor: String, id_product: String },
    /// The baud-rate string is not one of the accepted values.
    InvalidBaudRate { value: String },
}

/// The mathematical shape of an [`Error`]: the same variants over sequences
/// of characters.
pub enum ErrorModel {
    PathNotFound { path: Seq<char> },
    AttributeReadError { attribute: Seq<char>, path: Seq<char> },
    TtyResolutionError { address: Seq<char> },
    UnknownDebugger { id_vendor: Seq<char>, id_product: Seq<char> },
    InvalidBaudRate { value: Seq<char> },
}

impl DeepView for Error {
    type V = ErrorModel;

    open spec fn deep_view(&self) -> ErrorModel {
        match self {
            Error::PathNotFound { path } => ErrorModel::PathNotFound { path: path@ },
            Error::AttributeReadError { attribute, path } => ErrorModel::AttributeReadError {
                attribute: attribute@,
                path: path@,
            },
            Error::TtyResolutionError { address } => ErrorModel::TtyResolutionError {
                address: address@,
            },
            Error::UnknownDebugger { id_vendor, id_product } => ErrorModel::UnknownDebugger {
                id_vendor: id_vendor@,
                id_product: id_product@,
            },
            Error::InvalidBaudRate { value } => ErrorModel::InvalidBaudRate { value: value@ },
        }
    }
}

/// Maps a result through the deep views of both of its sides.
pub open spec fn result_view<T: DeepView, E: DeepView>(r: Result<T, E>) -> Result<T::V, E::V> {
    match r {
        Ok(t) => Ok(t.deep_view()),
        Err(e) => Err(e.deep_view()),
    }
}

} // verus!
