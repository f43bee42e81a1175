//! The library's failure taxonomy.
//!
//! Outside faults (file I/O, the protocol library, the USB library) reach
//! this crate as plain messages; the host converts each outside error into
//! the matching variant at the boundary.
use vstd::prelude::*;

verus! {

/// Every failure the library surfaces.
#[derive(Debug)]
pub enum Error {
    /// A local file operation failed.
    Io { message: String },
    /// A wire-level protocol failure, surfaced verbatim.
    Adb { message: String },
    /// A USB-level failure, surfaced verbatim.
    Usb { message: String },
    /// A firmware package failed validation; one descriptive message.
    InvalidLpk { message: String },
}

/// Mathematical value of an [`Error`].
pub ghost enum ErrorModel {
    Io { message: Seq<char> },
    Adb { message: Seq<char> },
    Usb { message: Seq<char> },
    InvalidLpk { message: Seq<char> },
}

impl View for Error {
    type V = ErrorModel;

    open spec fn view(&self) -> ErrorModel {
        match self {
            Error::Io { message } => ErrorModel::Io { message: message@ },
            Error::Adb { message } => ErrorModel::Adb { message: message@ },
            Error::Usb { message } => ErrorModel::Usb { message: message@ },
            Error::InvalidLpk { message } => ErrorModel::InvalidLpk { message: message@ },
        }
    }
}

/// The display text of an error's model: transparent for wrapped outside
/// faults, prefixed for package-validation failures.
pub open spec fn spec_error_message(e: ErrorModel) -> Seq<char> {
    match e {
        ErrorModel::Io { message } => message,
        ErrorModel::Adb { message } => message,
        ErrorModel::Usb { message } => message,
        ErrorModel::InvalidLpk { message } => "Invalid LPK: "@ + message,
    }
}

impl Error {
    /// The text under which this error is reported.
    pub fn message(&self) -> (r: String)
        ensures
            r@ == spec_error_message(self@),
    {
        match self {
            Error::Io { message } => message.clone(),
            Error::Adb { message } => message.clone(),
            Error::Usb { message } => message.clone(),
            Error::InvalidLpk { message } => {
                let mut out = <String as vstd::string::StringExecFns>::from_str("Invalid LPK: ");
                out.append(message.as_str());
                out
            },
        }
    }
}

} // verus!
