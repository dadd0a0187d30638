//! The serial-line handle handed to the session layer: the node path and a
//! parsed baud rate.
//!
//! The accepted baud-rate strings are `"9600"`, `"115200"` and `"230400"`;
//! any other value is rejected with an error carrying the value itself.
//! Opening and configuring the line is the session layer's business, not
//! this library's: a fresh handle is always closed.

use vstd::prelude::*;
use vstd::string::StringExecFns;

use crate::error::Error;
use crate::error::ErrorModel;
use crate::error::result_view;
use crate::text::str_eq;

verus! {

/// The lifecycle state of a serial line.
#[derive(Clone, Copy, Debug, PartialEq, Eq, Structural)]
pub enum UartState {
    Closed,
    Open,
}

/// A serial-line handle: the `/dev/` node to open and the line's baud
/// rate.
#[derive(Debug)]
pub struct Uart {
    pub tty_path: String,
    pub state: UartState,
    pub baudrate: u32,
}

/// The mathematical shape of a [`Uart`].
pub struct UartModel {
    pub tty_path: Seq<char>,
    pub state: UartState,
    pub baudrate: u32,
}

impl DeepView for Uart {
    type V = UartModel;

    open spec fn deep_view(&self) -> UartModel {
        UartModel { tty_path: self.tty_path@, state: self.state, baudrate: self.baudrate }
    }
}

/// The accepted baud-rate strings and their numeric values; anything else
/// is rejected with the offending value.
pub open spec fn spec_baudrate(s: Seq<char>) -> Result<u32, ErrorModel> {
    if s == "9600"@ {
        Ok(9600u32)
    } else if s == "115200"@ {
        Ok(115200u32)
    } else if s == "230400"@ {
        Ok(230400u32)
    } else {
        Err(ErrorModel::InvalidBaudRate { value: s })
    }
}

/// The outcome of building a handle: the node path as given, a closed
/// line, and the parsed baud rate — or the rejected baud-rate value.
pub open spec fn spec_uart_from(tty_path: Seq<char>, baudrate: Seq<char>) -> Result<
    UartModel,
    ErrorModel,
> {
    match spec_baudrate(baudrate) {
        Ok(b) => Ok(UartModel { tty_path, state: UartState::Closed, baudrate: b }),
        Err(e) => Err(e),
    }
}

impl Uart {
    /// Builds a closed serial-line handle for a node path, parsing the
    /// baud-rate string.
    pub fn from(tty_path: &str, baudrate: &str) -> (r: Result<Uart, Error>)
        ensures
            result_view(r) == spec_uart_from(tty_path@, baudrate@),
    {
        let b = match Uart::baudrate_from_string(baudrate) {
            Ok(b) => b,
            Err(e) => return Err(e),
        };
        Ok(Uart { tty_path: String::from_str(tty_path), state: UartState::Closed, baudrate: b })
    }

    /// Parses a baud-rate string: exactly `"9600"`, `"115200"` and
    /// `"230400"` are accepted.
    pub fn baudrate_from_string(string: &str) -> (r: Result<u32, Error>)
        ensures
            result_view(r) == spec_baudrate(string@),
    {
        if str_eq(string, "9600") {
            Ok(9600)
        } else if str_eq(string, "115200") {
            Ok(115200)
        } else if str_eq(string, "230400") {
            Ok(230400)
        } else {
            Err(Error::InvalidBaudRate { value: String::from_str(string) })
        }
    }
}

} // verus!
