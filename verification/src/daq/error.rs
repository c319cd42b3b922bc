//! Errors of the NI-DAQmx driver.
use vstd::prelude::*;
use crate::number::{decimal_signed, signed_text};
use crate::text::{concat2, concat4};

verus! {

/// What the driver reports. `S` is the type of its texts.
#[derive(Debug, Clone)]
pub enum DaqmxError<S> {
    /// The driver is not installed, or not whole.
    LibraryNotFound(S),
    /// A call failed.
    DaqmxCall { code: i32, message: S },
    /// There is no device.
    NoDevices,
}

/// What a call of the driver comes to.
pub type DaqmxResult<T> = Result<T, DaqmxError<String>>;

impl View for DaqmxError<String> {
    type V = DaqmxError<Seq<char>>;

    open spec fn view(&self) -> DaqmxError<Seq<char>> {
        match self {
            DaqmxError::LibraryNotFound(m) => DaqmxError::LibraryNotFound(m@),
            DaqmxError::DaqmxCall { code, message } => DaqmxError::DaqmxCall {
                code: *code,
                message: message@,
            },
            DaqmxError::NoDevices => DaqmxError::NoDevices,
        }
    }
}

impl DaqmxError<Seq<char>> {
    /// The error in words.
    pub open spec fn words(self) -> Seq<char> {
        match self {
            DaqmxError::LibraryNotFound(m) => "DAQmx library not found: "@ + m,
            DaqmxError::DaqmxCall { code, message } => "DAQmx error (code "@ + decimal_signed(
                code as int,
            ) + "): "@ + message,
            DaqmxError::NoDevices => "No DAQmx devices found"@,
        }
    }
}

impl DaqmxError<String> {
    /// The error in words.
    pub fn to_string(&self) -> (s: String)
        ensures
            s@ == self@.words(),
    {
        match self {
            DaqmxError::LibraryNotFound(m) => concat2("DAQmx library not found: ", m.as_str()),
            DaqmxError::DaqmxCall { code, message } => concat4(
                "DAQmx error (code ",
                signed_text(*code as i64).as_str(),
                "): ",
                message.as_str(),
            ),
            DaqmxError::NoDevices => "No DAQmx devices found".to_string(),
        }
    }
}

/// Checks the code that a call of the driver returned: below zero it is an
/// error, whose text `get_error_string` gives; above zero it is a warning.
pub fn check_error<F: Fn() -> String>(code: i32, get_error_string: &F) -> (r: DaqmxResult<()>)
    requires
        call_requires(*get_error_string, ()),
    ensures
        code >= 0 ==> r is Ok,
        code < 0 ==> r is Err && r->Err_0 is DaqmxCall && r->Err_0->code == code && call_ensures(
            *get_error_string,
            (),
            r->Err_0->message,
        ),
{
    if code < 0 {
        let message = get_error_string();
        Err(DaqmxError::DaqmxCall { code, message })
    } else {
        Ok(())
    }
}

/// The text of a warning, which `get_error_string` gives: there is one where
/// the code that a call of the driver returned is above zero.
pub fn warning_text<F: Fn() -> String>(code: i32, get_error_string: &F) -> (r: Option<String>)
    requires
        call_requires(*get_error_string, ()),
    ensures
        code > 0 ==> r is Some && call_ensures(*get_error_string, (), r->Some_0),
        code <= 0 ==> r is None,
{
    if code > 0 {
        Some(get_error_string())
    } else {
        None
    }
}

} // verus!
