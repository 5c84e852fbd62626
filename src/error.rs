use vstd::prelude::*;

verus! {

#[verifier::external_type_specification]
#[verifier::external_body]
pub struct ExSetLoggerError(log::SetLoggerError);

#[verifier::external_type_specification]
#[verifier::external_body]
pub struct ExIoError(std::io::Error);

/// What can go wrong while setting up the logger.
#[derive(Debug)]
pub enum FtailError {
    /// A process-wide logger was already installed.
    SetLoggerError(log::SetLoggerError),
    /// `init` was called without any driver.
    NoDriversError,
    /// A log file or directory could not be opened.
    IoError(std::io::Error),
    /// The log destination at this path is read-only.
    PermissionsError(String),
}

pub open spec fn set_logger_text() -> Seq<char> {
    "attempted to set a logger after the logging system was already initialized"@
}

/// Relies on `SetLoggerError`'s `Display`, which writes one fixed sentence.
#[verifier::external_body]
fn set_logger_error_text(e: &log::SetLoggerError) -> (r: String)
    ensures
        r@ == set_logger_text(),
{
    e.to_string()
}

/// Relies on `std::io::Error`'s `Display`: the system's description of the failure.
#[verifier::external_body]
fn io_error_text(e: &std::io::Error) -> String {
    e.to_string()
}

/// The message of an I/O failure whose description is `text`.
pub fn io_error_message(text: &str) -> (r: String)
    ensures
        r@ == "I/O error: "@ + text@,
{
    let mut s = "I/O error: ".to_string();
    s.append(text);
    s
}

impl FtailError {
    /// A sentence describing the error.
    pub fn to_string(&self) -> (r: String)
        ensures
            match self {
                FtailError::SetLoggerError(_) => r@ == "Error setting logger: "@ + set_logger_text(),
                FtailError::NoDriversError => r@ == "No drivers were added to the logger"@,
                FtailError::IoError(_) => exists|text: Seq<char>| r@ == "I/O error: "@ + text,
                FtailError::PermissionsError(path) => r@ == "The path "@ + path@ + " is read-only"@,
            },
    {
        match self {
            FtailError::SetLoggerError(e) => {
                let mut s = "Error setting logger: ".to_string();
                s.append(set_logger_error_text(e).as_str());
                s
            },
            FtailError::NoDriversError => "No drivers were added to the logger".to_string(),
            FtailError::IoError(e) => {
                let text = io_error_text(e);
                let s = io_error_message(text.as_str());
                assert(s@ == "I/O error: "@ + text@);
                s
            },
            FtailError::PermissionsError(path) => {
                let mut s = "The path ".to_string();
                s.append(path.as_str());
                s.append(" is read-only");
                s
            },
        }
    }
}

} // verus!
