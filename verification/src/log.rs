//! The engine's log settings.
//!
//! The settings are checked here before they reach the engine: the path of
//! the log file must be text that the engine can read, and a verbosity level
//! must be one that it accepts. What the engine says of a log file is read
//! here too.

use vstd::prelude::*;
use vstd::std_specs::convert::FromSpecImpl;
use vstd::string::StringExecFns;
use vstd::string::StringSliceAdditionalSpecFns;
use crate::decimal::{append_signed_decimal, signed_decimal};
use crate::text::{has_no_nul_char, is_first_nul, is_nul_free, CText, NulError};

verus! {

/// The lowest level that can be set by its number.
pub const MIN_CUSTOM_LEVEL: i32 = 1;

/// The highest level that can be set by its number.
pub const MAX_CUSTOM_LEVEL: i32 = 1024;

/// What the engine answers when it has taken a new log file.
pub const LOG_FILE_TAKEN: i32 = 1;

/// How much the engine logs.
#[derive(Clone, Copy, Debug, PartialEq, Eq, Structural)]
pub enum VerbosityLevel {
    /// Fatal errors only: level 0.
    FatalErrors,
    /// Errors: level 1.
    Errors,
    /// Warnings: level 2.
    Warnings,
    /// Informational messages: level 3.
    Information,
    /// Debug messages: level 4.
    Debug,
    /// Verbose debug messages: level 5.
    Verbose,
    /// A level given by its number, from 1 to 1024, for even more logging.
    Custom(i32),
}

/// A level that is outside 1 to 1024, with its number.
#[derive(Clone, Copy, Debug, PartialEq, Eq, Structural)]
pub struct OutOfRangeError(pub i32);

/// Why a log setting was not made.
#[derive(Clone, Copy, Debug, PartialEq, Eq, Structural)]
pub enum LogError {
    /// The engine did not take the new log file.
    TDLibError,
    /// The verbosity level is not between 1 and 1024.
    OutOfRangeError(OutOfRangeError),
    /// The path of the log file holds a zero byte.
    CStringError(NulError),
}

impl OutOfRangeError {
    /// The wording of the error.
    pub open spec fn message_text(self) -> Seq<char> {
        signed_decimal(self.0 as int) + " is not in range of 1 and 1024"@
    }

    /// The error in words, with the number that was refused.
    pub fn message(&self) -> (message: String)
        ensures
            message@ == self.message_text(),
    {
        let mut message = String::new();
        append_signed_decimal(&mut message, self.0);
        message.append(" is not in range of 1 and 1024");
        message
    }
}

impl LogError {
    /// The wording of the error.
    pub open spec fn message_text(self) -> Seq<char> {
        match self {
            LogError::TDLibError => "TDLib failed to set a new log file."@,
            LogError::OutOfRangeError(_) => "log_verbosity must be between 1 and 1024."@,
            LogError::CStringError(nul) => nul.message_text(),
        }
    }

    /// The error in words.
    pub fn message(&self) -> (message: String)
        ensures
            message@ == self.message_text(),
    {
        match self {
            LogError::TDLibError => String::from_str("TDLib failed to set a new log file."),
            LogError::OutOfRangeError(_) => String::from_str(
                "log_verbosity must be between 1 and 1024.",
            ),
            LogError::CStringError(nul) => nul.message(),
        }
    }

    /// The error that this one was made of: the refused path, where the
    /// path of a log file held a zero byte, and nothing otherwise.
    pub fn source(&self) -> (cause: Option<NulError>)
        ensures
            cause == match *self {
                LogError::CStringError(nul) => Some(nul),
                _ => None,
            },
    {
        match self {
            LogError::CStringError(nul) => Some(*nul),
            _ => None,
        }
    }
}

impl From<NulError> for LogError {
    /// A refused path as the error of a log setting.
    fn from(nul: NulError) -> (error: LogError) {
        LogError::CStringError(nul)
    }
}

impl FromSpecImpl<NulError> for LogError {
    open spec fn obeys_from_spec() -> bool {
        true
    }

    open spec fn from_spec(nul: NulError) -> LogError {
        LogError::CStringError(nul)
    }
}

impl VerbosityLevel {
    /// The number that the engine knows the level by.
    pub open spec fn number(self) -> i32 {
        match self {
            VerbosityLevel::FatalErrors => 0,
            VerbosityLevel::Errors => 1,
            VerbosityLevel::Warnings => 2,
            VerbosityLevel::Information => 3,
            VerbosityLevel::Debug => 4,
            VerbosityLevel::Verbose => 5,
            VerbosityLevel::Custom(number) => number,
        }
    }

    /// Whether the level can be set. A named level always can; one given by
    /// its number only from 1 to 1024, so that level 0 has to be asked for by
    /// its name.
    pub open spec fn is_accepted(self) -> bool {
        self matches VerbosityLevel::Custom(number) ==> MIN_CUSTOM_LEVEL <= number
            <= MAX_CUSTOM_LEVEL
    }
}

/// Checks a level that is given by its number.
pub fn custom_level(number: i32) -> (checked: Result<i32, OutOfRangeError>)
    ensures
        checked == if MIN_CUSTOM_LEVEL <= number <= MAX_CUSTOM_LEVEL {
            Ok::<i32, OutOfRangeError>(number)
        } else {
            Err::<i32, OutOfRangeError>(OutOfRangeError(number))
        },
{
    if number < MIN_CUSTOM_LEVEL || number > MAX_CUSTOM_LEVEL {
        Err(OutOfRangeError(number))
    } else {
        Ok(number)
    }
}

/// Checks a verbosity level and gives the number to set in the engine. A
/// level that is not accepted is refused with its number, and nothing is to
/// be set.
pub fn set_log_verbosity_level(level: VerbosityLevel) -> (checked: Result<i32, LogError>)
    ensures
        checked == if level.is_accepted() {
            Ok::<i32, LogError>(level.number())
        } else {
            Err::<i32, LogError>(LogError::OutOfRangeError(OutOfRangeError(level.number())))
        },
{
    match level {
        VerbosityLevel::FatalErrors => Ok(0),
        VerbosityLevel::Errors => Ok(1),
        VerbosityLevel::Warnings => Ok(2),
        VerbosityLevel::Information => Ok(3),
        VerbosityLevel::Debug => Ok(4),
        VerbosityLevel::Verbose => Ok(5),
        VerbosityLevel::Custom(number) => match custom_level(number) {
            Ok(number) => Ok(number),
            Err(error) => Err(LogError::OutOfRangeError(error)),
        },
    }
}

/// Checks the path of a new log file and gives the text to set in the
/// engine. A path with a zero byte inside is refused, and nothing is to be
/// set.
pub fn set_log_file(path: &str) -> (checked: Result<CText, LogError>)
    ensures
        match checked {
            Ok(text) => is_nul_free(path.spec_bytes()) && text@ == path.spec_bytes(),
            Err(error) => error matches LogError::CStringError(nul) && is_first_nul(
                path.spec_bytes(),
                nul.position() as int,
            ),
        },
        checked is Ok <==> has_no_nul_char(path@),
{
    match CText::new(path) {
        Ok(text) => Ok(text),
        Err(nul) => Err(LogError::from(nul)),
    }
}

/// Reads what the engine answered to a new log file: it took the file
/// exactly when it answered [`LOG_FILE_TAKEN`].
pub fn log_file_outcome(status: i32) -> (outcome: Result<(), LogError>)
    ensures
        outcome == if status == LOG_FILE_TAKEN {
            Ok::<(), LogError>(())
        } else {
            Err::<(), LogError>(LogError::TDLibError)
        },
{
    if status == LOG_FILE_TAKEN {
        Ok(())
    } else {
        Err(LogError::TDLibError)
    }
}

} // verus!
