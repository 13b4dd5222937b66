//! Settings that the server cannot run without.

use vstd::prelude::*;
use vstd::string::StringExecFns;

use crate::error::AppError;

verus! {

/// What is said of a missing setting.
pub open spec fn missing_text(name: Seq<char>) -> Seq<char> {
    "Required environment variable '"@ + name + "' is not set"@
}

/// The value of the setting `name`: what the process environment holds, else
/// what the settings file holds, else the failure that names the setting.
pub fn env_var(name: &str, from_process: Option<String>, from_file: Option<String>) -> (value: Result<
    String,
    AppError,
>)
    ensures
        match value {
            Ok(v) => match from_process {
                Some(p) => v == p,
                None => from_file == Some(v),
            },
            Err(error) => {
                &&& from_process is None
                &&& from_file is None
                &&& error matches AppError::InternalServerError(text)
                &&& text@ == missing_text(name@)
            },
        },
{
    match from_process {
        Some(value) => Ok(value),
        None => match from_file {
            Some(value) => Ok(value),
            None => Err(
                AppError::InternalServerError(
                    String::from_str("Required environment variable '").concat(name).concat(
                        "' is not set",
                    ),
                ),
            ),
        },
    }
}

} // verus!
