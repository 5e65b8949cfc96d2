//! What each command answers, given what the host found.
//!
//! The host does the work that touches the outside: it looks up the
//! application data directory, creates it, writes into it. It decides nothing:
//! it hands over how far it came, with its own account of a failure, and a
//! command here gives the answer that goes back to the interface: a text or
//! an object on success, a text that names the failed step otherwise.

use vstd::prelude::*;
use vstd::string::*;

use crate::info::{capabilities, desktop_info, APP_NAME};
use crate::json::{flag, json_of, no_members, object, put, text};
use crate::reply::{
    app_data_dir_failure, app_data_dir_failure_text, create_dir_failure, create_dir_failure_text,
    open_report, open_report_text, save_report, save_report_text, write_failure,
    write_failure_text,
};

verus! {

/// The name of the file, directly inside the application data directory, that
/// a save request writes.
pub const TEST_FILE_NAME: &'static str = "test-isometry-file.txt";

/// How far the host came with the work of a command that touches the
/// application data directory.
#[derive(Debug, PartialEq, Eq)]
pub enum Outcome {
    /// The lookup of the application data directory failed. Nothing else was
    /// tried. Holds the host's account of the failure.
    Unresolved(String),
    /// The directory was found, but the work in it failed. Holds the host's
    /// account of the failure.
    Failed(String),
    /// The work was done. Holds the place it was done on: the directory for an
    /// open request, the written file for a save request.
    Done(String),
}

/// Answers a request to open a file, for which the host makes sure that the
/// application data directory exists.
pub fn open_isometry_file(outcome: Outcome) -> (answer: Result<String, String>)
    ensures
        match outcome {
            Outcome::Unresolved(cause) => answer is Err && answer->Err_0@
                == app_data_dir_failure_text(cause@),
            Outcome::Failed(cause) => answer is Err && answer->Err_0@ == create_dir_failure_text(
                cause@,
            ),
            Outcome::Done(dir) => answer is Ok && answer->Ok_0@ == open_report_text(dir@),
        },
{
    match outcome {
        Outcome::Unresolved(cause) => Err(app_data_dir_failure(cause.as_str())),
        Outcome::Failed(cause) => Err(create_dir_failure(cause.as_str())),
        Outcome::Done(dir) => Ok(open_report(dir.as_str())),
    }
}

/// Answers a request to save data, for which the host writes the data to the
/// file named `TEST_FILE_NAME` inside the application data directory.
pub fn save_isometry_file(outcome: Outcome) -> (answer: Result<String, String>)
    ensures
        match outcome {
            Outcome::Unresolved(cause) => answer is Err && answer->Err_0@
                == app_data_dir_failure_text(cause@),
            Outcome::Failed(cause) => answer is Err && answer->Err_0@ == write_failure_text(
                cause@,
            ),
            Outcome::Done(file) => answer is Ok && answer->Ok_0@ == save_report_text(file@),
        },
{
    match outcome {
        Outcome::Unresolved(cause) => Err(app_data_dir_failure(cause.as_str())),
        Outcome::Failed(cause) => Err(write_failure(cause.as_str())),
        Outcome::Done(file) => Ok(save_report(file.as_str())),
    }
}

/// Answers a request for the application's description of itself, from the
/// version of the running package and the outcome of the lookup of the
/// application data directory: the directory, or the host's account of the
/// failure.
pub fn get_app_info(version: String, app_data_dir: Result<String, String>) -> (answer: Result<
    serde_json::Value,
    String,
>)
    ensures
        match app_data_dir {
            Ok(dir) => answer is Ok && json_of(answer->Ok_0) == desktop_info(version@, dir@),
            Err(cause) => answer is Err && answer->Err_0@ == app_data_dir_failure_text(cause@),
        },
{
    match app_data_dir {
        Ok(dir) => {
            let mut members = no_members();
            put(&mut members, "name", text(String::from_str(APP_NAME)));
            put(&mut members, "version", text(version));
            put(&mut members, "app_data_dir", text(dir));
            put(&mut members, "desktop", flag(true));
            put(&mut members, "capabilities", capabilities());
            Ok(object(members))
        },
        Err(cause) => Err(app_data_dir_failure(cause.as_str())),
    }
}

} // verus!
