//! The texts that the commands answer with.
//!
//! Every text is a fixed lead followed by one value that the host supplies:
//! its own account of a failure, or the place it worked on. Each text has a
//! spec function that says what it is, and an executable function that builds
//! it.

use vstd::prelude::*;
use vstd::string::*;

verus! {

/// The text reported when the host cannot tell where the application data
/// directory is.
pub open spec fn app_data_dir_failure_text(cause: Seq<char>) -> Seq<char> {
    "Failed to get app data directory: "@ + cause
}

/// The text reported when the application data directory could not be created.
pub open spec fn create_dir_failure_text(cause: Seq<char>) -> Seq<char> {
    "Failed to create app data directory: "@ + cause
}

/// The text reported when the test file could not be written.
pub open spec fn write_failure_text(cause: Seq<char>) -> Seq<char> {
    "Failed to write test file: "@ + cause
}

/// The text that answers a request to open a file, once the application data
/// directory `dir` is known to exist.
pub open spec fn open_report_text(dir: Seq<char>) -> Seq<char> {
    "File dialog would open here. App data directory: "@ + dir
}

/// The text that answers a request to save, once the file at `path` holds the
/// data.
pub open spec fn save_report_text(path: Seq<char>) -> Seq<char> {
    "Test file saved to: "@ + path
}

/// A text tells of which kind it is: whatever values they carry, texts of two
/// different kinds are never the same text.
pub proof fn texts_differ_by_kind(
    lookup_cause: Seq<char>,
    create_cause: Seq<char>,
    write_cause: Seq<char>,
    dir: Seq<char>,
    path: Seq<char>,
)
    ensures
        app_data_dir_failure_text(lookup_cause) != create_dir_failure_text(create_cause),
        app_data_dir_failure_text(lookup_cause) != write_failure_text(write_cause),
        app_data_dir_failure_text(lookup_cause) != open_report_text(dir),
        app_data_dir_failure_text(lookup_cause) != save_report_text(path),
        create_dir_failure_text(create_cause) != write_failure_text(write_cause),
        create_dir_failure_text(create_cause) != open_report_text(dir),
        create_dir_failure_text(create_cause) != save_report_text(path),
        write_failure_text(write_cause) != open_report_text(dir),
        write_failure_text(write_cause) != save_report_text(path),
        open_report_text(dir) != save_report_text(path),
{
    reveal_strlit("Failed to get app data directory: ");
    reveal_strlit("Failed to create app data directory: ");
    reveal_strlit("Failed to write test file: ");
    reveal_strlit("File dialog would open here. App data directory: ");
    reveal_strlit("Test file saved to: ");
    assert(app_data_dir_failure_text(lookup_cause)[10] == 'g');
    assert(create_dir_failure_text(create_cause)[10] == 'c');
    assert(write_failure_text(write_cause)[10] == 'w');
    assert(app_data_dir_failure_text(lookup_cause)[1] == 'a');
    assert(create_dir_failure_text(create_cause)[1] == 'a');
    assert(write_failure_text(write_cause)[1] == 'a');
    assert(open_report_text(dir)[1] == 'i');
    assert(open_report_text(dir)[0] == 'F');
    assert(save_report_text(path)[0] == 'T');
}

/// Joins a fixed lead and the value that follows it.
fn lead_then(lead: &str, rest: &str) -> (text: String)
    ensures
        text@ == lead@ + rest@,
{
    let mut text = String::from_str(lead);
    text.append(rest);
    text
}

/// Builds the report of a failed lookup of the application data directory from
/// the host's account of the failure.
pub fn app_data_dir_failure(cause: &str) -> (text: String)
    ensures
        text@ == app_data_dir_failure_text(cause@),
{
    lead_then("Failed to get app data directory: ", cause)
}

/// Builds the report of a failed attempt to create the application data
/// directory.
pub fn create_dir_failure(cause: &str) -> (text: String)
    ensures
        text@ == create_dir_failure_text(cause@),
{
    lead_then("Failed to create app data directory: ", cause)
}

/// Builds the report of a failed attempt to write the test file.
pub fn write_failure(cause: &str) -> (text: String)
    ensures
        text@ == write_failure_text(cause@),
{
    lead_then("Failed to write test file: ", cause)
}

/// Builds the answer to an open request for the directory `dir`.
pub fn open_report(dir: &str) -> (text: String)
    ensures
        text@ == open_report_text(dir@),
{
    lead_then("File dialog would open here. App data directory: ", dir)
}

/// Builds the answer to a save request for the file at `path`.
pub fn save_report(path: &str) -> (text: String)
    ensures
        text@ == save_report_text(path@),
{
    lead_then("Test file saved to: ", path)
}

} // verus!
