//! The fixed console texts of the assistant, kept verbatim — spelling
//! included — so that every printed word is pinned by a contract.

use vstd::prelude::*;

verus! {

/// Printed once at startup.
pub fn start_banner() -> (r: &'static str)
    ensures
        r@ == "Start setup process. Need Internet access."@,
{
    "Start setup process. Need Internet access."
}

/// The label of the prerequisite check's report line.
pub fn prereq_label() -> (r: &'static str)
    ensures
        r@ == "Check conda is installed correctly ... "@,
{
    "Check conda is installed correctly ... "
}

/// The label of the driver check's report line.
pub fn driver_label() -> (r: &'static str)
    ensures
        r@ == "NI-VISA status ... "@,
{
    "NI-VISA status ... "
}

/// The verdict word of a report line: `OK` on success, `NG` on
/// failure.
pub fn verdict_word(ok: bool) -> (r: &'static str)
    ensures
        ok ==> r@ == "OK"@,
        !ok ==> r@ == "NG"@,
{
    if ok {
        "OK"
    } else {
        "NG"
    }
}

/// Printed before the captured path when the inspector finds the
/// environment.
pub fn env_found_prefix() -> (r: &'static str)
    ensures
        r@ == "Environment exist in: "@,
{
    "Environment exist in: "
}

/// Printed when the inspector finds no matching listing line.
pub fn env_missing_note() -> (r: &'static str)
    ensures
        r@ == "Vurtural environment for the application does not exist"@,
{
    "Vurtural environment for the application does not exist"
}

/// The reminder printed on an unrecognised prompt reply.
pub fn reply_reminder() -> (r: &'static str)
    ensures
        r@ == "Enter y(es) or N(o)"@,
{
    "Enter y(es) or N(o)"
}

/// The installation prompt's wording.
pub fn install_prompt() -> (r: &'static str)
    ensures
        r@ == "Install required packages? (y/N)"@,
{
    "Install required packages? (y/N)"
}

/// Printed before the captured path while the old environment is
/// deleted.
pub fn deleting_prefix() -> (r: &'static str)
    ensures
        r@ == "Deleting old environment..."@,
{
    "Deleting old environment..."
}

/// Printed while the new environment is created.
pub fn creating_note() -> (r: &'static str)
    ensures
        r@ == "Creating new environment..."@,
{
    "Creating new environment..."
}

/// Printed after a completed step.
pub fn finished_note() -> (r: &'static str)
    ensures
        r@ == "Finished"@,
{
    "Finished"
}

/// The provisioning stage's error when the creation command cannot be
/// launched.
pub fn create_failed_note() -> (r: &'static str)
    ensures
        r@ == "Failed to create new environment"@,
{
    "Failed to create new environment"
}

/// The installation stage's error when the installer cannot be
/// launched.
pub fn install_failed_note() -> (r: &'static str)
    ensures
        r@ == "Failed to install required packages"@,
{
    "Failed to install required packages"
}

/// Printed before the final blocking keypress, on success and failure
/// alike.
pub fn close_note() -> (r: &'static str)
    ensures
        r@ == "Enter something to close this window"@,
{
    "Enter something to close this window"
}

} // verus!
