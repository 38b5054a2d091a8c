//! Per-stage decisions: the prerequisite verdict and the actions the
//! provisioning and installation stages take on a settled prompt.

use vstd::prelude::*;

use crate::inspect::EnvStatus;
use crate::prompt::Answer;

verus! {

/// The prerequisite check's outcome as a function of whether the
/// manager's version query could be launched at all: its exit code
/// does not matter, only that the process started.
pub fn prereq_outcome(launched: bool) -> (r: Result<(), String>)
    ensures
        launched <==> r is Ok,
        r matches Err(m) ==> m@ == "conda is not found. Install Aanaconda or Miniconda"@,
{
    if launched {
        Ok(())
    } else {
        Err("conda is not found. Install Aanaconda or Miniconda".to_owned())
    }
}

/// What the provisioning stage does once its prompt settles.
#[derive(Clone, Copy, PartialEq, Eq, Debug, Structural)]
pub enum ProvisionAction {
    /// Delete the existing environment by its fixed name, then create a
    /// fresh one with the pinned runtime version.
    DeleteThenCreate,
    /// Create a fresh environment; there is none to delete.
    CreateOnly,
    /// Leave everything as it is and report success.
    Skip,
}

/// The provisioning decision as a function of the inspector's finding
/// and the classified reply; an unsettled reply decides nothing and
/// the prompt is asked again.
pub open spec fn spec_provision_action(env_exists: bool, a: Answer) -> Option<ProvisionAction> {
    match a {
        Answer::Confirmed => if env_exists {
            Some(ProvisionAction::DeleteThenCreate)
        } else {
            Some(ProvisionAction::CreateOnly)
        },
        Answer::Declined => Some(ProvisionAction::Skip),
        Answer::Reprompt => None,
    }
}

/// Decides the provisioning stage's action from the inspector's status
/// and one classified reply.
pub fn provision_action(status: &EnvStatus, a: Answer) -> (r: Option<ProvisionAction>)
    ensures
        r == spec_provision_action(status.exists, a),
{
    match a {
        Answer::Confirmed => {
            if status.exists {
                Some(ProvisionAction::DeleteThenCreate)
            } else {
                Some(ProvisionAction::CreateOnly)
            }
        },
        Answer::Declined => Some(ProvisionAction::Skip),
        Answer::Reprompt => None,
    }
}

/// The provisioning prompt's wording: it asks "again" exactly when the
/// inspector found the environment.
pub fn provision_prompt(env_exists: bool) -> (r: &'static str)
    ensures
        env_exists ==> r@ == "Do you create environment again? (y/N):"@,
        !env_exists ==> r@ == "Do you create environment? (y/N):"@,
{
    if env_exists {
        "Do you create environment again? (y/N):"
    } else {
        "Do you create environment? (y/N):"
    }
}

/// What the installation stage does once its prompt settles.
#[derive(Clone, Copy, PartialEq, Eq, Debug, Structural)]
pub enum InstallAction {
    /// Run the installer against the fixed manifest inside the
    /// activated environment.
    RunInstaller,
    /// Leave everything as it is and report success.
    Skip,
}

/// The installation decision as a function of the classified reply.
pub open spec fn spec_install_action(a: Answer) -> Option<InstallAction> {
    match a {
        Answer::Confirmed => Some(InstallAction::RunInstaller),
        Answer::Declined => Some(InstallAction::Skip),
        Answer::Reprompt => None,
    }
}

/// Decides the installation stage's action from one classified reply.
pub fn install_action(a: Answer) -> (r: Option<InstallAction>)
    ensures
        r == spec_install_action(a),
{
    match a {
        Answer::Confirmed => Some(InstallAction::RunInstaller),
        Answer::Declined => Some(InstallAction::Skip),
        Answer::Reprompt => None,
    }
}

} // verus!
