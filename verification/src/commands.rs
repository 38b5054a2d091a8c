//! The fixed external command lines the assistant runs, as data: the
//! program names and argument lists are constants of the design, so
//! they are stated here with contracts and the process-spawning shell
//! around the library takes them from here.

use vstd::prelude::*;

verus! {

/// The environment manager's executable name.
pub fn manager_program() -> (r: &'static str)
    ensures
        r@ == "conda"@,
{
    "conda"
}

/// The activation script that prefixes the installer and the driver
/// helper, so that both run inside the named environment.
pub fn activation_program() -> (r: &'static str)
    ensures
        r@ == "activate.bat"@,
{
    "activate.bat"
}

/// Arguments of the manager's version query, the prerequisite check.
pub fn version_args() -> (r: Vec<String>)
    ensures
        r.deep_view() == seq!["--version"@],
{
    let mut v: Vec<String> = Vec::new();
    v.push("--version".to_owned());
    proof {
        assert(v.deep_view() =~= seq!["--version"@]);
    }
    v
}

/// Arguments of the manager's listing subcommand, whose captured
/// output the inspector scans.
pub fn list_args() -> (r: Vec<String>)
    ensures
        r.deep_view() == seq!["env"@, "list"@],
{
    let mut v: Vec<String> = Vec::new();
    v.push("env".to_owned());
    v.push("list".to_owned());
    proof {
        assert(v.deep_view() =~= seq!["env"@, "list"@]);
    }
    v
}

/// Arguments that delete the fixed environment by name — deletion goes
/// by the name, never by the captured path.
pub fn remove_args() -> (r: Vec<String>)
    ensures
        r.deep_view() == seq!["remove"@, "-n"@, "thz"@, "--all"@],
{
    let mut v: Vec<String> = Vec::new();
    v.push("remove".to_owned());
    v.push("-n".to_owned());
    v.push("thz".to_owned());
    v.push("--all".to_owned());
    proof {
        assert(v.deep_view() =~= seq!["remove"@, "-n"@, "thz"@, "--all"@]);
    }
    v
}

/// Arguments that create the fixed environment with the pinned runtime
/// version.
pub fn create_args() -> (r: Vec<String>)
    ensures
        r.deep_view() == seq!["create"@, "-n"@, "thz"@, "-y"@, "python=3.9.7"@],
{
    let mut v: Vec<String> = Vec::new();
    v.push("create".to_owned());
    v.push("-n".to_owned());
    v.push("thz".to_owned());
    v.push("-y".to_owned());
    v.push("python=3.9.7".to_owned());
    proof {
        assert(v.deep_view() =~= seq!["create"@, "-n"@, "thz"@, "-y"@, "python=3.9.7"@]);
    }
    v
}

/// Arguments that run the installer against the fixed manifest inside
/// the activated environment.
pub fn install_args() -> (r: Vec<String>)
    ensures
        r.deep_view() == seq!["&"@, "pip"@, "install"@, "-r"@, "requirements.txt"@],
{
    let mut v: Vec<String> = Vec::new();
    v.push("&".to_owned());
    v.push("pip".to_owned());
    v.push("install".to_owned());
    v.push("-r".to_owned());
    v.push("requirements.txt".to_owned());
    proof {
        assert(v.deep_view() =~= seq!["&"@, "pip"@, "install"@, "-r"@, "requirements.txt"@]);
    }
    v
}

/// Arguments that run the driver helper script inside the activated
/// environment; the verifier scans its captured output.
pub fn driver_check_args() -> (r: Vec<String>)
    ensures
        r.deep_view() == seq!["&"@, "python"@, "gpib_check.py"@],
{
    let mut v: Vec<String> = Vec::new();
    v.push("&".to_owned());
    v.push("python".to_owned());
    v.push("gpib_check.py".to_owned());
    proof {
        assert(v.deep_view() =~= seq!["&"@, "python"@, "gpib_check.py"@]);
    }
    v
}

} // verus!
