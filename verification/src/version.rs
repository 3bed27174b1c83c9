//! Version information.
use vstd::prelude::*;
use vstd::string::*;

verus! {

/// Version of the shared library.
pub const VERSION: &'static str = "0.1.3";

/// Version of the agent.
pub const AGENT_VERSION: &'static str = "0.1.3";

/// Version of the command-line tool.
pub const CLI_VERSION: &'static str = "0.1.3";

/// Full version string: `Shipwright v<VERSION>`.
pub fn get_version_string() -> (r: String)
    ensures
        r@ == "Shipwright v"@ + VERSION@,
{
    let mut r = String::from_str("Shipwright v");
    r.append(VERSION);
    r
}

/// Detailed version information, one component per line.
pub fn get_detailed_version() -> (r: String)
    ensures
        r@ == "Shipwright v"@ + VERSION@ + "\nAgent: v"@ + AGENT_VERSION@ + "\nCLI: v"@ + CLI_VERSION@,
{
    let mut r = String::from_str("Shipwright v");
    r.append(VERSION);
    r.append("\nAgent: v");
    r.append(AGENT_VERSION);
    r.append("\nCLI: v");
    r.append(CLI_VERSION);
    r
}

} // verus!
