//! The `connect` command of the command line client.
use vstd::prelude::*;

verus! {

/// The command that asks the daemon to start establishing a VPN tunnel.
pub struct Connect;

impl Connect {
    /// The name the command is invoked by.
    pub fn name(&self) -> (r: &'static str)
        ensures
            r@ == "connect"@,
    {
        "connect"
    }

    /// The one-line description of the command.
    pub fn about(&self) -> (r: &'static str)
        ensures
            r@ == "Command the client to start establishing a VPN tunnel"@,
    {
        "Command the client to start establishing a VPN tunnel"
    }
}

} // verus!
