//! Plain option records carried by command-line tooling around the node.

use vstd::prelude::*;

verus! {

/// Selects the profile to use from the CLI configuration.
#[derive(Debug)]
pub struct ProfileOptions {
    /// Profile to use from the CLI configuration; an absent value selects
    /// the default profile.  The profile overrides associated settings
    /// such as the REST URL and the private key arguments.
    pub profile: Option<String>,
}

/// Gas settings for a submitted transaction.
#[derive(Debug)]
pub struct GasOptions {
    /// Price per unit of gas; absent means estimate from the network.
    pub gas_unit_price: Option<u64>,
    /// Maximum amount of gas units to spend on the transaction; absent
    /// means determine it by simulating the transaction.
    pub max_gas: Option<u64>,
    /// Seconds from now until the transaction expires.
    pub expiration_secs: u64,
}

} // verus!
