//! What the command line can say.

use vstd::prelude::*;

verus! {

/// The arguments of an invocation.
#[derive(Debug)]
pub struct Args {
    /// Natural language query to chat with AI.
    pub query: Option<String>,
    /// Generate and execute a shell command.
    pub shell: bool,
    /// Chat continuously.
    pub chat: bool,
    /// Confirm the execution of the command without a prompt.
    pub yes: bool,
    /// The provider, by name.
    pub provider: Option<String>,
    /// The endpoint of the provider.
    pub base_url: Option<String>,
    /// The model, by name.
    pub model: Option<String>,
}

} // verus!
