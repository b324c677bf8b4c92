//! The one error type of the library.

use vstd::prelude::*;

verus! {

/// What can go wrong, each kind with the detail that was reported.
#[derive(Debug)]
pub enum SchatError {
    /// The remote service answered with an error.
    Api(String),
    /// The configuration could not be used.
    Config(String),
    /// The user's input could not be read or used.
    Input(String),
    /// A command could not be run.
    Execution(String),
    /// Reading or writing failed.
    Io(String),
    /// Text could not be read as, or written to, a data format.
    Serialization(String),
    /// The network failed.
    Network(String),
    /// Anything else.
    Unknown(String),
    /// No tool of that name is registered.
    ToolNotFound(String),
    /// A tool was called and failed.
    ToolExecution(String),
    /// A tool server could not be reached.
    McpConnection(String),
}

impl SchatError {
    /// The words that introduce each kind of error.
    pub open spec fn label(self) -> Seq<char> {
        match self {
            SchatError::Api(_) => "API error: "@,
            SchatError::Config(_) => "Configuration error: "@,
            SchatError::Input(_) => "Input error: "@,
            SchatError::Execution(_) => "Execution error: "@,
            SchatError::Io(_) => "IO error: "@,
            SchatError::Serialization(_) => "Serialization error: "@,
            SchatError::Network(_) => "Network error: "@,
            SchatError::Unknown(_) => "Unknown error: "@,
            SchatError::ToolNotFound(_) => "Tool not found: "@,
            SchatError::ToolExecution(_) => "Tool execution error: "@,
            SchatError::McpConnection(_) => "MCP connection error: "@,
        }
    }

    /// The detail that was reported.
    pub open spec fn detail(self) -> Seq<char> {
        match self {
            SchatError::Api(d) => d@,
            SchatError::Config(d) => d@,
            SchatError::Input(d) => d@,
            SchatError::Execution(d) => d@,
            SchatError::Io(d) => d@,
            SchatError::Serialization(d) => d@,
            SchatError::Network(d) => d@,
            SchatError::Unknown(d) => d@,
            SchatError::ToolNotFound(d) => d@,
            SchatError::ToolExecution(d) => d@,
            SchatError::McpConnection(d) => d@,
        }
    }

    /// The text shown for an error: its label, then its detail.
    pub open spec fn text(self) -> Seq<char> {
        self.label() + self.detail()
    }

    /// The text shown for this error.
    pub fn message(&self) -> (r: String)
        ensures
            r@ == self.text(),
    {
        let (label, detail) = match self {
            SchatError::Api(d) => ("API error: ", d),
            SchatError::Config(d) => ("Configuration error: ", d),
            SchatError::Input(d) => ("Input error: ", d),
            SchatError::Execution(d) => ("Execution error: ", d),
            SchatError::Io(d) => ("IO error: ", d),
            SchatError::Serialization(d) => ("Serialization error: ", d),
            SchatError::Network(d) => ("Network error: ", d),
            SchatError::Unknown(d) => ("Unknown error: ", d),
            SchatError::ToolNotFound(d) => ("Tool not found: ", d),
            SchatError::ToolExecution(d) => ("Tool execution error: ", d),
            SchatError::McpConnection(d) => ("MCP connection error: ", d),
        };
        let mut r = String::from_str(label);
        r.append(detail.as_str());
        r
    }
}

impl From<String> for SchatError {
    fn from(err: String) -> (r: SchatError) {
        SchatError::Unknown(err)
    }
}

impl vstd::std_specs::convert::FromSpecImpl<String> for SchatError {
    open spec fn obeys_from_spec() -> bool {
        true
    }

    open spec fn from_spec(err: String) -> SchatError {
        SchatError::Unknown(err)
    }
}

} // verus!
