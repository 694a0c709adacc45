use crate::endpoints::{decimal, decimal_string, BACKEND_PORT};
use vstd::prelude::*;
use vstd::string::*;

verus! {

/// Why the backend could not be started. The text is what the system said.
#[derive(Debug, PartialEq, Eq)]
pub enum SpawnError {
    /// The executable could not be located.
    Create(String),
    /// The executable was found and could not be started.
    Start(String),
}

impl SpawnError {
    /// The message that `message` builds.
    pub open spec fn text(self) -> Seq<char> {
        match self {
            SpawnError::Create(detail) => "Failed to create sidecar: "@ + detail@,
            SpawnError::Start(detail) => "Failed to spawn sidecar: "@ + detail@,
        }
    }

    /// The error as one line for the log.
    pub fn message(&self) -> (r: String)
        ensures
            r@ == self.text(),
    {
        match self {
            SpawnError::Create(detail) => {
                let mut r: String = String::from_str("Failed to create sidecar: ");
                r.append(detail.as_str());
                r
            },
            SpawnError::Start(detail) => {
                let mut r: String = String::from_str("Failed to spawn sidecar: ");
                r.append(detail.as_str());
                r
            },
        }
    }
}

/// The name of the executable that is started as the backend.
pub fn sidecar_name() -> (r: &'static str)
    ensures
        r@ == "dashboard-api"@,
{
    "dashboard-api"
}

/// The arguments the backend is started with: `--port` and the port.
pub fn sidecar_args() -> (args: Vec<String>)
    ensures
        args@.len() == 2,
        args@[0]@ == "--port"@,
        args@[1]@ == decimal(BACKEND_PORT as nat),
        args@[1]@ == "8765"@,
{
    let mut args: Vec<String> = Vec::new();
    args.push(String::from_str("--port"));
    args.push(decimal_string(BACKEND_PORT));
    proof {
        crate::endpoints::lemma_backend_port_numeral();
    }
    args
}

} // verus!
