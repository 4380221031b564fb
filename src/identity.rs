use vstd::prelude::*;

verus! {

/// Where the backend answers health checks.
#[derive(Clone, Debug)]
pub struct Endpoint {
    pub host: String,
    pub port: u16,
    pub path: String,
}

/// The fixed description of the companion backend process.
#[derive(Clone, Debug)]
pub struct BackendIdentity {
    /// Path of the backend executable, relative to the application's directory
    /// unless absolute.
    pub executable_path: String,
    /// The name under which the operating system reports the running backend.
    pub process_name: String,
    /// The health-check endpoint, if liveness is to be probed over the network.
    pub endpoint: Option<Endpoint>,
}

impl BackendIdentity {
    /// An identity that is probed through the process table only.
    pub fn new(executable_path: String, process_name: String) -> (r: Self)
        ensures
            r.executable_path == executable_path,
            r.process_name == process_name,
            r.endpoint is None,
    {
        BackendIdentity { executable_path, process_name, endpoint: None }
    }

    /// The same identity, probed over the network at `endpoint`.
    pub fn with_endpoint(self, endpoint: Endpoint) -> (r: Self)
        ensures
            r.executable_path == self.executable_path,
            r.process_name == self.process_name,
            r.endpoint == Some(endpoint),
    {
        BackendIdentity { endpoint: Some(endpoint), ..self }
    }
}

} // verus!
