//! The errors of a simulation and of the servers, and the messages that
//! describe them.
use vstd::prelude::*;

verus! {

/// An error of a simulation run.
#[derive(Debug, Clone, PartialEq, Eq)]
pub enum SimulationError {
    LLMError(String),
    Neo4jError(String),
    SimError(String),
}

/// An error of the gRPC or REST server.
#[derive(Debug, Clone, PartialEq, Eq)]
pub enum ApiError {
    GRPCError(String),
    RESTError(String),
}

/// Any error of the library.
#[derive(Debug, Clone, PartialEq, Eq)]
pub enum PulpError {
    SimulationError(SimulationError),
    ApiError(ApiError),
}

/// The message of a simulation error: a prefix that names its kind, then its
/// detail.
pub open spec fn simulation_error_message(e: SimulationError) -> Seq<char> {
    match e {
        SimulationError::LLMError(s) => "simulation llm error: "@ + s@,
        SimulationError::Neo4jError(s) => "simulation neo4j error: "@ + s@,
        SimulationError::SimError(s) => "simulation error: "@ + s@,
    }
}

/// The message of a server error.
pub open spec fn api_error_message(e: ApiError) -> Seq<char> {
    match e {
        ApiError::GRPCError(s) => "grpc error: "@ + s@,
        ApiError::RESTError(s) => "rest error: "@ + s@,
    }
}

/// The message of an error: that of the error it wraps.
pub open spec fn pulp_error_message(e: PulpError) -> Seq<char> {
    match e {
        PulpError::SimulationError(s) => simulation_error_message(s),
        PulpError::ApiError(a) => api_error_message(a),
    }
}

fn prefixed(prefix: &str, detail: &String) -> (m: String)
    ensures
        m@ == prefix@ + detail@,
{
    let mut m = String::from_str(prefix);
    m.append(detail.as_str());
    m
}

impl SimulationError {
    /// The text that describes this error.
    pub fn message(&self) -> (m: String)
        ensures
            m@ == simulation_error_message(*self),
    {
        match self {
            SimulationError::LLMError(s) => prefixed("simulation llm error: ", s),
            SimulationError::Neo4jError(s) => prefixed("simulation neo4j error: ", s),
            SimulationError::SimError(s) => prefixed("simulation error: ", s),
        }
    }
}

impl ApiError {
    /// The text that describes this error.
    pub fn message(&self) -> (m: String)
        ensures
            m@ == api_error_message(*self),
    {
        match self {
            ApiError::GRPCError(s) => prefixed("grpc error: ", s),
            ApiError::RESTError(s) => prefixed("rest error: ", s),
        }
    }
}

impl PulpError {
    /// The text that describes this error.
    pub fn message(&self) -> (m: String)
        ensures
            m@ == pulp_error_message(*self),
    {
        match self {
            PulpError::SimulationError(s) => s.message(),
            PulpError::ApiError(a) => a.message(),
        }
    }
}

} // verus!
