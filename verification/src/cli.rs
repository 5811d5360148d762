//! The commands of the command-line program.
use vstd::prelude::*;

verus! {

/// The command line: the command to run, if any.
#[derive(Debug, Clone)]
pub struct Cli {
    pub commands: Option<PulpCommand>,
}

/// A command of the program.
#[derive(Debug, Clone)]
pub enum PulpCommand {
    /// Simulate a debate.
    Sim(SimCmd),
    /// Start a debate simulation server.
    Serve(ServeCmd),
}

/// A kind of simulation to run.
#[derive(Debug, Clone)]
pub enum SimCmd {
    /// Generate a random debate.
    Generate(GenerateArgs),
    /// Simulate a debate with the enneagram user sets of a file.
    Enneagram(SetsArgs),
    /// Simulate a debate with the business user sets of a file.
    Business(SetsArgs),
}

/// The arguments of a random debate.
#[derive(Debug, Clone)]
pub struct GenerateArgs {
    /// How long to run the simulation.
    pub duration: i64,
    /// How many users to create.
    pub users: i64,
}

/// The configuration file of a simulation.
#[derive(Debug, Clone)]
pub struct SetsArgs {
    pub file: String,
}

/// A server to start.
#[derive(Debug, Clone)]
pub enum ServeCmd {
    Grpc(GrpcArgs),
    Rest(RestArgs),
}

/// The port of the gRPC server.
#[derive(Debug, Clone)]
pub struct GrpcArgs {
    pub port: String,
}

/// The port of the REST server.
#[derive(Debug, Clone)]
pub struct RestArgs {
    pub port: String,
}

} // verus!
