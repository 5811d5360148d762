use vstd::prelude::*;

pub mod simulation;
pub mod text;
pub mod llm;
pub mod personas;
pub mod persona_prompts;
pub mod enneagram;
pub mod errors;
pub mod models;
pub mod scoring;
pub mod business;
pub mod links;
pub mod cli;
pub mod laws;

verus! {

} // verus!
