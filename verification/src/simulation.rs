//! The kinds of simulation, the points of each action, and the debates of
//! an exclusive simulation.
use crate::models::{fresh_debate, Debate};
use crate::text::str_eq;
use vstd::prelude::*;

verus! {

/// The kind of a simulation.
#[derive(Debug, Clone, Copy, PartialEq, Eq, Structural)]
pub enum SimulationType {
    Enneagram,
    Age,
    Business,
}

/// Whether `s` names a kind of simulation.
pub open spec fn names_simulation_type(s: Seq<char>) -> bool {
    s == "enneagram"@ || s == "age"@ || s == "business"@
}

/// The kind of simulation that `s` names.
pub open spec fn simulation_type_from(s: Seq<char>) -> SimulationType
    recommends
        names_simulation_type(s),
{
    if s == "enneagram"@ {
        SimulationType::Enneagram
    } else if s == "age"@ {
        SimulationType::Age
    } else {
        SimulationType::Business
    }
}

impl SimulationType {
    /// The kind of simulation that `s` names; any other text is refused.
    pub fn from(s: &str) -> (t: SimulationType)
        requires
            names_simulation_type(s@),
        ensures
            t == simulation_type_from(s@),
    {
        if str_eq(s, "enneagram") {
            SimulationType::Enneagram
        } else if str_eq(s, "age") {
            SimulationType::Age
        } else {
            SimulationType::Business
        }
    }
}

/// A personas simulation: its kind, size, duration and debates.
#[derive(Debug, Clone)]
pub struct PersonasSimulation {
    pub simulation_type: String,
    pub simulation_size: i64,
    pub simulation_duration: i64,
    pub debates: Vec<Debate>,
}

impl PersonasSimulation {
    pub fn new(
        simulation_type: String,
        simulation_size: i64,
        simulation_duration: i64,
        debates: Vec<Debate>,
    ) -> (s: Self)
        ensures
            s.simulation_type == simulation_type,
            s.simulation_size == simulation_size,
            s.simulation_duration == simulation_duration,
            s.debates == debates,
    {
        Self { simulation_type, simulation_size, simulation_duration, debates }
    }

    /// The kind of this simulation.
    pub fn simulation_type(&self) -> (t: String)
        ensures
            t == self.simulation_type,
    {
        self.simulation_type.clone()
    }
}

impl Default for PersonasSimulation {
    fn default() -> (s: Self)
        ensures
            s.simulation_type@ == Seq::<char>::empty(),
            s.simulation_size == 0,
            s.simulation_duration == 0,
            s.debates@.len() == 0,
    {
        Self {
            simulation_type: String::new(),
            simulation_size: 0,
            simulation_duration: 0,
            debates: Vec::new(),
        }
    }
}

/// The debates of an exclusive simulation: the i-th debate is on the i-th
/// topic in the i-th category, and topics and categories must be as many.
pub fn exclusive_debates(topics: &Vec<String>, categories: &Vec<String>) -> (debates: Option<
    Vec<Debate>,
>)
    ensures
        debates is None <==> topics@.len() != categories@.len(),
        debates matches Some(ds) ==> {
            &&& ds@.len() == topics@.len()
            &&& forall|i: int|
                0 <= i < ds@.len() ==> fresh_debate(
                    #[trigger] ds@[i],
                    topics@[i]@,
                    categories@[i]@,
                )
        },
{
    if topics.len() != categories.len() {
        return None;
    }
    let mut ds: Vec<Debate> = Vec::new();
    let mut i: usize = 0;
    while i < topics.len()
        invariant
            topics@.len() == categories@.len(),
            i <= topics@.len(),
            ds@.len() == i,
            forall|j: int|
                0 <= j < i ==> fresh_debate(#[trigger] ds@[j], topics@[j]@, categories@[j]@),
        decreases topics@.len() - i,
    {
        let mut d = Debate::default();
        d.topic = topics[i].clone();
        d.category = categories[i].clone();
        ds.push(d);
        i = i + 1;
    }
    Some(ds)
}

/// The point values that the platform awards for each kind of engagement.
pub enum Action {
    ValidVoteWithContent,
    InvalidVoteWithContent,
    ValidVote,
    InvalidVote,
    AbstainVote,
    Response,
    Report,
    Hide,
}

/// The number of points an action is worth before any adjustment.
pub open spec fn spec_base_point_value(a: Action) -> i32 {
    match a {
        Action::ValidVoteWithContent => 100,
        Action::InvalidVoteWithContent => 100,
        Action::ValidVote => 50,
        Action::InvalidVote => 50,
        Action::AbstainVote => 0,
        Action::Response => 150,
        Action::Report => 0,
        Action::Hide => 0,
    }
}

impl Action {
    pub fn base_point_value(&self) -> (points: i32)
        ensures
            points == spec_base_point_value(*self),
    {
        match self {
            Action::ValidVoteWithContent => 100,
            Action::InvalidVoteWithContent => 100,
            Action::ValidVote => 50,
            Action::InvalidVote => 50,
            Action::AbstainVote => 0,
            Action::Response => 150,
            Action::Report => 0,
            Action::Hide => 0,
        }
    }
}

} // verus!
