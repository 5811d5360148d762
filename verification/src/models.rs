//! The records of a simulation: users, votes, debates, references, learned
//! attributes, blog posts and engagement counts.
use crate::text::str_eq;
use vstd::prelude::*;

verus! {

/// The kind of a vote, with the reason given for it, if any.
#[derive(Debug, Clone)]
pub enum VoteType {
    Valid(Option<String>),
    Invalid(Option<String>),
    Abstain(Option<String>),
}

impl Default for VoteType {
    fn default() -> (v: Self)
        ensures
            v == VoteType::Abstain(None),
    {
        VoteType::Abstain(None)
    }
}

/// The kind of vote that a model's answer to the vote prompt names: the
/// prompt asks for `valid`, `invalid` or `abstain`, and any answer other than
/// the first two counts as an abstention; no reason is recorded.
pub open spec fn vote_type_from(s: Seq<char>) -> VoteType {
    if s == "valid"@ {
        VoteType::Valid(None)
    } else if s == "invalid"@ {
        VoteType::Invalid(None)
    } else {
        VoteType::Abstain(None)
    }
}

impl VoteType {
    /// The kind of vote that `vote` names.
    pub fn from(vote: &str) -> (v: VoteType)
        ensures
            v == vote_type_from(vote@),
    {
        if str_eq(vote, "valid") {
            VoteType::Valid(None)
        } else if str_eq(vote, "invalid") {
            VoteType::Invalid(None)
        } else {
            VoteType::Abstain(None)
        }
    }
}

/// A vote cast on a response of a debate.
#[derive(Debug, Clone)]
pub struct Vote {
    pub vote_type: VoteType,
    pub debate_id: String,
    pub response_id: String,
}

impl Vote {
    pub fn new(vote_type: VoteType, debate_id: String, response_id: String) -> (v: Self)
        ensures
            v.vote_type == vote_type,
            v.debate_id == debate_id,
            v.response_id == response_id,
    {
        Self { vote_type, debate_id, response_id }
    }
}

impl Default for Vote {
    fn default() -> (v: Self)
        ensures
            v.vote_type == VoteType::Abstain(None),
            v.debate_id@ == Seq::<char>::empty(),
            v.response_id@ == Seq::<char>::empty(),
    {
        Self { vote_type: VoteType::default(), debate_id: String::new(), response_id: String::new() }
    }
}

/// A user of the platform.
#[derive(Debug, Clone)]
pub struct User {
    pub id: String,
    pub debates: Vec<String>,
    pub votes: Vec<Vote>,
    pub simulation_data: String,
}

impl User {
    /// A user with the given id and simulation data, who has taken part in no
    /// debate and cast no vote.
    pub fn new(id: String, simulation_data: String) -> (u: Self)
        ensures
            u.id == id,
            u.simulation_data == simulation_data,
            u.debates@.len() == 0,
            u.votes@.len() == 0,
    {
        Self { id, debates: Vec::new(), votes: Vec::new(), simulation_data }
    }
}

impl Default for User {
    fn default() -> (u: Self)
        ensures
            u.id@ == Seq::<char>::empty(),
            u.simulation_data@ == Seq::<char>::empty(),
            u.debates@.len() == 0,
            u.votes@.len() == 0,
    {
        Self {
            id: String::new(),
            debates: Vec::new(),
            votes: Vec::new(),
            simulation_data: String::new(),
        }
    }
}

/// A reference, such as a link, that a response cites.
#[derive(Debug, Clone)]
pub struct Reference {
    pub id: String,
    pub internal: bool,
    pub trust: i64,
    pub distrust: i64,
    pub content: String,
}

impl Reference {
    pub fn new(id: String, internal: bool, trust: i64, distrust: i64, content: String) -> (r: Self)
        ensures
            r.id == id,
            r.internal == internal,
            r.trust == trust,
            r.distrust == distrust,
            r.content == content,
    {
        Self { id, internal, trust, distrust, content }
    }
}

impl Default for Reference {
    fn default() -> (r: Self)
        ensures
            r.id@ == Seq::<char>::empty(),
            !r.internal,
            r.trust == 0,
            r.distrust == 0,
            r.content@ == Seq::<char>::empty(),
    {
        Self { id: String::new(), internal: false, trust: 0, distrust: 0, content: String::new() }
    }
}

/// A debate and its counts.
#[derive(Debug)]
pub struct Debate {
    pub id: String,
    pub score: i64,
    pub topic: String,
    pub category: String,
    pub registered_speakers: i64,
    pub commenters: i64,
    pub voters: i64,
    pub comments: i64,
    pub inactive_participants: i64,
    pub responses: i64,
    pub init_timestamp: i64,
    pub registration_timestamps: (i64, i64),
    pub competition_timestamps: (i64, i64),
    pub rewards_timestamps: (i64, i64),
}

/// Whether `d` is a debate that has no id and no activity yet, on `topic` in
/// `category`.
pub open spec fn fresh_debate(d: Debate, topic: Seq<char>, category: Seq<char>) -> bool {
    &&& d.id@ == Seq::<char>::empty()
    &&& d.topic@ == topic
    &&& d.category@ == category
    &&& d.score == 0
    &&& d.registered_speakers == 0
    &&& d.commenters == 0
    &&& d.voters == 0
    &&& d.comments == 0
    &&& d.inactive_participants == 0
    &&& d.responses == 0
    &&& d.init_timestamp == 0
    &&& d.registration_timestamps == (0i64, 0i64)
    &&& d.competition_timestamps == (0i64, 0i64)
    &&& d.rewards_timestamps == (0i64, 0i64)
}

impl Debate {
    pub fn new(
        id: String,
        score: i64,
        topic: String,
        category: String,
        registered_speakers: i64,
        commenters: i64,
        voters: i64,
        comments: i64,
        inactive_participants: i64,
        responses: i64,
        init_timestamp: i64,
        registration_timestamps: (i64, i64),
        competition_timestamps: (i64, i64),
        rewards_timestamps: (i64, i64),
    ) -> (d: Self)
        ensures
            d.id == id,
            d.score == score,
            d.topic == topic,
            d.category == category,
            d.registered_speakers == registered_speakers,
            d.commenters == commenters,
            d.voters == voters,
            d.comments == comments,
            d.inactive_participants == inactive_participants,
            d.responses == responses,
            d.init_timestamp == init_timestamp,
            d.registration_timestamps == registration_timestamps,
            d.competition_timestamps == competition_timestamps,
            d.rewards_timestamps == rewards_timestamps,
    {
        Self {
            id,
            score,
            topic,
            category,
            registered_speakers,
            commenters,
            voters,
            comments,
            inactive_participants,
            responses,
            init_timestamp,
            registration_timestamps,
            competition_timestamps,
            rewards_timestamps,
        }
    }
}

impl Clone for Debate {
    fn clone(&self) -> (d: Self)
        ensures
            d == *self,
    {
        Self {
            id: self.id.clone(),
            score: self.score,
            topic: self.topic.clone(),
            category: self.category.clone(),
            registered_speakers: self.registered_speakers,
            commenters: self.commenters,
            voters: self.voters,
            comments: self.comments,
            inactive_participants: self.inactive_participants,
            responses: self.responses,
            init_timestamp: self.init_timestamp,
            registration_timestamps: (self.registration_timestamps.0, self.registration_timestamps.1),
            competition_timestamps: (self.competition_timestamps.0, self.competition_timestamps.1),
            rewards_timestamps: (self.rewards_timestamps.0, self.rewards_timestamps.1),
        }
    }
}

impl Default for Debate {
    fn default() -> (d: Self)
        ensures
            fresh_debate(d, Seq::empty(), Seq::empty()),
    {
        Self {
            id: String::new(),
            score: 0,
            topic: String::new(),
            category: String::new(),
            registered_speakers: 0,
            commenters: 0,
            voters: 0,
            comments: 0,
            inactive_participants: 0,
            responses: 0,
            init_timestamp: 0,
            registration_timestamps: (0, 0),
            competition_timestamps: (0, 0),
            rewards_timestamps: (0, 0),
        }
    }
}

/// The engagement counts of a response.
#[derive(Debug, Clone)]
pub struct Engagements {
    pub report_harmful_to_others: i64,
    pub report_abuseof_platform: i64,
    pub hide: i64,
    pub vote_validity: i64,
    pub vote_condfidence: i64,
    pub response_distance: i64,
    pub response_timing: i64,
}

/// Whether every count of `e` is zero.
pub open spec fn no_engagements(e: Engagements) -> bool {
    &&& e.report_harmful_to_others == 0
    &&& e.report_abuseof_platform == 0
    &&& e.hide == 0
    &&& e.vote_validity == 0
    &&& e.vote_condfidence == 0
    &&& e.response_distance == 0
    &&& e.response_timing == 0
}

impl Engagements {
    pub fn new(
        report_harmful_to_others: i64,
        report_abuseof_platform: i64,
        hide: i64,
        vote_validity: i64,
        vote_condfidence: i64,
        response_distance: i64,
        response_timing: i64,
    ) -> (e: Self)
        ensures
            e.report_harmful_to_others == report_harmful_to_others,
            e.report_abuseof_platform == report_abuseof_platform,
            e.hide == hide,
            e.vote_validity == vote_validity,
            e.vote_condfidence == vote_condfidence,
            e.response_distance == response_distance,
            e.response_timing == response_timing,
    {
        Self {
            report_harmful_to_others,
            report_abuseof_platform,
            hide,
            vote_validity,
            vote_condfidence,
            response_distance,
            response_timing,
        }
    }
}

impl Default for Engagements {
    fn default() -> (e: Self)
        ensures
            no_engagements(e),
    {
        Self::new(0, 0, 0, 0, 0, 0, 0)
    }
}

/// A blog post of a business, with the ethos, pathos and logos of its text
/// and its reach.
#[derive(Debug, Clone)]
pub struct Blog {
    pub id: String,
    pub title: String,
    pub body: String,
    pub author: String,
    pub topic: String,
    pub category: String,
    pub publish_timestamp: i64,
    pub ethos: i64,
    pub pathos: i64,
    pub logos: i64,
    pub score: i64,
    pub engagements: i64,
    pub impressions: i64,
}

/// The blog post of a business.
pub type Business = Blog;

impl Business {
    pub fn new(
        id: String,
        title: String,
        body: String,
        author: String,
        topic: String,
        category: String,
        publish_timestamp: i64,
        ethos: i64,
        pathos: i64,
        logos: i64,
        score: i64,
        engagements: i64,
        impressions: i64,
    ) -> (b: Self)
        ensures
            b.id == id,
            b.title == title,
            b.body == body,
            b.author == author,
            b.topic == topic,
            b.category == category,
            b.publish_timestamp == publish_timestamp,
            b.ethos == ethos,
            b.pathos == pathos,
            b.logos == logos,
            b.score == score,
            b.engagements == engagements,
            b.impressions == impressions,
    {
        Self {
            id,
            title,
            body,
            author,
            topic,
            category,
            publish_timestamp,
            ethos,
            pathos,
            logos,
            score,
            engagements,
            impressions,
        }
    }
}

/// What a persona learned from a reply, and why.
#[derive(Debug, Clone)]
pub struct Learned {
    pub id: String,
    pub learned_content: String,
    pub reason: String,
}

impl Learned {
    pub fn new(id: String, learned_content: String, reason: String) -> (l: Self)
        ensures
            l.id == id,
            l.learned_content == learned_content,
            l.reason == reason,
    {
        Self { id, learned_content, reason }
    }
}

impl Default for Learned {
    fn default() -> (l: Self)
        ensures
            l.id@ == Seq::<char>::empty(),
            l.learned_content@ == Seq::<char>::empty(),
            l.reason@ == Seq::<char>::empty(),
    {
        Self { id: String::new(), learned_content: String::new(), reason: String::new() }
    }
}

} // verus!
