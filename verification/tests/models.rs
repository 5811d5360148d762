use pulpcalc::errors::{ApiError, PulpError, SimulationError};
use pulpcalc::links::{find_links, link_references, LINK_PATTERN};
use pulpcalc::models::{Business, Debate, Engagements, Learned, Reference, User, Vote, VoteType};
use pulpcalc::personas::{Gender, PoliticalOrientation};
use pulpcalc::scoring::{content_attribute_score, mastery_vocabulary, tally_vote};
use pulpcalc::simulation::{exclusive_debates, Action, PersonasSimulation, SimulationType};

#[test]
fn constructors_keep_their_arguments() {
    let v = Vote::new(VoteType::Valid(Some("good".to_string())), "d1".to_string(), "r1".to_string());
    assert!(matches!(v.vote_type, VoteType::Valid(Some(ref s)) if s == "good"));
    assert_eq!((v.debate_id.as_str(), v.response_id.as_str()), ("d1", "r1"));

    let u = User::new("u1".to_string(), "data".to_string());
    assert_eq!(u.id, "u1");
    assert_eq!(u.simulation_data, "data");
    assert!(u.debates.is_empty() && u.votes.is_empty());

    let r = Reference::new("ref".to_string(), true, 3, 1, "https://x".to_string());
    assert_eq!((r.id.as_str(), r.internal, r.trust, r.distrust, r.content.as_str()), ("ref", true, 3, 1, "https://x"));

    let e = Engagements::new(1, 2, 3, 4, 5, 6, 7);
    assert_eq!(
        (e.report_harmful_to_others, e.report_abuseof_platform, e.hide, e.vote_validity, e.vote_condfidence, e.response_distance, e.response_timing),
        (1, 2, 3, 4, 5, 6, 7)
    );

    let b = Business::new("b".into(), "t".into(), "body".into(), "a".into(), "topic".into(), "cat".into(), 10, 1, 2, 3, 4, 5, 6);
    assert_eq!((b.title.as_str(), b.publish_timestamp, b.ethos, b.pathos, b.logos, b.score, b.engagements, b.impressions), ("t", 10, 1, 2, 3, 4, 5, 6));

    let l = Learned::new("l".into(), "left".into(), "why".into());
    assert_eq!((l.id.as_str(), l.learned_content.as_str(), l.reason.as_str()), ("l", "left", "why"));

    let d = Debate::new("d".into(), 5, "t".into(), "c".into(), 1, 2, 3, 4, 5, 6, 7, (8, 9), (10, 11), (12, 13));
    assert_eq!((d.score, d.responses, d.init_timestamp, d.registration_timestamps, d.competition_timestamps, d.rewards_timestamps), (5, 6, 7, (8, 9), (10, 11), (12, 13)));
    let c = d.clone();
    assert_eq!((c.id, c.topic, c.voters), ("d".to_string(), "t".to_string(), 3));

    let s = PersonasSimulation::new("Personas".into(), 10, 60, vec![Debate::default()]);
    assert_eq!(s.simulation_type(), "Personas");
    assert_eq!((s.simulation_size, s.simulation_duration, s.debates.len()), (10, 60, 1));
}

#[test]
fn defaults_are_empty() {
    assert!(matches!(VoteType::default(), VoteType::Abstain(None)));
    let v = Vote::default();
    assert_eq!((v.debate_id.as_str(), v.response_id.as_str()), ("", ""));
    let d = Debate::default();
    assert_eq!((d.id.as_str(), d.score, d.topic.as_str(), d.rewards_timestamps), ("", 0, "", (0, 0)));
    let e = Engagements::default();
    assert_eq!((e.hide, e.response_timing), (0, 0));
    let r = Reference::default();
    assert_eq!((r.internal, r.content.as_str()), (false, ""));
    assert_eq!(Gender::default(), Gender::Other);
    assert_eq!(PoliticalOrientation::default(), PoliticalOrientation::Center);
    assert_eq!(PersonasSimulation::default().debates.len(), 0);
}

#[test]
fn gender_and_orientation_texts() {
    assert_eq!(Gender::from("male"), Gender::Male);
    assert_eq!(Gender::from("female"), Gender::Female);
    assert_eq!(Gender::from("other"), Gender::Other);
    assert_eq!(Gender::from("rather not say"), Gender::RatherNotSay);
    assert_eq!(Gender::from("rather_not_say"), Gender::RatherNotSay);
    assert_eq!(Gender::from("Male"), Gender::RatherNotSay);
    assert_eq!(Gender::RatherNotSay.to_string(), "rather_not_say");
    assert_eq!(Gender::Male.to_string(), "male");
    assert_eq!(PoliticalOrientation::from("right"), PoliticalOrientation::Right);
    assert_eq!(PoliticalOrientation::from("left"), PoliticalOrientation::Left);
    assert_eq!(PoliticalOrientation::from("centre"), PoliticalOrientation::Center);
    assert_eq!(PoliticalOrientation::Left.to_string(), "left");
}

#[test]
fn gender_and_orientation_round_trip() {
    for g in [Gender::Male, Gender::Female, Gender::Other, Gender::RatherNotSay] {
        assert_eq!(Gender::from(&g.to_string()), g);
    }
    for o in [PoliticalOrientation::Right, PoliticalOrientation::Left, PoliticalOrientation::Center] {
        assert_eq!(PoliticalOrientation::from(&o.to_string()), o);
    }
}

#[test]
fn simulation_types_by_name() {
    assert_eq!(SimulationType::from("enneagram"), SimulationType::Enneagram);
    assert_eq!(SimulationType::from("age"), SimulationType::Age);
    assert_eq!(SimulationType::from("business"), SimulationType::Business);
}

#[test]
fn base_point_values() {
    assert_eq!(Action::ValidVoteWithContent.base_point_value(), 100);
    assert_eq!(Action::InvalidVoteWithContent.base_point_value(), 100);
    assert_eq!(Action::ValidVote.base_point_value(), 50);
    assert_eq!(Action::InvalidVote.base_point_value(), 50);
    assert_eq!(Action::AbstainVote.base_point_value(), 0);
    assert_eq!(Action::Response.base_point_value(), 150);
    assert_eq!(Action::Report.base_point_value(), 0);
    assert_eq!(Action::Hide.base_point_value(), 0);
}

#[test]
fn exclusive_debates_pair_topics_and_categories() {
    let topics = vec!["taxes".to_string(), "ai".to_string()];
    let cats = vec!["politics".to_string(), "tech".to_string()];
    let ds = exclusive_debates(&topics, &cats).unwrap();
    assert_eq!(ds.len(), 2);
    assert_eq!((ds[1].topic.as_str(), ds[1].category.as_str(), ds[1].score, ds[1].id.as_str()), ("ai", "tech", 0, ""));
    assert!(exclusive_debates(&topics, &vec!["politics".to_string()]).is_none());
    assert_eq!(exclusive_debates(&vec![], &vec![]).unwrap().len(), 0);
}

#[test]
fn votes_tally_once() {
    assert_eq!(tally_vote(&VoteType::Valid(None)), (1, 0, 0));
    assert_eq!(tally_vote(&VoteType::Invalid(Some("spam".into()))), (0, 1, 0));
    assert_eq!(tally_vote(&VoteType::Abstain(None)), (0, 0, 1));
    assert!(matches!(VoteType::from("valid"), VoteType::Valid(None)));
    assert!(matches!(VoteType::from("invalid"), VoteType::Invalid(None)));
    assert!(matches!(VoteType::from("abstain"), VoteType::Abstain(None)));
    assert!(matches!(VoteType::from("VALID"), VoteType::Abstain(None)));
}

#[test]
fn content_attribute_score_values() {
    assert_eq!(content_attribute_score(10, 3, 2, 1), 15);
    assert_eq!(content_attribute_score(10, 3, 2, 0), 10);
    assert_eq!(content_attribute_score(-4, 0, 0, 1), -4);
    assert_eq!(mastery_vocabulary(&Some(vec!["a".into(), "b".into()])), 2);
    assert_eq!(mastery_vocabulary(&None), 0);
    // never lower than the score it starts from, for counts and weights that are not negative
    for (m, i, w) in [(0, 0, 0), (5, 1, 1), (2, 0, 3)] {
        assert!(content_attribute_score(7, m, i, w) >= 7);
    }
}

#[test]
fn error_messages() {
    assert_eq!(SimulationError::LLMError("bad json".into()).message(), "simulation llm error: bad json");
    assert_eq!(SimulationError::Neo4jError("down".into()).message(), "simulation neo4j error: down");
    assert_eq!(SimulationError::SimError("x".into()).message(), "simulation error: x");
    assert_eq!(ApiError::GRPCError("p".into()).message(), "grpc error: p");
    assert_eq!(ApiError::RESTError("q".into()).message(), "rest error: q");
    assert_eq!(PulpError::ApiError(ApiError::RESTError("q".into())).message(), "rest error: q");
    assert_eq!(PulpError::SimulationError(SimulationError::SimError("y".into())).message(), "simulation error: y");
}

#[test]
fn link_pattern_finds_its_matches() {
    assert!(find_links("no links at https://example.com here").unwrap().is_empty());
    let found = find_links("see /www\\aB/igm and /ftp\\xZ/igm").unwrap();
    assert_eq!(found, vec!["/www\\aB/igm".to_string(), "/ftp\\xZ/igm".to_string()]);
    assert!(regex::Regex::new(LINK_PATTERN).is_ok());
}

#[test]
fn link_references_one_per_link() {
    let refs = link_references(&vec!["a".to_string(), "b".to_string()]);
    assert_eq!(refs.len(), 2);
    assert_eq!((refs[0].content.as_str(), refs[1].content.as_str()), ("a", "b"));
    assert!(refs.iter().all(|r| !r.internal && r.id.is_empty() && r.trust == 0 && r.distrust == 0));
}
